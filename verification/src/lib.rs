//! Decoder and session logic for a JT1078-style video transport.
//!
//! Field devices send framed packets over TCP. Each frame is a bit-packed
//! header followed by a slice of an elementary stream. This library holds the
//! parts of such a server that decide and compute: the bit-field extractor,
//! the header decoder, the frame reader that says how many bytes to read next,
//! and the per-connection session that drives an external transcoder. Socket,
//! process and file-system work is left to the caller, which performs the
//! actions the library hands out and reports back what happened.

pub mod error;
pub mod helper;
pub mod processor;
pub mod reader;
pub mod rtp;
pub mod transcoder;
