//! The frame reader: the decode loop of one connection as a state machine.
//!
//! The reader never touches a socket. Its caller reads bytes and pushes them
//! in, says when the stream has ended, and asks what to do next: read more,
//! hand a packet on, report a malformed header, or stop. After a malformed
//! header the reader goes on behind the sixteen bytes of its fixed layout; it
//! does not search for the next magic constant.

use crate::error::{DecodeError, FrameError, HeaderField, Reason};
use crate::helper::get_num_at;
use crate::rtp::{
    be32,
    decode_header,
    decode_packet,
    fixed_fault,
    header_length,
    lemma_frame_ignores_rest,
    lemma_payload_length,
    lemma_trailing_layout,
    RtpHeader,
    RtpPacket,
    FIXED_LENGTH,
    HEADER_ID,
};
use vstd::prelude::*;

verus! {

/// Why no more bytes will be read from a connection.
#[derive(Clone, Copy, Debug, PartialEq, Eq, Structural)]
pub enum Halt {
    /// The peer has closed the connection.
    PeerClosed,
    /// Reading from the connection failed.
    TransportFailed,
    /// The session no longer takes packets.
    QueueClosed,
}

/// How a decode loop ended.
#[derive(Clone, Copy, Debug, PartialEq, Eq, Structural)]
pub enum Ending {
    /// The peer closed the connection between two frames. This is no fault.
    ConnectionClosed,
    /// The peer closed the connection in the middle of a frame.
    Truncated,
    /// Reading from the connection failed.
    TransportFailed,
    /// The session no longer takes packets.
    QueueClosed,
}

/// What the caller of a frame reader does next.
#[derive(Debug, PartialEq, Eq)]
pub enum Step {
    /// Read this many bytes from the connection and push them in.
    Read(usize),
    /// Hand this packet to the session.
    Deliver(RtpPacket),
    /// Log this malformed header and go on.
    Report(DecodeError),
    /// Leave the loop.
    Stop(Ending),
}

/// The number of bytes that are missing before the front of `bytes` is a
/// whole frame or a malformed header: the rest of the fixed layout, then the
/// rest of the trailing layout, then the rest of the payload.
pub open spec fn missing(bytes: Seq<u8>) -> nat {
    if bytes.len() < FIXED_LENGTH {
        (FIXED_LENGTH - bytes.len()) as nat
    } else if fixed_fault(bytes) is Some {
        0
    } else if bytes.len() < header_length(bytes) {
        (header_length(bytes) - bytes.len()) as nat
    } else {
        let end = header_length(bytes) + decode_header(bytes)->Ok_0.0.data_body_length;
        if bytes.len() < end {
            (end - bytes.len()) as nat
        } else {
            0
        }
    }
}

/// A frame reader as a mathematical value.
pub struct ReaderView {
    /// The bytes that were pushed in and belong to no frame yet.
    pub pending: Seq<u8>,
    /// Why no more bytes will come, once that is so.
    pub halted: Option<Halt>,
}

/// What a reader in state `reader` tells its caller to do.
pub open spec fn next_step(reader: ReaderView) -> StepView {
    if reader.halted == Some(Halt::QueueClosed) {
        StepView::Stop(Ending::QueueClosed)
    } else {
        match decode_packet(reader.pending) {
            Ok((packet, _)) => StepView::Deliver(packet),
            Err(FrameError::Protocol(e)) => StepView::Report(e),
            Err(FrameError::Truncated) => match reader.halted {
                None => StepView::Read(missing(reader.pending)),
                Some(Halt::TransportFailed) => StepView::Stop(Ending::TransportFailed),
                Some(_) => StepView::Stop(Ending::Truncated),
            },
            Err(FrameError::ConnectionClosed) => match reader.halted {
                None => StepView::Read(missing(reader.pending)),
                Some(Halt::TransportFailed) => StepView::Stop(Ending::TransportFailed),
                Some(_) => StepView::Stop(Ending::ConnectionClosed),
            },
        }
    }
}

/// The bytes that a reader in state `reader` still holds after its step: a
/// delivered frame and the fixed layout of a reported header are gone.
pub open spec fn pending_after(reader: ReaderView) -> Seq<u8> {
    if reader.halted == Some(Halt::QueueClosed) {
        reader.pending
    } else {
        match decode_packet(reader.pending) {
            Ok((_, used)) => reader.pending.skip(used as int),
            Err(FrameError::Protocol(_)) => reader.pending.skip(FIXED_LENGTH as int),
            Err(_) => reader.pending,
        }
    }
}

/// A step as a mathematical value.
pub enum StepView {
    Read(nat),
    Deliver(crate::rtp::PacketView),
    Report(DecodeError),
    Stop(Ending),
}

impl View for Step {
    type V = StepView;

    open spec fn view(&self) -> StepView {
        match self {
            Step::Read(n) => StepView::Read(*n as nat),
            Step::Deliver(packet) => StepView::Deliver(packet@),
            Step::Report(e) => StepView::Report(*e),
            Step::Stop(ending) => StepView::Stop(*ending),
        }
    }
}

/// The decode loop of one connection.
pub struct FrameReader {
    pending: Vec<u8>,
    halted: Option<Halt>,
}

impl View for FrameReader {
    type V = ReaderView;

    closed spec fn view(&self) -> ReaderView {
        ReaderView { pending: self.pending@, halted: self.halted }
    }
}

impl FrameReader {
    /// A reader at the start of a stream.
    pub fn new() -> (r: Self)
        ensures
            r@.pending == Seq::<u8>::empty(),
            r@.halted is None,
    {
        FrameReader { pending: Vec::new(), halted: None }
    }

    /// Takes in bytes that were read from the connection, in stream order.
    pub fn push(&mut self, chunk: &[u8])
        ensures
            final(self)@.pending == old(self)@.pending + chunk@,
            final(self)@.halted == old(self)@.halted,
    {
        self.pending.extend_from_slice(chunk);
    }

    /// Notes that no more bytes will be read, and why. The first reason
    /// stays; a closed queue overrides it, since it stops the loop at once.
    pub fn halt(&mut self, cause: Halt)
        ensures
            final(self)@.pending == old(self)@.pending,
            final(self)@.halted == (if old(self)@.halted is None || cause == Halt::QueueClosed {
                Some(cause)
            } else {
                old(self)@.halted
            }),
    {
        match cause {
            Halt::QueueClosed => {
                self.halted = Some(cause);
            },
            _ => {
                if self.halted.is_none() {
                    self.halted = Some(cause);
                }
            },
        }
    }

    /// The number of bytes that are missing before the next frame or
    /// malformed header is complete.
    pub fn wanted(&self) -> (n: usize)
        ensures
            n == missing(self@.pending),
    {
        let have: usize = self.pending.len();
        if have < FIXED_LENGTH {
            return FIXED_LENGTH - have;
        }
        match RtpHeader::parse(self.pending.as_slice()) {
            Ok((header, start)) => {
                proof {
                    lemma_trailing_layout(self.pending@);
                }
                if have - start < header.data_body_length {
                    header.data_body_length - (have - start)
                } else {
                    0
                }
            },
            Err(FrameError::Protocol(_)) => 0,
            Err(_) => {
                let trailing: usize = match get_num_at(self.pending[15], 7, 4) {
                    Ok(code) => match RtpHeader::get_remaining_data_length(code) {
                        Ok(length) => length,
                        Err(_) => 0,
                    },
                    Err(_) => 0,
                };
                FIXED_LENGTH + trailing - have
            },
        }
    }

    /// Says what to do next, and drops from the pending bytes what the step
    /// has used up.
    ///
    /// While the pending bytes hold a whole frame, it is delivered; while
    /// they start with a malformed header, that is reported. Otherwise the
    /// reader asks for the bytes that are missing, or, once no more will
    /// come, stops: quietly if the stream ended between two frames.
    pub fn step(&mut self) -> (r: Step)
        ensures
            r@ == next_step(old(self)@),
            final(self)@.pending == pending_after(old(self)@),
            final(self)@.halted == old(self)@.halted,
    {
        if let Some(Halt::QueueClosed) = self.halted {
            return Step::Stop(Ending::QueueClosed);
        }
        match RtpPacket::parse(self.pending.as_slice()) {
            Ok((packet, used)) => {
                proof {
                    lemma_payload_length(self.pending@);
                }
                let rest = self.pending.split_off(used);
                self.pending = rest;
                Step::Deliver(packet)
            },
            Err(FrameError::Protocol(e)) => {
                let rest = self.pending.split_off(FIXED_LENGTH);
                self.pending = rest;
                Step::Report(e)
            },
            Err(FrameError::Truncated) => match self.halted {
                None => Step::Read(self.wanted()),
                Some(Halt::TransportFailed) => Step::Stop(Ending::TransportFailed),
                Some(_) => Step::Stop(Ending::Truncated),
            },
            Err(FrameError::ConnectionClosed) => match self.halted {
                None => Step::Read(self.wanted()),
                Some(Halt::TransportFailed) => Step::Stop(Ending::TransportFailed),
                Some(_) => Step::Stop(Ending::ConnectionClosed),
            },
        }
    }
}

/// A reader asks for bytes only while some are missing, and then for at
/// least one: its caller never spins on an empty read.
pub proof fn lemma_read_asks_for_something(reader: ReaderView)
    ensures
        next_step(reader) matches StepView::Read(n) ==> n >= 1 && n == missing(reader.pending)
            && reader.halted is None && pending_after(reader) == reader.pending,
{
    if next_step(reader) is Read {
        if reader.pending.len() >= FIXED_LENGTH && fixed_fault(reader.pending) is None
            && reader.pending.len() >= header_length(reader.pending) {
            lemma_trailing_layout(reader.pending);
        }
    }
}

/// A wrong magic constant at the start of a frame is reported as a protocol
/// error, wherever in the stream the frame stands and whatever follows it.
/// It does not stop the loop: the reader drops the sixteen bytes of the
/// fixed layout and goes on.
pub proof fn lemma_bad_magic_is_reported(reader: ReaderView)
    requires
        reader.pending.len() >= FIXED_LENGTH,
        be32(reader.pending) != HEADER_ID,
        reader.halted != Some(Halt::QueueClosed),
    ensures
        next_step(reader) == StepView::Report(
            DecodeError::Field { field: HeaderField::HeaderId, reason: Reason::BadMagic },
        ),
        pending_after(reader) == reader.pending.skip(FIXED_LENGTH as int),
{
}

/// No malformed header stops the loop: as long as the session takes
/// packets, each is reported and the reader goes on.
pub proof fn lemma_protocol_errors_do_not_stop(reader: ReaderView)
    requires
        reader.halted != Some(Halt::QueueClosed),
    ensures
        decode_packet(reader.pending) matches Err(FrameError::Protocol(e)) ==> next_step(reader)
            == StepView::Report(e),
        next_step(reader) is Stop ==> reader.halted is Some && !(decode_packet(reader.pending)
            is Ok) && !(decode_packet(reader.pending) matches Err(FrameError::Protocol(_))),
        next_step(reader) == StepView::Stop(Ending::ConnectionClosed) <==> reader.halted == Some(
            Halt::PeerClosed,
        ) && reader.pending.len() == 0,
{
}

/// Bytes that come later do not change a step that can be taken now: a
/// frame is delivered, and a malformed header reported, as it would be with
/// more of the stream at hand, and what is left behind is the same but for
/// those bytes. So the frames that come out of a stream do not depend on how
/// the stream is cut into chunks.
pub proof fn lemma_later_bytes_change_no_step(reader: ReaderView, more: Seq<u8>)
    requires
        next_step(reader) is Deliver || next_step(reader) is Report,
    ensures
        next_step(ReaderView { pending: reader.pending + more, halted: reader.halted })
            == next_step(reader),
        pending_after(ReaderView { pending: reader.pending + more, halted: reader.halted })
            == pending_after(reader) + more,
{
    lemma_frame_ignores_rest(reader.pending, more);
    if decode_packet(reader.pending) is Ok {
        lemma_payload_length(reader.pending);
    }
}

/// A reader reads frame by frame. If its caller reads exactly as many bytes
/// as it asks for, the reader never holds a byte of a later frame: when the
/// bytes it has make up a frame or a malformed header, the step that
/// delivers or reports it leaves nothing behind.
pub proof fn lemma_reads_stay_within_the_frame(bytes: Seq<u8>, chunk: Seq<u8>)
    requires
        missing(bytes) > 0,
        chunk.len() == missing(bytes),
    ensures
        decode_packet(bytes + chunk) matches Ok((_, used)) ==> used == (bytes + chunk).len(),
        decode_packet(bytes + chunk) matches Err(FrameError::Protocol(_)) ==> (bytes
            + chunk).len() == FIXED_LENGTH,
        !(decode_packet(bytes + chunk) is Ok) && !(decode_packet(bytes + chunk) matches Err(
            FrameError::Protocol(_),
        )) ==> missing(bytes + chunk) > 0,
{
    let all = bytes + chunk;
    if bytes.len() >= FIXED_LENGTH {
        assert(fixed_fault(all) == fixed_fault(bytes));
        if decode_header(all) is Ok {
            lemma_trailing_layout(all);
        }
    }
}

} // verus!
