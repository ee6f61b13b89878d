//! How the external transcoder is started.
//!
//! The transcoder is a program of its own. It takes the elementary stream on
//! its input and writes media segments and a rolling playlist below the
//! session's directory. It gets its input in one of two ways: through a pipe
//! on its standard input, or through a socket on the loopback interface.

use crate::rtp::{digit_text, digit_char};
use vstd::prelude::*;
use vstd::string::*;

verus! {

/// The program that transcodes.
pub const PROGRAM: &'static str = "ffmpeg";

/// The two ways in which a session feeds its transcoder.
#[derive(Clone, Copy, Debug, PartialEq, Eq, Structural)]
pub enum Transport {
    /// The session writes to the transcoder's standard input.
    DirectPipe,
    /// The session binds a port on the loopback interface, starts the
    /// transcoder with that port as its input, and relays over a connection
    /// to it.
    LoopbackSocket,
}

/// Where a transcoder reads its input from.
#[derive(Clone, Copy, Debug, PartialEq, Eq, Structural)]
pub enum TranscoderInput {
    /// Its standard input.
    Pipe,
    /// The given port on the loopback interface.
    Loopback(u16),
}

/// A number in decimal.
pub open spec fn decimal(n: nat) -> Seq<char>
    decreases n,
{
    if n < 10 {
        seq![digit_char(n as int)]
    } else {
        decimal(n / 10) + seq![digit_char((n % 10) as int)]
    }
}

/// The input as the transcoder is told of it.
pub open spec fn input_url(input: TranscoderInput) -> Seq<char> {
    match input {
        TranscoderInput::Pipe => "pipe:"@,
        TranscoderInput::Loopback(port) => "tcp://127.0.0.1:"@ + decimal(port as nat),
    }
}

/// The directory that holds a session's media segments.
pub open spec fn streams_directory(device_id: Seq<char>) -> Seq<char> {
    device_id + "/streams"@
}

/// The arguments with which the transcoder is started for a session: raw
/// H.264 in, copied without re-encoding into segments of six seconds that
/// are named by their time, with a playlist of the last ten that deletes
/// what falls out of it.
pub open spec fn transcoder_arguments(device_id: Seq<char>, input: TranscoderInput) -> Seq<
    Seq<char>,
> {
    seq![
        "-hide_banner"@,
        "-loglevel"@,
        "error"@,
        "-re"@,
        "-f"@,
        "h264"@,
        "-i"@,
        input_url(input),
        "-c"@,
        "copy"@,
        "-preset:v"@,
        "fast"@,
        "-strftime"@,
        "1"@,
        "-hls_init_time"@,
        "1"@,
        "-hls_time"@,
        "6"@,
        "-hls_segment_filename"@,
        device_id + "/streams/%Y-%m-%d_%H-%M-%S.ts"@,
        "-hls_list_size"@,
        "10"@,
        "-hls_flags"@,
        "delete_segments"@,
        "-f"@,
        "hls"@,
        device_id + "/playlist.m3u8"@,
    ]
}

/// Writes a port number in decimal.
pub fn decimal_text(n: u16) -> (r: String)
    ensures
        r@ == decimal(n as nat),
    decreases n,
{
    if n < 10 {
        digit_text(n as u8).to_string()
    } else {
        let mut text: String = decimal_text(n / 10);
        text.append(digit_text((n % 10) as u8));
        text
    }
}

/// The path of the directory that holds a session's media segments.
pub fn streams_path(device_id: &str) -> (r: String)
    ensures
        r@ == streams_directory(device_id@),
{
    let mut path: String = device_id.to_string();
    path.append("/streams");
    path
}

/// The input as the transcoder is told of it.
pub fn input_text(input: TranscoderInput) -> (r: String)
    ensures
        r@ == input_url(input),
{
    match input {
        TranscoderInput::Pipe => "pipe:".to_string(),
        TranscoderInput::Loopback(port) => {
            let mut url: String = "tcp://127.0.0.1:".to_string();
            let digits: String = decimal_text(port);
            url.append(digits.as_str());
            url
        },
    }
}

/// The arguments with which the transcoder is started for a session.
pub fn arguments(device_id: &str, input: TranscoderInput) -> (r: Vec<String>)
    ensures
        r.deep_view() == transcoder_arguments(device_id@, input),
{
    let mut segments: String = device_id.to_string();
    segments.append("/streams/%Y-%m-%d_%H-%M-%S.ts");
    let mut playlist: String = device_id.to_string();
    playlist.append("/playlist.m3u8");

    let mut list: Vec<String> = Vec::new();
    list.push("-hide_banner".to_string());
    list.push("-loglevel".to_string());
    list.push("error".to_string());
    list.push("-re".to_string());
    list.push("-f".to_string());
    list.push("h264".to_string());
    list.push("-i".to_string());
    list.push(input_text(input));
    list.push("-c".to_string());
    list.push("copy".to_string());
    list.push("-preset:v".to_string());
    list.push("fast".to_string());
    list.push("-strftime".to_string());
    list.push("1".to_string());
    list.push("-hls_init_time".to_string());
    list.push("1".to_string());
    list.push("-hls_time".to_string());
    list.push("6".to_string());
    list.push("-hls_segment_filename".to_string());
    list.push(segments);
    list.push("-hls_list_size".to_string());
    list.push("10".to_string());
    list.push("-hls_flags".to_string());
    list.push("delete_segments".to_string());
    list.push("-f".to_string());
    list.push("hls".to_string());
    list.push(playlist);
    proof {
        assert(list.deep_view() =~= transcoder_arguments(device_id@, input));
    }
    list
}

} // verus!
