//! Host log lines for what a guest wrote to its standard streams.
//!
//! The streams are drained after each entry-point call; the drained bytes are
//! decoded as UTF-8 and logged with a tag naming the stream.

use vstd::prelude::*;
use vstd::string::StringExecFns;
use vstd::utf8::{valid_utf8, decode_utf8};

verus! {

/// A standard stream of the guest.
#[derive(Clone, Copy, Debug, PartialEq, Eq, Structural)]
pub enum StdStream {
    Stdout,
    Stderr,
}

/// The tag that starts each log line for `s`.
pub open spec fn stream_tag(s: StdStream) -> Seq<char> {
    match s {
        StdStream::Stdout => "[WASM STDOUT]: "@,
        StdStream::Stderr => "[WASM STDERR]: "@,
    }
}

impl StdStream {
    /// The tag that starts each log line for this stream.
    pub fn tag(&self) -> (r: &'static str)
        ensures
            r@ == stream_tag(*self),
    {
        match self {
            StdStream::Stdout => "[WASM STDOUT]: ",
            StdStream::Stderr => "[WASM STDERR]: ",
        }
    }
}

/// Relies on String::from_utf8: it succeeds exactly on valid UTF-8, and the
/// string then holds the characters those bytes encode.
#[verifier::external_body]
fn utf8_string(bytes: Vec<u8>) -> (r: Option<String>)
    ensures
        r is Some <==> valid_utf8(bytes@),
        r matches Some(s) ==> s@ == decode_utf8(bytes@),
{
    String::from_utf8(bytes).ok()
}

/// The text of captured output: its characters when it is valid UTF-8,
/// otherwise nothing.
pub fn captured_text(bytes: Vec<u8>) -> (r: String)
    ensures
        valid_utf8(bytes@) ==> r@ == decode_utf8(bytes@),
        !valid_utf8(bytes@) ==> r@.len() == 0,
{
    match utf8_string(bytes) {
        Some(s) => s,
        None => String::new(),
    }
}

/// The log line for the bytes drained from `stream`: the stream's tag
/// followed by exactly the text the guest wrote. There is no line when the
/// guest wrote nothing, or wrote bytes that are not UTF-8.
pub fn captured_log_line(stream: StdStream, bytes: Vec<u8>) -> (r: Option<String>)
    ensures
        bytes@.len() > 0 && valid_utf8(bytes@) ==> (r matches Some(line) && line@ == stream_tag(
            stream,
        ) + decode_utf8(bytes@)),
        !(bytes@.len() > 0 && valid_utf8(bytes@)) ==> r is None,
{
    if bytes.len() == 0 {
        return None;
    }
    match utf8_string(bytes) {
        Some(text) => {
            let mut line = String::from_str(stream.tag());
            line.append(text.as_str());
            Some(line)
        },
        None => None,
    }
}

} // verus!
