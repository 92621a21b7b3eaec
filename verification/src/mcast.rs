//! Turning a received datagram into the line that is decoded.

use crate::text::{trim, trimmed};
use vstd::prelude::*;
use vstd::slice::*;
use vstd::string::*;
use vstd::utf8::*;

verus! {

/// The size of the receive buffer, in bytes. What a datagram holds beyond it
/// is cut off.
pub const RECEIVE_BUFFER_SIZE: usize = 1024;

/// The part of a datagram that the receive buffer takes.
pub open spec fn received(datagram: Seq<u8>) -> Seq<u8> {
    if datagram.len() > RECEIVE_BUFFER_SIZE {
        datagram.take(RECEIVE_BUFFER_SIZE as int)
    } else {
        datagram
    }
}

/// The line that received bytes hold: their text, trimmed, where they are
/// UTF-8; the empty line where they are not.
pub open spec fn line_of(bytes: Seq<u8>) -> Seq<char> {
    if valid_utf8(bytes) {
        trim(decode_utf8(bytes))
    } else {
        Seq::empty()
    }
}

/// Calls `core::str::from_utf8`, which checks that the bytes are valid UTF-8
/// and, if they are, returns them as a string slice; the error it returns
/// otherwise is dropped. The contract claims just that: `Some` exactly for
/// valid UTF-8, and then a text whose bytes are the given bytes.
#[verifier::external_body]
fn utf8_text(bytes: &[u8]) -> (r: Option<&str>)
    ensures
        match r {
            Some(s) => valid_utf8(bytes@) && s.spec_bytes() == bytes@,
            None => !valid_utf8(bytes@),
        },
{
    core::str::from_utf8(bytes).ok()
}

/// The line of a datagram: of a datagram longer than the receive buffer,
/// the line of the part that the buffer takes.
pub fn read_to_string(datagram: &[u8]) -> (line: String)
    ensures
        line@ == line_of(received(datagram@)),
        datagram@.len() > RECEIVE_BUFFER_SIZE ==> line@ == line_of(
            datagram@.take(RECEIVE_BUFFER_SIZE as int),
        ),
{
    let window = if datagram.len() > RECEIVE_BUFFER_SIZE {
        slice_subrange(datagram, 0, RECEIVE_BUFFER_SIZE)
    } else {
        datagram
    };
    match utf8_text(window) {
        Some(s) => {
            proof {
                encode_utf8_decode_utf8(s@);
            }
            trimmed(s).to_owned()
        },
        None => String::new(),
    }
}

} // verus!
