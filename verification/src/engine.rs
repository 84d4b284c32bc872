//! The values by which the capture engine reports how a call went, and the
//! reading of the bytes it hands out as text.

use vstd::prelude::*;
use vstd::string::StringSliceAdditionalSpecFns;
use vstd::utf8::{decode_utf8, encode_utf8_decode_utf8, valid_utf8};

verus! {

/// The status code that stands for success; every other code is a failure.
pub const RESULT_OK: u32 = 0;

/// The channel id that the engine hands out where it could not open one.
pub const INVALID_STREAM: i32 = -1;

/// The engine's answer to "is there a new frame?" where there is one.
pub const FRAME_READY: u32 = 1;

/// Whether a status code reports success.
pub fn succeeded(status: u32) -> (ok: bool)
    ensures
        ok == (status == RESULT_OK),
{
    status == RESULT_OK
}

/// The text that a run of bytes from the engine holds: the bytes decoded
/// where they are valid UTF-8, nothing where they are not.
pub fn text(bytes: &[u8]) -> (text: Option<String>)
    ensures
        text is Some <==> valid_utf8(bytes@),
        text matches Some(t) ==> t@ == decode_utf8(bytes@),
{
    match text_of_bytes(bytes) {
        Some(s) => {
            proof {
                encode_utf8_decode_utf8(s@);
            }
            Some(s.to_owned())
        },
        None => None,
    }
}

/// `std::str::from_utf8`: the string slice over the given bytes where they
/// are valid UTF-8, nothing where they are not.
#[verifier::external_body]
fn text_of_bytes(bytes: &[u8]) -> (text: Option<&str>)
    ensures
        text is Some <==> valid_utf8(bytes@),
        text matches Some(s) ==> s.spec_bytes() == bytes@,
{
    match std::str::from_utf8(bytes) {
        Ok(s) => Some(s),
        Err(_) => None,
    }
}

} // verus!
