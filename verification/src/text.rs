//! Names on their way from the kernel, which has bytes, to the server, which
//! takes text.
//!
//! A name travels as UTF-8 text. A name that is not UTF-8 never reaches the
//! server: the callback that brought it fails with an invalid-argument error.

use vstd::prelude::*;
use vstd::utf8::{decode_utf8, encode_utf8, valid_utf8};

verus! {

/// The text that `raw` spells, if it is UTF-8.
pub open spec fn text_of(raw: Seq<u8>) -> Option<Seq<char>> {
    if valid_utf8(raw) {
        Some(decode_utf8(raw))
    } else {
        None
    }
}

/// `std::str::from_utf8`, with its error dropped: the bytes are returned as a
/// string slice exactly when they are valid UTF-8, and the slice then consists
/// of the very same bytes.
#[verifier::external_body]
fn str_from_utf8(raw: &[u8]) -> (text: Option<&str>)
    ensures
        text is Some <==> valid_utf8(raw@),
        text matches Some(s) ==> encode_utf8(s@) == raw@,
{
    std::str::from_utf8(raw).ok()
}

/// Reads `raw` as text.
pub fn decode_text(raw: &[u8]) -> (text: Option<String>)
    ensures
        match text_of(raw@) {
            Some(t) => text matches Some(s) && s@ == t,
            None => text is None,
        },
{
    match str_from_utf8(raw) {
        Some(s) => {
            proof {
                vstd::utf8::encode_utf8_decode_utf8(s@);
            }
            Some(s.to_owned())
        },
        None => None,
    }
}

} // verus!
