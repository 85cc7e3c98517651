//! Text as the library meets it: bytes to decode, strings to compare and to
//! join.

use vstd::prelude::*;
use vstd::utf8::{decode_utf8, encode_utf8, valid_utf8};

verus! {

/// The message with which `String::from_utf8` turns `bytes` down, where they
/// are not valid UTF-8.
pub uninterp spec fn utf8_complaint(bytes: Seq<u8>) -> Seq<char>;

/// Calls `String::from_utf8`. It succeeds on valid UTF-8 and on nothing
/// else, and the string then holds the characters that the bytes encode.
/// Otherwise the error's message, which depends on the bytes alone, comes
/// back under the name [`utf8_complaint`].
#[verifier::external_body]
pub(crate) fn decode(bytes: Vec<u8>) -> (outcome: Result<String, String>)
    ensures
        match outcome {
            Ok(text) => valid_utf8(bytes@) && text@ == decode_utf8(bytes@),
            Err(why) => !valid_utf8(bytes@) && why@ == utf8_complaint(bytes@),
        },
{
    match String::from_utf8(bytes) {
        Ok(text) => Ok(text),
        Err(e) => Err(e.to_string()),
    }
}

/// `head` followed by `tail`.
pub(crate) fn joined(head: &str, tail: &str) -> (both: String)
    ensures
        both@ == head@ + tail@,
{
    let mut both = String::from_str(head);
    both.append(tail);
    both
}

/// Whether two strings hold the same characters, decided on their UTF-8 bytes.
pub fn same_text(a: &str, b: &str) -> (same: bool)
    ensures
        same == (a@ == b@),
{
    let x = a.as_bytes();
    let y = b.as_bytes();
    proof {
        vstd::utf8::encode_utf8_decode_utf8(a@);
        vstd::utf8::encode_utf8_decode_utf8(b@);
    }
    if x.len() != y.len() {
        return false;
    }
    let mut i: usize = 0;
    while i < x.len()
        invariant
            i <= x.len(),
            x.len() == y.len(),
            x@ == encode_utf8(a@),
            y@ == encode_utf8(b@),
            forall|j: int| 0 <= j < i ==> x@[j] == y@[j],
        decreases x.len() - i,
    {
        if x[i] != y[i] {
            return false;
        }
        i += 1;
    }
    assert(x@ =~= y@);
    true
}

} // verus!
