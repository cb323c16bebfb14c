//! Decoding of textual property values.

use vstd::prelude::*;
use vstd::utf8::*;

verus! {

/// The byte that ends a property value.
pub const TERMINATOR: u8 = 0;

/// The text that a property value holds.
///
/// A value is its text in UTF-8 followed by one terminator. Exactly that one
/// byte is taken off the end; what remains must be valid UTF-8 in full and is
/// decoded without loss. Anything else holds no text.
pub open spec fn terminated_text(bytes: Seq<u8>) -> Option<Seq<char>> {
    if bytes.len() >= 1 && bytes.last() == TERMINATOR && valid_utf8(bytes.drop_last()) {
        Some(decode_utf8(bytes.drop_last()))
    } else {
        None
    }
}

/// `String::from_utf8` of std, with its error dropped: the bytes become a
/// string exactly when they are valid UTF-8, and the string then holds the
/// characters that the bytes encode.
#[verifier::external_body]
fn string_from_utf8(bytes: Vec<u8>) -> (text: Option<String>)
    ensures
        text is Some <==> valid_utf8(bytes@),
        text matches Some(s) ==> s@ == decode_utf8(bytes@),
{
    match String::from_utf8(bytes) {
        Ok(s) => Some(s),
        Err(_) => None,
    }
}

/// Decodes a property value: strips its terminator and reads the rest as
/// UTF-8.
pub fn decode_property_value(bytes: Vec<u8>) -> (text: Option<String>)
    ensures
        text is Some <==> terminated_text(bytes@) is Some,
        text matches Some(s) ==> Some(s@) == terminated_text(bytes@),
{
    let len: usize = bytes.len();
    if len == 0 {
        return None;
    }
    if bytes[len - 1] != TERMINATOR {
        return None;
    }
    let mut body = bytes;
    body.truncate(len - 1);
    assert(body@ =~= bytes@.drop_last());
    string_from_utf8(body)
}

/// A value of `L` bytes that ends in the terminator and is valid UTF-8 before
/// it decodes to a text whose encoding is the first `L - 1` bytes.
pub proof fn terminated_text_keeps_all_but_terminator(bytes: Seq<u8>)
    requires
        bytes.len() >= 1,
        bytes.last() == TERMINATOR,
        valid_utf8(bytes.drop_last()),
    ensures
        terminated_text(bytes) matches Some(text) && encode_utf8(text) == bytes.drop_last()
            && encode_utf8(text).len() == bytes.len() - 1,
{
    decode_utf8_encode_utf8(bytes.drop_last());
}

/// Invalid UTF-8 before the terminator, a missing terminator, or an empty
/// value never yields text.
pub proof fn terminated_text_rejects_malformed(bytes: Seq<u8>)
    ensures
        bytes.len() == 0 ==> terminated_text(bytes) is None,
        bytes.len() >= 1 && bytes.last() != TERMINATOR ==> terminated_text(bytes) is None,
        bytes.len() >= 1 && !valid_utf8(bytes.drop_last()) ==> terminated_text(bytes) is None,
{
}

} // verus!
