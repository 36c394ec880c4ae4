//! The decoding of text.

use vstd::prelude::*;
use vstd::utf8::{decode_utf8, valid_utf8};

verus! {

/// The text that the bytes encode in UTF-8, if they encode any.
pub open spec fn text_of(bytes: Seq<u8>) -> Option<Seq<char>> {
    if valid_utf8(bytes) {
        Some(decode_utf8(bytes))
    } else {
        None
    }
}

/// Return the text that the bytes encode in UTF-8, if they encode any.
///
/// This is `String::from_utf8` of the standard library, which is taken on
/// trust: it gives an error exactly when the bytes are not valid UTF-8, and
/// otherwise the string whose encoding the bytes are.
#[verifier::external_body]
pub(crate) fn decode(bytes: &Vec<u8>) -> (text: Option<String>)
    ensures
        match text {
            Some(text) => text_of(bytes@) == Some(text@),
            None => text_of(bytes@) is None,
        },
{
    String::from_utf8(bytes.clone()).ok()
}

} // verus!
