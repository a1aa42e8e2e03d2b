//! Decoding of UTF-16 text.
//!
//! Decoding is left to the standard library. What it yields for a given
//! sequence of code units has a name here, so that contracts can say which
//! units a description was decoded from.

use vstd::prelude::*;

verus! {

/// The text that a sequence of UTF-16 code units encodes, as
/// `String::from_utf16` decodes it; `None` where the sequence is not
/// well-formed UTF-16.
pub uninterp spec fn utf16_text(units: Seq<u16>) -> Option<Seq<char>>;

/// The characters of an optional string.
pub open spec fn text_of(text: Option<String>) -> Option<Seq<char>> {
    match text {
        Some(s) => Some(s@),
        None => None,
    }
}

/// Decodes UTF-16 code units with `String::from_utf16`.
///
/// Not proved: that the outcome depends on the code units alone, which is what
/// giving it the name `utf16_text` claims. A decoding error becomes `None`.
#[verifier::external_body]
pub(crate) fn decode_utf16(units: &[u16]) -> (text: Option<String>)
    ensures
        text_of(text) == utf16_text(units@),
{
    String::from_utf16(units).ok()
}

} // verus!
