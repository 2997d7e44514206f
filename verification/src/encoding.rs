//! Bytes as text, and letter case: what the standard library decides.

use vstd::prelude::*;
use vstd::utf8::*;

verus! {

/// What `String::from_utf8_lossy` reads from bytes.
pub uninterp spec fn utf8_lossy(bytes: Seq<u8>) -> Seq<char>;

/// What `str::to_lowercase` gives.
pub uninterp spec fn lowercase(text: Seq<char>) -> Seq<char>;

/// The lower case of an ASCII character.
pub open spec fn ascii_lowercase(c: char) -> char {
    if 'A' <= c <= 'Z' {
        (c as u32 + 32) as char
    } else {
        c
    }
}

/// The lower case of ASCII text. Other characters stay as they are.
pub open spec fn ascii_lower(text: Seq<char>) -> Seq<char> {
    text.map_values(|c: char| ascii_lowercase(c))
}

/// `String::from_utf8`: gives a text exactly where the bytes are valid UTF-8,
/// and then the one that they encode.
#[verifier::external_body]
pub(crate) fn utf8_text(bytes: Vec<u8>) -> (text: Option<String>)
    ensures
        text is Some <==> valid_utf8(bytes@),
        text matches Some(t) ==> t@ == decode_utf8(bytes@),
{
    String::from_utf8(bytes).ok()
}

/// `String::from_utf8_lossy`: always gives a text, which depends on the bytes
/// alone, and which is the encoded one where the bytes are valid UTF-8. What
/// stands for invalid bytes is left to the standard library.
#[verifier::external_body]
pub(crate) fn lossy_text(bytes: &[u8]) -> (text: String)
    ensures
        text@ == utf8_lossy(bytes@),
        valid_utf8(bytes@) ==> text@ == decode_utf8(bytes@),
{
    String::from_utf8_lossy(bytes).into_owned()
}

/// `str::to_lowercase`: depends on the text alone. ASCII text stays as it is,
/// but for its capital letters; other letters follow the Unicode tables.
#[verifier::external_body]
pub(crate) fn lowercase_text(text: &str) -> (lower: String)
    ensures
        lower@ == lowercase(text@),
        is_ascii_chars(text@) ==> lower@ == ascii_lower(text@),
{
    text.to_lowercase()
}

} // verus!
