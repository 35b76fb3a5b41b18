//! Text primitives shared by the other modules, stated over sequences of
//! characters.

use vstd::prelude::*;
use vstd::utf8::is_ascii_chars;

verus! {

/// `pat` occurs in `text` as a contiguous block of characters.
pub open spec fn is_substring(pat: Seq<char>, text: Seq<char>) -> bool {
    exists|i: int|
        0 <= i && i + pat.len() <= text.len() && #[trigger] text.subrange(i, i + pat.len()) == pat
}

/// The lowercase form of one ASCII character; any other character is kept.
pub open spec fn ascii_lower_char(c: char) -> char {
    if 'A' <= c && c <= 'Z' {
        ((c as u8) + 32) as char
    } else {
        c
    }
}

/// What `str::to_lowercase` returns for a string with these characters.
pub uninterp spec fn unicode_lowercase(s: Seq<char>) -> Seq<char>;

/// The lowercase form of a string. On ASCII text it is the text with each
/// capital letter replaced by its small letter; beyond ASCII it is whatever
/// the Unicode tables give.
pub open spec fn lowercase(s: Seq<char>) -> Seq<char> {
    if is_ascii_chars(s) {
        s.map_values(|c: char| ascii_lower_char(c))
    } else {
        unicode_lowercase(s)
    }
}

/// The view of an optional string.
pub open spec fn opt_view(o: Option<String>) -> Option<Seq<char>> {
    match o {
        Some(s) => Some(s@),
        None => None,
    }
}

/// `str::contains` with a string pattern: true exactly when the pattern
/// matches some sub-slice of the text.
#[verifier::external_body]
pub(crate) fn str_contains(text: &str, pat: &str) -> (r: bool)
    ensures
        r == is_substring(pat@, text@),
{
    text.contains(pat)
}

/// `str::starts_with` with a string pattern: true exactly when the pattern
/// matches a prefix of the text.
#[verifier::external_body]
pub(crate) fn str_starts_with(text: &str, pat: &str) -> (r: bool)
    ensures
        r == pat@.is_prefix_of(text@),
{
    text.starts_with(pat)
}

/// `str::to_lowercase`: the lowercase equivalent of the text as a new
/// string. Only its effect on ASCII text is spelled out.
#[verifier::external_body]
pub(crate) fn str_to_lowercase(text: &str) -> (r: String)
    ensures
        r@ == unicode_lowercase(text@),
        is_ascii_chars(text@) ==> r@ == text@.map_values(|c: char| ascii_lower_char(c)),
{
    text.to_lowercase()
}

} // verus!
