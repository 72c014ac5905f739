//! String helpers that the rest of the library builds on.

use vstd::prelude::*;

verus! {

/// What `str::trim` returns for a text: the text without its leading and
/// trailing Unicode white space.
pub uninterp spec fn trimmed(text: Seq<char>) -> Seq<char>;

/// What `str::to_lowercase` returns for a text: its Unicode lowercase form.
pub uninterp spec fn lowercase_of(text: Seq<char>) -> Seq<char>;

/// Whether `c` is one of the ASCII letters.
pub open spec fn is_ascii_letter(c: char) -> bool {
    ('a' <= c && c <= 'z') || ('A' <= c && c <= 'Z')
}

/// Whether two characters are equal once the case of ASCII letters is ignored.
pub open spec fn chars_match_ignoring_ascii_case(a: char, b: char) -> bool {
    a == b || (is_ascii_letter(a) && is_ascii_letter(b) && (a as u32 == b as u32 + 32 || b as u32
        == a as u32 + 32))
}

/// Whether two texts are equal once the case of ASCII letters is ignored.
pub open spec fn match_ignoring_ascii_case(a: Seq<char>, b: Seq<char>) -> bool {
    a.len() == b.len() && forall|i: int|
        0 <= i < a.len() ==> chars_match_ignoring_ascii_case(#[trigger] a[i], b[i])
}

/// Calls `==` on two string slices. Trusted: the result says whether both
/// hold the same characters.
#[verifier::external_body]
pub(crate) fn same_text(a: &str, b: &str) -> (same: bool)
    ensures
        same == (a@ == b@),
{
    a == b
}

/// Calls `str::trim`. Trusted: the result is the value named `trimmed`.
#[verifier::external_body]
pub(crate) fn trim(text: &str) -> (inner: &str)
    ensures
        inner@ == trimmed(text@),
{
    text.trim()
}

/// Calls `str::to_lowercase`. Trusted: the result is the value named
/// `lowercase_of`.
#[verifier::external_body]
pub(crate) fn to_lowercase(text: &str) -> (lower: String)
    ensures
        lower@ == lowercase_of(text@),
{
    text.to_lowercase()
}

/// Calls `str::eq_ignore_ascii_case`. Trusted: the result says whether the two
/// texts have the same length and match character by character, where an
/// ASCII letter matches itself in either case.
#[verifier::external_body]
pub(crate) fn eq_ignore_ascii_case(a: &str, b: &str) -> (same: bool)
    ensures
        same == match_ignoring_ascii_case(a@, b@),
{
    a.eq_ignore_ascii_case(b)
}

} // verus!
