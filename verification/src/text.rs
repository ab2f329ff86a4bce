//! Small helpers on text.

use vstd::prelude::*;

verus! {

/// The text that `{:?}` prints for a string: the string between double
/// quotes, with quotes, backslashes and control characters escaped.
pub uninterp spec fn debug_form(text: Seq<char>) -> Seq<char>;

/// Whether `needle` occurs in `haystack` as a run of consecutive characters.
pub open spec fn occurs_in(needle: Seq<char>, haystack: Seq<char>) -> bool {
    exists|i: int|
        0 <= i && i + needle.len() <= haystack.len() && #[trigger] haystack.subrange(
            i,
            i + needle.len(),
        ) == needle
}

/// The texts of a list of strings.
pub open spec fn texts(parts: Seq<String>) -> Seq<Seq<char>> {
    Seq::new(parts.len(), |i: int| parts[i]@)
}

/// `format!("{:?}", text)` of the standard library: the quoted and escaped
/// form of a string. The contract only names the result.
#[verifier::external_body]
pub(crate) fn debug_quoted(text: &str) -> (quoted: String)
    ensures
        quoted@ == debug_form(text@),
{
    format!("{:?}", text)
}

/// `str::contains` of the standard library with a string pattern: true
/// exactly when the pattern occurs in the text.
#[verifier::external_body]
pub(crate) fn contains_text(haystack: &str, needle: &str) -> (found: bool)
    ensures
        found == occurs_in(needle@, haystack@),
{
    haystack.contains(needle)
}

/// Joins two pieces of text.
pub fn join_text(left: &str, right: &str) -> (joined: String)
    ensures
        joined@ == left@ + right@,
{
    let mut joined = String::from_str(left);
    joined.append(right);
    joined
}

} // verus!
