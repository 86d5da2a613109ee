//! Text: comparing, searching and joining.

use vstd::prelude::*;
use vstd::string::*;

verus! {

/// `str::eq`: two string slices are equal when they hold the same
/// characters.
pub assume_specification[ <str as PartialEq>::eq ](left: &str, right: &str) -> (same: bool)
    ensures
        same == (left@ == right@),
;

/// Whether `needle` stands in `haystack` from position `start` on.
pub open spec fn occurs_at(haystack: Seq<char>, needle: Seq<char>, start: int) -> bool {
    &&& 0 <= start
    &&& start + needle.len() <= haystack.len()
    &&& haystack.subrange(start, start + needle.len()) == needle
}

/// Whether `needle` stands somewhere in `haystack`.
pub open spec fn text_contains(haystack: Seq<char>, needle: Seq<char>) -> bool {
    exists|start: int| occurs_at(haystack, needle, start)
}

/// `str::contains` with a string slice as the pattern: whether the pattern
/// occurs in the text.
#[verifier::external_body]
pub(crate) fn str_contains(haystack: &str, needle: &str) -> (found: bool)
    ensures
        found == text_contains(haystack@, needle@),
{
    haystack.contains(needle)
}

/// The two texts, one after the other.
pub fn join2(first: &str, second: &str) -> (joined: String)
    ensures
        joined@ == first@ + second@,
{
    let mut joined = String::from_str(first);
    joined.append(second);
    joined
}

/// The four texts, one after the other.
pub fn join4(first: &str, second: &str, third: &str, fourth: &str) -> (joined: String)
    ensures
        joined@ == first@ + second@ + third@ + fourth@,
{
    let mut joined = String::from_str(first);
    joined.append(second);
    joined.append(third);
    joined.append(fourth);
    joined
}

} // verus!
