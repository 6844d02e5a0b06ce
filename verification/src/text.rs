//! Substring containment on text, as the monitor uses it to find the
//! sentinel.

use vstd::prelude::*;

verus! {

/// `pattern` stands in `text` at offset `at`.
pub open spec fn occurs_at(text: Seq<char>, pattern: Seq<char>, at: int) -> bool {
    &&& 0 <= at
    &&& at + pattern.len() <= text.len()
    &&& text.subrange(at, at + pattern.len()) =~= pattern
}

/// `pattern` stands somewhere in `text`. The empty pattern stands in every
/// text.
pub open spec fn occurs_in(text: Seq<char>, pattern: Seq<char>) -> bool {
    exists|at: int| occurs_at(text, pattern, at)
}

/// Trusted: `str::contains` with a string slice as the pattern. The standard
/// library documents that it returns `true` exactly when the pattern matches a
/// sub-slice of the text; for two strings that is containment of one
/// character sequence in the other.
#[verifier::external_body]
pub(crate) fn contains(text: &str, pattern: &str) -> (found: bool)
    ensures
        found == occurs_in(text@, pattern@),
{
    text.contains(pattern)
}

/// A pattern cut in two, with its head at the end of one text and its tail at
/// the start of the next, stands in the two texts joined, whatever came
/// before.
pub proof fn lemma_occurrence_across_join(
    before: Seq<char>,
    first: Seq<char>,
    second: Seq<char>,
    head: Seq<char>,
    tail: Seq<char>,
)
    requires
        head.is_suffix_of(first),
        tail.is_prefix_of(second),
    ensures
        occurs_in(before + first + second, head + tail),
{
    let joined = before + first + second;
    let at: int = before.len() + first.len() - head.len();
    assert(joined.subrange(at, at + (head + tail).len()) =~= head + tail);
    assert(occurs_at(joined, head + tail, at));
}

} // verus!
