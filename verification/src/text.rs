//! Substring reasoning for the crate's error-message guarantees.

use vstd::prelude::*;

verus! {

/// `needle` occurs contiguously somewhere inside `hay`.
pub open spec fn contains_substring(hay: Seq<char>, needle: Seq<char>) -> bool {
    exists|i: int|
        0 <= i && i + needle.len() <= hay.len() && #[trigger] hay.subrange(i, i + needle.len())
            == needle
}

/// A sequence assembled around `b` contains `b`.
pub proof fn lemma_concat_extract(m: Seq<char>, a: Seq<char>, b: Seq<char>, c: Seq<char>)
    requires
        m == a + b + c,
    ensures
        contains_substring(m, b),
{
    let i = a.len() as int;
    assert(m.subrange(i, i + b.len()) =~= b);
}

} // verus!
