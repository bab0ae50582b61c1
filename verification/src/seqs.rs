//! Searching sequences.

use vstd::prelude::*;

verus! {

/// The least position of `s` whose item satisfies `wanted`, if any does.
pub open spec fn first_where<T>(s: Seq<T>, wanted: spec_fn(T) -> bool) -> Option<int>
    decreases s.len(),
{
    if s.len() == 0 {
        None
    } else if wanted(s[0]) {
        Some(0)
    } else {
        match first_where(s.drop_first(), wanted) {
            Some(at) => Some(at + 1),
            None => None,
        }
    }
}

/// `first_where` finds the least position whose item satisfies `wanted`, and
/// finds none exactly when no item does.
pub proof fn lemma_first_where<T>(s: Seq<T>, wanted: spec_fn(T) -> bool)
    ensures
        match first_where(s, wanted) {
            Some(at) => {
                &&& 0 <= at < s.len()
                &&& wanted(s[at])
                &&& forall|i: int| 0 <= i < at ==> !wanted(#[trigger] s[i])
            },
            None => forall|i: int| 0 <= i < s.len() ==> !wanted(#[trigger] s[i]),
        },
    decreases s.len(),
{
    if s.len() > 0 && !wanted(s[0]) {
        let rest = s.drop_first();
        lemma_first_where(rest, wanted);
        match first_where(rest, wanted) {
            Some(at) => {
                assert(s[at + 1] == rest[at]);
                assert forall|i: int| 0 <= i < at + 1 implies !wanted(#[trigger] s[i]) by {
                    if i > 0 {
                        assert(s[i] == rest[i - 1]);
                    }
                }
            },
            None => {
                assert forall|i: int| 0 <= i < s.len() implies !wanted(#[trigger] s[i]) by {
                    if i > 0 {
                        assert(s[i] == rest[i - 1]);
                    }
                }
            },
        }
    }
}

/// A position whose item satisfies `wanted` and before which none does is
/// the one that `first_where` finds.
pub proof fn lemma_first_where_is<T>(s: Seq<T>, wanted: spec_fn(T) -> bool, at: int)
    requires
        0 <= at < s.len(),
        wanted(s[at]),
        forall|i: int| 0 <= i < at ==> !wanted(#[trigger] s[i]),
    ensures
        first_where(s, wanted) == Some(at),
{
    lemma_first_where(s, wanted);
}

/// No item satisfies `wanted`, so `first_where` finds none.
pub proof fn lemma_first_where_none<T>(s: Seq<T>, wanted: spec_fn(T) -> bool)
    requires
        forall|i: int| 0 <= i < s.len() ==> !wanted(#[trigger] s[i]),
    ensures
        first_where(s, wanted) is None,
{
    lemma_first_where(s, wanted);
}

} // verus!
