//! First match wins: the rule by which both dispatchers choose.
//!
//! A dispatcher tests its candidates in registration order and stops at the
//! first that matches. `hits` holds, for each candidate, whether it matches.

use vstd::prelude::*;

verus! {

/// The first position of `hits` that holds `true`, if any does.
pub open spec fn first_hit(hits: Seq<bool>) -> Option<int>
    decreases hits.len(),
{
    if hits.len() == 0 {
        None
    } else {
        match first_hit(hits.drop_last()) {
            Some(i) => Some(i),
            None => if hits.last() {
                Some(hits.len() - 1)
            } else {
                None
            },
        }
    }
}

/// Whether `i` is a position of `hits` that holds `true` with none before it
/// that does.
pub open spec fn is_first_hit(hits: Seq<bool>, i: int) -> bool {
    &&& 0 <= i < hits.len()
    &&& hits[i]
    &&& forall|j: int| 0 <= j < i ==> !hits[j]
}

/// `first_hit` finds a matching candidate that no matching candidate
/// precedes, and finds nothing only where no candidate matches.
pub proof fn first_hit_is_first(hits: Seq<bool>)
    ensures
        match first_hit(hits) {
            Some(i) => is_first_hit(hits, i),
            None => forall|j: int| 0 <= j < hits.len() ==> !hits[j],
        },
    decreases hits.len(),
{
    if hits.len() > 0 {
        let front = hits.drop_last();
        first_hit_is_first(front);
        assert forall|j: int| 0 <= j < front.len() implies front[j] == hits[j] by {}
    }
}

/// The candidate that matches with none before it that does is the one that
/// `first_hit` finds.
pub proof fn first_hit_at(hits: Seq<bool>, i: int)
    requires
        is_first_hit(hits, i),
    ensures
        first_hit(hits) == Some(i),
{
    first_hit_is_first(hits);
}

/// Where no candidate matches, `first_hit` finds nothing.
pub proof fn first_hit_none(hits: Seq<bool>)
    requires
        forall|j: int| 0 <= j < hits.len() ==> !hits[j],
    ensures
        first_hit(hits) is None,
{
    first_hit_is_first(hits);
}

} // verus!
