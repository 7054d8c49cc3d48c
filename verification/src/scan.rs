//! Scanning from left to right for the first position at which something holds.

use vstd::prelude::*;

verus! {

/// The least position from `from` on and below `end` at which `hit` holds, if
/// there is one.
pub open spec fn first_from(hit: spec_fn(int) -> bool, from: int, end: int) -> Option<int>
    decreases end - from,
{
    if from >= end {
        None
    } else if hit(from) {
        Some(from)
    } else {
        first_from(hit, from + 1, end)
    }
}

/// The least position below `end` at which `hit` holds, if there is one.
pub open spec fn first(hit: spec_fn(int) -> bool, end: int) -> Option<int> {
    first_from(hit, 0, end)
}

/// What a scan finds is a position in range at which `hit` holds and before
/// which it holds nowhere; a scan that finds nothing passed no such position.
pub proof fn lemma_first_is_least(hit: spec_fn(int) -> bool, from: int, end: int)
    ensures
        match first_from(hit, from, end) {
            Some(at) => from <= at < end && hit(at) && forall|j: int| from <= j < at ==> !#[trigger] hit(j),
            None => forall|j: int| from <= j < end ==> !#[trigger] hit(j),
        },
    decreases end - from,
{
    if from < end && !hit(from) {
        lemma_first_is_least(hit, from + 1, end);
    }
}

} // verus!
