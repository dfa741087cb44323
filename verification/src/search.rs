//! The first position at which a predicate holds: the order in which fields
//! are declared decides which error is reported and which method a name
//! stands for.

use vstd::prelude::*;

verus! {

/// The first position from `from` on, below `len`, at which `p` holds.
pub open spec fn first_from(len: int, p: spec_fn(int) -> bool, from: int) -> Option<int>
    decreases len - from,
{
    if from < 0 || from >= len {
        None
    } else if p(from) {
        Some(from)
    } else {
        first_from(len, p, from + 1)
    }
}

/// `first_from` finds a position at which the predicate holds and before
/// which, from `from` on, it does not; it finds none only where there is
/// none.
pub proof fn lemma_first_from(len: int, p: spec_fn(int) -> bool, from: int)
    requires
        0 <= from,
    ensures
        match first_from(len, p, from) {
            Some(k) => {
                &&& from <= k < len
                &&& p(k)
                &&& forall|j: int| from <= j < k ==> !(#[trigger] p(j))
            },
            None => forall|j: int| from <= j < len ==> !(#[trigger] p(j)),
        },
    decreases len - from,
{
    if from < len && !p(from) {
        lemma_first_from(len, p, from + 1);
    }
}

/// A position at which the predicate holds, with none before it, is the one
/// that `first_from` finds.
pub proof fn lemma_first_from_is(len: int, p: spec_fn(int) -> bool, from: int, k: int)
    requires
        0 <= from <= k < len,
        p(k),
        forall|j: int| from <= j < k ==> !(#[trigger] p(j)),
    ensures
        first_from(len, p, from) == Some(k),
    decreases k - from,
{
    if from < k {
        lemma_first_from_is(len, p, from + 1, k);
    }
}

} // verus!
