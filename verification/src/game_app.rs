//! The stack of application states: which of them take part in a frame.

use vstd::prelude::*;

verus! {

/// Whether the states from index `from` up to the top of the stack are the
/// ones that take part in a frame. `parents[i]` says whether the state at
/// index `i` lets the state below it take part as well. The states that
/// take part start at the topmost state that does not; if every state lets
/// the one below it take part, all do.
pub open spec fn takes_part_from(parents: Seq<bool>, from: int) -> bool {
    if exists|i: int| 0 <= i < parents.len() && !parents[i] {
        &&& 0 <= from < parents.len()
        &&& !parents[from]
        &&& forall|i: int| from < i < parents.len() ==> parents[i]
    } else {
        from == 0
    }
}

/// Finds the index of the lowest state of the stack that takes part in a
/// frame, see [`takes_part_from`].
pub fn active_from(parents: &[bool]) -> (from: usize)
    ensures
        takes_part_from(parents@, from as int),
{
    let mut i: usize = parents.len();
    while i > 0
        invariant
            i <= parents@.len(),
            forall|j: int| i <= j < parents@.len() ==> parents@[j],
        decreases i,
    {
        i = i - 1;
        if !parents[i] {
            return i;
        }
    }
    0
}

} // verus!
