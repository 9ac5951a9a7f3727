//! What holds of the array across several operations, proved from the
//! operations' contracts.
//!
//! A mutator's contract speaks of the handle it is called on and of no other,
//! so a write through one handle cannot change what another shows. What the
//! first three laws add is where the written handle started from: a clone
//! that is written to ends up with the write applied to a copy of its source.
//!
//! The later laws ask that cloning an element gives an equal element. Where it
//! does not, a write to a shared buffer leaves clones in place of the
//! elements, and "the same elements" is more than can be said.

use vstd::prelude::*;
use vstd::std_specs::cmp::PartialEqSpec;
use vstd::std_specs::iter::IteratorSpec;
use crate::array::Array;
use crate::model::{clone_is_exact, copy_of, eq_is_reflexive, lemma_exact_copy, popped, pushed};

verus! {

/// Sharing independence, for a push. Let `b` be a clone of `a`, and let pushing
/// `x` take `b` to `after`. Then `after` holds a copy of each element of `a` at
/// its index, and `x` behind them.
pub proof fn lemma_push_to_clone<T: Clone>(a: Array<T>, b: Array<T>, x: T, after: Array<T>)
    requires
        b@ == a@,
        pushed(b@, x, after@),
    ensures
        after@.len() == a@.len() + 1,
        forall|j: int| 0 <= j < a@.len() ==> cloned::<T>(#[trigger] a@[j], after@[j]),
        after@[a@.len() as int] == x,
{
    assert forall|j: int| 0 <= j < a@.len() implies cloned::<T>(#[trigger] a@[j], after@[j]) by {
        assert(after@.drop_last()[j] == after@[j]);
    }
}

/// Sharing independence, for a pop. Let `b` be a clone of `a`, and let a pop
/// take `b` to `after` and return `out`. Then `after` holds a copy of each
/// element of `a` but the last at its index, and `out` is the last or a clone
/// of it; where `a` is empty, so is `after`, and `out` is `None`.
pub proof fn lemma_pop_from_clone<T: Clone>(
    a: Array<T>,
    b: Array<T>,
    after: Array<T>,
    out: Option<T>,
)
    requires
        b@ == a@,
        popped(b@, after@, out),
    ensures
        a@.len() == 0 ==> after@.len() == 0 && out is None,
        a@.len() > 0 ==> after@.len() == a@.len() - 1 && out is Some && cloned::<T>(
            a@[a@.len() - 1],
            out->0,
        ),
        forall|j: int| 0 <= j < a@.len() - 1 ==> cloned::<T>(#[trigger] a@[j], after@[j]),
{
    assert forall|j: int| 0 <= j < a@.len() - 1 implies cloned::<T>(
        #[trigger] a@[j],
        after@[j],
    ) by {
        assert(a@.drop_last()[j] == a@[j]);
    }
}

/// Sharing independence, for a write at an index. Let `b` be a clone of `a`,
/// let `elements` be what the slice of `b.iter_mut()` holds at first, and let
/// writing `y` at index `i` of that slice take `b` to `after`. Then `after`
/// holds `y` at `i` and, at every other index, a copy of the element of `a`.
pub proof fn lemma_write_to_clone<T: Clone>(
    a: Array<T>,
    b: Array<T>,
    elements: Seq<T>,
    i: int,
    y: T,
    after: Array<T>,
)
    requires
        b@ == a@,
        copy_of(b@, elements),
        0 <= i < elements.len(),
        after@ == elements.update(i, y),
    ensures
        after@.len() == a@.len(),
        after@[i] == y,
        forall|j: int| 0 <= j < a@.len() && j != i ==> cloned::<T>(#[trigger] a@[j], after@[j]),
{
}

/// Equality goes by content: two arrays that hold the same elements compare
/// equal, whether or not they share a buffer. A clone holds the elements of
/// its source, so it compares equal to it.
pub proof fn lemma_same_elements_are_equal<T: PartialEq>(a: Array<T>, b: Array<T>)
    requires
        eq_is_reflexive::<T>(),
        b@ == a@,
    ensures
        a.eq_spec(&b),
        b.eq_spec(&a),
{
}

/// Push and pop are inverse: a pop right after a push of `x` returns `x` and
/// leaves the elements that were there before the push, in their order.
pub proof fn lemma_push_then_pop<T: Clone>(
    a: Array<T>,
    x: T,
    mid: Array<T>,
    after: Array<T>,
    out: Option<T>,
)
    requires
        clone_is_exact::<T>(),
        pushed(a@, x, mid@),
        popped(mid@, after@, out),
    ensures
        out == Some(x),
        after@ == a@,
{
    lemma_exact_copy(a@, mid@.drop_last());
    lemma_exact_copy(mid@.drop_last(), after@);
}

/// Round trip through `take_inner`: an array built from the vector that was
/// taken holds the elements that the array held before, and the array that
/// they were taken from is empty.
pub proof fn lemma_take_then_rebuild<T: Clone>(
    a: Array<T>,
    taken: Vec<T>,
    left: Array<T>,
    rebuilt: Array<T>,
)
    requires
        clone_is_exact::<T>(),
        copy_of(a@, taken@),
        left@ == Seq::<T>::empty(),
        rebuilt@ == taken@,
    ensures
        rebuilt@ == a@,
        left@.len() == 0,
{
    lemma_exact_copy(a@, taken@);
}

/// Elements stay in the order in which they were pushed. Let `states[0]` be an
/// empty array and let pushing `values[i]` take `states[i]` to `states[i + 1]`.
/// Then after the first `k` pushes the array holds the first `k` values.
pub proof fn lemma_pushes_in_order<T: Clone>(values: Seq<T>, states: Seq<Array<T>>, k: int)
    requires
        clone_is_exact::<T>(),
        states.len() == values.len() + 1,
        states[0]@.len() == 0,
        forall|i: int|
            0 <= i < values.len() ==> pushed((#[trigger] states[i])@, values[i], states[i + 1]@),
        0 <= k <= values.len(),
    ensures
        states[k]@ == values.take(k),
    decreases k,
{
    if k == 0 {
        assert(states[0]@ =~= values.take(0));
    } else {
        lemma_pushes_in_order(values, states, k - 1);
        assert(pushed(states[k - 1]@, values[k - 1], states[k]@));
        lemma_exact_copy(states[k - 1]@, states[k]@.drop_last());
        assert(states[k]@ =~= values.take(k));
    }
}

/// Iteration order is stable. After pushing `values`, one by one, to an empty
/// array, an iteration yields `values` in the order in which they were pushed,
/// and a second iteration yields what the first did.
pub proof fn lemma_iteration_order<T: Clone>(
    values: Seq<T>,
    states: Seq<Array<T>>,
    first: std::slice::Iter<'_, T>,
    second: std::slice::Iter<'_, T>,
)
    requires
        clone_is_exact::<T>(),
        states.len() == values.len() + 1,
        states[0]@.len() == 0,
        forall|i: int|
            0 <= i < values.len() ==> pushed((#[trigger] states[i])@, values[i], states[i + 1]@),
        first.remaining() == states.last()@.as_ref(),
        second.remaining() == states.last()@.as_ref(),
    ensures
        first.remaining() == values.as_ref(),
        second.remaining() == first.remaining(),
{
    lemma_pushes_in_order(values, states, values.len() as int);
    assert(values.take(values.len() as int) =~= values);
}

/// Conversion of a shared array: the vector that `b.into_vec()` gives holds
/// what a sibling handle of `b` shows, before the conversion and after it.
pub proof fn lemma_conversion_matches_sibling<T: Clone>(
    sibling: Array<T>,
    b: Array<T>,
    elements: Vec<T>,
)
    requires
        clone_is_exact::<T>(),
        b@ == sibling@,
        copy_of(b@, elements@),
    ensures
        elements@ == sibling@,
{
    lemma_exact_copy(b@, elements@);
}

} // verus!
