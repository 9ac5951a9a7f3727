//! The vocabulary of the contracts.
//!
//! An array is seen as the sequence of its elements. A write goes to a buffer
//! that the handle owns alone; where the buffer was shared, that is a fresh
//! clone of it. Whether it was shared depends on the other handles, so a
//! mutator's contract relates the elements after the call to a *copy* of the
//! elements before it: the same elements, or clones of them.

use vstd::prelude::*;
use vstd::std_specs::cmp::PartialEqSpec;

verus! {

/// `dst` holds, place for place, the elements of `src` or clones of them.
pub open spec fn copy_of<T: Clone>(src: Seq<T>, dst: Seq<T>) -> bool {
    &&& dst.len() == src.len()
    &&& forall|i: int| 0 <= i < src.len() ==> cloned::<T>(#[trigger] src[i], dst[i])
}

/// Cloning an element of type `T` always gives an element equal to it.
pub open spec fn clone_is_exact<T: Clone>() -> bool {
    forall|a: T, b: T| #[trigger] cloned::<T>(a, b) ==> a == b
}

/// Comparing an element of type `T` with itself gives `true`.
pub open spec fn eq_is_reflexive<T: PartialEq>() -> bool {
    forall|x: T| #[trigger] x.eq_spec(&x)
}

/// `after` is what a push of `value` may leave of `before`: a copy of
/// `before`, followed by `value` itself.
pub open spec fn pushed<T: Clone>(before: Seq<T>, value: T, after: Seq<T>) -> bool {
    &&& after.len() == before.len() + 1
    &&& copy_of(before, after.drop_last())
    &&& after.last() == value
}

/// `after` and `out` are what a pop may leave and return of `before`: nothing
/// and `None` where `before` is empty, else a copy of all but the last element,
/// and the last element or a clone of it.
pub open spec fn popped<T: Clone>(before: Seq<T>, after: Seq<T>, out: Option<T>) -> bool {
    if before.len() == 0 {
        after.len() == 0 && out is None
    } else {
        &&& copy_of(before.drop_last(), after)
        &&& out is Some
        &&& cloned::<T>(before.last(), out->0)
    }
}

/// `after` is what appending `items` may leave of `before`: a copy of `before`,
/// followed by the elements of `items` themselves, in order.
pub open spec fn extended<T: Clone>(before: Seq<T>, items: Seq<T>, after: Seq<T>) -> bool {
    &&& after.len() == before.len() + items.len()
    &&& copy_of(before, after.take(before.len() as int))
    &&& after.skip(before.len() as int) == items
}

/// Where cloning is exact, a copy is the same sequence.
pub proof fn lemma_exact_copy<T: Clone>(src: Seq<T>, dst: Seq<T>)
    requires
        clone_is_exact::<T>(),
        copy_of(src, dst),
    ensures
        dst == src,
{
    assert(dst =~= src);
}

} // verus!
