//! The reference-counted handle to a buffer, and the three operations of
//! `std::sync::Arc` that the array is built on. Their contracts are stated
//! here and taken on trust; everything else in the crate is proved from them.

use std::sync::Arc;
use vstd::prelude::*;
use crate::model::copy_of;

verus! {

/// `Arc::clone`: a second handle to the same buffer. No element is cloned, so
/// the new handle shows exactly the elements of the old one.
#[verifier::external_body]
pub(crate) fn share<T>(handle: &Arc<Vec<T>>) -> (other: Arc<Vec<T>>)
    ensures
        other@ == handle@,
{
    Arc::clone(handle)
}

/// `Arc::make_mut`: exclusive access to the buffer behind `handle`. Where other
/// handles share the buffer, `handle` is first rebound to a fresh clone of it,
/// so the buffer handed out starts as a copy of what `handle` showed; and
/// whatever the caller leaves in it is what `handle` shows afterwards.
#[verifier::external_body]
pub(crate) fn make_unique<T: Clone>(handle: &mut Arc<Vec<T>>) -> (buffer: &mut Vec<T>)
    ensures
        copy_of(old(handle)@, buffer@),
        final(handle)@ == final(buffer)@,
{
    Arc::make_mut(handle)
}

/// `Arc::try_unwrap`: the buffer itself where `handle` was its only owner,
/// else the handle back, unchanged.
#[verifier::external_body]
pub(crate) fn reclaim<T>(handle: Arc<Vec<T>>) -> (outcome: Result<Vec<T>, Arc<Vec<T>>>)
    ensures
        match outcome {
            Ok(buffer) => buffer@ == handle@,
            Err(shared) => shared@ == handle@,
        },
{
    Arc::try_unwrap(handle)
}

} // verus!
