//! The array: a handle to a reference-counted buffer of elements.
//!
//! Reading goes straight to the buffer. Every mutator first asks for a buffer
//! of its own, which clones the buffer where other handles share it, and then
//! writes in place.

use std::fmt::Display;
use std::sync::Arc;
use vstd::prelude::*;
use vstd::std_specs::cmp::{PartialEqSpec, PartialEqSpecImpl};
use vstd::std_specs::iter::IteratorSpec;
use crate::handle::{make_unique, reclaim, share};
use crate::model::{copy_of, extended, popped, pushed};
use crate::text::{list_text, render_list, rendered_by, texts};

verus! {

/// A growable array whose clones share one buffer until one of them is written to.
pub struct Array<T> {
    buffer: Arc<Vec<T>>,
}

impl<T> View for Array<T> {
    type V = Seq<T>;

    /// The elements, in order.
    closed spec fn view(&self) -> Seq<T> {
        self.buffer@
    }
}

impl<T> Array<T> {
    /// An empty array.
    pub fn new() -> (a: Self)
        ensures
            a@ == Seq::<T>::empty(),
    {
        Array { buffer: Arc::new(Vec::new()) }
    }

    /// An array of the elements of `items`, in order.
    pub fn from_vec(items: Vec<T>) -> (a: Self)
        ensures
            a@ == items@,
    {
        Array { buffer: Arc::new(items) }
    }

    /// The number of elements.
    pub fn len(&self) -> (n: usize)
        ensures
            n == self@.len(),
    {
        self.buffer.len()
    }

    /// Whether the array holds no element.
    pub fn is_empty(&self) -> (b: bool)
        ensures
            b <==> self@.len() == 0,
    {
        self.buffer.is_empty()
    }

    /// The element at `index`, or `None` where `index` is past the end.
    pub fn get(&self, index: usize) -> (r: Option<&T>)
        ensures
            index < self@.len() ==> r == Some(&self@[index as int]),
            index >= self@.len() ==> r is None,
    {
        self.buffer.get(index)
    }

    /// The elements by reference, first to last. The buffer is read where it
    /// is: nothing is cloned. The last two clauses are what a `for` loop over
    /// the iterator asks of it.
    pub fn iter(&self) -> (it: std::slice::Iter<'_, T>)
        ensures
            it.remaining() == self@.as_ref(),
            it.decrease() is Some,
            it.initial_value_relation(&it),
    {
        self.buffer.as_slice().iter()
    }
}

impl<T: Clone> Array<T> {
    /// Appends `value`.
    pub fn push(&mut self, value: T)
        ensures
            pushed(old(self)@, value, final(self)@),
    {
        make_unique(&mut self.buffer).push(value);
    }

    /// Removes the last element and returns it; `None` where the array is empty.
    pub fn pop(&mut self) -> (out: Option<T>)
        ensures
            popped(old(self)@, final(self)@, out),
    {
        make_unique(&mut self.buffer).pop()
    }

    /// Exclusive access to the elements, first to last, for writing in place.
    /// The array ends up holding what the caller leaves in the slice.
    pub fn iter_mut(&mut self) -> (elements: &mut [T])
        ensures
            copy_of(old(self)@, elements@),
            final(self)@ == final(elements)@,
    {
        make_unique(&mut self.buffer).as_mut_slice()
    }

    /// Hands the elements out as a vector and leaves the array empty.
    pub fn take_inner(&mut self) -> (taken: Vec<T>)
        ensures
            copy_of(old(self)@, taken@),
            final(self)@ == Seq::<T>::empty(),
    {
        let mut taken: Vec<T> = Vec::new();
        std::mem::swap(make_unique(&mut self.buffer), &mut taken);
        taken
    }

    /// Appends the elements of `items`, in order.
    pub fn extend(&mut self, items: Vec<T>)
        ensures
            extended(old(self)@, items@, final(self)@),
    {
        let mut items = items;
        let ghost added = items@;
        let buffer = make_unique(&mut self.buffer);
        let ghost copy = buffer@;
        buffer.append(&mut items);
        proof {
            assert(final(self)@.take(old(self)@.len() as int) =~= copy);
            assert(final(self)@.skip(old(self)@.len() as int) =~= added);
        }
    }

    /// The elements that a conversion hands out, given what reclaiming the
    /// buffer gave: the buffer itself where the handle was its only owner,
    /// else a copy of what the handle, still shared, shows.
    pub fn owned_elements(outcome: Result<Vec<T>, Array<T>>) -> (elements: Vec<T>)
        ensures
            match outcome {
                Ok(buffer) => elements@ == buffer@,
                Err(shared) => copy_of(shared@, elements@),
            },
    {
        match outcome {
            Ok(buffer) => buffer,
            Err(shared) => (*shared.buffer).clone(),
        }
    }

    /// The elements as a vector, first to last.
    pub fn into_vec(self) -> (elements: Vec<T>)
        ensures
            copy_of(self@, elements@),
    {
        let outcome = match reclaim(self.buffer) {
            Ok(buffer) => Ok(buffer),
            Err(shared) => Err(Array { buffer: shared }),
        };
        Self::owned_elements(outcome)
    }
}

impl<T: Display> Array<T> {
    /// The array as text: the elements' own texts, first to last, separated by
    /// `", "`, between square brackets.
    pub fn to_string(&self) -> (text: String)
        ensures
            exists|parts: Seq<String>|
                rendered_by(self@, parts) && text@ == list_text(texts(parts)),
    {
        let mut parts: Vec<String> = Vec::new();
        let mut i: usize = 0;
        while i < self.buffer.len()
            invariant
                i <= self@.len(),
                rendered_by(self@.take(i as int), parts@),
            decreases self@.len() - i,
        {
            parts.push(self.buffer[i].to_string());
            i += 1;
        }
        proof {
            assert(self@.take(i as int) =~= self@);
        }
        render_list(&parts)
    }
}

impl<T> Clone for Array<T> {
    /// A second handle to the same buffer: no element is cloned.
    fn clone(&self) -> (other: Self)
        ensures
            other@ == self@,
    {
        Array { buffer: share(&self.buffer) }
    }
}

impl<T> Default for Array<T> {
    /// An empty array.
    fn default() -> (a: Self)
        ensures
            a@ == Seq::<T>::empty(),
    {
        Array::new()
    }
}

impl<T: PartialEq> PartialEq for Array<T> {
    /// Whether the two arrays hold equal elements in the same order, whether
    /// or not they share a buffer.
    fn eq(&self, other: &Self) -> (r: bool) {
        *self.buffer == *other.buffer
    }
}

impl<T: PartialEq> PartialEqSpecImpl for Array<T> {
    open spec fn obeys_eq_spec() -> bool {
        T::obeys_eq_spec()
    }

    open spec fn eq_spec(&self, other: &Self) -> bool {
        &&& self@.len() == other@.len()
        &&& forall|i: int| 0 <= i < self@.len() ==> (#[trigger] self@[i]).eq_spec(&other@[i])
    }
}

impl<T: Eq> Eq for Array<T> {

}

impl<T: Clone> IntoIterator for Array<T> {
    type Item = T;

    type IntoIter = std::vec::IntoIter<T>;

    /// The elements by value, first to last.
    fn into_iter(self) -> (it: std::vec::IntoIter<T>)
        ensures
            copy_of(self@, it.remaining()),
            it.decrease() is Some,
            it.initial_value_relation(&it),
    {
        self.into_vec().into_iter()
    }
}

impl<'a, T> IntoIterator for &'a Array<T> {
    type Item = &'a T;

    type IntoIter = std::slice::Iter<'a, T>;

    /// The elements by reference, first to last.
    fn into_iter(self) -> (it: std::slice::Iter<'a, T>)
        ensures
            it.remaining() == self@.as_ref(),
            it.decrease() is Some,
            it.initial_value_relation(&it),
    {
        self.iter()
    }
}

} // verus!
