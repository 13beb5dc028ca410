//! Leaving the bounded types for the plain ones of the standard library.

use crate::bound::Get;
use crate::bounded_slice::BoundedSlice;
use crate::bounded_vec::BoundedVec;
use core::ops::{Deref, Index};
use core::slice::SliceIndex;
use vstd::prelude::*;
use vstd::slice::SliceIndexSpec;
use vstd::std_specs::iter::IteratorSpec;

verus! {

impl<T, S: Get<u32>> From<BoundedVec<T, S>> for Vec<T> {
    fn from(x: BoundedVec<T, S>) -> (v: Vec<T>)
        ensures
            v@ == x@,
    {
        x.into_inner()
    }
}

impl<T, S: Get<u32>> vstd::std_specs::convert::FromSpecImpl<BoundedVec<T, S>> for Vec<T> {
    open spec fn obeys_from_spec() -> bool {
        true
    }

    open spec fn from_spec(x: BoundedVec<T, S>) -> Vec<T> {
        x.spec_inner()
    }
}

impl<'a, T, S: Get<u32>> From<BoundedSlice<'a, T, S>> for &'a [T] {
    fn from(t: BoundedSlice<'a, T, S>) -> (s: &'a [T])
        ensures
            s@ == t@,
    {
        t.as_slice()
    }
}

impl<'a, T, S: Get<u32>> vstd::std_specs::convert::FromSpecImpl<BoundedSlice<'a, T, S>> for &'a [T] {
    open spec fn obeys_from_spec() -> bool {
        true
    }

    open spec fn from_spec(t: BoundedSlice<'a, T, S>) -> &'a [T] {
        t.spec_slice()
    }
}

// It is okay to give a non-mutable reference of the inner vec to anyone.
impl<T, S: Get<u32>> AsRef<Vec<T>> for BoundedVec<T, S> {
    /// Gives what `deref` gives: the vector with the elements of `self`.
    fn as_ref(&self) -> (inner: &Vec<T>)
        ensures
            call_ensures(<BoundedVec<T, S> as Deref>::deref, (self,), inner),
    {
        self.deref()
    }
}

impl<T, S: Get<u32>> core::iter::IntoIterator for BoundedVec<T, S> {
    type Item = T;

    type IntoIter = std::vec::IntoIter<T>;

    /// The iterator yields the elements, in their order.
    fn into_iter(self) -> (iter: std::vec::IntoIter<T>)
        ensures
            iter.obeys_prophetic_iter_laws(),
            iter.remaining() == self@,
    {
        self.into_inner().into_iter()
    }
}

impl<T, S: Get<u32>> AsRef<[T]> for BoundedVec<T, S> {
    /// Gives what `as_slice` gives: the elements of `self`.
    fn as_ref(&self) -> (elements: &[T])
        ensures
            call_ensures(BoundedVec::<T, S>::as_slice, (self,), elements),
    {
        self.as_slice()
    }
}

impl<'a, T, S: Get<u32>> core::iter::IntoIterator for &'a BoundedVec<T, S> {
    type Item = &'a T;

    type IntoIter = core::slice::Iter<'a, T>;

    /// The iterator yields the elements, in their order.
    fn into_iter(self) -> (iter: core::slice::Iter<'a, T>)
        ensures
            iter.obeys_prophetic_iter_laws(),
            iter.remaining() == self@.as_ref(),
    {
        self.deref().as_slice().iter()
    }
}

impl<'a, T, S: Get<u32>> core::iter::IntoIterator for &'a mut BoundedVec<T, S> {
    type Item = &'a mut T;

    type IntoIter = core::slice::IterMut<'a, T>;

    /// The iterator yields all the elements from start to end, each as a
    /// reference through which it can be changed. Their number stays, and each
    /// ends up as its reference was left.
    fn into_iter(self) -> (iter: core::slice::IterMut<'a, T>)
        ensures
            iter.obeys_prophetic_iter_laws(),
            iter.remaining().len() == old(self)@.len(),
            forall|i: int|
                0 <= i < old(self)@.len() ==> *(#[trigger] iter.remaining()[i]) == old(self)@[i],
            final(self)@.len() == old(self)@.len(),
            forall|i: int|
                0 <= i < old(self)@.len() ==> #[trigger] final(self)@[i]
                    == *final(iter.remaining()[i]),
    {
        self.iter_mut()
    }
}

impl<'a, T, S: Get<u32>> core::iter::IntoIterator for BoundedSlice<'a, T, S> {
    type Item = &'a T;

    type IntoIter = core::slice::Iter<'a, T>;

    /// The iterator yields the elements, in their order.
    fn into_iter(self) -> (iter: core::slice::Iter<'a, T>)
        ensures
            iter.obeys_prophetic_iter_laws(),
            iter.remaining() == self@.as_ref(),
    {
        self.as_slice().iter()
    }
}

// Allows for indexing similar to a normal `Vec`: the index has to be in range
// of the elements.
impl<T, S: Get<u32>, I> Index<I> for BoundedVec<T, S> where I: SliceIndex<[T]> {
    type Output = I::Output;

    fn index(&self, index: I) -> (output: &I::Output)
        ensures
            exists|elements: &[T]| #[trigger]
                elements@ == self@ && call_ensures(
                    <I as SliceIndex<[T]>>::index,
                    (index, elements),
                    output,
                ),
    {
        self.as_slice().index(index)
    }
}

impl<T, S: Get<u32>, I> vstd::std_specs::core::IndexSpecImpl<I> for BoundedVec<T, S> where I: SliceIndex<[T]> {
    open spec fn index_req(&self, index: &I) -> bool {
        forall|elements: &[T]| #[trigger] elements@ == self@ ==> index.index_req(elements)
    }
}

} // verus!
