//! Equality and order of bounded containers.
//!
//! Both depend on the elements alone: two containers with different bounds,
//! or bounds of different types, compare as the sequences of their elements
//! do.

use crate::bound::Get;
use crate::bounded_slice::BoundedSlice;
use crate::bounded_vec::BoundedVec;
use core::cmp::Ordering;
use core::ops::Deref;
use vstd::prelude::*;
use vstd::std_specs::cmp::{PartialEqSpec, PartialOrdSpec};

verus! {

/// `a` and `b` have the same length and equal elements at each position, by
/// the equality of `T`.
pub open spec fn elements_equal<T: PartialEq>(a: Seq<T>, b: Seq<T>) -> bool {
    &&& a.len() == b.len()
    &&& forall|i: int| 0 <= i < a.len() ==> (#[trigger] a[i]).eq_spec(&b[i])
}

/// The order of `a` and `b` as sequences: that of the elements at the first
/// position where they are not equal, and the order of the lengths where there
/// is no such position.
pub open spec fn lexicographic<T: PartialOrd>(a: Seq<T>, b: Seq<T>) -> Option<Ordering>
    decreases a.len(),
{
    if a.len() == 0 {
        if b.len() == 0 {
            Some(Ordering::Equal)
        } else {
            Some(Ordering::Less)
        }
    } else if b.len() == 0 {
        Some(Ordering::Greater)
    } else {
        match a[0].partial_cmp_spec(&b[0]) {
            Some(Ordering::Equal) => lexicographic(a.drop_first(), b.drop_first()),
            unequal => unequal,
        }
    }
}

/// `==` of two slices: equal lengths and equal elements, by the equality of
/// `T`, where that equality keeps to its specification.
#[verifier::external_body]
fn slices_equal<T: PartialEq>(a: &[T], b: &[T]) -> (r: bool)
    ensures
        T::obeys_eq_spec() ==> r == elements_equal(a@, b@),
{
    a == b
}

/// `partial_cmp` of two slices: the standard library compares slices
/// lexicographically, by the order of `T`, which the contract states where that
/// order keeps to its specification.
#[verifier::external_body]
fn slices_compared<T: PartialOrd>(a: &[T], b: &[T]) -> (r: Option<Ordering>)
    ensures
        T::obeys_partial_cmp_spec() ==> r == lexicographic(a@, b@),
{
    a.partial_cmp(b)
}

impl<T, BoundSelf, BoundRhs> PartialEq<BoundedVec<T, BoundRhs>> for BoundedVec<T, BoundSelf> where T: PartialEq, BoundSelf: Get<u32>, BoundRhs: Get<u32> {
    fn eq(&self, rhs: &BoundedVec<T, BoundRhs>) -> (r: bool) {
        slices_equal(self.deref().as_slice(), rhs.deref().as_slice())
    }
}

impl<T, BoundSelf, BoundRhs> vstd::std_specs::cmp::PartialEqSpecImpl<BoundedVec<T, BoundRhs>> for BoundedVec<T, BoundSelf> where T: PartialEq, BoundSelf: Get<u32>, BoundRhs: Get<u32> {
    open spec fn obeys_eq_spec() -> bool {
        T::obeys_eq_spec()
    }

    open spec fn eq_spec(&self, rhs: &BoundedVec<T, BoundRhs>) -> bool {
        elements_equal(self@, rhs@)
    }
}

impl<'a, T, BoundSelf, BoundRhs> PartialEq<BoundedSlice<'a, T, BoundRhs>> for BoundedVec<T, BoundSelf> where T: PartialEq, BoundSelf: Get<u32>, BoundRhs: Get<u32> {
    fn eq(&self, rhs: &BoundedSlice<'a, T, BoundRhs>) -> (r: bool) {
        slices_equal(self.deref().as_slice(), rhs.as_slice())
    }
}

impl<'a, T, BoundSelf, BoundRhs> vstd::std_specs::cmp::PartialEqSpecImpl<BoundedSlice<'a, T, BoundRhs>> for BoundedVec<T, BoundSelf> where T: PartialEq, BoundSelf: Get<u32>, BoundRhs: Get<u32> {
    open spec fn obeys_eq_spec() -> bool {
        T::obeys_eq_spec()
    }

    open spec fn eq_spec(&self, rhs: &BoundedSlice<'a, T, BoundRhs>) -> bool {
        elements_equal(self@, rhs@)
    }
}

impl<T: PartialEq, S: Get<u32>> PartialEq<Vec<T>> for BoundedVec<T, S> {
    fn eq(&self, other: &Vec<T>) -> (r: bool) {
        slices_equal(self.deref().as_slice(), other.as_slice())
    }
}

impl<T: PartialEq, S: Get<u32>> vstd::std_specs::cmp::PartialEqSpecImpl<Vec<T>> for BoundedVec<T, S> {
    open spec fn obeys_eq_spec() -> bool {
        T::obeys_eq_spec()
    }

    open spec fn eq_spec(&self, other: &Vec<T>) -> bool {
        elements_equal(self@, other@)
    }
}

impl<T, S: Get<u32>> Eq for BoundedVec<T, S> where T: Eq {

}

impl<'a, T, BoundSelf, BoundRhs> PartialEq<BoundedSlice<'a, T, BoundRhs>> for BoundedSlice<'a, T, BoundSelf> where T: PartialEq, BoundSelf: Get<u32>, BoundRhs: Get<u32> {
    fn eq(&self, other: &BoundedSlice<'a, T, BoundRhs>) -> (r: bool) {
        slices_equal(self.as_slice(), other.as_slice())
    }
}

impl<'a, T, BoundSelf, BoundRhs> vstd::std_specs::cmp::PartialEqSpecImpl<BoundedSlice<'a, T, BoundRhs>> for BoundedSlice<'a, T, BoundSelf> where T: PartialEq, BoundSelf: Get<u32>, BoundRhs: Get<u32> {
    open spec fn obeys_eq_spec() -> bool {
        T::obeys_eq_spec()
    }

    open spec fn eq_spec(&self, other: &BoundedSlice<'a, T, BoundRhs>) -> bool {
        elements_equal(self@, other@)
    }
}

impl<'a, T, BoundSelf, BoundRhs> PartialEq<BoundedVec<T, BoundRhs>> for BoundedSlice<'a, T, BoundSelf> where T: PartialEq, BoundSelf: Get<u32>, BoundRhs: Get<u32> {
    fn eq(&self, other: &BoundedVec<T, BoundRhs>) -> (r: bool) {
        slices_equal(self.as_slice(), other.deref().as_slice())
    }
}

impl<'a, T, BoundSelf, BoundRhs> vstd::std_specs::cmp::PartialEqSpecImpl<BoundedVec<T, BoundRhs>> for BoundedSlice<'a, T, BoundSelf> where T: PartialEq, BoundSelf: Get<u32>, BoundRhs: Get<u32> {
    open spec fn obeys_eq_spec() -> bool {
        T::obeys_eq_spec()
    }

    open spec fn eq_spec(&self, other: &BoundedVec<T, BoundRhs>) -> bool {
        elements_equal(self@, other@)
    }
}

impl<'a, T: PartialEq, S: Get<u32>> PartialEq<&'a [T]> for BoundedSlice<'a, T, S> {
    fn eq(&self, other: &&'a [T]) -> (r: bool) {
        slices_equal(self.as_slice(), *other)
    }
}

impl<'a, T: PartialEq, S: Get<u32>> vstd::std_specs::cmp::PartialEqSpecImpl<&'a [T]> for BoundedSlice<'a, T, S> {
    open spec fn obeys_eq_spec() -> bool {
        T::obeys_eq_spec()
    }

    open spec fn eq_spec(&self, other: &&'a [T]) -> bool {
        elements_equal(self@, other@)
    }
}

impl<'a, T, S: Get<u32>> Eq for BoundedSlice<'a, T, S> where T: Eq {

}

impl<T, BoundSelf, BoundRhs> PartialOrd<BoundedVec<T, BoundRhs>> for BoundedVec<T, BoundSelf> where T: PartialOrd, BoundSelf: Get<u32>, BoundRhs: Get<u32> {
    fn partial_cmp(&self, other: &BoundedVec<T, BoundRhs>) -> (r: Option<Ordering>) {
        slices_compared(self.deref().as_slice(), other.deref().as_slice())
    }
}

impl<T, BoundSelf, BoundRhs> vstd::std_specs::cmp::PartialOrdSpecImpl<BoundedVec<T, BoundRhs>> for BoundedVec<T, BoundSelf> where T: PartialOrd, BoundSelf: Get<u32>, BoundRhs: Get<u32> {
    open spec fn obeys_partial_cmp_spec() -> bool {
        T::obeys_partial_cmp_spec()
    }

    open spec fn partial_cmp_spec(&self, other: &BoundedVec<T, BoundRhs>) -> Option<Ordering> {
        lexicographic(self@, other@)
    }
}

impl<'a, T, BoundSelf, BoundRhs> PartialOrd<BoundedSlice<'a, T, BoundRhs>> for BoundedVec<T, BoundSelf> where T: PartialOrd, BoundSelf: Get<u32>, BoundRhs: Get<u32> {
    fn partial_cmp(&self, other: &BoundedSlice<'a, T, BoundRhs>) -> (r: Option<Ordering>) {
        slices_compared(self.deref().as_slice(), other.as_slice())
    }
}

impl<'a, T, BoundSelf, BoundRhs> vstd::std_specs::cmp::PartialOrdSpecImpl<BoundedSlice<'a, T, BoundRhs>> for BoundedVec<T, BoundSelf> where T: PartialOrd, BoundSelf: Get<u32>, BoundRhs: Get<u32> {
    open spec fn obeys_partial_cmp_spec() -> bool {
        T::obeys_partial_cmp_spec()
    }

    open spec fn partial_cmp_spec(&self, other: &BoundedSlice<'a, T, BoundRhs>) -> Option<
        Ordering,
    > {
        lexicographic(self@, other@)
    }
}

impl<'a, T, BoundSelf, BoundRhs> PartialOrd<BoundedSlice<'a, T, BoundRhs>> for BoundedSlice<'a, T, BoundSelf> where T: PartialOrd, BoundSelf: Get<u32>, BoundRhs: Get<u32> {
    fn partial_cmp(&self, other: &BoundedSlice<'a, T, BoundRhs>) -> (r: Option<Ordering>) {
        slices_compared(self.as_slice(), other.as_slice())
    }
}

impl<'a, T, BoundSelf, BoundRhs> vstd::std_specs::cmp::PartialOrdSpecImpl<BoundedSlice<'a, T, BoundRhs>> for BoundedSlice<'a, T, BoundSelf> where T: PartialOrd, BoundSelf: Get<u32>, BoundRhs: Get<u32> {
    open spec fn obeys_partial_cmp_spec() -> bool {
        T::obeys_partial_cmp_spec()
    }

    open spec fn partial_cmp_spec(&self, other: &BoundedSlice<'a, T, BoundRhs>) -> Option<
        Ordering,
    > {
        lexicographic(self@, other@)
    }
}

impl<'a, T, BoundSelf, BoundRhs> PartialOrd<BoundedVec<T, BoundRhs>> for BoundedSlice<'a, T, BoundSelf> where T: PartialOrd, BoundSelf: Get<u32>, BoundRhs: Get<u32> {
    fn partial_cmp(&self, other: &BoundedVec<T, BoundRhs>) -> (r: Option<Ordering>) {
        slices_compared(self.as_slice(), other.deref().as_slice())
    }
}

impl<'a, T, BoundSelf, BoundRhs> vstd::std_specs::cmp::PartialOrdSpecImpl<BoundedVec<T, BoundRhs>> for BoundedSlice<'a, T, BoundSelf> where T: PartialOrd, BoundSelf: Get<u32>, BoundRhs: Get<u32> {
    open spec fn obeys_partial_cmp_spec() -> bool {
        T::obeys_partial_cmp_spec()
    }

    open spec fn partial_cmp_spec(&self, other: &BoundedVec<T, BoundRhs>) -> Option<Ordering> {
        lexicographic(self@, other@)
    }
}

impl<T: Ord, Bound: Get<u32>> Ord for BoundedVec<T, Bound> {
    /// `Ord::cmp` of the two vectors of elements, which the standard library
    /// compares lexicographically. Nothing is stated of the result beyond what
    /// the trait states of every `cmp`.
    #[verifier::external_body]
    fn cmp(&self, other: &Self) -> (r: Ordering) {
        self.0.cmp(&other.0)
    }
}

impl<'a, T: Ord, Bound: Get<u32>> Ord for BoundedSlice<'a, T, Bound> {
    /// `Ord::cmp` of the two slices of elements, which the standard library
    /// compares lexicographically. Nothing is stated of the result beyond what
    /// the trait states of every `cmp`.
    #[verifier::external_body]
    fn cmp(&self, other: &Self) -> (r: Ordering) {
        self.as_slice().cmp(other.as_slice())
    }
}

// Hashing goes by the elements alone, so that the type of the bound needs no
// hash of its own.
impl<T: core::hash::Hash, S: Get<u32>> core::hash::Hash for BoundedVec<T, S> {
    /// `Hash::hash` of the vector of elements. Nothing is stated of what is
    /// fed to `state`.
    #[verifier::external_body]
    fn hash<H: core::hash::Hasher>(&self, state: &mut H) {
        self.0.hash(state);
    }
}

impl<'a, T: core::hash::Hash, S: Get<u32>> core::hash::Hash for BoundedSlice<'a, T, S> {
    /// `Hash::hash` of the slice of elements. Nothing is stated of what is
    /// fed to `state`.
    #[verifier::external_body]
    fn hash<H: core::hash::Hasher>(&self, state: &mut H) {
        self.as_slice().hash(state);
    }
}

} // verus!
