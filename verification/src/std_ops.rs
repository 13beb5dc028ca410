//! Contracts for the few operations of the standard library that the
//! containers call and that `vstd` leaves without a specification.
//!
//! Nothing here is proved: each function states what the standard library
//! documents of the call that its body makes.

use crate::model::{reads_at, retained, rotated_left, rotated_right};
use core::ops::IndexMut;
use core::slice::SliceIndex;
use vstd::prelude::*;
use vstd::slice::SliceIndexSpec;
use vstd::std_specs::iter::IteratorSpec;

verus! {

/// `<[T]>::rotate_left`: the first `mid` elements move to the end, the others
/// to the front, each group in its order. The standard library panics where
/// `mid` exceeds the length, which `requires` leaves out.
#[verifier::external_body]
pub(crate) fn rotate_left<T>(s: &mut [T], mid: usize)
    requires
        mid <= old(s)@.len(),
    ensures
        final(s)@ == rotated_left(old(s)@, mid as int),
{
    s.rotate_left(mid)
}

/// `<[T]>::rotate_right`: the last `k` elements move to the front, the others
/// to the end, each group in its order. The standard library panics where `k`
/// exceeds the length, which `requires` leaves out.
#[verifier::external_body]
pub(crate) fn rotate_right<T>(s: &mut [T], k: usize)
    requires
        k <= old(s)@.len(),
    ensures
        final(s)@ == rotated_right(old(s)@, k as int),
{
    s.rotate_right(k)
}

/// `Vec::retain`: `keep` is asked once of each element, in order, and the
/// elements for which it answered `true` stay, in their order.
#[verifier::external_body]
pub(crate) fn retain<T, F: FnMut(&T) -> bool>(v: &mut Vec<T>, keep: F)
    requires
        forall|x: &T| #[trigger] call_requires(keep, (x,)),
    ensures
        exists|kept: Seq<bool>|
            {
                &&& kept.len() == old(v)@.len()
                &&& forall|i: int|
                    0 <= i < kept.len() ==> call_ensures(keep, (&old(v)@[i],), #[trigger] kept[i])
                &&& final(v)@ == retained(old(v)@, kept)
            },
{
    v.retain(keep)
}

/// `<Vec<T> as AsMut<[T]>>::as_mut`: the elements as a slice through which
/// they can be changed. A slice cannot grow or shrink, so the vector ends up
/// with as many elements, those that the slice was left with. The call itself
/// cannot fail.
#[verifier::external_body]
pub(crate) fn as_mut<T>(v: &mut Vec<T>) -> (s: &mut [T])
    ensures
        s@ == old(v)@,
        final(s)@ == final(v)@,
        final(v)@.len() == old(v)@.len(),
    no_unwind
{
    v.as_mut()
}

/// `<Vec<T> as IndexMut<I>>::index_mut`: the part of the elements that `index`
/// names, the same that `index` gives for reading, for change in place. No
/// element is added or removed, so the vector ends up with as many elements,
/// and what `index` names in it then is the part as it was left. The standard
/// library panics where `index` is out of range, which `requires` leaves out.
#[verifier::external_body]
pub(crate) fn index_mut<T, I: SliceIndex<[T]>>(v: &mut Vec<T>, index: I) -> (part: &mut I::Output)
    requires
        forall|elements: &[T]| #[trigger] elements@ == old(v)@ ==> index.index_req(elements),
    ensures
        exists|read: &I::Output| #[trigger] reads_at(old(v)@, index, read) && &*part == read,
        final(v)@.len() == old(v)@.len(),
        exists|read: &I::Output| #[trigger]
            reads_at(final(v)@, index, read) && &*final(part) == read,
    no_unwind
{
    v.index_mut(index)
}

/// The iterator that `slice::iter_mut` returns.
#[verifier::external_type_specification]
#[verifier::external_body]
#[verifier::reject_recursive_types(T)]
pub struct ExIterMut<'a, T: 'a>(core::slice::IterMut<'a, T>);

/// `slice::iter_mut`: an iterator that yields all the elements from start to
/// end, each as a reference through which it can be changed. It can replace
/// elements, not add or remove any, so the slice ends up with as many
/// elements, each as its reference was left. The call itself cannot fail.
#[verifier::external_body]
pub(crate) fn iter_mut<T>(v: &mut Vec<T>) -> (r: core::slice::IterMut<'_, T>)
    ensures
        r.obeys_prophetic_iter_laws(),
        r.remaining().len() == old(v)@.len(),
        forall|i: int| 0 <= i < old(v)@.len() ==> *(#[trigger] r.remaining()[i]) == old(v)@[i],
        final(v)@.len() == old(v)@.len(),
        forall|i: int|
            0 <= i < old(v)@.len() ==> #[trigger] final(v)@[i] == *final(r.remaining()[i]),
    no_unwind
{
    v.iter_mut()
}

/// `ExactSizeIterator::len`: the number of items that the producer says it has
/// left. The trait is safe to implement, so nothing holds the answer to what
/// the producer goes on to yield, and the contract promises nothing.
#[verifier::external_body]
pub(crate) fn reported_len<I: ExactSizeIterator>(producer: &I) -> (n: usize) {
    producer.len()
}

/// `Iterator::size_hint`, its lower bound: the least number of items that the
/// producer says it has left; of a producer of known size, their number.
/// Nothing holds the answer to what the producer goes on to yield, and the
/// contract promises nothing.
#[verifier::external_body]
pub(crate) fn least_len<I: Iterator>(producer: &I) -> (n: usize) {
    producer.size_hint().0
}

} // verus!
