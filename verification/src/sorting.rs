//! Sorting a bounded vector. Sorting moves elements and never changes their
//! number, so the bound holds whatever the order.

use crate::bound::Get;
use crate::bounded_vec::BoundedVec;
use core::cmp::Ordering;
use vstd::prelude::*;
use vstd::std_specs::cmp::OrdSpec;

verus! {

/// `after` holds the elements of `before` in another order: `from` says for
/// each position of `after` where its element stood in `before`, and no two
/// positions say the same.
pub open spec fn rearranged<T>(before: Seq<T>, after: Seq<T>, from: Seq<int>) -> bool {
    &&& after.len() == before.len()
    &&& from.len() == before.len()
    &&& forall|k: int|
        0 <= k < from.len() ==> 0 <= #[trigger] from[k] < before.len() && after[k]
            == before[from[k]]
    &&& forall|i: int, j: int|
        0 <= i < j < from.len() ==> #[trigger] from[i] != #[trigger] from[j]
}

/// `after` holds the elements of `before` in another order, in which elements
/// that `order` finds equal stand as they stood in `before`.
pub open spec fn rearranged_stably<T>(
    before: Seq<T>,
    after: Seq<T>,
    order: spec_fn(T, T) -> Ordering,
) -> bool {
    exists|from: Seq<int>|
        {
            &&& #[trigger] rearranged(before, after, from)
            &&& forall|i: int, j: int|
                #![trigger from[i], from[j]]
                0 <= i < j < after.len() && order(after[i], after[j]) == Ordering::Equal
                    ==> from[i] < from[j]
        }
}

/// No element of `s` is greater than one that stands behind it.
pub open spec fn ascending<T: Ord>(s: Seq<T>) -> bool {
    forall|i: int, j: int|
        #![trigger s[i], s[j]]
        0 <= i <= j < s.len() ==> s[i].cmp_spec(&s[j]) != Ordering::Greater
}

/// `order` is a total order: of two elements exactly one is the lesser or
/// they are equal, whichever is asked first, and each of the three answers is
/// transitive.
pub open spec fn is_total_order<T>(order: spec_fn(T, T) -> Ordering) -> bool {
    &&& forall|a: T, b: T|
        (#[trigger] order(a, b) == Ordering::Less) <==> (#[trigger] order(b, a)
            == Ordering::Greater)
    &&& forall|a: T, b: T|
        (#[trigger] order(a, b) == Ordering::Equal) <==> (#[trigger] order(b, a)
            == Ordering::Equal)
    &&& forall|a: T, b: T, c: T|
        #[trigger] order(a, b) == #[trigger] order(b, c) ==> order(a, c) == order(a, b)
}

/// `compare` can be called on every pair of elements and answers by the total
/// order `order`.
pub open spec fn compares_by<T, F: FnMut(&T, &T) -> Ordering>(
    compare: F,
    order: spec_fn(T, T) -> Ordering,
) -> bool {
    &&& is_total_order(order)
    &&& forall|a: &T, b: &T| #[trigger] call_requires(compare, (a, b))
    &&& forall|a: &T, b: &T, o: Ordering| #[trigger]
        call_ensures(compare, (a, b), o) ==> o == order(*a, *b)
}

/// `order` finds no element of `s` greater than one that stands behind it.
pub open spec fn ascending_by<T>(s: Seq<T>, order: spec_fn(T, T) -> Ordering) -> bool {
    forall|i: int, j: int|
        #![trigger s[i], s[j]]
        0 <= i <= j < s.len() ==> order(s[i], s[j]) != Ordering::Greater
}

/// `key` can be called on every element and gives each element one key only.
pub open spec fn keys_by<T, K, F: FnMut(&T) -> K>(key: F, key_of: spec_fn(T) -> K) -> bool {
    &&& forall|a: &T| #[trigger] call_requires(key, (a,))
    &&& forall|a: &T, k: K| #[trigger] call_ensures(key, (a,), k) ==> k == key_of(*a)
}

/// `key_of` gives no element of `s` a greater key than one that stands behind
/// it.
pub open spec fn ascending_by_key<T, K: Ord>(s: Seq<T>, key_of: spec_fn(T) -> K) -> bool {
    forall|i: int, j: int|
        #![trigger s[i], s[j]]
        0 <= i <= j < s.len() ==> key_of(s[i]).cmp_spec(&key_of(s[j])) != Ordering::Greater
}

/// `<[T]>::sort`: the same elements, in ascending order, equal ones as they
/// stood. The standard library may panic where the order of `T` is not total,
/// which `requires` leaves out.
#[verifier::external_body]
fn sort_slice<T: Ord>(s: &mut [T])
    requires
        vstd::laws_cmp::obeys_cmp::<T>(),
    ensures
        final(s)@.to_multiset() == old(s)@.to_multiset(),
        final(s)@.len() == old(s)@.len(),
        ascending(final(s)@),
        rearranged_stably(old(s)@, final(s)@, |a: T, b: T| a.cmp_spec(&b)),
{
    s.sort()
}

/// `<[T]>::sort_by`: the same elements, in ascending order as `compare` sees
/// it, equal ones as they stood. The standard library may panic where
/// `compare` is no total order, which `requires` leaves out.
#[verifier::external_body]
fn sort_slice_by<T, F: FnMut(&T, &T) -> Ordering>(s: &mut [T], compare: F)
    requires
        exists|order: spec_fn(T, T) -> Ordering| compares_by(compare, order),
    ensures
        final(s)@.to_multiset() == old(s)@.to_multiset(),
        final(s)@.len() == old(s)@.len(),
        forall|order: spec_fn(T, T) -> Ordering| #[trigger]
            compares_by(compare, order) ==> ascending_by(final(s)@, order) && rearranged_stably(
                old(s)@,
                final(s)@,
                order,
            ),
{
    s.sort_by(compare)
}

/// `<[T]>::sort_by_key`: the same elements, in ascending order of the keys
/// that `key` gives them, those of equal keys as they stood. The standard
/// library may panic where the order of the keys is not total, which
/// `requires` leaves out.
#[verifier::external_body]
fn sort_slice_by_key<T, K: Ord, F: FnMut(&T) -> K>(s: &mut [T], key: F)
    requires
        vstd::laws_cmp::obeys_cmp::<K>(),
        exists|key_of: spec_fn(T) -> K| keys_by(key, key_of),
    ensures
        final(s)@.to_multiset() == old(s)@.to_multiset(),
        final(s)@.len() == old(s)@.len(),
        forall|key_of: spec_fn(T) -> K| #[trigger]
            keys_by(key, key_of) ==> ascending_by_key(final(s)@, key_of) && rearranged_stably(
                old(s)@,
                final(s)@,
                |a: T, b: T| key_of(a).cmp_spec(&key_of(b)),
            ),
{
    s.sort_by_key(key)
}

impl<T, S: Get<u32>> BoundedVec<T, S> {
    /// Exactly the same semantics as `slice::sort_by`.
    ///
    /// `compare` has to be a total order.
    pub fn sort_by<F>(&mut self, compare: F) where F: FnMut(&T, &T) -> Ordering
        requires
            exists|order: spec_fn(T, T) -> Ordering| compares_by(compare, order),
        ensures
            final(self)@.to_multiset() == old(self)@.to_multiset(),
            final(self)@.len() == old(self)@.len(),
            forall|order: spec_fn(T, T) -> Ordering| #[trigger]
                compares_by(compare, order) ==> ascending_by(final(self)@, order)
                    && rearranged_stably(old(self)@, final(self)@, order),
    {
        let mut inner = self.take_inner();
        sort_slice_by(inner.as_mut_slice(), compare);
        self.put_inner(inner);
    }

    /// Exactly the same semantics as `slice::sort_by_key`.
    ///
    /// The order of the keys has to be total, and `f` has to give each element
    /// one key only.
    pub fn sort_by_key<K, F>(&mut self, f: F) where F: FnMut(&T) -> K, K: Ord
        requires
            vstd::laws_cmp::obeys_cmp::<K>(),
            exists|key_of: spec_fn(T) -> K| keys_by(f, key_of),
        ensures
            final(self)@.to_multiset() == old(self)@.to_multiset(),
            final(self)@.len() == old(self)@.len(),
            forall|key_of: spec_fn(T) -> K| #[trigger]
                keys_by(f, key_of) ==> ascending_by_key(final(self)@, key_of)
                    && rearranged_stably(
                    old(self)@,
                    final(self)@,
                    |a: T, b: T| key_of(a).cmp_spec(&key_of(b)),
                ),
    {
        let mut inner = self.take_inner();
        sort_slice_by_key(inner.as_mut_slice(), f);
        self.put_inner(inner);
    }

    /// Exactly the same semantics as `slice::sort`.
    ///
    /// The order of `T` has to be total.
    pub fn sort(&mut self) where T: Ord
        requires
            vstd::laws_cmp::obeys_cmp::<T>(),
        ensures
            final(self)@.to_multiset() == old(self)@.to_multiset(),
            final(self)@.len() == old(self)@.len(),
            ascending(final(self)@),
            rearranged_stably(old(self)@, final(self)@, |a: T, b: T| a.cmp_spec(&b)),
    {
        let mut inner = self.take_inner();
        sort_slice(inner.as_mut_slice());
        self.put_inner(inner);
    }
}

} // verus!
