//! The owning bounded sequence.

use crate::bound::Get;
use crate::bounded_slice::BoundedSlice;
use crate::laws::lemma_retained_len;
use crate::model::{
    checked, force_pushed, keep_left_inserts, keep_right_inserts, kept_left, kept_right, min_len,
    reads_at, retained, rotated_left, rotated_right, slid, slide_moves, truncated, with_range, Checked,
};
use crate::std_ops;
use core::marker::PhantomData;
use vstd::prelude::*;
use vstd::std_specs::iter::IteratorSpec;

verus! {

/// A vector that never holds more than `S::get()` elements.
///
/// Its view is the sequence of its elements. Every value of the type is within
/// its bound: the constructors establish this and no method gives it up.
pub struct BoundedVec<T, S: Get<u32>>(pub(crate) Vec<T>, pub(crate) PhantomData<S>);

impl<T, S: Get<u32>> View for BoundedVec<T, S> {
    type V = Seq<T>;

    closed spec fn view(&self) -> Seq<T> {
        self.0@
    }
}

/// Create an object through truncation.
pub trait TruncateFrom<T>: Sized {
    /// Create an object through truncation.
    fn truncate_from(unbound: T) -> Self;
}

/// Rotates the part of `v` from `start` up to `end` to the left by `mid`, in
/// place, and leaves the rest of `v` as it is.
fn rotate_range_left<T>(v: &mut Vec<T>, start: usize, end: usize, mid: usize)
    requires
        start <= end <= old(v)@.len(),
        mid <= end - start,
    ensures
        final(v)@ == with_range(
            old(v)@,
            start as int,
            end as int,
            rotated_left(old(v)@.subrange(start as int, end as int), mid as int),
        ),
{
    let whole = v.as_mut_slice();
    let (_, rest) = whole.split_at_mut(start);
    let (part, _) = rest.split_at_mut(end - start);
    std_ops::rotate_left(part, mid);
}

/// Rotates the part of `v` from `start` up to `end` to the right by `k`, in
/// place, and leaves the rest of `v` as it is.
fn rotate_range_right<T>(v: &mut Vec<T>, start: usize, end: usize, k: usize)
    requires
        start <= end <= old(v)@.len(),
        k <= end - start,
    ensures
        final(v)@ == with_range(
            old(v)@,
            start as int,
            end as int,
            rotated_right(old(v)@.subrange(start as int, end as int), k as int),
        ),
{
    let whole = v.as_mut_slice();
    let (_, rest) = whole.split_at_mut(start);
    let (part, _) = rest.split_at_mut(end - start);
    std_ops::rotate_right(part, k);
}

impl<T, S: Get<u32>> BoundedVec<T, S> {
    /// The invariant of the type: the length is within the bound.
    #[verifier::type_invariant]
    pub open spec fn within_bound(self) -> bool {
        self@.len() <= Self::spec_bound()
    }

    /// The bound, as contracts see it.
    pub open spec fn spec_bound() -> nat {
        S::spec_get() as nat
    }

    /// The vector that holds the elements.
    pub closed spec fn spec_inner(self) -> Vec<T> {
        self.0
    }

    /// Create `Self` with no items.
    pub fn new() -> (r: Self)
        ensures
            r@ == Seq::<T>::empty(),
    {
        BoundedVec(Vec::new(), PhantomData)
    }

    /// Create `Self` from `t`, which the caller knows to be within the bound.
    fn unchecked_from(t: Vec<T>) -> (r: Self)
        requires
            t@.len() <= Self::spec_bound(),
        ensures
            r == BoundedVec::<T, S>(t, PhantomData),
            r@ == t@,
    {
        BoundedVec(t, PhantomData)
    }

    /// Moves the elements out and leaves `self` empty.
    pub(crate) fn take_inner(&mut self) -> (inner: Vec<T>)
        ensures
            inner@ == old(self)@,
            inner@.len() <= Self::spec_bound(),
            final(self)@ == Seq::<T>::empty(),
    {
        proof {
            use_type_invariant(&*self);
        }
        let mut inner = Vec::new();
        core::mem::swap(&mut inner, &mut self.0);
        inner
    }

    /// Puts `inner` in the place of the elements.
    pub(crate) fn put_inner(&mut self, inner: Vec<T>)
        requires
            inner@.len() <= Self::spec_bound(),
        ensures
            final(self)@ == inner@,
    {
        self.0 = inner;
    }

    /// The number of elements, which is never above the bound.
    pub fn len(&self) -> (n: usize)
        ensures
            n == self@.len(),
            n <= Self::spec_bound(),
    {
        proof {
            use_type_invariant(self);
        }
        self.0.len()
    }

    /// Get the bound of the type in `usize`.
    pub fn bound() -> (b: usize)
        ensures
            b == Self::spec_bound(),
    {
        S::get() as usize
    }

    /// Returns true if this collection is full.
    pub fn is_full(&self) -> (full: bool)
        ensures
            full == (self@.len() == Self::spec_bound()),
    {
        self.len() >= Self::bound()
    }

    /// Exactly the same semantics as `Vec::clear`.
    pub fn clear(&mut self)
        ensures
            final(self)@ == Seq::<T>::empty(),
    {
        let mut inner = self.take_inner();
        inner.clear();
        self.0 = inner;
    }

    /// Consume self, and return the inner `Vec`, which from then on can be
    /// altered in an arbitrary way.
    pub fn into_inner(self) -> (inner: Vec<T>)
        ensures
            inner == self.spec_inner(),
            inner@ == self@,
            inner@.len() <= Self::spec_bound(),
    {
        proof {
            use_type_invariant(&self);
        }
        self.0
    }

    /// Exactly the same semantics as `Vec::remove`.
    ///
    /// `index` has to be in bounds.
    pub fn remove(&mut self, index: usize) -> (element: T)
        requires
            index < old(self)@.len(),
        ensures
            element == old(self)@[index as int],
            final(self)@ == old(self)@.remove(index as int),
    {
        let mut inner = self.take_inner();
        let element = inner.remove(index);
        self.0 = inner;
        element
    }

    /// Exactly the same semantics as `Vec::swap_remove`: the last element
    /// takes the place of the one that leaves.
    ///
    /// `index` has to be in bounds.
    pub fn swap_remove(&mut self, index: usize) -> (element: T)
        requires
            index < old(self)@.len(),
        ensures
            element == old(self)@[index as int],
            final(self)@ == old(self)@.update(index as int, old(self)@.last()).drop_last(),
    {
        let mut inner = self.take_inner();
        let element = inner.swap_remove(index);
        self.0 = inner;
        element
    }

    /// Exactly the same semantics as `Vec::retain`.
    ///
    /// `f` is asked once of each element, in order.
    pub fn retain<F>(&mut self, f: F) where F: FnMut(&T) -> bool
        requires
            forall|x: &T| #[trigger] call_requires(f, (x,)),
        ensures
            exists|kept: Seq<bool>|
                {
                    &&& kept.len() == old(self)@.len()
                    &&& forall|i: int|
                        0 <= i < kept.len() ==> call_ensures(
                            f,
                            (&old(self)@[i],),
                            #[trigger] kept[i],
                        )
                    &&& final(self)@ == retained(old(self)@, kept)
                },
            final(self)@.len() <= old(self)@.len(),
    {
        let mut inner = self.take_inner();
        let ghost before = inner@;
        std_ops::retain(&mut inner, f);
        proof {
            let kept = choose|kept: Seq<bool>|
                {
                    &&& kept.len() == before.len()
                    &&& forall|i: int|
                        0 <= i < kept.len() ==> call_ensures(f, (&before[i],), #[trigger] kept[i])
                    &&& inner@ == retained(before, kept)
                };
            lemma_retained_len(before, kept);
        }
        self.0 = inner;
    }

    /// All the elements.
    pub fn as_slice(&self) -> (elements: &[T])
        ensures
            elements@ == self@,
            elements@.len() <= Self::spec_bound(),
    {
        proof {
            use_type_invariant(self);
        }
        self.0.as_slice()
    }

    /// Exactly the same semantics as `slice::iter_mut`: the iterator yields
    /// all the elements from start to end, each as a reference through which
    /// it can be changed. Their number stays, and each ends up as its
    /// reference was left.
    pub fn iter_mut(&mut self) -> (r: core::slice::IterMut<'_, T>)
        ensures
            r.obeys_prophetic_iter_laws(),
            r.remaining().len() == old(self)@.len(),
            forall|i: int|
                0 <= i < old(self)@.len() ==> *(#[trigger] r.remaining()[i]) == old(self)@[i],
            final(self)@.len() == old(self)@.len(),
            forall|i: int|
                0 <= i < old(self)@.len() ==> #[trigger] final(self)@[i]
                    == *final(r.remaining()[i]),
    {
        proof {
            use_type_invariant(&*self);
        }
        std_ops::iter_mut(&mut self.0)
    }

    /// The semantics of `Vec::drain` with the iterator used up: the elements
    /// of `range` leave, in their order, and the others close up.
    ///
    /// `range` has to lie within the vector.
    pub fn drain(&mut self, range: core::ops::Range<usize>) -> (removed: Vec<T>)
        requires
            range.start <= range.end <= old(self)@.len(),
        ensures
            removed@ == old(self)@.subrange(range.start as int, range.end as int),
            final(self)@ == old(self)@.subrange(0, range.start as int) + old(self)@.subrange(
                range.end as int,
                old(self)@.len() as int,
            ),
    {
        let mut inner = self.take_inner();
        let mut behind = inner.split_off(range.end);
        let removed = inner.split_off(range.start);
        inner.append(&mut behind);
        self.0 = inner;
        removed
    }

    /// Exactly the same semantics as `slice::get_mut`, for a single position.
    pub fn get_mut(&mut self, index: usize) -> (slot: Option<&mut T>)
        ensures
            index >= old(self)@.len() ==> slot is None && final(self)@ == old(self)@,
            index < old(self)@.len() ==> slot is Some && *slot.unwrap() == old(self)@[index as int]
                && final(self)@ == old(self)@.update(index as int, *final(slot.unwrap())),
    {
        proof {
            use_type_invariant(&*self);
        }
        if index < self.0.len() {
            Some(&mut self.0[index])
        } else {
            None
        }
    }

    /// Exactly the same semantics as `Vec::truncate`.
    pub fn truncate(&mut self, s: usize)
        ensures
            final(self)@ == truncated(old(self)@, s as int),
    {
        let mut inner = self.take_inner();
        inner.truncate(s);
        self.0 = inner;
    }

    /// Exactly the same semantics as `Vec::pop`.
    pub fn pop(&mut self) -> (element: Option<T>)
        ensures
            old(self)@.len() == 0 ==> element is None && final(self)@ == old(self)@,
            old(self)@.len() > 0 ==> element == Some(old(self)@.last()) && final(self)@ == old(
                self,
            )@.drop_last(),
    {
        let mut inner = self.take_inner();
        let element = inner.pop();
        self.0 = inner;
        element
    }

    /// Exactly the same semantics as `slice::last_mut`.
    pub fn last_mut(&mut self) -> (slot: Option<&mut T>)
        ensures
            old(self)@.len() == 0 ==> slot is None && final(self)@ == old(self)@,
            old(self)@.len() > 0 ==> slot is Some && *slot.unwrap() == old(self)@.last()
                && final(self)@ == old(self)@.update(
                old(self)@.len() - 1,
                *final(slot.unwrap()),
            ),
    {
        proof {
            use_type_invariant(&*self);
        }
        let n = self.0.len();
        if n == 0 {
            None
        } else {
            Some(&mut self.0[n - 1])
        }
    }

    /// The room that is made for `capacity` items: as much as is asked for, and
    /// never more than the bound allows to fill.
    pub fn bounded_capacity(capacity: usize) -> (n: usize)
        ensures
            n == min_len(capacity as int, Self::spec_bound() as int),
    {
        let bound = Self::bound();
        if capacity < bound {
            capacity
        } else {
            bound
        }
    }

    /// Pre-allocate `capacity` items in self.
    ///
    /// If `capacity` is greater than [`Self::bound`], then the minimum of the
    /// two is used: room is asked for [`Self::bounded_capacity`] items.
    pub fn with_bounded_capacity(capacity: usize) -> (r: Self)
        ensures
            r@ == Seq::<T>::empty(),
    {
        BoundedVec(Vec::with_capacity(Self::bounded_capacity(capacity)), PhantomData)
    }

    /// Allocate self with the maximum possible capacity.
    pub fn with_max_capacity() -> (r: Self)
        ensures
            r@ == Seq::<T>::empty(),
    {
        Self::with_bounded_capacity(Self::bound())
    }

    /// Consume and truncate the vector `v` in order to create a new instance
    /// of `Self` from it.
    pub fn truncate_from(v: Vec<T>) -> (r: Self)
        ensures
            r@ == truncated(v@, Self::spec_bound() as int),
    {
        let mut v = v;
        v.truncate(Self::bound());
        Self::unchecked_from(v)
    }

    /// Forces the insertion of `element` into `self` retaining all items with
    /// index at least `index`.
    ///
    /// If `index == 0` and `self.len() == Self::bound()`, then this is a no-op.
    ///
    /// If `Self::bound() < index` or `self.len() < index`, then this is also a no-op.
    ///
    /// Returns `Ok(maybe_removed)` if the item was inserted, where
    /// `maybe_removed` is `Some(removed)` if an item was removed to make room
    /// for the new one. Returns `Err(element)` if `element` cannot be inserted.
    pub fn force_insert_keep_right(&mut self, index: usize, element: T) -> (r: Result<
        Option<T>,
        T,
    >)
        ensures
            r is Ok <==> keep_right_inserts(
                old(self)@.len() as int,
                Self::spec_bound() as int,
                index as int,
            ),
            r is Err ==> r == Err::<Option<T>, T>(element) && final(self)@ == old(self)@,
            r is Ok ==> final(self)@ == kept_right(
                old(self)@,
                Self::spec_bound() as int,
                index as int,
                element,
            ),
            r is Ok ==> r->Ok_0 == if old(self)@.len() < Self::spec_bound() {
                None
            } else {
                Some(old(self)@[0])
            },
            final(self)@.len() <= Self::spec_bound(),
    {
        proof {
            use_type_invariant(&*self);
        }
        let mut element = element;
        // Check against panics.
        if Self::bound() < index || self.len() < index {
            Err(element)
        } else if self.len() < Self::bound() {
            // Cannot panic since self.len() >= index;
            let mut inner = self.take_inner();
            inner.insert(index, element);
            self.0 = inner;
            Ok(None)
        } else {
            if index == 0 {
                return Err(element);
            }
            let mut inner = self.take_inner();
            core::mem::swap(&mut inner[0], &mut element);
            // `[0..index]` is in range since self.len() >= index, and holds
            // at least 1 element to rotate.
            rotate_range_left(&mut inner, 0, index, 1);
            self.0 = inner;
            Ok(Some(element))
        }
    }

    /// Forces the insertion of `element` into `self` retaining all items with
    /// index at most `index`.
    ///
    /// If `index == Self::bound()` and `self.len() == Self::bound()`, then this is a no-op.
    ///
    /// If `Self::bound() < index` or `self.len() < index`, then this is also a no-op.
    ///
    /// Returns `Ok(maybe_removed)` if the item was inserted, where
    /// `maybe_removed` is `Some(removed)` if an item was removed to make room
    /// for the new one. Returns `Err(element)` if `element` cannot be inserted.
    pub fn force_insert_keep_left(&mut self, index: usize, element: T) -> (r: Result<
        Option<T>,
        T,
    >)
        ensures
            r is Ok <==> keep_left_inserts(
                old(self)@.len() as int,
                Self::spec_bound() as int,
                index as int,
            ),
            r is Err ==> r == Err::<Option<T>, T>(element) && final(self)@ == old(self)@,
            r is Ok ==> final(self)@ == kept_left(
                old(self)@,
                Self::spec_bound() as int,
                index as int,
                element,
            ),
            r is Ok ==> r->Ok_0 == if old(self)@.len() < Self::spec_bound() {
                None
            } else {
                Some(old(self)@.last())
            },
            final(self)@.len() <= Self::spec_bound(),
    {
        proof {
            use_type_invariant(&*self);
        }
        // Check against panics.
        if Self::bound() < index || self.len() < index || Self::bound() == 0 {
            return Err(element);
        }
        // Noop condition.
        if Self::bound() == index && self.len() <= Self::bound() {
            return Err(element);
        }
        let full = self.is_full();
        let mut inner = self.take_inner();
        let maybe_removed = if full {
            // defensive-only: since we are at capacity, this is a noop.
            inner.truncate(Self::bound());
            // if we truncate anything, it will be the last one.
            inner.pop()
        } else {
            None
        };

        // Cannot panic since `self.len() >= index`;
        inner.insert(index, element);
        self.0 = inner;
        Ok(maybe_removed)
    }

    /// Move the position of an item from one location to another in the slice.
    ///
    /// Except for the item being moved, the order of the slice remains the same.
    ///
    /// - `index` is the location of the item to be moved.
    /// - `insert_position` is the index of the item in the slice which should
    ///   *immediately follow* the item which is being moved.
    ///
    /// Returns `true` if the operation was successful, otherwise `false` if a noop.
    pub fn slide(&mut self, index: usize, insert_position: usize) -> (moved: bool)
        ensures
            moved == slide_moves(old(self)@.len() as int, index as int, insert_position as int),
            moved ==> final(self)@ == slid(old(self)@, index as int, insert_position as int),
            !moved ==> final(self)@ == old(self)@,
            final(self)@.len() == old(self)@.len(),
    {
        // Check against panics.
        if self.len() <= index || self.len() < insert_position || index == usize::MAX {
            return false;
        }
        // Noop conditions.
        if index == insert_position || index + 1 == insert_position {
            return false;
        }
        if insert_position < index && index < self.len() {
            // The item moves towards the front: what stood between the two
            // places moves one to the right.
            let mut inner = self.take_inner();
            rotate_range_right(&mut inner, insert_position, index + 1, 1);
            self.0 = inner;
            return true;
        } else if insert_position > 0 && index + 1 < insert_position {
            // The item moves towards the back: the new position is the one to
            // be inserted *before*, so what stood between moves one to the left.
            let mut inner = self.take_inner();
            rotate_range_left(&mut inner, index, insert_position, 1);
            self.0 = inner;
            return true;
        }
        // All noop conditions are covered above.
        assert(false);
        false
    }

    /// Forces the insertion of `element` into `self` truncating first if necessary.
    ///
    /// Infallible, but if the bound is zero, then it's a no-op.
    pub fn force_push(&mut self, element: T)
        ensures
            final(self)@ == force_pushed(old(self)@, Self::spec_bound() as int, element),
            final(self)@.len() == min_len(Self::spec_bound() as int, old(self)@.len() as int + 1),
    {
        proof {
            use_type_invariant(&*self);
        }
        if Self::bound() > 0 {
            let mut inner = self.take_inner();
            inner.truncate(Self::bound() - 1);
            inner.push(element);
            self.0 = inner;
        }
    }

    /// Same as `Vec::resize`, but if `size` is more than [`Self::bound`], then
    /// [`Self::bound`] is used.
    pub fn bounded_resize(&mut self, size: usize, value: T) where T: Clone
        ensures
            final(self)@.len() == min_len(size as int, Self::spec_bound() as int),
            final(self)@.len() <= old(self)@.len() ==> final(self)@ == old(self)@.subrange(
                0,
                final(self)@.len() as int,
            ),
            final(self)@.len() > old(self)@.len() ==> final(self)@.subrange(
                0,
                old(self)@.len() as int,
            ) == old(self)@,
            forall|i: int|
                old(self)@.len() <= i < final(self)@.len() ==> cloned::<T>(
                    value,
                    #[trigger] final(self)@[i],
                ),
    {
        let bound = Self::bound();
        let size = if size < bound {
            size
        } else {
            bound
        };
        let mut inner = self.take_inner();
        inner.resize(size, value);
        self.0 = inner;
    }

    /// Exactly the same semantics as `Vec::append`, but returns an error and
    /// does nothing if the length of the outcome is larger than the bound.
    pub fn try_append(&mut self, other: &mut Vec<T>) -> (r: Result<(), ()>)
        ensures
            r is Ok <==> old(self)@.len() + old(other)@.len() <= Self::spec_bound(),
            r is Ok ==> final(self)@ == old(self)@ + old(other)@ && final(other)@
                == Seq::<T>::empty(),
            r is Err ==> final(self)@ == old(self)@ && final(other)@ == old(other)@,
            final(self)@ == checked(
                old(self)@,
                Self::spec_bound() as int,
                Checked::Append(old(other)@),
            ),
            final(self)@.len() <= Self::spec_bound(),
    {
        // A sum beyond `usize` is beyond the bound too.
        let fits = match other.len().checked_add(self.len()) {
            Some(total) => total <= Self::bound(),
            None => false,
        };
        if fits {
            let mut inner = self.take_inner();
            inner.append(other);
            self.0 = inner;
            Ok(())
        } else {
            Err(())
        }
    }

    /// Exactly the same semantics as `Vec::extend`, but returns an error and
    /// does nothing if the length of the outcome is larger than the bound.
    ///
    /// The length that `with` reports decides first: where it does not fit,
    /// no item is taken from `with`, which comes back as it was handed over.
    /// What follows the report is [`Self::try_extend_reported`].
    pub fn try_extend<I>(&mut self, with: I) -> (r: Result<(), I>) where
        I: Iterator<Item = T> + ExactSizeIterator,

        ensures
            r is Err ==> final(self)@ == old(self)@,
            r is Ok ==> old(self)@.is_prefix_of(final(self)@),
            r is Ok && with.obeys_prophetic_iter_laws() ==> final(self)@ == old(self)@
                + with.remaining(),
            with.obeys_prophetic_iter_laws() && old(self)@.len() + with.remaining().len()
                > Self::spec_bound() ==> r is Err,
            r is Ok && with.obeys_prophetic_iter_laws() ==> final(self)@ == checked(
                old(self)@,
                Self::spec_bound() as int,
                Checked::Extend(with.remaining()),
            ),
            with.obeys_prophetic_iter_laws() && r is Err ==> r->Err_0 == with || old(self)@.len()
                + with.remaining().len() > Self::spec_bound(),
            final(self)@.len() <= Self::spec_bound(),
    {
        let reported = std_ops::reported_len(&with);
        self.try_extend_reported(reported, with)
    }

    /// What `try_extend` does with a producer once it has reported how many
    /// items it has: appends them all, or refuses and leaves `self` as it is.
    ///
    /// - A report that does not fit is refused at once: no item is taken, and
    ///   the producer comes back as it was handed over.
    /// - A producer that keeps to its report is accepted, and all its items
    ///   are appended in their order.
    /// - A producer that yields more than it reported, and more than fits, is
    ///   refused as well: it comes back as it stands by then, without the
    ///   items that were taken from it.
    pub fn try_extend_reported<I>(&mut self, reported: usize, with: I) -> (r: Result<(), I>) where
        I: Iterator<Item = T>,

        ensures
            reported + old(self)@.len() > Self::spec_bound() ==> r == Err::<(), I>(with),
            with.obeys_prophetic_iter_laws() ==> (r is Ok <==> reported + old(self)@.len()
                <= Self::spec_bound() && old(self)@.len() + with.remaining().len()
                <= Self::spec_bound()),
            r is Err ==> final(self)@ == old(self)@,
            r is Ok ==> old(self)@.is_prefix_of(final(self)@),
            r is Ok && with.obeys_prophetic_iter_laws() ==> final(self)@ == old(self)@
                + with.remaining(),
            r is Ok && with.obeys_prophetic_iter_laws() ==> final(self)@ == checked(
                old(self)@,
                Self::spec_bound() as int,
                Checked::Extend(with.remaining()),
            ),
            r is Err && with.obeys_prophetic_iter_laws() && reported + old(self)@.len()
                <= Self::spec_bound() ==> r->Err_0.remaining() == with.remaining().skip(
                Self::spec_bound() - old(self)@.len() + 1,
            ),
            final(self)@.len() <= Self::spec_bound(),
    {
        // A sum beyond `usize` is beyond the bound too.
        let fits = match reported.checked_add(self.len()) {
            Some(total) => total <= Self::bound(),
            None => false,
        };
        if !fits {
            return Err(with);
        }
        let bound = Self::bound();
        let mut inner = self.take_inner();
        let kept = inner.len();
        inner.reserve(reported);
        let mut items = with;
        loop
            invariant
                bound == Self::spec_bound(),
                kept == old(self)@.len(),
                reported + kept <= bound,
                kept <= inner@.len() <= bound,
                inner@.subrange(0, kept as int) == old(self)@,
                items.obeys_prophetic_iter_laws() == with.obeys_prophetic_iter_laws(),
                items.obeys_prophetic_iter_laws() ==> inner@ + items.remaining() == old(self)@
                    + with.remaining(),
            decreases bound - inner@.len(),
        {
            match items.next() {
                None => {
                    self.0 = inner;
                    return Ok(());
                },
                Some(item) => {
                    if inner.len() >= bound {
                        // More items than were reported, and too many.
                        proof {
                            if with.obeys_prophetic_iter_laws() {
                                let all = old(self)@ + with.remaining();
                                let taken = bound - kept + 1;
                                assert(items.remaining() =~= all.skip(bound + 1));
                                assert(all.skip(bound + 1) =~= with.remaining().skip(taken));
                            }
                        }
                        inner.truncate(kept);
                        self.0 = inner;
                        return Err(items);
                    }
                    inner.push(item);
                },
            }
        }
    }

    /// Consumes self and mutates self via the given `mutate` function.
    ///
    /// If the outcome of mutation is within bounds, `Some(Self)` is returned.
    /// Else, `None` is returned.
    ///
    /// This is essentially a *consuming* shorthand [`Self::into_inner`] ->
    /// `...` -> [`Self::try_from`].
    pub fn try_mutate<F>(self, mutate: F) -> (r: Option<Self>) where F: FnMut(&mut Vec<T>)
        requires
            forall|v: &mut Vec<T>| (*v)@ == self@ ==> #[trigger] call_requires(mutate, (v,)),
        ensures
            exists|v: &mut Vec<T>|
                {
                    &&& (*v)@ == self@
                    &&& #[trigger] call_ensures(mutate, (v,), ())
                    &&& r is Some <==> (*final(v))@.len() <= Self::spec_bound()
                    &&& r is Some ==> r.unwrap()@ == (*final(v))@
                },
    {
        let mut mutate = mutate;
        let mut inner = self.into_inner();
        mutate(&mut inner);
        Self::from_mutated(inner)
    }

    /// What `try_mutate` makes of the vector that the mutation left:
    /// `Some(Self)` with its elements where it is within bounds, else `None`.
    pub fn from_mutated(inner: Vec<T>) -> (r: Option<Self>)
        ensures
            r is Some <==> inner@.len() <= Self::spec_bound(),
            r is Some ==> r.unwrap()@ == inner@,
    {
        if inner.len() <= Self::bound() {
            Some(Self::unchecked_from(inner))
        } else {
            None
        }
    }

    /// Exactly the same semantics as `Vec::insert`, but returns an `Err` (and
    /// is a noop) if the new length of the vector exceeds `S`.
    ///
    /// `index` may not be beyond the length.
    pub fn try_insert(&mut self, index: usize, element: T) -> (r: Result<(), T>)
        requires
            index <= old(self)@.len(),
        ensures
            r is Ok <==> old(self)@.len() < Self::spec_bound(),
            r is Ok ==> final(self)@ == old(self)@.insert(index as int, element),
            r is Err ==> r == Err::<(), T>(element) && final(self)@ == old(self)@,
            final(self)@ == checked(
                old(self)@,
                Self::spec_bound() as int,
                Checked::Insert(index as int, element),
            ),
            final(self)@.len() <= Self::spec_bound(),
    {
        if self.len() < Self::bound() {
            let mut inner = self.take_inner();
            inner.insert(index, element);
            self.0 = inner;
            Ok(())
        } else {
            Err(element)
        }
    }

    /// Exactly the same semantics as `Vec::push`, but returns an `Err` (and is
    /// a noop) if the new length of the vector exceeds `S`.
    pub fn try_push(&mut self, element: T) -> (r: Result<(), T>)
        ensures
            r is Ok <==> old(self)@.len() < Self::spec_bound(),
            r is Ok ==> final(self)@ == old(self)@.push(element),
            r is Err ==> r == Err::<(), T>(element) && final(self)@ == old(self)@,
            final(self)@ == checked(old(self)@, Self::spec_bound() as int, Checked::Push(element)),
            final(self)@.len() <= Self::spec_bound(),
    {
        if self.len() < Self::bound() {
            let mut inner = self.take_inner();
            inner.push(element);
            self.0 = inner;
            Ok(())
        } else {
            Err(element)
        }
    }

    /// Exactly the same semantics as `Vec::rotate_left`, but returns an `Err`
    /// (and is a noop) if `mid` is larger than the current length.
    pub fn try_rotate_left(&mut self, mid: usize) -> (r: Result<(), ()>)
        ensures
            r is Ok <==> mid <= old(self)@.len(),
            r is Ok ==> final(self)@ == rotated_left(old(self)@, mid as int),
            r is Err ==> final(self)@ == old(self)@,
            final(self)@ == checked(
                old(self)@,
                Self::spec_bound() as int,
                Checked::RotateLeft(mid as int),
            ),
            final(self)@.len() <= Self::spec_bound(),
    {
        if mid > self.len() {
            return Err(());
        }
        let mut inner = self.take_inner();
        std_ops::rotate_left(inner.as_mut_slice(), mid);
        self.0 = inner;
        Ok(())
    }

    /// Exactly the same semantics as `Vec::rotate_right`, but returns an `Err`
    /// (and is a noop) if `mid` is larger than the current length.
    pub fn try_rotate_right(&mut self, mid: usize) -> (r: Result<(), ()>)
        ensures
            r is Ok <==> mid <= old(self)@.len(),
            r is Ok ==> final(self)@ == rotated_right(old(self)@, mid as int),
            r is Err ==> final(self)@ == old(self)@,
            final(self)@ == checked(
                old(self)@,
                Self::spec_bound() as int,
                Checked::RotateRight(mid as int),
            ),
            final(self)@.len() <= Self::spec_bound(),
    {
        if mid > self.len() {
            return Err(());
        }
        let mut inner = self.take_inner();
        std_ops::rotate_right(inner.as_mut_slice(), mid);
        self.0 = inner;
        Ok(())
    }
}

impl<T, S: Get<u32>> BoundedVec<T, S> {
    /// Return a [`BoundedSlice`] with the content and bound of [`Self`].
    pub fn as_bounded_slice(&self) -> (r: BoundedSlice<'_, T, S>)
        ensures
            r@ == self@,
    {
        proof {
            use_type_invariant(self);
        }
        BoundedSlice::unchecked_from(self.0.as_slice())
    }
}

impl<T, S: Get<u32>> Default for BoundedVec<T, S> {
    fn default() -> (r: Self)
        ensures
            r@ == Seq::<T>::empty(),
    {
        // the bound cannot be below 0, which is satisfied by an empty vector
        Self::unchecked_from(Vec::new())
    }
}

impl<T: Clone, S: Get<u32>> Clone for BoundedVec<T, S> {
    fn clone(&self) -> (r: Self)
        ensures
            r@.len() == self@.len(),
            forall|i: int| 0 <= i < self@.len() ==> cloned::<T>(self@[i], #[trigger] r@[i]),
    {
        proof {
            use_type_invariant(self);
        }
        // bound is retained
        Self::unchecked_from(self.0.clone())
    }
}

impl<T, S: Get<u32>> TryFrom<Vec<T>> for BoundedVec<T, S> {
    type Error = Vec<T>;

    /// Succeeds where `t` is within the bound, and else hands `t` back.
    fn try_from(t: Vec<T>) -> (r: Result<Self, Vec<T>>)
        ensures
            r is Ok <==> t@.len() <= S::spec_get(),
            r is Ok ==> r->Ok_0@ == t@,
            r is Err ==> r->Err_0 == t,
    {
        if t.len() <= Self::bound() {
            // explicit check just above
            Ok(Self::unchecked_from(t))
        } else {
            Err(t)
        }
    }
}

impl<T, S: Get<u32>> vstd::std_specs::convert::TryFromSpecImpl<Vec<T>> for BoundedVec<T, S> {
    open spec fn obeys_try_from_spec() -> bool {
        true
    }

    closed spec fn try_from_spec(t: Vec<T>) -> Result<Self, Vec<T>> {
        if t@.len() <= S::spec_get() {
            Ok(BoundedVec(t, PhantomData))
        } else {
            Err(t)
        }
    }
}

impl<T, S: Get<u32>> TruncateFrom<Vec<T>> for BoundedVec<T, S> {
    fn truncate_from(unbound: Vec<T>) -> (r: Self)
        ensures
            r@ == truncated(unbound@, Self::spec_bound() as int),
    {
        BoundedVec::<T, S>::truncate_from(unbound)
    }
}

// Allows for all immutable operations of `Vec<T>` on `BoundedVec<T>`.
impl<T, S: Get<u32>> core::ops::Deref for BoundedVec<T, S> {
    type Target = Vec<T>;

    fn deref(&self) -> (inner: &Vec<T>)
        ensures
            inner@ == self@,
    {
        &self.0
    }
}

// Elements can be changed in place by anyone: their number stays.
impl<T, S: Get<u32>> AsMut<[T]> for BoundedVec<T, S> {
    /// Gives the elements for change in place: their number stays, and they
    /// end up as the slice was left.
    fn as_mut(&mut self) -> (elements: &mut [T])
        ensures
            elements@ == old(self)@,
            final(self)@ == final(elements)@,
            final(self)@.len() == old(self)@.len(),
    {
        proof {
            use_type_invariant(&*self);
        }
        std_ops::as_mut(&mut self.0)
    }
}

// Allows for changing what an index names, similar to a normal `Vec`: the
// index has to be in range of the elements.
impl<T, S: Get<u32>, I> core::ops::IndexMut<I> for BoundedVec<T, S> where
    I: core::slice::SliceIndex<[T]>,
 {
    fn index_mut(&mut self, index: I) -> (output: &mut I::Output)
        requires
            vstd::std_specs::core::IndexSpec::index_req(&*old(self), &index),
        ensures
            exists|read: &I::Output| #[trigger]
                reads_at(old(self)@, index, read) && &*output == read,
            final(self)@.len() == old(self)@.len(),
            exists|read: &I::Output| #[trigger]
                reads_at(final(self)@, index, read) && &*final(output) == read,
    {
        proof {
            use_type_invariant(&*self);
        }
        std_ops::index_mut(&mut self.0, index)
    }
}

} // verus!
