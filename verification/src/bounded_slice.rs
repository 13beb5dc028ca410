//! The borrowed bounded sequence.

use crate::bound::Get;
use crate::bounded_vec::TruncateFrom;
use crate::model::truncated;
use core::marker::PhantomData;
use vstd::prelude::*;

verus! {

/// A slice that never holds more than `S::get()` elements.
///
/// Similar to a `BoundedVec`, but not owned. Its view is the sequence of the
/// elements it shows. It can only be made within its bound and has no way to
/// change afterwards.
pub struct BoundedSlice<'a, T, S: Get<u32>>(&'a [T], PhantomData<S>);

impl<'a, T, S: Get<u32>> View for BoundedSlice<'a, T, S> {
    type V = Seq<T>;

    closed spec fn view(&self) -> Seq<T> {
        self.0@
    }
}

impl<'a, T, S: Get<u32>> BoundedSlice<'a, T, S> {
    /// The invariant of the type: the length is within the bound.
    #[verifier::type_invariant]
    pub open spec fn within_bound(self) -> bool {
        self@.len() <= Self::spec_bound()
    }

    /// The bound, as contracts see it.
    pub open spec fn spec_bound() -> nat {
        S::spec_get() as nat
    }

    /// The slice that is shown.
    pub closed spec fn spec_slice(self) -> &'a [T] {
        self.0
    }

    /// Create an instance from a slice that the caller knows to be within the
    /// bound.
    pub(crate) fn unchecked_from(s: &'a [T]) -> (r: Self)
        requires
            s@.len() <= Self::spec_bound(),
        ensures
            r@ == s@,
    {
        BoundedSlice(s, PhantomData)
    }

    /// Create an instance from the first elements of the given slice (or all
    /// of it if it is smaller than the length bound).
    pub fn truncate_from(s: &'a [T]) -> (r: Self)
        ensures
            r@ == truncated(s@, Self::spec_bound() as int),
    {
        let bound = S::get() as usize;
        let end = if s.len() < bound {
            s.len()
        } else {
            bound
        };
        BoundedSlice(&s[0..end], PhantomData)
    }

    /// The number of elements shown, which is never above the bound.
    pub fn len(&self) -> (n: usize)
        ensures
            n == self@.len(),
            n <= Self::spec_bound(),
    {
        proof {
            use_type_invariant(self);
        }
        self.0.len()
    }

    /// The slice that is shown.
    pub fn as_slice(&self) -> (s: &'a [T])
        ensures
            s == self.spec_slice(),
            s@ == self@,
            s@.len() <= Self::spec_bound(),
    {
        proof {
            use_type_invariant(self);
        }
        self.0
    }
}

impl<'a, T, S: Get<u32>> TryFrom<&'a [T]> for BoundedSlice<'a, T, S> {
    type Error = &'a [T];

    /// Succeeds where `t` is within the bound, and else hands `t` back.
    fn try_from(t: &'a [T]) -> (r: Result<Self, &'a [T]>)
        ensures
            r is Ok <==> t@.len() <= S::spec_get(),
            r is Ok ==> r->Ok_0@ == t@,
            r is Err ==> r->Err_0 == t,
    {
        if t.len() <= S::get() as usize {
            Ok(BoundedSlice(t, PhantomData))
        } else {
            Err(t)
        }
    }
}

impl<'a, T, S: Get<u32>> vstd::std_specs::convert::TryFromSpecImpl<&'a [T]> for BoundedSlice<'a, T, S> {
    open spec fn obeys_try_from_spec() -> bool {
        true
    }

    closed spec fn try_from_spec(t: &'a [T]) -> Result<Self, &'a [T]> {
        if t@.len() <= S::spec_get() {
            Ok(BoundedSlice(t, PhantomData))
        } else {
            Err(t)
        }
    }
}

impl<'a, T, S: Get<u32>> TruncateFrom<&'a [T]> for BoundedSlice<'a, T, S> {
    fn truncate_from(unbound: &'a [T]) -> (r: Self)
        ensures
            r@ == truncated(unbound@, Self::spec_bound() as int),
    {
        BoundedSlice::<T, S>::truncate_from(unbound)
    }
}

impl<'a, T, S: Get<u32>> Clone for BoundedSlice<'a, T, S> {
    fn clone(&self) -> (r: Self)
        ensures
            r == *self,
    {
        proof {
            use_type_invariant(self);
        }
        BoundedSlice(self.0, PhantomData)
    }
}

// Since a reference `&T` is always `Copy`, so is `BoundedSlice<'a, T, S>`.
impl<'a, T, S: Get<u32>> Copy for BoundedSlice<'a, T, S> {

}

// Allows for all immutable operations of `[T]` on `BoundedSlice<T>`.
impl<'a, T, S: Get<u32>> core::ops::Deref for BoundedSlice<'a, T, S> {
    type Target = [T];

    fn deref(&self) -> (s: &[T])
        ensures
            s@ == self@,
    {
        self.0
    }
}

} // verus!
