//! The capability that supplies a compile-time constant.

use vstd::prelude::*;

verus! {

/// A type-level constant: `get` always returns the same value, `spec_get`.
pub trait Get<T> {
    /// The constant, as contracts see it. An implementation that is to be
    /// verified says here what `get` returns.
    open spec fn spec_get() -> T {
        arbitrary()
    }

    /// The constant.
    fn get() -> (value: T)
        ensures
            value == Self::spec_get(),
    ;
}

/// The `u32` constant `N`.
#[derive(Clone, Copy, Debug, Default, PartialEq, Eq)]
pub struct ConstU32<const N: u32>;

impl<const N: u32> Get<u32> for ConstU32<N> {
    open spec fn spec_get() -> u32 {
        N
    }

    fn get() -> (value: u32) {
        N
    }
}

} // verus!
