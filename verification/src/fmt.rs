//! How the bounded containers print for debugging: the elements, then the
//! bound.

use crate::bound::Get;
use crate::bounded_slice::BoundedSlice;
use crate::bounded_vec::BoundedVec;
use vstd::prelude::*;

verus! {

/// The formatter of the standard library, which the printing writes to.
#[verifier::external_type_specification]
#[verifier::external_body]
pub struct ExFormatter<'a>(core::fmt::Formatter<'a>);

/// The error of the standard library's formatting.
#[verifier::external_type_specification]
#[verifier::external_body]
pub struct ExFmtError(core::fmt::Error);

impl<T, S> core::fmt::Debug for BoundedVec<T, S> where Vec<T>: core::fmt::Debug, S: Get<u32> {
    /// Writes `BoundedVec(elements, bound)` with `Formatter::debug_tuple`.
    /// Nothing is stated of what is written.
    #[verifier::external_body]
    fn fmt(&self, f: &mut core::fmt::Formatter<'_>) -> core::fmt::Result {
        f.debug_tuple("BoundedVec").field(&self.0).field(&Self::bound()).finish()
    }
}

impl<'a, T, S> core::fmt::Debug for BoundedSlice<'a, T, S> where &'a [T]: core::fmt::Debug, S: Get<u32> {
    /// Writes `BoundedSlice(elements, bound)` with `Formatter::debug_tuple`.
    /// Nothing is stated of what is written.
    #[verifier::external_body]
    fn fmt(&self, f: &mut core::fmt::Formatter<'_>) -> core::fmt::Result {
        f.debug_tuple("BoundedSlice").field(&self.as_slice()).field(&S::get()).finish()
    }
}

} // verus!
