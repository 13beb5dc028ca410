//! What decoding a bounded vector from bytes decides, whatever the codec: the
//! wire format is that of an unbounded vector, a length prefix and then the
//! elements, and a declared length above the bound is refused before any
//! element is looked at.

use crate::bound::Get;
use vstd::prelude::*;

verus! {

/// Why a bounded vector could not be decoded.
#[derive(Debug, PartialEq, Eq)]
pub enum DecodeError<E> {
    /// The codec could not read the input.
    Codec(E),
    /// The input declares more elements than the bound allows.
    ExceedsBound,
}

/// What a decoder says of a declared length above the bound.
pub open spec fn exceeds_bound_message() -> Seq<char> {
    "BoundedVec exceeds its limit"@
}

/// The words for [`DecodeError::ExceedsBound`].
pub fn exceeds_bound_text() -> (text: &'static str)
    ensures
        text@ == exceeds_bound_message(),
{
    "BoundedVec exceeds its limit"
}

/// The answer to a declared length of `len` elements under the bound
/// `bound`: the length to decode, or the refusal.
pub open spec fn checked_len<E>(len: u32, bound: u32) -> Result<usize, DecodeError<E>> {
    if len <= bound {
        Ok(len as usize)
    } else {
        Err(DecodeError::ExceedsBound)
    }
}

/// Decides on the length that the input declares, before any element is
/// decoded: a length within the bound `S` is the number of elements to decode,
/// a greater one is refused.
pub fn check_declared_len<S: Get<u32>, E>(len: u32) -> (r: Result<usize, DecodeError<E>>)
    ensures
        r == checked_len::<E>(len, S::spec_get()),
{
    if len > S::get() {
        return Err(DecodeError::ExceedsBound);
    }
    Ok(len as usize)
}

/// The most bytes that a vector of at most `bound` elements can encode to,
/// where its length prefix takes `prefix` bytes and an element at most
/// `element_max`: their sum, or the greatest `usize` where that is less.
pub open spec fn max_encoded_len_of(prefix: nat, bound: nat, element_max: nat) -> nat {
    if prefix + bound * element_max <= usize::MAX {
        prefix + bound * element_max
    } else {
        usize::MAX as nat
    }
}

/// Computes [`max_encoded_len_of`] for the bound `S`.
pub fn bounded_max_encoded_len<S: Get<u32>>(prefix: usize, element_max: usize) -> (n: usize)
    ensures
        n == max_encoded_len_of(prefix as nat, S::spec_get() as nat, element_max as nat),
{
    let bound = S::get() as usize;
    match bound.checked_mul(element_max) {
        Some(elements) => prefix.saturating_add(elements),
        None => usize::MAX,
    }
}

} // verus!
