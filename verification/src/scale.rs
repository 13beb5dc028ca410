//! Bounded vectors in the SCALE codec of `parity_scale_codec`.

use crate::bound::Get;
use crate::codec::{
    bounded_max_encoded_len, check_declared_len, checked_len, max_encoded_len_of, DecodeError,
};
use parity_scale_codec::{Compact, Decode, Encode};
use vstd::prelude::*;

verus! {

/// The error of `parity_scale_codec`.
#[verifier::external_type_specification]
#[verifier::external_body]
pub struct ExScaleError(parity_scale_codec::Error);

/// What `parity_scale_codec` reads as a compact `u32` at the start of `bytes`:
/// the number and how many bytes hold it, or nothing where the bytes do not
/// start with one.
pub uninterp spec fn scale_compact_u32(bytes: Seq<u8>) -> Option<(u32, int)>;

/// The number of bytes that `parity_scale_codec` encodes the compact `u32`
/// `value` to.
pub open spec fn scale_compact_len(value: u32) -> nat {
    if value <= 0x3f {
        1
    } else if value <= 0x3fff {
        2
    } else if value <= 0x3fff_ffff {
        4
    } else {
        5
    }
}

/// `<Compact<u32> as Decode>::decode` on a byte slice: reads the compact
/// number at the start of `input` and moves `input` behind it. The number
/// takes one to five bytes, all of which the input held. Nothing is said of
/// where `input` stands after a failure.
#[verifier::external_body]
fn read_compact_u32(input: &mut &[u8]) -> (r: Result<u32, parity_scale_codec::Error>)
    ensures
        match scale_compact_u32(old(input)@) {
            Some((value, width)) => {
                &&& r == Ok::<u32, parity_scale_codec::Error>(value)
                &&& 1 <= width <= 5
                &&& width <= old(input)@.len()
                &&& final(input)@ == old(input)@.skip(width)
            },
            None => r is Err,
        },
{
    <Compact<u32> as Decode>::decode(input).map(|number| number.0)
}

/// `Encode::encoded_size` of `Compact<u32>`: one byte up to 63, two up to
/// 16383, four up to 2^30 - 1 and five above.
#[verifier::external_body]
fn compact_encoded_size(value: u32) -> (n: usize)
    ensures
        n == scale_compact_len(value),
{
    Compact(value).encoded_size()
}

/// Reads the length prefix of an encoded vector from `input` and decides on
/// it under the bound `S`, before any element is decoded.
///
/// Where the prefix can be read, `input` is left directly behind it, at the
/// first element, whatever the decision: a declared length above the bound is
/// refused without a byte of the elements consumed.
pub fn decode_bounded_len<S: Get<u32>>(input: &mut &[u8]) -> (r: Result<
    usize,
    DecodeError<parity_scale_codec::Error>,
>)
    ensures
        match scale_compact_u32(old(input)@) {
            Some((len, width)) => {
                &&& r == checked_len::<parity_scale_codec::Error>(len, S::spec_get())
                &&& final(input)@ == old(input)@.skip(width)
            },
            None => r is Err && r->Err_0 is Codec,
        },
{
    // Same as decoding a `Vec`, except we fail early if the len is too big.
    match read_compact_u32(input) {
        Ok(len) => check_declared_len::<S, parity_scale_codec::Error>(len),
        Err(e) => Err(DecodeError::Codec(e)),
    }
}

/// The most bytes that a bounded vector with the bound `S` can encode to,
/// where an element encodes to at most `element_max` bytes: it encodes like a
/// `Vec`, a compact `u32` and then each item.
pub fn max_encoded_len<S: Get<u32>>(element_max: usize) -> (n: usize)
    ensures
        n == max_encoded_len_of(
            scale_compact_len(S::spec_get()),
            S::spec_get() as nat,
            element_max as nat,
        ),
{
    bounded_max_encoded_len::<S>(compact_encoded_size(S::get()), element_max)
}

} // verus!
