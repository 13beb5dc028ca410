//! Bounded vectors in the JAM codec of `jam_codec`.

use crate::bound::Get;
use crate::codec::{
    bounded_max_encoded_len, check_declared_len, checked_len, max_encoded_len_of, DecodeError,
};
use jam_codec::{Compact, Decode, Encode};
use vstd::prelude::*;

verus! {

/// The error of `jam_codec`.
#[verifier::external_type_specification]
#[verifier::external_body]
pub struct ExJamError(jam_codec::Error);

/// What `jam_codec` reads as a compact `u32` at the start of `bytes`: the
/// number and how many bytes hold it, or nothing where the bytes do not start
/// with one.
pub uninterp spec fn jam_compact_u32(bytes: Seq<u8>) -> Option<(u32, int)>;

/// The number of bytes that `jam_codec` encodes the compact `u32` `value` to:
/// one, and one more for each seven bits beyond the first seven.
pub open spec fn jam_compact_len(value: u32) -> nat {
    if value < 0x80 {
        1
    } else if value < 0x4000 {
        2
    } else if value < 0x20_0000 {
        3
    } else if value < 0x1000_0000 {
        4
    } else {
        5
    }
}

/// `<Compact<u32> as Decode>::decode` on a byte slice: reads the compact
/// number at the start of `input` and moves `input` behind it. The number
/// takes one to nine bytes, all of which the input held. Nothing is said of
/// where `input` stands after a failure.
#[verifier::external_body]
fn read_compact_u32(input: &mut &[u8]) -> (r: Result<u32, jam_codec::Error>)
    ensures
        match jam_compact_u32(old(input)@) {
            Some((value, width)) => {
                &&& r == Ok::<u32, jam_codec::Error>(value)
                &&& 1 <= width <= 9
                &&& width <= old(input)@.len()
                &&& final(input)@ == old(input)@.skip(width)
            },
            None => r is Err,
        },
{
    <Compact<u32> as Decode>::decode(input).map(|number| number.0)
}

/// `Encode::encoded_size` of `Compact<u32>`: one byte below 2^7, two below
/// 2^14, three below 2^21, four below 2^28 and five from there.
#[verifier::external_body]
fn compact_encoded_size(value: u32) -> (n: usize)
    ensures
        n == jam_compact_len(value),
{
    Compact(value).encoded_size()
}

/// Reads the length prefix of an encoded vector from `input` and decides on
/// it under the bound `S`, before any element is decoded.
///
/// Where the prefix can be read, `input` is left directly behind it, at the
/// first element, whatever the decision: a declared length above the bound is
/// refused without a byte of the elements consumed.
pub fn decode_bounded_len<S: Get<u32>>(input: &mut &[u8]) -> (r: Result<
    usize,
    DecodeError<jam_codec::Error>,
>)
    ensures
        match jam_compact_u32(old(input)@) {
            Some((len, width)) => {
                &&& r == checked_len::<jam_codec::Error>(len, S::spec_get())
                &&& final(input)@ == old(input)@.skip(width)
            },
            None => r is Err && r->Err_0 is Codec,
        },
{
    // Same as decoding a `Vec`, except we fail early if the len is too big.
    match read_compact_u32(input) {
        Ok(len) => check_declared_len::<S, jam_codec::Error>(len),
        Err(e) => Err(DecodeError::Codec(e)),
    }
}

/// The most bytes that a bounded vector with the bound `S` can encode to,
/// where an element encodes to at most `element_max` bytes: it encodes like a
/// `Vec`, a compact `u32` and then each item.
pub fn max_encoded_len<S: Get<u32>>(element_max: usize) -> (n: usize)
    ensures
        n == max_encoded_len_of(
            jam_compact_len(S::spec_get()),
            S::spec_get() as nat,
            element_max as nat,
        ),
{
    bounded_max_encoded_len::<S>(compact_encoded_size(S::get()), element_max)
}

} // verus!
