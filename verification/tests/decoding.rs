use bounded_collections::codec::{
    bounded_max_encoded_len, check_declared_len, exceeds_bound_text, DecodeError,
};
use bounded_collections::sequence::OutOfBounds;
use bounded_collections::{scale, BoundedVec, ConstU32};
use parity_scale_codec::{Compact, Encode};

#[test]
fn declared_length_is_held_to_the_bound() {
    assert_eq!(check_declared_len::<ConstU32<4>, ()>(0), Ok(0));
    assert_eq!(check_declared_len::<ConstU32<4>, ()>(4), Ok(4));
    assert_eq!(check_declared_len::<ConstU32<4>, ()>(5), Err(DecodeError::ExceedsBound));
    assert_eq!(check_declared_len::<ConstU32<4>, ()>(u32::MAX), Err(DecodeError::ExceedsBound));
    assert_eq!(check_declared_len::<ConstU32<0>, ()>(0), Ok(0));
    assert_eq!(check_declared_len::<ConstU32<0>, ()>(1), Err(DecodeError::ExceedsBound));
    assert_eq!(exceeds_bound_text(), "BoundedVec exceeds its limit");
}

#[test]
fn scale_prefix_within_the_bound_leaves_the_elements() {
    let v: Vec<u32> = vec![1, 2, 3];
    let data = v.encode();
    let input = &mut &data[..];
    assert_eq!(scale::decode_bounded_len::<ConstU32<3>>(input), Ok(3));
    assert_eq!(*input, &data[1..]);
    assert_eq!(*input, &[1u8, 0, 0, 0, 2, 0, 0, 0, 3, 0, 0, 0][..]);

    let long: Vec<u8> = vec![7; 100];
    let data = long.encode();
    let input = &mut &data[..];
    assert_eq!(scale::decode_bounded_len::<ConstU32<100>>(input), Ok(100));
    assert_eq!(input.len(), 100);
    let input = &mut &data[..];
    assert_eq!(
        scale::decode_bounded_len::<ConstU32<99>>(input),
        Err(DecodeError::ExceedsBound),
    );
    assert_eq!(input.len(), 100);
}

#[test]
fn scale_prefix_that_cannot_be_read() {
    let empty: [u8; 0] = [];
    let r = scale::decode_bounded_len::<ConstU32<4>>(&mut &empty[..]);
    assert!(matches!(r, Err(DecodeError::Codec(_))));
    // The two-byte form is cut short.
    let r = scale::decode_bounded_len::<ConstU32<4>>(&mut &[0b01u8][..]);
    assert!(matches!(r, Err(DecodeError::Codec(_))));
    // A number beyond 32 bits.
    let r = scale::decode_bounded_len::<ConstU32<4>>(&mut &[0xffu8, 1, 1, 1, 1, 1][..]);
    assert!(matches!(r, Err(DecodeError::Codec(_))));
}

#[test]
fn scale_huge_declared_length_costs_no_more() {
    let data = Compact(u32::MAX).encode();
    let input = &mut &data[..];
    assert_eq!(
        scale::decode_bounded_len::<ConstU32<4>>(input),
        Err(DecodeError::ExceedsBound),
    );
    assert!(input.is_empty());
}

#[test]
fn scale_max_encoded_len_is_prefix_and_elements() {
    assert_eq!(scale::max_encoded_len::<ConstU32<0>>(4), 1);
    assert_eq!(scale::max_encoded_len::<ConstU32<63>>(4), 1 + 63 * 4);
    assert_eq!(scale::max_encoded_len::<ConstU32<64>>(4), 2 + 64 * 4);
    assert_eq!(scale::max_encoded_len::<ConstU32<16383>>(1), 2 + 16383);
    assert_eq!(scale::max_encoded_len::<ConstU32<16384>>(1), 4 + 16384);
    assert_eq!(scale::max_encoded_len::<ConstU32<1073741823>>(0), 4);
    assert_eq!(scale::max_encoded_len::<ConstU32<1073741824>>(0), 5);
    assert_eq!(scale::max_encoded_len::<ConstU32<2>>(usize::MAX), usize::MAX);
    assert_eq!(scale::max_encoded_len::<ConstU32<1>>(usize::MAX), usize::MAX);
}

#[test]
fn max_encoded_len_saturates() {
    assert_eq!(bounded_max_encoded_len::<ConstU32<10>>(5, 3), 35);
    assert_eq!(bounded_max_encoded_len::<ConstU32<10>>(usize::MAX, 0), usize::MAX);
    assert_eq!(bounded_max_encoded_len::<ConstU32<1>>(1, usize::MAX), usize::MAX);
    assert_eq!(bounded_max_encoded_len::<ConstU32<0>>(2, usize::MAX), 2);
}

#[test]
fn sequence_is_refused_at_the_start_where_it_announces_too_much() {
    assert!(BoundedVec::<u32, ConstU32<3>>::begin_sequence(None).unwrap().is_empty());
    assert!(BoundedVec::<u32, ConstU32<3>>::begin_sequence(Some(3)).unwrap().is_empty());
    assert_eq!(BoundedVec::<u32, ConstU32<3>>::begin_sequence(Some(4)), Err(OutOfBounds));
    assert_eq!(OutOfBounds.text(), "out of bounds");
}

#[test]
fn sequence_is_refused_at_the_element_that_does_not_fit() {
    let mut b = BoundedVec::<u32, ConstU32<4>>::begin_sequence(None).unwrap();
    for value in 0..4 {
        assert_eq!(b.accept_element(value), Ok(()));
    }
    assert_eq!(b.accept_element(4), Err(OutOfBounds));
    assert_eq!(*b, vec![0, 1, 2, 3]);
}
