use bounded_collections::codec::DecodeError;
use bounded_collections::{jam, ConstU32};
use jam_codec::Encode;

#[test]
fn jam_prefix_is_held_to_the_bound() {
    let v: Vec<u8> = vec![5; 200];
    let data = v.encode();
    assert_eq!(data.len(), 202);
    let input = &mut &data[..];
    assert_eq!(jam::decode_bounded_len::<ConstU32<200>>(input), Ok(200));
    assert_eq!(*input, &v[..]);
    let input = &mut &data[..];
    assert_eq!(jam::decode_bounded_len::<ConstU32<199>>(input), Err(DecodeError::ExceedsBound));
    assert_eq!(input.len(), 200);
    let empty: [u8; 0] = [];
    let r = jam::decode_bounded_len::<ConstU32<4>>(&mut &empty[..]);
    assert!(matches!(r, Err(DecodeError::Codec(_))));
}

#[test]
fn jam_max_encoded_len_is_prefix_and_elements() {
    assert_eq!(jam::max_encoded_len::<ConstU32<0>>(4), 1);
    assert_eq!(jam::max_encoded_len::<ConstU32<127>>(4), 1 + 127 * 4);
    assert_eq!(jam::max_encoded_len::<ConstU32<128>>(4), 2 + 128 * 4);
    assert_eq!(jam::max_encoded_len::<ConstU32<16383>>(1), 2 + 16383);
    assert_eq!(jam::max_encoded_len::<ConstU32<16384>>(1), 3 + 16384);
    assert_eq!(jam::max_encoded_len::<ConstU32<2097152>>(0), 4);
    assert_eq!(jam::max_encoded_len::<ConstU32<268435456>>(0), 5);
    assert_eq!(jam::max_encoded_len::<ConstU32<4294967295>>(0), 5);
    assert_eq!(jam::max_encoded_len::<ConstU32<3>>(usize::MAX), usize::MAX);
}
