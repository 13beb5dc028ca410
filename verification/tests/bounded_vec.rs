use bounded_collections::scale::decode_bounded_len;
use bounded_collections::codec::{exceeds_bound_text, DecodeError};
use bounded_collections::{BoundedSlice, BoundedVec, ConstU32, Get, TryCollect};
use parity_scale_codec::{Compact, CompactLen, Encode};
use std::cmp::Ordering;
use std::ops::Deref;

/// A bounded vector of the given items, which have to fit.
fn bounded<T: std::fmt::Debug, const N: u32>(items: Vec<T>) -> BoundedVec<T, ConstU32<N>> {
    BoundedVec::try_from(items).unwrap()
}

#[test]
fn encoding_same_as_unbounded_vec() {
    let b: BoundedVec<u32, ConstU32<6>> = bounded(vec![0, 1, 2, 3, 4, 5]);
    let v: Vec<u32> = vec![0, 1, 2, 3, 4, 5];

    assert_eq!(b.as_slice().encode(), v.encode());

    // And what an unbounded vector encodes to is read as a length within the
    // bound, with the input left at the elements.
    let data = v.encode();
    let input = &mut &data[..];
    assert_eq!(decode_bounded_len::<ConstU32<6>>(input), Ok(b.len()));
    assert_eq!(input.len(), 6 * 4);
}

#[test]
fn slice_truncate_from_works() {
    let bounded = BoundedSlice::<u32, ConstU32<4>>::truncate_from(&[1, 2, 3, 4, 5]);
    assert_eq!(bounded.deref(), &[1, 2, 3, 4]);
    let bounded = BoundedSlice::<u32, ConstU32<4>>::truncate_from(&[1, 2, 3, 4]);
    assert_eq!(bounded.deref(), &[1, 2, 3, 4]);
    let bounded = BoundedSlice::<u32, ConstU32<4>>::truncate_from(&[1, 2, 3]);
    assert_eq!(bounded.deref(), &[1, 2, 3]);
}

#[test]
fn slide_works() {
    let mut b: BoundedVec<u32, ConstU32<6>> = bounded(vec![0, 1, 2, 3, 4, 5]);
    assert!(b.slide(1, 5));
    assert_eq!(*b, vec![0, 2, 3, 4, 1, 5]);
    assert!(b.slide(4, 0));
    assert_eq!(*b, vec![1, 0, 2, 3, 4, 5]);
    assert!(b.slide(0, 2));
    assert_eq!(*b, vec![0, 1, 2, 3, 4, 5]);
    assert!(b.slide(1, 6));
    assert_eq!(*b, vec![0, 2, 3, 4, 5, 1]);
    assert!(b.slide(0, 6));
    assert_eq!(*b, vec![2, 3, 4, 5, 1, 0]);
    assert!(b.slide(5, 0));
    assert_eq!(*b, vec![0, 2, 3, 4, 5, 1]);
    assert!(!b.slide(6, 0));
    assert!(!b.slide(7, 0));
    assert_eq!(*b, vec![0, 2, 3, 4, 5, 1]);

    let mut c: BoundedVec<u32, ConstU32<6>> = bounded(vec![0, 1, 2]);
    assert!(!c.slide(1, 5));
    assert_eq!(*c, vec![0, 1, 2]);
    assert!(!c.slide(4, 0));
    assert_eq!(*c, vec![0, 1, 2]);
    assert!(!c.slide(3, 0));
    assert_eq!(*c, vec![0, 1, 2]);
    assert!(c.slide(2, 0));
    assert_eq!(*c, vec![2, 0, 1]);
}

#[test]
fn slide_noops_work() {
    let mut b: BoundedVec<u32, ConstU32<6>> = bounded(vec![0, 1, 2, 3, 4, 5]);
    assert!(!b.slide(3, 3));
    assert_eq!(*b, vec![0, 1, 2, 3, 4, 5]);
    assert!(!b.slide(3, 4));
    assert_eq!(*b, vec![0, 1, 2, 3, 4, 5]);
}

#[test]
fn force_insert_keep_left_works() {
    let mut b: BoundedVec<u32, ConstU32<4>> = bounded(vec![]);
    assert_eq!(b.force_insert_keep_left(1, 10), Err(10));
    assert!(b.is_empty());

    assert_eq!(b.force_insert_keep_left(0, 30), Ok(None));
    assert_eq!(b.force_insert_keep_left(0, 10), Ok(None));
    assert_eq!(b.force_insert_keep_left(1, 20), Ok(None));
    assert_eq!(b.force_insert_keep_left(3, 40), Ok(None));
    assert_eq!(*b, vec![10, 20, 30, 40]);
    // at capacity.
    assert_eq!(b.force_insert_keep_left(4, 41), Err(41));
    assert_eq!(*b, vec![10, 20, 30, 40]);
    assert_eq!(b.force_insert_keep_left(3, 31), Ok(Some(40)));
    assert_eq!(*b, vec![10, 20, 30, 31]);
    assert_eq!(b.force_insert_keep_left(1, 11), Ok(Some(31)));
    assert_eq!(*b, vec![10, 11, 20, 30]);
    assert_eq!(b.force_insert_keep_left(0, 1), Ok(Some(30)));
    assert_eq!(*b, vec![1, 10, 11, 20]);

    let mut z: BoundedVec<u32, ConstU32<0>> = bounded(vec![]);
    assert!(z.is_empty());
    assert_eq!(z.force_insert_keep_left(0, 10), Err(10));
    assert!(z.is_empty());
}

#[test]
fn force_insert_keep_right_works() {
    let mut b: BoundedVec<u32, ConstU32<4>> = bounded(vec![]);
    assert_eq!(b.force_insert_keep_right(1, 10), Err(10));
    assert!(b.is_empty());

    assert_eq!(b.force_insert_keep_right(0, 30), Ok(None));
    assert_eq!(b.force_insert_keep_right(0, 10), Ok(None));
    assert_eq!(b.force_insert_keep_right(1, 20), Ok(None));
    assert_eq!(b.force_insert_keep_right(3, 40), Ok(None));
    assert_eq!(*b, vec![10, 20, 30, 40]);

    // at capacity.
    assert_eq!(b.force_insert_keep_right(0, 0), Err(0));
    assert_eq!(*b, vec![10, 20, 30, 40]);
    assert_eq!(b.force_insert_keep_right(1, 11), Ok(Some(10)));
    assert_eq!(*b, vec![11, 20, 30, 40]);
    assert_eq!(b.force_insert_keep_right(3, 31), Ok(Some(11)));
    assert_eq!(*b, vec![20, 30, 31, 40]);
    assert_eq!(b.force_insert_keep_right(4, 41), Ok(Some(20)));
    assert_eq!(*b, vec![30, 31, 40, 41]);

    assert_eq!(b.force_insert_keep_right(5, 69), Err(69));
    assert_eq!(*b, vec![30, 31, 40, 41]);

    let mut z: BoundedVec<u32, ConstU32<0>> = bounded(vec![]);
    assert!(z.is_empty());
    assert_eq!(z.force_insert_keep_right(0, 10), Err(10));
    assert!(z.is_empty());
}

#[test]
fn bound_returns_correct_value() {
    assert_eq!(BoundedVec::<u32, ConstU32<7>>::bound(), 7);
}

#[test]
fn try_insert_works() {
    let mut bounded: BoundedVec<u32, ConstU32<4>> = bounded(vec![1, 2, 3]);
    bounded.try_insert(1, 0).unwrap();
    assert_eq!(*bounded, vec![1, 0, 2, 3]);

    assert!(bounded.try_insert(0, 9).is_err());
    assert_eq!(*bounded, vec![1, 0, 2, 3]);
}

#[test]
fn constructor_macro_works() {
    // With values.
    let bv: BoundedVec<(u32, u32), ConstU32<3>> = bounded(vec![(1, 2), (1, 2), (1, 2)]);
    assert_eq!(bv, vec![(1, 2), (1, 2), (1, 2)]);

    // With repetition.
    let bv: BoundedVec<(u32, u32), ConstU32<3>> = bounded(vec![(1, 2); 3]);
    assert_eq!(bv, vec![(1, 2), (1, 2), (1, 2)]);
}

#[test]
#[should_panic(expected = "insertion index (is 9) should be <= len (is 3)")]
fn try_inert_panics_if_oob() {
    let mut bounded: BoundedVec<u32, ConstU32<4>> = bounded(vec![1, 2, 3]);
    bounded.try_insert(9, 0).unwrap();
}

#[test]
fn try_push_works() {
    let mut bounded: BoundedVec<u32, ConstU32<4>> = bounded(vec![1, 2, 3]);
    bounded.try_push(0).unwrap();
    assert_eq!(*bounded, vec![1, 2, 3, 0]);

    assert!(bounded.try_push(9).is_err());
}

#[test]
fn deref_vec_coercion_works() {
    let bounded: BoundedVec<u32, ConstU32<7>> = bounded(vec![1, 2, 3]);
    // these methods come from deref-ed vec.
    assert_eq!(bounded.len(), 3);
    assert!(bounded.iter().next().is_some());
    assert!(!bounded.is_empty());
}

#[test]
fn deref_slice_coercion_works() {
    let bounded = BoundedSlice::<u32, ConstU32<7>>::try_from(&[1, 2, 3][..]).unwrap();
    // these methods come from deref-ed slice.
    assert_eq!(bounded.len(), 3);
    assert!(bounded.iter().next().is_some());
    assert!(!bounded.is_empty());
}

#[test]
fn try_mutate_works() {
    let bounded: BoundedVec<u32, ConstU32<7>> = bounded(vec![1, 2, 3, 4, 5, 6]);
    let bounded = bounded.try_mutate(|v| v.push(7)).unwrap();
    assert_eq!(bounded.len(), 7);
    assert!(bounded.try_mutate(|v| v.push(8)).is_none());
}

#[test]
fn slice_indexing_works() {
    let bounded: BoundedVec<u32, ConstU32<7>> = bounded(vec![1, 2, 3, 4, 5, 6]);
    assert_eq!(&bounded[0..=2], &[1, 2, 3]);
}

#[test]
fn vec_eq_works() {
    let bounded: BoundedVec<u32, ConstU32<7>> = bounded(vec![1, 2, 3, 4, 5, 6]);
    assert_eq!(bounded, vec![1, 2, 3, 4, 5, 6]);
}

#[test]
fn too_big_vec_fail_to_decode() {
    let v: Vec<u32> = vec![1, 2, 3, 4, 5];
    assert_eq!(
        decode_bounded_len::<ConstU32<4>>(&mut &v.encode()[..]),
        Err(DecodeError::ExceedsBound),
    );
    // As an error of the codec.
    assert_eq!(
        decode_bounded_len::<ConstU32<4>>(&mut &v.encode()[..]).map_err(|refusal| match refusal {
            DecodeError::Codec(error) => error,
            DecodeError::ExceedsBound => exceeds_bound_text().into(),
        }),
        Err("BoundedVec exceeds its limit".into()),
    );
}

#[test]
fn dont_consume_more_data_than_bounded_len() {
    let v: Vec<u32> = vec![1, 2, 3, 4, 5];
    let data = v.encode();
    let data_input = &mut &data[..];

    decode_bounded_len::<ConstU32<4>>(data_input).unwrap_err();
    assert_eq!(data_input.len(), data.len() - Compact::<u32>::compact_len(&(data.len() as u32)));
}

struct B1;

impl Get<u32> for B1 {
    fn get() -> u32 {
        7
    }
}

struct B2;

impl Get<u32> for B2 {
    fn get() -> u32 {
        7
    }
}

#[test]
fn eq_works() {
    // of same type
    let b1: BoundedVec<u32, ConstU32<7>> = bounded(vec![1, 2, 3]);
    let b2: BoundedVec<u32, ConstU32<7>> = bounded(vec![1, 2, 3]);
    assert_eq!(b1, b2);

    // of different type, but same value and bound.
    let b1: BoundedVec<u32, B1> = BoundedVec::try_from(vec![1, 2, 3]).unwrap();
    let b2: BoundedVec<u32, B2> = BoundedVec::try_from(vec![1, 2, 3]).unwrap();
    assert_eq!(b1, b2);
}

#[test]
fn ord_works() {
    let b1: BoundedVec<u32, ConstU32<7>> = bounded(vec![1, 2, 3]);
    let b2: BoundedVec<u32, ConstU32<7>> = bounded(vec![1, 3, 2]);

    // ordering for vec is lexicographic.
    assert_eq!(b1.cmp(&b2), Ordering::Less);
    assert_eq!(b1.cmp(&b2), b1.into_inner().cmp(&b2.into_inner()));
}

#[test]
fn try_extend_works() {
    let mut b: BoundedVec<u32, ConstU32<5>> = bounded(vec![1, 2, 3]);

    assert!(b.try_extend(vec![4].into_iter()).is_ok());
    assert_eq!(*b, vec![1, 2, 3, 4]);

    assert!(b.try_extend(vec![5].into_iter()).is_ok());
    assert_eq!(*b, vec![1, 2, 3, 4, 5]);

    assert!(b.try_extend(vec![6].into_iter()).is_err());
    assert_eq!(*b, vec![1, 2, 3, 4, 5]);

    let mut b: BoundedVec<u32, ConstU32<5>> = bounded(vec![1, 2, 3]);
    assert!(b.try_extend(vec![4, 5].into_iter()).is_ok());
    assert_eq!(*b, vec![1, 2, 3, 4, 5]);

    let mut b: BoundedVec<u32, ConstU32<5>> = bounded(vec![1, 2, 3]);
    assert!(b.try_extend(vec![4, 5, 6].into_iter()).is_err());
    assert_eq!(*b, vec![1, 2, 3]);
}

#[test]
fn bounded_vec_try_from_works() {
    assert!(BoundedVec::<u32, ConstU32<2>>::try_from(vec![0]).is_ok());
    assert!(BoundedVec::<u32, ConstU32<2>>::try_from(vec![0, 1]).is_ok());
    assert!(BoundedVec::<u32, ConstU32<2>>::try_from(vec![0, 1, 2]).is_err());
}

#[test]
fn bounded_slice_try_from_works() {
    assert!(BoundedSlice::<u32, ConstU32<2>>::try_from(&[0][..]).is_ok());
    assert!(BoundedSlice::<u32, ConstU32<2>>::try_from(&[0, 1][..]).is_ok());
    assert!(BoundedSlice::<u32, ConstU32<2>>::try_from(&[0, 1, 2][..]).is_err());
}

#[test]
fn can_be_collected() {
    let b1: BoundedVec<u32, ConstU32<5>> = bounded(vec![1, 2, 3, 4]);
    let b2: BoundedVec<u32, ConstU32<5>> = b1.iter().map(|x| x + 1).try_collect().unwrap();
    assert_eq!(b2, vec![2, 3, 4, 5]);

    // can also be collected into a collection of length 4.
    let b2: BoundedVec<u32, ConstU32<4>> = b1.iter().map(|x| x + 1).try_collect().unwrap();
    assert_eq!(b2, vec![2, 3, 4, 5]);

    // can be mutated further into iterators that are `ExactSizedIterator`.
    let b2: BoundedVec<u32, ConstU32<4>> = b1.iter().map(|x| x + 1).rev().try_collect().unwrap();
    assert_eq!(b2, vec![5, 4, 3, 2]);

    let b2: BoundedVec<u32, ConstU32<4>> =
        b1.iter().map(|x| x + 1).rev().skip(2).try_collect().unwrap();
    assert_eq!(b2, vec![3, 2]);
    let b2: BoundedVec<u32, ConstU32<2>> =
        b1.iter().map(|x| x + 1).rev().skip(2).try_collect().unwrap();
    assert_eq!(b2, vec![3, 2]);

    let b2: BoundedVec<u32, ConstU32<4>> =
        b1.iter().map(|x| x + 1).rev().take(2).try_collect().unwrap();
    assert_eq!(b2, vec![5, 4]);
    let b2: BoundedVec<u32, ConstU32<2>> =
        b1.iter().map(|x| x + 1).rev().take(2).try_collect().unwrap();
    assert_eq!(b2, vec![5, 4]);

    // but these worn't work
    let b2: Result<BoundedVec<u32, ConstU32<3>>, _> = b1.iter().map(|x| x + 1).try_collect();
    assert!(b2.is_err());

    let b2: Result<BoundedVec<u32, ConstU32<1>>, _> =
        b1.iter().map(|x| x + 1).rev().take(2).try_collect();
    assert!(b2.is_err());
}

#[test]
fn bounded_vec_debug_works() {
    let bound = BoundedVec::<u32, ConstU32<5>>::truncate_from(vec![1, 2, 3]);
    assert_eq!(format!("{:?}", bound), "BoundedVec([1, 2, 3], 5)");
}

#[test]
fn bounded_slice_debug_works() {
    let bound = BoundedSlice::<u32, ConstU32<5>>::truncate_from(&[1, 2, 3]);
    assert_eq!(format!("{:?}", bound), "BoundedSlice([1, 2, 3], 5)");
}

#[test]
fn bounded_vec_sort_by_key_works() {
    let mut v: BoundedVec<i32, ConstU32<5>> = bounded(vec![-5, 4, 1, -3, 2]);
    // Sort by absolute value.
    v.sort_by_key(|k| k.abs());
    assert_eq!(v, vec![1, 2, -3, 4, -5]);
}

#[test]
fn bounded_vec_truncate_from_works() {
    let unbound = vec![1, 2, 3, 4, 5];
    let bound = BoundedVec::<u32, ConstU32<3>>::truncate_from(unbound.clone());
    assert_eq!(bound, vec![1, 2, 3]);
}

#[test]
fn bounded_slice_truncate_from_works() {
    let unbound = [1, 2, 3, 4, 5];
    let bound = BoundedSlice::<u32, ConstU32<3>>::truncate_from(&unbound);
    assert_eq!(bound, &[1, 2, 3][..]);
}

#[test]
fn bounded_slice_partialeq_slice_works() {
    let unbound = [1, 2, 3];
    let bound = BoundedSlice::<u32, ConstU32<3>>::truncate_from(&unbound);

    assert_eq!(bound, &unbound[..]);
    assert!(bound == &unbound[..]);
}

#[test]
fn bounded_vec_try_rotate_left_works() {
    let o = BoundedVec::<u32, ConstU32<3>>::truncate_from(vec![1, 2, 3]);
    let mut bound = o.clone();

    bound.try_rotate_left(0).unwrap();
    assert_eq!(bound, o);
    bound.try_rotate_left(3).unwrap();
    assert_eq!(bound, o);

    bound.try_rotate_left(4).unwrap_err();
    assert_eq!(bound, o);

    bound.try_rotate_left(1).unwrap();
    assert_eq!(bound, vec![2, 3, 1]);
    bound.try_rotate_left(2).unwrap();
    assert_eq!(bound, o);
}

#[test]
fn bounded_vec_try_rotate_right_works() {
    let o = BoundedVec::<u32, ConstU32<3>>::truncate_from(vec![1, 2, 3]);
    let mut bound = o.clone();

    bound.try_rotate_right(0).unwrap();
    assert_eq!(bound, o);
    bound.try_rotate_right(3).unwrap();
    assert_eq!(bound, o);

    bound.try_rotate_right(4).unwrap_err();
    assert_eq!(bound, o);

    bound.try_rotate_right(1).unwrap();
    assert_eq!(bound, vec![3, 1, 2]);
    bound.try_rotate_right(2).unwrap();
    assert_eq!(bound, o);
}

// Just a test that structs containing `BoundedVec` and `BoundedSlice` can derive `Hash`.
#[test]
fn container_can_derive_hash() {
    #[derive(Hash)]
    struct Foo<'a> {
        bar: u8,
        slice: BoundedSlice<'a, usize, ConstU32<4>>,
        map: BoundedVec<String, ConstU32<16>>,
    }
    let _foo = Foo { bar: 42, slice: BoundedSlice::truncate_from(&[0, 1][..]), map: BoundedVec::default() };
}

#[test]
fn is_full_works() {
    let mut bounded: BoundedVec<u32, ConstU32<4>> = bounded(vec![1, 2, 3]);
    assert!(!bounded.is_full());
    bounded.try_insert(1, 0).unwrap();
    assert_eq!(*bounded, vec![1, 0, 2, 3]);

    assert!(bounded.is_full());
    assert!(bounded.try_insert(0, 9).is_err());
    assert_eq!(*bounded, vec![1, 0, 2, 3]);
}
