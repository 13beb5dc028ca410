//! The mathematical model of the bounded containers: what each operation does
//! to the sequence of elements, stated over `Seq`.

use core::slice::SliceIndex;
use vstd::prelude::*;

verus! {

/// The smaller of two lengths.
pub open spec fn min_len(a: int, b: int) -> int {
    if a <= b {
        a
    } else {
        b
    }
}

/// The first `bound` elements of `s`, or all of `s` where it is shorter.
pub open spec fn truncated<T>(s: Seq<T>, bound: int) -> Seq<T> {
    s.subrange(0, min_len(s.len() as int, bound))
}

/// `s` rotated so that the element at `mid` comes first.
pub open spec fn rotated_left<T>(s: Seq<T>, mid: int) -> Seq<T> {
    s.subrange(mid, s.len() as int) + s.subrange(0, mid)
}

/// `s` rotated so that the first element ends up at position `k`.
pub open spec fn rotated_right<T>(s: Seq<T>, k: int) -> Seq<T> {
    s.subrange(s.len() - k, s.len() as int) + s.subrange(0, s.len() - k)
}

/// `s` with the part between `start` and `end` replaced by `part`.
pub open spec fn with_range<T>(s: Seq<T>, start: int, end: int, part: Seq<T>) -> Seq<T> {
    s.subrange(0, start) + part + s.subrange(end, s.len() as int)
}

/// Whether `slide(index, insert_position)` moves anything in a sequence of
/// `len` elements.
pub open spec fn slide_moves(len: int, index: int, insert_position: int) -> bool {
    &&& 0 <= index < len
    &&& 0 <= insert_position <= len
    &&& index != insert_position
    &&& index + 1 != insert_position
}

/// `s` with the element at `index` taken out and put back directly in front of
/// the element that stood at `insert_position`.
pub open spec fn slid<T>(s: Seq<T>, index: int, insert_position: int) -> Seq<T> {
    if insert_position < index {
        s.remove(index).insert(insert_position, s[index])
    } else {
        s.remove(index).insert(insert_position - 1, s[index])
    }
}

/// What `force_push` leaves of `s` under the bound `bound`.
pub open spec fn force_pushed<T>(s: Seq<T>, bound: int, element: T) -> Seq<T> {
    if bound <= 0 {
        s
    } else {
        truncated(s, bound - 1).push(element)
    }
}

/// Whether `force_insert_keep_right(index, element)` inserts into a sequence
/// of `len` elements under the bound `bound`.
pub open spec fn keep_right_inserts(len: int, bound: int, index: int) -> bool {
    &&& 0 <= index <= len
    &&& index <= bound
    &&& !(len >= bound && index == 0)
}

/// What `force_insert_keep_right` leaves of `s`, where it inserts.
pub open spec fn kept_right<T>(s: Seq<T>, bound: int, index: int, element: T) -> Seq<T> {
    if s.len() < bound {
        s.insert(index, element)
    } else {
        s.insert(index, element).remove(0)
    }
}

/// Whether `force_insert_keep_left(index, element)` inserts into a sequence
/// of `len` elements under the bound `bound`.
pub open spec fn keep_left_inserts(len: int, bound: int, index: int) -> bool {
    &&& 0 <= index <= len
    &&& index < bound
}

/// What `force_insert_keep_left` leaves of `s`, where it inserts.
pub open spec fn kept_left<T>(s: Seq<T>, bound: int, index: int, element: T) -> Seq<T> {
    if s.len() < bound {
        s.insert(index, element)
    } else {
        s.drop_last().insert(index, element)
    }
}

/// The elements of `s` whose flag in `keep` is set, in their order.
pub open spec fn retained<T>(s: Seq<T>, keep: Seq<bool>) -> Seq<T>
    decreases s.len(),
{
    if s.len() == 0 {
        s
    } else if keep.last() {
        retained(s.drop_last(), keep.drop_last()).push(s.last())
    } else {
        retained(s.drop_last(), keep.drop_last())
    }
}

/// `read` is what `index` names in a slice of the elements `elements`, as
/// indexing for reading gives it.
pub open spec fn reads_at<T, I: SliceIndex<[T]>>(
    elements: Seq<T>,
    index: I,
    read: &I::Output,
) -> bool {
    exists|slice: &[T]|
        #[trigger] slice@ == elements && call_ensures(
            <I as SliceIndex<[T]>>::index,
            (index, slice),
            read,
        )
}

/// A call of one of the checked mutators, with what it is handed.
pub enum Checked<T> {
    /// `try_push` of an element.
    Push(T),
    /// `try_insert` of an element at a position.
    Insert(int, T),
    /// `try_extend` with a producer that yields these items.
    Extend(Seq<T>),
    /// `try_append` of a vector of these items.
    Append(Seq<T>),
    /// `try_rotate_left` by an amount.
    RotateLeft(int),
    /// `try_rotate_right` by an amount.
    RotateRight(int),
}

/// Whether the checked mutator goes through on `s` under the bound `bound`.
pub open spec fn checked_accepts<T>(s: Seq<T>, bound: int, call: Checked<T>) -> bool {
    match call {
        Checked::Push(_) => s.len() < bound,
        Checked::Insert(index, _) => s.len() < bound && 0 <= index <= s.len(),
        Checked::Extend(items) => s.len() + items.len() <= bound,
        Checked::Append(items) => s.len() + items.len() <= bound,
        Checked::RotateLeft(mid) => 0 <= mid <= s.len(),
        Checked::RotateRight(k) => 0 <= k <= s.len(),
    }
}

/// What the checked mutator leaves of `s` under the bound `bound`: `s` itself
/// where it does not go through.
pub open spec fn checked<T>(s: Seq<T>, bound: int, call: Checked<T>) -> Seq<T> {
    if !checked_accepts(s, bound, call) {
        s
    } else {
        match call {
            Checked::Push(element) => s.push(element),
            Checked::Insert(index, element) => s.insert(index, element),
            Checked::Extend(items) => s + items,
            Checked::Append(items) => s + items,
            Checked::RotateLeft(mid) => rotated_left(s, mid),
            Checked::RotateRight(k) => rotated_right(s, k),
        }
    }
}

/// What a run of checked mutators leaves of `s`, one call after the other.
pub open spec fn checked_run<T>(s: Seq<T>, bound: int, calls: Seq<Checked<T>>) -> Seq<T>
    decreases calls.len(),
{
    if calls.len() == 0 {
        s
    } else {
        checked(checked_run(s, bound, calls.drop_last()), bound, calls.last())
    }
}

} // verus!
