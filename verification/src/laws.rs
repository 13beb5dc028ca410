//! What holds of the operations of the model, for every input.

use crate::model::{
    checked, checked_accepts, checked_run, force_pushed, keep_left_inserts, keep_right_inserts,
    kept_left, kept_right, min_len, retained, rotated_left, rotated_right, slid, slide_moves,
    truncated, Checked,
};
use vstd::prelude::*;

verus! {

/// A checked mutator never leaves more elements than the bound allows, where
/// there were no more before, and changes nothing where it does not go
/// through.
pub proof fn lemma_checked_within_bound<T>(s: Seq<T>, bound: nat, call: Checked<T>)
    requires
        s.len() <= bound,
    ensures
        checked(s, bound as int, call).len() <= bound,
        !checked_accepts(s, bound as int, call) ==> checked(s, bound as int, call) == s,
{
}

/// Whatever checked mutators are called, in whatever order and with whatever
/// they are handed, the length is within the bound after each call.
pub proof fn lemma_checked_run_within_bound<T>(s: Seq<T>, bound: nat, calls: Seq<Checked<T>>)
    requires
        s.len() <= bound,
    ensures
        checked_run(s, bound as int, calls).len() <= bound,
        forall|n: int|
            0 <= n <= calls.len() ==> (#[trigger] checked_run(
                s,
                bound as int,
                calls.subrange(0, n),
            )).len() <= bound,
    decreases calls.len(),
{
    if calls.len() > 0 {
        let earlier = calls.drop_last();
        lemma_checked_run_within_bound(s, bound, earlier);
        lemma_checked_within_bound(checked_run(s, bound as int, earlier), bound, calls.last());
        assert forall|n: int| 0 <= n <= calls.len() implies (#[trigger] checked_run(
            s,
            bound as int,
            calls.subrange(0, n),
        )).len() <= bound by {
            if n < calls.len() {
                assert(calls.subrange(0, n) =~= earlier.subrange(0, n));
            } else {
                assert(calls.subrange(0, n) =~= calls);
            }
        }
    } else {
        assert forall|n: int| 0 <= n <= calls.len() implies (#[trigger] checked_run(
            s,
            bound as int,
            calls.subrange(0, n),
        )).len() <= bound by {
            assert(calls.subrange(0, n) =~= calls);
        }
    }
}

/// Truncating keeps exactly the elements in front of the bound: no more than
/// `bound` of them, each at its place, and all of them where `s` is within the
/// bound already.
pub proof fn lemma_truncated_is_prefix<T>(s: Seq<T>, bound: nat)
    ensures
        truncated(s, bound as int) == s.subrange(0, min_len(s.len() as int, bound as int)),
        truncated(s, bound as int).len() == min_len(s.len() as int, bound as int),
        truncated(s, bound as int).len() <= bound,
        forall|i: int|
            0 <= i < truncated(s, bound as int).len() ==> #[trigger] truncated(s, bound as int)[i]
                == s[i],
        s.len() <= bound ==> truncated(s, bound as int) == s,
{
}

/// Truncating twice to the same bound is truncating once.
pub proof fn lemma_truncated_idempotent<T>(s: Seq<T>, bound: nat)
    ensures
        truncated(truncated(s, bound as int), bound as int) == truncated(s, bound as int),
{
}

/// Pushing by force into a full sequence under a bound above zero keeps the
/// length at the bound, puts the new element last and keeps all but the old
/// last element in place.
pub proof fn lemma_force_push_full<T>(s: Seq<T>, bound: nat, element: T)
    requires
        bound > 0,
        s.len() == bound,
    ensures
        force_pushed(s, bound as int, element).len() == bound,
        force_pushed(s, bound as int, element).last() == element,
        force_pushed(s, bound as int, element).drop_last() == s.drop_last(),
{
}

/// Pushing by force into a sequence with room left is pushing.
pub proof fn lemma_force_push_with_room<T>(s: Seq<T>, bound: nat, element: T)
    requires
        s.len() < bound,
    ensures
        force_pushed(s, bound as int, element) == s.push(element),
{
}

/// Under the bound zero, pushing by force changes nothing.
pub proof fn lemma_force_push_zero_bound<T>(s: Seq<T>, element: T)
    ensures
        force_pushed(s, 0, element) == s,
{
}

/// Pushing by force never leaves more elements than the bound allows, where
/// there were no more before.
pub proof fn lemma_force_push_within_bound<T>(s: Seq<T>, bound: nat, element: T)
    requires
        s.len() <= bound,
    ensures
        force_pushed(s, bound as int, element).len() == min_len(bound as int, s.len() as int + 1),
        force_pushed(s, bound as int, element).len() <= bound,
{
}

/// A forced insertion that keeps the right part of a full sequence evicts
/// exactly the first element: the length stays, the new element stands in
/// front of what stood at `index`, and taking it out again leaves the old
/// elements but the first, in their order. What stood at `index` or behind it
/// keeps its position.
pub proof fn lemma_keep_right_full<T>(s: Seq<T>, index: int, element: T)
    requires
        keep_right_inserts(s.len() as int, s.len() as int, index),
    ensures
        kept_right(s, s.len() as int, index, element).len() == s.len(),
        kept_right(s, s.len() as int, index, element)[index - 1] == element,
        kept_right(s, s.len() as int, index, element).remove(index - 1) == s.remove(0),
        forall|i: int|
            index <= i < s.len() ==> #[trigger] kept_right(s, s.len() as int, index, element)[i]
                == s[i],
{
    let r = kept_right(s, s.len() as int, index, element);
    assert(r.remove(index - 1) =~= s.remove(0));
}

/// A forced insertion that keeps the left part of a full sequence evicts
/// exactly the last element: the length stays, the new element stands at
/// `index`, and taking it out again leaves the old elements but the last, in
/// their order. What stood in front of `index` keeps its position.
pub proof fn lemma_keep_left_full<T>(s: Seq<T>, index: int, element: T)
    requires
        keep_left_inserts(s.len() as int, s.len() as int, index),
    ensures
        kept_left(s, s.len() as int, index, element).len() == s.len(),
        kept_left(s, s.len() as int, index, element)[index] == element,
        kept_left(s, s.len() as int, index, element).remove(index) == s.drop_last(),
        forall|i: int|
            0 <= i < index ==> #[trigger] kept_left(s, s.len() as int, index, element)[i] == s[i],
{
    let r = kept_left(s, s.len() as int, index, element);
    assert(r.remove(index) =~= s.drop_last());
}

/// A forced insertion into a sequence with room left is an insertion,
/// whichever part it is meant to keep.
pub proof fn lemma_keep_with_room<T>(s: Seq<T>, bound: nat, index: int, element: T)
    requires
        s.len() < bound,
        0 <= index <= s.len(),
    ensures
        keep_right_inserts(s.len() as int, bound as int, index),
        keep_left_inserts(s.len() as int, bound as int, index),
        kept_right(s, bound as int, index, element) == s.insert(index, element),
        kept_left(s, bound as int, index, element) == s.insert(index, element),
{
}

/// A forced insertion never leaves more elements than the bound allows, where
/// there were no more before.
pub proof fn lemma_keep_within_bound<T>(s: Seq<T>, bound: nat, index: int, element: T)
    requires
        s.len() <= bound,
    ensures
        keep_right_inserts(s.len() as int, bound as int, index) ==> kept_right(
            s,
            bound as int,
            index,
            element,
        ).len() <= bound,
        keep_left_inserts(s.len() as int, bound as int, index) ==> kept_left(
            s,
            bound as int,
            index,
            element,
        ).len() <= bound,
{
}

/// Sliding an item onto its own place, or in front of its successor, moves
/// nothing.
pub proof fn lemma_slide_noops(len: nat, index: int)
    ensures
        !slide_moves(len as int, index, index),
        !slide_moves(len as int, index, index + 1),
{
}

/// A slide keeps the length, puts the item where it was asked to go and keeps
/// the other items in their order.
pub proof fn lemma_slide_moves_one<T>(s: Seq<T>, index: int, insert_position: int)
    requires
        slide_moves(s.len() as int, index, insert_position),
    ensures
        slid(s, index, insert_position).len() == s.len(),
        insert_position < index ==> slid(s, index, insert_position)[insert_position] == s[index]
            && slid(s, index, insert_position).remove(insert_position) == s.remove(index),
        insert_position > index ==> slid(s, index, insert_position)[insert_position - 1]
            == s[index] && slid(s, index, insert_position).remove(insert_position - 1) == s.remove(
            index,
        ),
{
    if insert_position < index {
        assert(slid(s, index, insert_position).remove(insert_position) =~= s.remove(index));
    } else {
        assert(slid(s, index, insert_position).remove(insert_position - 1) =~= s.remove(index));
    }
}

/// Sliding an item and sliding it back restores the sequence: an item that
/// went from `index` to the front of `insert_position` goes back by the slide
/// from its new place to the front of what followed it before.
pub proof fn lemma_slide_round_trip<T>(s: Seq<T>, index: int, insert_position: int)
    requires
        slide_moves(s.len() as int, index, insert_position),
    ensures
        insert_position < index ==> slide_moves(s.len() as int, insert_position, index + 1)
            && slid(slid(s, index, insert_position), insert_position, index + 1) == s,
        insert_position > index ==> slide_moves(s.len() as int, insert_position - 1, index)
            && slid(slid(s, index, insert_position), insert_position - 1, index) == s,
{
    if insert_position < index {
        assert(slid(slid(s, index, insert_position), insert_position, index + 1) =~= s);
    } else {
        assert(slid(slid(s, index, insert_position), insert_position - 1, index) =~= s);
    }
}

/// A slide is one rotation by one of the part between the two places.
pub proof fn lemma_slide_is_rotation<T>(s: Seq<T>, index: int, insert_position: int)
    requires
        slide_moves(s.len() as int, index, insert_position),
    ensures
        insert_position < index ==> slid(s, index, insert_position) == s.subrange(
            0,
            insert_position,
        ) + rotated_right(s.subrange(insert_position, index + 1), 1) + s.subrange(
            index + 1,
            s.len() as int,
        ),
        insert_position > index ==> slid(s, index, insert_position) == s.subrange(0, index)
            + rotated_left(s.subrange(index, insert_position), 1) + s.subrange(
            insert_position,
            s.len() as int,
        ),
{
    if insert_position < index {
        assert(slid(s, index, insert_position) =~= s.subrange(0, insert_position) + rotated_right(
            s.subrange(insert_position, index + 1),
            1,
        ) + s.subrange(index + 1, s.len() as int));
    } else {
        assert(slid(s, index, insert_position) =~= s.subrange(0, index) + rotated_left(
            s.subrange(index, insert_position),
            1,
        ) + s.subrange(insert_position, s.len() as int));
    }
}

/// Rotating to the left and then to the right by the same amount restores the
/// sequence, and so the other way round.
pub proof fn lemma_rotation_round_trip<T>(s: Seq<T>, mid: int)
    requires
        0 <= mid <= s.len(),
    ensures
        rotated_left(s, mid).len() == s.len(),
        rotated_right(s, mid).len() == s.len(),
        rotated_right(rotated_left(s, mid), mid) == s,
        rotated_left(rotated_right(s, mid), mid) == s,
{
    assert(rotated_right(rotated_left(s, mid), mid) =~= s);
    assert(rotated_left(rotated_right(s, mid), mid) =~= s);
}

/// Retaining leaves no more elements than there were.
pub proof fn lemma_retained_len<T>(s: Seq<T>, keep: Seq<bool>)
    ensures
        retained(s, keep).len() <= s.len(),
    decreases s.len(),
{
    if s.len() > 0 {
        lemma_retained_len(s.drop_last(), keep.drop_last());
    }
}

/// Each element that is left after retaining stood in the sequence before.
pub proof fn lemma_retained_from<T>(s: Seq<T>, keep: Seq<bool>, i: int)
    requires
        0 <= i < retained(s, keep).len(),
    ensures
        s.contains(retained(s, keep)[i]),
    decreases s.len(),
{
    if s.len() > 0 {
        let rest = retained(s.drop_last(), keep.drop_last());
        if i < rest.len() {
            lemma_retained_from(s.drop_last(), keep.drop_last(), i);
            let j = choose|j: int| 0 <= j < s.drop_last().len() && s.drop_last()[j] == rest[i];
            assert(s[j] == rest[i]);
        } else {
            assert(s[s.len() - 1] == retained(s, keep)[i]);
        }
    }
}

} // verus!
