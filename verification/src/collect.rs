//! Collecting what a producer yields into a bounded container, with the size
//! that the producer announces looked at first.

use crate::bound::Get;
use crate::bounded_vec::BoundedVec;
use crate::std_ops;
use vstd::prelude::*;
use vstd::std_specs::iter::IteratorSpec;

verus! {

/// Try and collect into a collection `C`.
pub trait TryCollect<C> {
    /// The error type that gets returned when a collection can't be made from `self`.
    type Error;

    /// Consume self and try to collect the results into `C`.
    ///
    /// This is useful in preventing the undesirable `.collect().try_into()`
    /// call chain on collections that need to be converted into a bounded
    /// type.
    fn try_collect(self) -> Result<C, Self::Error>;
}

/// What `try_collect` answers a producer that has too many items.
pub open spec fn too_big_message() -> Seq<char> {
    "iterator length too big"@
}

/// Collects `items` into a bounded vector, or fails where they are too many.
///
/// The length that the producer reports decides first: where it is above the
/// bound, no item is taken. What follows the report is [`collect_reported`].
pub fn collect_bounded<I, T, Bound>(items: I) -> (r: Result<BoundedVec<T, Bound>, &'static str>) where
    I: Iterator<Item = T>,
    Bound: Get<u32>,

    ensures
        match r {
            Ok(collected) => items.obeys_prophetic_iter_laws() ==> collected@
                == items.remaining() && items.remaining().len() <= Bound::spec_get(),
            Err(message) => message@ == too_big_message(),
        },
{
    let reported = std_ops::least_len(&items);
    collect_reported::<I, T, Bound>(reported, items)
}

/// What collecting does with a producer once it has reported how many items
/// it has: a report above the bound is refused before any item is taken or
/// any room is made; a producer that keeps to a report within the bound is
/// collected, all its items in their order; one that yields more than the
/// bound allows is refused at the item that does not fit.
pub fn collect_reported<I, T, Bound>(reported: usize, items: I) -> (r: Result<
    BoundedVec<T, Bound>,
    &'static str,
>) where I: Iterator<Item = T>, Bound: Get<u32>
    ensures
        reported > Bound::spec_get() ==> r is Err,
        items.obeys_prophetic_iter_laws() ==> (r is Ok <==> reported <= Bound::spec_get()
            && items.remaining().len() <= Bound::spec_get()),
        r is Ok && items.obeys_prophetic_iter_laws() ==> r->Ok_0@ == items.remaining(),
        r is Err ==> r->Err_0@ == too_big_message(),
{
    if reported > Bound::get() as usize {
        return Err("iterator length too big");
    }
    let mut collected = BoundedVec::<T, Bound>::with_bounded_capacity(reported);
    let mut rest = items;
    loop
        invariant
            rest.obeys_prophetic_iter_laws() == items.obeys_prophetic_iter_laws(),
            rest.obeys_prophetic_iter_laws() ==> collected@ + rest.remaining()
                == items.remaining(),
            collected@.len() <= Bound::spec_get(),
            reported <= Bound::spec_get(),
        decreases Bound::spec_get() - collected@.len(),
    {
        match rest.next() {
            None => {
                return Ok(collected);
            },
            Some(item) => {
                if collected.try_push(item).is_err() {
                    // More items than were reported, and too many.
                    return Err("iterator length too big");
                }
            },
        }
    }
}

impl<I, T, Bound> TryCollect<BoundedVec<T, Bound>> for I where
    I: Iterator<Item = T>,
    Bound: Get<u32>,
 {
    type Error = &'static str;

    /// Does what [`collect_bounded`] does.
    fn try_collect(self) -> (r: Result<BoundedVec<T, Bound>, &'static str>)
        ensures
            call_ensures(collect_bounded::<I, T, Bound>, (self,), r),
    {
        collect_bounded::<I, T, Bound>(self)
    }
}

} // verus!
