//! Filling a bounded vector from a sequence that arrives element by element,
//! as a deserializer hands it over: what to do at the start, and what to do
//! with the next element. Too long a sequence is refused, never cut short.

use crate::bound::Get;
use crate::bounded_vec::BoundedVec;
use vstd::prelude::*;

verus! {

/// The sequence has more elements than the bound allows.
#[derive(Clone, Copy, Debug, PartialEq, Eq)]
pub struct OutOfBounds;

/// What a deserializer says of too long a sequence.
pub open spec fn out_of_bounds_message() -> Seq<char> {
    "out of bounds"@
}

impl OutOfBounds {
    /// The words for the refusal.
    pub fn text(&self) -> (text: &'static str)
        ensures
            text@ == out_of_bounds_message(),
    {
        "out of bounds"
    }
}

/// The number of elements that a sequence announces with `size_hint`: none
/// where it does not say.
pub open spec fn announced(size_hint: Option<usize>) -> nat {
    match size_hint {
        Some(size) => size as nat,
        None => 0,
    }
}

impl<T, S: Get<u32>> BoundedVec<T, S> {
    /// Starts on a sequence that announces `size_hint` elements: the empty
    /// vector, with room for what is announced, or the refusal where more are
    /// announced than the bound allows.
    pub fn begin_sequence(size_hint: Option<usize>) -> (r: Result<Self, OutOfBounds>)
        ensures
            r is Ok <==> announced(size_hint) <= Self::spec_bound(),
            r is Ok ==> r->Ok_0@ == Seq::<T>::empty(),
    {
        let size = match size_hint {
            Some(size) => size,
            None => 0,
        };
        if size > Self::bound() {
            Err(OutOfBounds)
        } else {
            Ok(Self::with_bounded_capacity(size))
        }
    }

    /// Takes the next element of the sequence: it goes to the end, or is
    /// refused where the vector is full already, which leaves the vector as it
    /// is.
    pub fn accept_element(&mut self, value: T) -> (r: Result<(), OutOfBounds>)
        ensures
            r is Ok <==> old(self)@.len() < Self::spec_bound(),
            r is Ok ==> final(self)@ == old(self)@.push(value),
            r is Err ==> final(self)@ == old(self)@,
            final(self)@.len() <= Self::spec_bound(),
    {
        match self.try_push(value) {
            Ok(()) => Ok(()),
            Err(_) => Err(OutOfBounds),
        }
    }
}

} // verus!
