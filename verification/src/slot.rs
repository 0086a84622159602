//! The candidate slot: the data that a holder keeps behind its lock.

use vstd::prelude::*;
use crate::state::{State, duplicate_of};

verus! {

/// A candidate and its freeze mark. The fields are private, so the only ways
/// to change a slot are `update` and `commit`.
pub struct Slot<T> {
    candidate: Option<T>,
    frozen: bool,
}

impl<T> View for Slot<T> {
    type V = State<T>;

    closed spec fn view(&self) -> State<T> {
        State { candidate: self.candidate, frozen: self.frozen }
    }
}

impl<T> Slot<T> {
    /// An empty slot that is not frozen.
    pub fn new() -> (slot: Self)
        ensures
            slot@ == State::<T>::empty(),
            !slot@.is_final(),
            !slot@.is_ready(),
    {
        Slot { candidate: None, frozen: false }
    }

    /// Whether a commit has frozen the slot.
    pub fn is_final(&self) -> (frozen: bool)
        ensures
            frozen == self@.is_final(),
    {
        self.frozen
    }

    /// Whether the slot is frozen or holds a candidate.
    pub fn is_ready(&self) -> (ready: bool)
        ensures
            ready == self@.is_ready(),
    {
        self.frozen || self.candidate.is_some()
    }

    /// Replaces the candidate with `value`, unless the slot is frozen: then
    /// `value` is dropped and the slot stays as it was. Returns whether the
    /// value was stored.
    pub fn update(&mut self, value: T) -> (stored: bool)
        ensures
            final(self)@ == old(self)@.update(value),
            stored == old(self)@.accepts(),
            final(self)@.is_ready(),
            final(self)@.is_final() == old(self)@.is_final(),
    {
        if self.frozen {
            false
        } else {
            self.candidate = Some(value);
            true
        }
    }

    /// Freezes the slot and returns a duplicate of the candidate, which stays
    /// in the slot.
    pub fn commit(&mut self) -> (copy: Option<T>) where T: Clone
        ensures
            final(self)@ == old(self)@.commit(),
            duplicate_of(old(self)@.candidate, copy),
            final(self)@.is_final(),
            final(self)@.candidate == old(self)@.candidate,
    {
        self.frozen = true;
        self.candidate.clone()
    }
}

} // verus!
