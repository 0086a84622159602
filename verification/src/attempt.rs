//! What each call of the holder makes of its lock attempt.
//!
//! A lock attempt either reaches the slot or finds the lock poisoned. Here
//! it is an `Option` of a reference to the slot: `Some` with the slot that
//! the lock protects, `None` where the lock is poisoned.

use vstd::prelude::*;
use crate::slot::Slot;
use crate::state::duplicate_of;

verus! {

/// How an attempt to store a candidate ended.
#[derive(Clone, Copy, Debug, PartialEq, Eq, Structural)]
pub enum Offer {
    /// The candidate is now the holder's best.
    Stored,
    /// The holder was frozen; the candidate was dropped.
    Frozen,
    /// The lock was poisoned; the candidate was dropped.
    Poisoned,
}

/// The lock is poisoned: a thread panicked while it held the lock, and the
/// slot behind it is not to be trusted.
#[derive(Clone, Copy, Debug, PartialEq, Eq, Structural)]
pub struct Poisoned;

/// Whether the slot behind the lock is ready. Behind a poisoned lock nothing
/// counts as ready.
pub fn is_ready<T>(held: Option<&Slot<T>>) -> (ready: bool)
    ensures
        ready == (held matches Some(slot) && slot@.is_ready()),
{
    match held {
        Some(slot) => slot.is_ready(),
        None => false,
    }
}

/// Commits the slot behind the lock: freezes it and returns a duplicate of
/// its candidate. Behind a poisoned lock there is nothing to freeze and no
/// value to return.
pub fn commit<T: Clone>(held: Option<&mut Slot<T>>) -> (out: Result<Option<T>, Poisoned>)
    ensures
        held is None ==> out == Err::<Option<T>, Poisoned>(Poisoned),
        held matches Some(slot) ==> {
            &&& out matches Ok(copy) && duplicate_of(slot@.candidate, copy)
            &&& final(slot)@ == slot@.commit()
        },
{
    match held {
        Some(slot) => Ok(slot.commit()),
        None => Err(Poisoned),
    }
}

/// Offers `value` to the slot behind the lock: it replaces the candidate
/// unless the slot is frozen. Behind a poisoned lock the value is dropped.
pub fn offer<T>(held: Option<&mut Slot<T>>, value: T) -> (out: Offer)
    ensures
        held is None ==> out == Offer::Poisoned,
        held matches Some(slot) ==> {
            &&& out == if slot@.accepts() { Offer::Stored } else { Offer::Frozen }
            &&& final(slot)@ == slot@.update(value)
        },
{
    match held {
        Some(slot) => if slot.update(value) {
            Offer::Stored
        } else {
            Offer::Frozen
        },
        None => Offer::Poisoned,
    }
}

} // verus!
