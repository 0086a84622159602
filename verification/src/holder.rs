//! The shared holder: a slot behind a mutex, and a flag that tells without
//! waiting whether the slot is frozen.
//!
//! Every change to the slot is made by `Slot::update` or `Slot::commit` while
//! the lock is held, so the order in which the lock lets the calls in is a
//! history of the slot's state machine. What a call finds behind the lock
//! depends on the other threads; the functions here therefore promise nothing
//! of their results. Each takes the lock and hands what it got to a function
//! of `attempt`, whose contract says what is done with it.

use vstd::prelude::*;
use std::sync::{LockResult, Mutex, MutexGuard};
use std::sync::atomic::{AtomicBool, Ordering};
use std::ops::{Deref, DerefMut};
use crate::attempt;
use crate::attempt::{Offer, Poisoned};
use crate::slot::Slot;

verus! {

/// The slot that a lock attempt reached, if it reached one.
fn reached<'a, 'b, T>(locked: &'a LockResult<MutexGuard<'b, Slot<T>>>) -> (held: Option<
    &'a Slot<T>,
>)
    ensures
        held is Some <==> locked is Ok,
{
    match locked {
        Ok(guard) => Some(guard.deref()),
        Err(_) => None,
    }
}

/// The slot that a lock attempt reached, if it reached one, to be changed.
fn reached_mut<'a, 'b, T>(locked: &'a mut LockResult<MutexGuard<'b, Slot<T>>>) -> (held: Option<
    &'a mut Slot<T>,
>)
    ensures
        held is Some <==> *old(locked) is Ok,
{
    match locked {
        Ok(guard) => Some(guard.deref_mut()),
        Err(_) => None,
    }
}

/// A result that could improve until a consumer looks at it, after which it
/// will never change.
#[verifier::reject_recursive_types(T)]
pub struct Anytime<T: Clone> {
    /// The candidate and its freeze mark, changed only while the lock is held.
    current_best: Mutex<Slot<T>>,
    /// Set, and never cleared, by a commit that holds the lock: the freeze
    /// mark for readers that must not wait.
    value_locked: AtomicBool,
}

impl<T: Clone> Anytime<T> {
    /// Creates an empty holder that is not frozen.
    pub fn new() -> Anytime<T> {
        Anytime { current_best: Mutex::new(Slot::new()), value_locked: AtomicBool::new(false) }
    }

    /// Returns true iff a consumer somewhere has committed to the result.
    /// Reads the flag and never waits for the lock, so a commit that is still
    /// under way may not show yet.
    pub fn is_final(&self) -> bool {
        self.value_locked.load(Ordering::Relaxed)
    }

    /// Returns true if the holder is final or holds a candidate. Takes the
    /// lock unless the flag already says final; behind a poisoned lock
    /// nothing counts as ready.
    pub fn is_ready(&self) -> bool {
        if self.is_final() {
            true
        } else {
            let locked = self.current_best.lock();
            attempt::is_ready(reached(&locked))
        }
    }

    /// Commits to the best candidate currently available: freezes the holder
    /// and returns a duplicate of the candidate, or `None` if there is none.
    /// Behind a poisoned lock nothing is frozen.
    pub fn commit(&self) -> Result<Option<T>, Poisoned> {
        let mut locked = self.current_best.lock();
        let held = reached_mut(&mut locked);
        if held.is_some() {
            self.value_locked.store(true, Ordering::Relaxed);
        }
        attempt::commit(held)
    }

    /// Offers a better candidate. It replaces the holder's candidate unless
    /// the holder is frozen or the lock is poisoned.
    pub fn offer(&self, better_result: T) -> Offer {
        let mut locked = self.current_best.lock();
        attempt::offer(reached_mut(&mut locked), better_result)
    }

    /// Commits to and returns the best candidate currently available. After
    /// this, `update_result` changes nothing. Behind a poisoned lock there is
    /// no value.
    pub fn get_result(&self) -> Option<T> {
        match self.commit() {
            Ok(best) => best,
            Err(_) => None,
        }
    }

    /// Stores a better candidate in the holder, if possible.
    pub fn update_result(&self, better_result: T) {
        let _ = self.offer(better_result);
    }
}

} // verus!
