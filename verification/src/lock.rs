//! The standard mutex, as far as the holder uses it.
//!
//! Nothing here is proved. What a mutex protects changes behind a shared
//! reference, so no contract says what a lock attempt finds; the items below
//! only let verified code take the lock and reach the value behind it.

use vstd::prelude::*;
use std::sync::{LockResult, Mutex, MutexGuard, PoisonError};
use std::ops::{Deref, DerefMut};

verus! {

/// `std::sync::Mutex`, carried as an opaque value.
#[verifier::external_type_specification]
#[verifier::external_body]
#[verifier::reject_recursive_types(T)]
pub struct ExMutex<T: ?Sized>(Mutex<T>);

/// `std::sync::MutexGuard`, carried as an opaque value. The lock is held for
/// as long as the guard lives.
#[verifier::external_type_specification]
#[verifier::external_body]
#[verifier::reject_recursive_types(T)]
pub struct ExMutexGuard<'a, T: ?Sized + 'a>(MutexGuard<'a, T>);

/// `std::sync::PoisonError`, carried as an opaque value: what a lock attempt
/// returns after a thread has panicked while it held the lock.
#[verifier::external_type_specification]
#[verifier::external_body]
#[verifier::reject_recursive_types(T)]
pub struct ExPoisonError<T>(PoisonError<T>);

/// `Mutex::new` wraps a value in an unlocked mutex. The contract claims
/// nothing of the result.
pub assume_specification<T>[ Mutex::<T>::new ](t: T) -> Mutex<T>;

/// `Mutex::lock` waits for the lock and returns a guard, or an error if the
/// mutex is poisoned. Which of the two comes back depends on the other
/// threads, so the contract claims nothing of the result. A thread that
/// already holds the lock must not ask for it again; the holder drops each
/// guard before the call that took it returns.
pub assume_specification<'a, T: ?Sized>[ Mutex::<T>::lock ](mutex: &'a Mutex<T>) -> LockResult<
    MutexGuard<'a, T>,
>;

/// `Deref::deref` of a guard: a shared reference to the value that the mutex
/// protects. The contract claims nothing of the value found there.
pub assume_specification<'a, 'b, T: ?Sized>[ <MutexGuard<'a, T> as Deref>::deref ](
    guard: &'b MutexGuard<'a, T>,
) -> &'b T;

/// `DerefMut::deref_mut` of a guard: an exclusive reference to the value that
/// the mutex protects. The contract claims nothing of the value found there.
pub assume_specification<'a, 'b, T: ?Sized>[ <MutexGuard<'a, T> as DerefMut>::deref_mut ](
    guard: &'b mut MutexGuard<'a, T>,
) -> &'b mut T;

} // verus!
