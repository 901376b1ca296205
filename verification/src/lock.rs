//! What the library takes on trust about `std::sync::Mutex`. A mutex is shared
//! between threads, so nothing is promised about the value a lock finds.
//!
//! A thread that holds a lock must not take the same lock again: `lock` may
//! then panic or never return. The library takes the lock once in each
//! operation and gives no guard away.

use vstd::prelude::*;
use std::ops::Deref;
use std::ops::DerefMut;
use std::sync::Mutex;
use std::sync::MutexGuard;
use std::sync::PoisonError;

verus! {

/// `std::sync::Mutex`, carried as an opaque value.
#[verifier::external_type_specification]
#[verifier::external_body]
#[verifier::reject_recursive_types(T)]
pub struct ExMutex<T: ?Sized>(Mutex<T>);

/// `std::sync::MutexGuard`, carried as an opaque value. Dropping it releases
/// the lock.
#[verifier::external_type_specification]
#[verifier::external_body]
#[verifier::reject_recursive_types(T)]
pub struct ExMutexGuard<'a, T: ?Sized + 'a>(MutexGuard<'a, T>);

/// `std::sync::PoisonError`, the error of a lock whose holder panicked.
#[verifier::external_type_specification]
#[verifier::external_body]
#[verifier::reject_recursive_types(T)]
pub struct ExPoisonError<T>(PoisonError<T>);

/// `Mutex::new` wraps a value; nothing is claimed of the new mutex.
pub assume_specification<T>[ Mutex::<T>::new ](t: T) -> (m: Mutex<T>)
;

/// `Mutex::lock` blocks until the lock is free and fails when the lock is
/// poisoned. Which of the two happens, and which value the guard finds,
/// depends on the other threads: nothing is claimed of the result.
pub assume_specification<'a, T: ?Sized>[ Mutex::<T>::lock ](m: &'a Mutex<T>) -> (r: Result<
    MutexGuard<'a, T>,
    PoisonError<MutexGuard<'a, T>>,
>)
;

/// `Deref::deref` of a guard: shared access to the guarded value.
#[verifier::external_body]
pub(crate) fn guarded<'g, 'a, T>(guard: &'g MutexGuard<'a, T>) -> (r: &'g T) {
    guard.deref()
}

/// `DerefMut::deref_mut` of a guard: exclusive access to the guarded value
/// for as long as the borrow lasts.
#[verifier::external_body]
pub(crate) fn guarded_mut<'g, 'a, T>(guard: &'g mut MutexGuard<'a, T>) -> (r: &'g mut T) {
    guard.deref_mut()
}

} // verus!
