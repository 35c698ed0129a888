//! The standard library's lock and condition variable, as far as this crate
//! uses them. What a lock guards is written by other threads, so none of
//! these items says anything about the guarded value: code that takes a
//! lock is verified for every value it may find there.

use vstd::prelude::*;
use std::sync::Condvar;
use std::sync::Mutex;
use std::sync::MutexGuard;

verus! {

/// `std::sync::Mutex`, as an opaque type: Verus sees nothing of the value
/// that it guards.
#[verifier::external_type_specification]
#[verifier::external_body]
#[verifier::reject_recursive_types(T)]
pub struct ExMutex<T: ?Sized>(Mutex<T>);

/// `std::sync::MutexGuard`, as an opaque type: the lock, while it is held.
#[verifier::external_type_specification]
#[verifier::external_body]
#[verifier::reject_recursive_types(T)]
pub struct ExMutexGuard<'a, T: ?Sized + 'a>(MutexGuard<'a, T>);

/// `std::sync::Condvar`, as an opaque type.
#[verifier::external_type_specification]
#[verifier::external_body]
pub struct ExCondvar(Condvar);

/// `Mutex::new`: a lock around `t`. Nothing is claimed of the lock.
pub assume_specification<T>[ Mutex::<T>::new ](t: T) -> (m: Mutex<T>);

/// `Condvar::new`: a condition variable with no waiter. Nothing is claimed
/// of it.
pub assume_specification[ Condvar::new ]() -> (c: Condvar);

/// `Mutex::lock`, with the guard taken out of the `Ok`: blocks until the lock
/// is free, and holds it until the guard is dropped. A lock whose holder
/// panicked is poisoned, and this call then panics as well: a poisoned lock
/// is fatal to whoever asks for it. The calling thread must not hold the
/// lock already; no function of this crate asks for a lock that it holds.
/// Nothing is claimed of the guarded value.
#[verifier::external_body]
pub(crate) fn lock<T>(m: &Mutex<T>) -> (guard: MutexGuard<'_, T>)
{
    m.lock().unwrap()
}

/// `Mutex::lock`, with the guard taken out of either outcome, for the
/// destructors, which must not unwind: they do their bookkeeping on a
/// poisoned lock too, and whoever takes the lock next finds it poisoned.
/// Taking the guard out of a `PoisonError` does not panic, which is what
/// `no_unwind` claims. The calling thread must not hold the lock already.
/// Nothing is claimed of the guarded value.
#[verifier::external_body]
pub(crate) fn lock_poisoned_too<T>(m: &Mutex<T>) -> (guard: MutexGuard<'_, T>)
    opens_invariants none
    no_unwind
{
    match m.lock() {
        Ok(guard) => guard,
        Err(poisoned) => poisoned.into_inner(),
    }
}

/// `DerefMut::deref_mut` of a guard: the guarded value, for as long as the
/// guard is borrowed. It does not panic. Nothing is claimed of the value.
#[verifier::external_body]
pub(crate) fn held<'a, 'b, T>(guard: &'a mut MutexGuard<'b, T>) -> (value: &'a mut T)
    opens_invariants none
    no_unwind
{
    &mut **guard
}

/// `Condvar::notify_one`: wakes one thread that waits on `c`, if there is
/// one. It does not panic and returns nothing.
#[verifier::external_body]
pub(crate) fn notify_one(c: &Condvar)
    opens_invariants none
    no_unwind
{
    c.notify_one()
}

/// `Condvar::notify_all`: wakes every thread that waits on `c`. It does not
/// panic and returns nothing.
#[verifier::external_body]
pub(crate) fn notify_all(c: &Condvar)
    opens_invariants none
    no_unwind
{
    c.notify_all()
}

} // verus!
