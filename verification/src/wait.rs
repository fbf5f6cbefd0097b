//! The wait-condition primitive: a notification latch built from a mutex and a
//! condition variable of `std::sync`. A consumer sleeps on the latch until a
//! probe of the shared state says it may proceed; producers and stop requests
//! ring the latch after changing that state. The probe runs while the latch's
//! mutex is held, and every notifier acquires that mutex before notifying, so
//! a notification cannot fall between the probe and the sleep.

use std::sync::Arc;
use vstd::prelude::*;

verus! {

#[verifier::external_type_specification]
#[verifier::external_body]
#[verifier::reject_recursive_types(T)]
pub struct ExMutex<T: ?Sized>(std::sync::Mutex<T>);

#[verifier::external_type_specification]
#[verifier::external_body]
#[verifier::reject_recursive_types(T)]
pub struct ExMutexGuard<'a, T: ?Sized + 'a>(std::sync::MutexGuard<'a, T>);

#[verifier::external_type_specification]
#[verifier::external_body]
pub struct ExCondvar(std::sync::Condvar);

/// Relies on `std::sync::Mutex::new`: wraps the value in a fresh unlocked mutex.
#[verifier::external_body]
fn new_unit_mutex() -> std::sync::Mutex<()> {
    std::sync::Mutex::new(())
}

/// Relies on `std::sync::Condvar::new`: a fresh condition variable with no waiters.
#[verifier::external_body]
fn new_condvar() -> std::sync::Condvar {
    std::sync::Condvar::new()
}

/// Relies on `std::sync::Mutex::lock`: blocks until the mutex is free and
/// returns the guard that holds it. A poisoned lock (a thread died while
/// holding it) is a fatal invariant violation here, as the design prescribes.
#[verifier::external_body]
pub(crate) fn lock_unit(m: &std::sync::Mutex<()>) -> std::sync::MutexGuard<'_, ()> {
    m.lock().unwrap()
}

/// Relies on `std::sync::Arc::clone`: returns a new reference-counted handle
/// to the same shared value.
#[verifier::external_body]
pub(crate) fn share_arc<T>(a: &Arc<T>) -> (r: Arc<T>)
    ensures
        r == *a,
{
    Arc::clone(a)
}

/// Relies on `std::sync::Condvar::notify_one`: wakes one thread blocked on
/// this condition variable, if any is blocked; otherwise does nothing.
#[verifier::external_body]
fn notify_condvar(cv: &std::sync::Condvar) {
    cv.notify_one();
}

/// One wait-condition, shared by reference counting: the single latch on which
/// a blocked receive sleeps, rung both by a send and by a stop request.
pub struct WaitCond {
    pub(crate) latch: std::sync::Mutex<()>,
    pub(crate) cv: std::sync::Condvar,
}

impl WaitCond {
    /// A fresh latch with no waiter and no pending notification.
    pub fn new() -> WaitCond {
        WaitCond { latch: new_unit_mutex(), cv: new_condvar() }
    }

    /// Wakes one thread blocked on this wait-condition, if any. The latch's
    /// mutex is taken first, so a waiter that has already decided to sleep but
    /// has not yet done so cannot miss this notification. Never blocks for
    /// longer than that mutex is held by a probing waiter.
    pub fn notify_one(&self) {
        let _held_while_notifying = lock_unit(&self.latch);
        notify_condvar(&self.cv);
    }
}

} // verus!
