//! Cancellation state: one shared record holding a monotonic stop flag and a
//! slot for at most one registered wait-condition. `StopSource` is the owning
//! handle that can raise the flag; `StopToken` is the read-only handle that
//! observes it and registers the wait-condition a blocked receive sleeps on.

use std::sync::Arc;
use vstd::prelude::*;
use vstd::rwlock::RwLock;
use vstd::rwlock::RwLockPredicate;

use crate::wait::WaitCond;
use crate::wait::share_arc;

verus! {

/// The lock around the cancellation record places no restriction on the
/// record's value: the exact contracts live on [`StopState`]'s own methods.
pub struct StopPred;

impl RwLockPredicate<StopState> for StopPred {
    open spec fn inv(self, s: StopState) -> bool {
        true
    }
}

/// The shared cancellation record, as a plain value: the stop flag, which
/// starts false and only ever moves to true, and the waiter slot, which holds
/// the wait-condition of the one receive currently blocked on this record.
pub struct StopState {
    pub stop_requested: bool,
    pub waiter: Option<Arc<WaitCond>>,
}

/// The record a stop request leaves behind: the flag raised, the waiter slot
/// untouched. Applying it twice leaves the same record as applying it once.
pub open spec fn stop_step(s: StopState) -> StopState {
    StopState { stop_requested: true, waiter: s.waiter }
}

impl StopState {
    /// The initial record: not stopped, no waiter registered.
    pub fn new() -> (s: StopState)
        ensures
            !s.stop_requested,
            s.waiter is None,
    {
        StopState { stop_requested: false, waiter: None }
    }

    /// Raises the stop flag. The waiter slot is untouched, and a record that
    /// was already stopped is unchanged: the transition is idempotent.
    pub fn mark_stopped(&mut self)
        ensures
            *final(self) == stop_step(*old(self)),
    {
        self.stop_requested = true;
    }

    /// Installs a wait-condition in the waiter slot, replacing any previous
    /// registration. The stop flag is untouched.
    pub fn set_waiter(&mut self, cond_var: Arc<WaitCond>)
        ensures
            final(self).stop_requested == old(self).stop_requested,
            final(self).waiter == Some(cond_var),
    {
        self.waiter = Some(cond_var);
    }

    /// Clears the waiter slot. The stop flag is untouched.
    pub fn clear_waiter(&mut self)
        ensures
            final(self).stop_requested == old(self).stop_requested,
            final(self).waiter is None,
    {
        self.waiter = None;
    }
}

/// Idempotence of cancellation: requesting a stop on a record that has
/// already been stopped leaves the record exactly as the first request left
/// it, whatever the waiter slot holds.
pub proof fn lemma_request_stop_idempotent(s: StopState)
    ensures
        stop_step(stop_step(s)) == stop_step(s),
{
}

/// Owning handle to a shared cancellation record. Any of its clones may raise
/// the record's stop flag; all of them, and every token derived from them,
/// observe the same record.
#[derive(Clone)]
pub struct StopSource {
    data: Arc<RwLock<StopState, StopPred>>,
}

/// Read-only handle to the same record: it can observe the flag and manage
/// the waiter slot, but never raise the flag.
#[derive(Clone)]
pub struct StopToken {
    data: Arc<RwLock<StopState, StopPred>>,
}

impl StopSource {
    /// The shared cancellation record this handle owns a reference to.
    pub closed spec fn record_ref(&self) -> Arc<RwLock<StopState, StopPred>> {
        self.data
    }

    /// A fresh record: flag down, no waiter registered.
    pub fn new() -> StopSource {
        let initial = StopState::new();
        StopSource { data: Arc::new(RwLock::new(initial, Ghost(StopPred))) }
    }

    /// Raises the shared stop flag; the record moves through [`stop_step`],
    /// so a second call leaves it unchanged. If a wait-condition is
    /// registered, wakes one waiter blocked on it. Never blocks beyond the
    /// record's own lock and the latch's mutex, both held only briefly.
    pub fn request_stop(&self) {
        let (mut state, handle) = self.data.acquire_write();
        state.mark_stopped();
        let registered = match &state.waiter {
            Some(cond_var) => Some(share_arc(cond_var)),
            None => None,
        };
        handle.release_write(state);
        // The record's lock is released before the latch is touched, so no
        // operation ever holds the two at once.
        match registered {
            Some(cond_var) => cond_var.notify_one(),
            None => {},
        }
    }

    /// Derives a read-only token for the same record: the token observes
    /// every stop request made through this source or any of its clones.
    pub fn stop_token(&self) -> (token: StopToken)
        ensures
            token.record_ref() == self.record_ref(),
    {
        StopToken { data: share_arc(&self.data) }
    }
}

impl StopToken {
    /// The shared cancellation record this handle reads.
    pub closed spec fn record_ref(&self) -> Arc<RwLock<StopState, StopPred>> {
        self.data
    }

    /// Non-blocking snapshot of the stop flag. Once it has returned true it
    /// returns true ever after: the flag is raised by [`stop_step`] only and
    /// never reset.
    pub fn stop_requested(&self) -> bool {
        let handle = self.data.acquire_read();
        let flag = handle.borrow().stop_requested;
        handle.release_read();
        flag
    }

    /// Installs `cond_var` as the record's single registered wait-condition:
    /// the one a stop request will ring. A previous registration is replaced;
    /// overlapping receives on one token are a usage error.
    pub fn register_cond_var(&self, cond_var: Arc<WaitCond>) {
        let (mut state, handle) = self.data.acquire_write();
        state.set_waiter(cond_var);
        handle.release_write(state);
    }

    /// Clears the waiter slot.
    pub fn unregister_cond_var(&self) {
        let (mut state, handle) = self.data.acquire_write();
        state.clear_waiter();
        handle.release_write(state);
    }
}

} // verus!
