//! The cancellable FIFO queue. `Channel` is the queue itself, a plain value
//! with exact contracts; `Sender` and `Receiver` are the shared handles
//! around it. `Receiver::receive` blocks until an item is available or a stop
//! is requested, and drains before it stops: a queued item is never discarded
//! by cancellation.

use std::collections::VecDeque;
use std::sync::Arc;
use vstd::prelude::*;
use vstd::rwlock::RwLock;
use vstd::rwlock::RwLockPredicate;

use crate::stop_source::StopToken;
use crate::wait::WaitCond;
use crate::wait::lock_unit;
use crate::wait::share_arc;

verus! {

/// What one receive returns when the queue holds `q`: the oldest item, or
/// nothing when the queue is empty. The stop flag does not appear here: that
/// is the drain-before-stop rule, stated rather than implied.
pub open spec fn front_item<T>(q: Seq<T>) -> Option<T> {
    if q.len() > 0 {
        Some(q[0])
    } else {
        None
    }
}

/// What one receive leaves of a queue holding `q`.
pub open spec fn after_receive<T>(q: Seq<T>) -> Seq<T> {
    if q.len() > 0 {
        q.drop_first()
    } else {
        q
    }
}

/// The complete outcome of a receive against queue `q` with the stop flag at
/// `stopped`: `Some(r)` means the receive resolves at once with `r`; `None`
/// means it blocks, waiting for a send or a stop request.
pub open spec fn receive_resolution<T>(q: Seq<T>, stopped: bool) -> Option<Option<T>> {
    if q.len() > 0 {
        Some(Some(q[0]))
    } else if stopped {
        Some(None)
    } else {
        None
    }
}

/// The queue left after `n` successive receives from `q`.
pub open spec fn drain_n<T>(q: Seq<T>, n: int) -> Seq<T>
    decreases n,
{
    if n <= 0 {
        q
    } else {
        after_receive(drain_n(q, n - 1))
    }
}

/// Draining `n` items from a queue of at least `n` removes exactly its first
/// `n` items and keeps the rest in order.
pub proof fn lemma_drain_n_is_skip<T>(q: Seq<T>, n: int)
    requires
        0 <= n <= q.len(),
    ensures
        drain_n(q, n) =~= q.skip(n),
    decreases n,
{
    if n > 0 {
        lemma_drain_n_is_skip(q, n - 1);
    }
}

/// FIFO law: items sent before any receive come back in the order they were
/// sent. After `k` receives from a queue holding `q`, the next receive
/// resolves at once with the `k`-th item sent.
pub proof fn lemma_fifo_order<T>(q: Seq<T>, k: int)
    requires
        0 <= k < q.len(),
    ensures
        receive_resolution(drain_n(q, k), false) == Some(Some(q[k])),
{
    lemma_drain_n_is_skip(q, k);
}

/// Cancellation-drain law: with the stop flag raised over a queue of `n >= 1`
/// items, the next `n` receives still resolve with all `n` items in order,
/// and only the receive after that resolves with nothing.
pub proof fn lemma_cancellation_drain<T>(q: Seq<T>, k: int)
    requires
        q.len() >= 1,
        0 <= k < q.len(),
    ensures
        receive_resolution(drain_n(q, k), true) == Some(Some(q[k])),
        receive_resolution(drain_n(q, q.len() as int), true) == Some(None::<T>),
{
    lemma_drain_n_is_skip(q, k);
    lemma_drain_n_is_skip(q, q.len() as int);
}

/// Cancellation-empty law: with the stop flag raised over an empty queue, a
/// receive resolves at once — it does not block — and returns nothing.
pub proof fn lemma_cancellation_empty<T>()
    ensures
        receive_resolution(Seq::<T>::empty(), true) == Some(None::<T>),
{
}

/// The two wake conditions of a blocked receive: it blocks exactly when the
/// queue is empty and no stop is requested, and each of the two events — an
/// item arriving, a stop being requested — makes it resolve.
pub proof fn lemma_wake_conditions<T>(q: Seq<T>, item: T)
    ensures
        receive_resolution(q, false) is None <==> q.len() == 0,
        receive_resolution(q.push(item), false) is Some,
        receive_resolution(q, true) is Some,
{
}

/// The queue state: items in insertion order, oldest first.
pub struct Channel<T> {
    pub queue: VecDeque<T>,
}

impl<T> Default for Channel<T> {
    /// An empty queue.
    fn default() -> (c: Channel<T>)
        ensures
            c.queue@ =~= Seq::<T>::empty(),
    {
        Channel { queue: VecDeque::new() }
    }
}

impl<T> Channel<T> {
    /// An empty queue.
    pub fn new() -> (c: Channel<T>)
        ensures
            c.queue@ =~= Seq::<T>::empty(),
    {
        Channel::default()
    }

    /// Appends `item` at the back. Nothing else moves: every item already
    /// queued keeps its place, so sends preserve insertion order.
    pub fn send(&mut self, item: T)
        ensures
            final(self).queue@ == old(self).queue@.push(item),
    {
        self.queue.push_back(item);
    }

    /// Removes and returns the oldest item, or returns nothing if the queue
    /// is empty — regardless of the stop token: a stop request never
    /// discards a queued item, it only ends the wait for new ones. This is
    /// the resolution step of a receive; the waiting around it lives in
    /// [`Receiver::receive`].
    pub fn receive(&mut self, _stop_token: &StopToken) -> (r: Option<T>)
        ensures
            r == front_item(old(self).queue@),
            final(self).queue@ == after_receive(old(self).queue@),
            Some(r) == receive_resolution(old(self).queue@, true),
    {
        proof {
            if old(self).queue@.len() > 0 {
                assert(old(self).queue@.subrange(1, old(self).queue@.len() as int) =~= old(
                    self,
                ).queue@.drop_first());
            }
        }
        self.queue.pop_front()
    }

    /// The number of queued items.
    pub fn len(&self) -> (n: usize)
        ensures
            n == self.queue@.len(),
    {
        self.queue.len()
    }

    /// Whether a receive against this queue resolves now, given the stop
    /// flag's value: true exactly when the queue is non-empty or a stop has
    /// been requested. This is the predicate a blocked receive sleeps on.
    pub fn ready(&self, stopped: bool) -> (r: bool)
        ensures
            r == (receive_resolution(self.queue@, stopped) is Some),
    {
        self.queue.len() > 0 || stopped
    }
}

/// The lock around the queue places no restriction on its value: the exact
/// contracts live on [`Channel`]'s own methods.
pub struct QueuePred;

impl<T> RwLockPredicate<Channel<T>> for QueuePred {
    open spec fn inv(self, c: Channel<T>) -> bool {
        true
    }
}

/// The state both handles share: the queue under its lock, and the single
/// wait-condition used both for "item available" and for "stop requested".
pub struct ChannelShared<T> {
    state: RwLock<Channel<T>, QueuePred>,
    cond: Arc<WaitCond>,
}

/// Whether the receive blocked on `shared` may proceed: its queue holds an
/// item, or `token`'s source has requested a stop. Read-only; run by the
/// wait-condition's latch each time the blocked receive is woken.
fn receive_may_proceed<T>(shared: &ChannelShared<T>, token: &StopToken) -> bool {
    let stopped = token.stop_requested();
    let handle = shared.state.acquire_read();
    let r = handle.borrow().ready(stopped);
    handle.release_read();
    r
}

/// Relies on `std::sync::Condvar::wait_while`: atomically releases the
/// latch's mutex and sleeps; each wakeup re-runs the probe with the mutex
/// held, and returns, mutex re-held, only once the probe allows it. Every
/// notifier takes the same mutex before notifying, so a notification cannot
/// fall between the probe and the sleep. The probe is the verified
/// [`receive_may_proceed`]; a poisoned latch is fatal, as the design
/// prescribes.
#[verifier::external_body]
fn wait_until_ready<'a, T>(
    cv: &std::sync::Condvar,
    held: std::sync::MutexGuard<'a, ()>,
    shared: &ChannelShared<T>,
    token: &StopToken,
) -> std::sync::MutexGuard<'a, ()> {
    cv.wait_while(held, |_| !receive_may_proceed(shared, token)).unwrap()
}

/// Blocks the calling thread until the receive blocked on `shared` may
/// proceed; the latch's mutex, taken here, is released again when this
/// returns, before the queue's lock is ever taken.
fn block_until_ready<T>(shared: &ChannelShared<T>, token: &StopToken) {
    let held = lock_unit(&shared.cond.latch);
    let _released_on_return = wait_until_ready(&shared.cond.cv, held, shared, token);
}

/// Constructs an empty shared queue with a fresh private wait-condition and
/// returns the paired handles to it: both hold the one shared channel, so an
/// item sent through the first is receivable through the second.
pub fn channel<T>() -> (pair: (Sender<T>, Receiver<T>))
    ensures
        pair.0.channel_ref() == pair.1.channel_ref(),
{
    let cond = Arc::new(WaitCond::new());
    let state = RwLock::new(Channel::new(), Ghost(QueuePred));
    let shared = Arc::new(ChannelShared { state, cond });
    let shared_tx = share_arc(&shared);
    (Sender { shared: shared_tx }, Receiver { shared })
}

/// Producing handle: appends items to the shared queue. Cloneable; any
/// number of senders may feed one queue.
#[derive(Clone)]
pub struct Sender<T> {
    shared: Arc<ChannelShared<T>>,
}

impl<T> Sender<T> {
    /// The shared channel this handle feeds.
    pub closed spec fn channel_ref(&self) -> Arc<ChannelShared<T>> {
        self.shared
    }

    /// Appends `item` to the back of the shared queue and wakes one waiter
    /// on the wait-condition. Never blocks beyond the queue's own lock and
    /// the latch's mutex, both held only briefly, and never fails: the queue
    /// is unbounded.
    pub fn send(&self, item: T) {
        let (mut state, handle) = self.shared.state.acquire_write();
        state.send(item);
        handle.release_write(state);
        // The queue's lock is released before the latch is touched, so no
        // operation ever holds the two at once.
        self.shared.cond.notify_one();
    }
}

/// Consuming handle: blocking, cancellable receive on the shared queue.
/// Ordinarily single-owner: two receives racing on one token would race on
/// the token's single waiter slot.
pub struct Receiver<T> {
    shared: Arc<ChannelShared<T>>,
}

impl<T> Receiver<T> {
    /// The shared channel this handle drains.
    pub closed spec fn channel_ref(&self) -> Arc<ChannelShared<T>> {
        self.shared
    }

    /// Blocks until the queue holds an item or `stop_token`'s source has
    /// requested a stop, then resolves by [`Channel::receive`]: the oldest
    /// queued item if there is one — even when a stop has been requested —
    /// and nothing only on a stopped, empty queue. While it waits, the
    /// channel's wait-condition is registered with the token, so the wait is
    /// ended either by a send or by a stop request.
    pub fn receive(&self, stop_token: &StopToken) -> Option<T> {
        stop_token.register_cond_var(share_arc(&self.shared.cond));
        block_until_ready(&self.shared, stop_token);
        stop_token.unregister_cond_var();
        let (mut state, handle) = self.shared.state.acquire_write();
        let r = state.receive(stop_token);
        handle.release_write(state);
        r
    }
}

} // verus!
