//! An awaitable wait group: one party waits, without blocking a thread, until
//! an arbitrary, dynamically-sized set of independently-finishing workers has
//! fully drained.
//!
//! A [`WaitGroup`] hands out cloneable [`Worker`] tokens, each standing for one
//! outstanding unit of work; dropping a token releases it.  Converting the
//! group with [`WaitGroup::wait`] yields a [`WaitGroupFuture`], which can be
//! polled with a wake capability and resolves exactly when the last token has
//! been released.
//!
//! The completion protocol the handles follow — reference counting, the
//! single-slot notification, exactly-once delivery — is modeled and proved in
//! [`protocol`].

pub mod protocol;
pub mod shared;

use vstd::prelude::*;

verus! {

/// The originating object of one completion group.
///
/// Holds one strong reference of its own, so the shared state cannot drain
/// while the group exists; hands out [`Worker`] tokens; is consumed, exactly
/// once, into the [`WaitGroupFuture`] that observes completion.  In the
/// [`protocol`] model the group's reference is the initial strong count of 1,
/// and [`WaitGroup::wait`] is the `ConvertGroup` event.
pub struct WaitGroup {
    inner: shared::StrongRef,
}

/// One outstanding unit of work.
///
/// Each live `Worker` is one strong reference to the shared completion state;
/// cloning one (the `CloneWorker` event of the [`protocol`] model) hands
/// completion responsibility to a nested task, and dropping one (the
/// `ReleaseWorker` event) signals that its unit of work is finished.  The
/// release of the last one tears the state down and fires the notification
/// slot.
pub struct Worker(shared::StrongRef);

/// The awaitable side of a completion group: observes the shared state
/// through a weak reference only, so it never keeps workers alive nor delays
/// completion.
///
/// Driven by [`WaitGroupFuture::poll`]: each poll either observes the state
/// already gone — all workers released — or registers the caller's wake
/// capability and reports pending.  An adapter that implements a standard
/// future on top of this method needs nothing beyond it.
pub struct WaitGroupFuture {
    inner: shared::WeakRef,
}

impl WaitGroup {
    /// The shared completion state this group holds its own reference to.
    pub closed spec fn state(&self) -> shared::StrongRef {
        self.inner
    }

    /// Creates a fresh group: strong count 1, held by the group itself —
    /// the `init` state of the [`protocol`] model.
    pub fn new() -> WaitGroup {
        WaitGroup { inner: shared::StrongRef::new() }
    }

    /// Hands out a fresh worker token, adding one strong reference — the
    /// `SpawnWorker` event of the [`protocol`] model.  The token holds a
    /// reference to this group's own completion state, so completion waits
    /// for it.
    pub fn worker(&self) -> (r: Worker)
        ensures
            r.state() == self.state(),
    {
        Worker(self.inner.clone())
    }

    /// The number of active workers: the strong count minus the group's own
    /// reservation.  An instantaneous snapshot, advisory only — concurrent
    /// clones and drops may change it at any moment.
    pub fn workers(&self) -> usize {
        self.inner.count() - 1
    }

    /// Consumes the group into the waiter — the `ConvertGroup` event of the
    /// [`protocol`] model.  The waiter observes this group's own completion
    /// state, weakly: the group's strong reference is given up here, so from
    /// this point exactly the already-spawned workers keep the state alive,
    /// and the last of them to finish completes the wait.
    pub fn wait(self) -> (r: WaitGroupFuture)
        ensures
            shared::target_of(r.watched()) == self.state(),
    {
        WaitGroupFuture { inner: self.inner.downgrade() }
    }
}

impl Worker {
    /// The shared completion state this token holds a strong reference to.
    pub closed spec fn state(&self) -> shared::StrongRef {
        self.0
    }
}

impl Clone for Worker {
    /// A cloned token shares the original's completion state — the
    /// `CloneWorker` event of the [`protocol`] model — so completion waits
    /// for the original and the clone alike.
    fn clone(&self) -> (r: Worker)
        ensures
            r.state() == self.state(),
    {
        Worker(self.0.clone())
    }
}

impl Default for WaitGroup {
    /// A fresh group, as [`WaitGroup::new`] makes it.
    fn default() -> (r: WaitGroup)
        ensures
            call_ensures(WaitGroup::new, (), r),
    {
        WaitGroup::new()
    }
}

impl WaitGroupFuture {
    /// The weak reference this waiter observes the completion state through.
    pub closed spec fn watched(&self) -> shared::WeakRef {
        self.inner
    }

    /// The number of workers still outstanding, observed through the weak
    /// reference: 0 once all have released.  An instantaneous snapshot,
    /// advisory only.
    pub fn workers(&self) -> usize {
        self.inner.count()
    }

    /// One poll of the waiter — the `PollWaiter` event of the [`protocol`]
    /// model.  Resolves the weak reference and hands the outcome — which is
    /// this waiter's own state, whenever it is still alive — to
    /// [`poll_after_upgrade`]; reports `true` exactly when the state was
    /// observed gone, that is, when every worker had been released at the
    /// moment of the check.  Exclusive access keeps two polls of one waiter
    /// from racing each other's registrations.
    pub fn poll(&mut self, waker: &std::task::Waker) -> (done: bool)
        ensures
            final(self).watched() == old(self).watched(),
    {
        let state = self.inner.upgrade();
        poll_after_upgrade(state, waker)
    }
}

/// The decision a poll makes once the weak reference has been resolved.
///
/// With the state gone (`None`) the wait is done and nothing is registered;
/// with the state still alive the wake capability is registered into the
/// notification slot — replacing any earlier registration — and the wait is
/// still pending.  The caller then relies on the slot's register/fire
/// ordering: a teardown racing with the registration either observes the
/// capability or already fired, in which case the next poll resolves `None`.
pub fn poll_after_upgrade(state: Option<shared::StrongRef>, waker: &std::task::Waker) -> (done:
    bool)
    ensures
        done <==> state is None,
{
    match state {
        Some(live) => {
            live.register(waker);
            false
        },
        None => true,
    }
}

} // verus!
