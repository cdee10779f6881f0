//! The shared completion state and the trusted boundary around it.
//!
//! The completion state is one heap block, jointly owned by every live worker
//! handle through `std::sync::Arc`; the waiter observes it through
//! `std::sync::Weak` only, so it never keeps workers alive.  The block holds a
//! single-slot notification, `atomic_waker::AtomicWaker`, whose register/fire
//! pair is race-free; the block's drop glue fires the slot, which is exactly
//! the moment the last strong reference goes away.  Verus sees those outside
//! pieces only through the contracts in this module.

use vstd::prelude::*;

verus! {

#[verifier::external_type_specification]
#[verifier::external_body]
pub struct ExAtomicWaker(atomic_waker::AtomicWaker);

#[verifier::external_type_specification]
#[verifier::external_body]
pub struct ExWaker(std::task::Waker);

/// Relies on `atomic_waker::AtomicWaker::new`: a fresh slot, holding no wake
/// capability.
pub assume_specification[ atomic_waker::AtomicWaker::new ]() -> atomic_waker::AtomicWaker;

/// Relies on `atomic_waker::AtomicWaker::register`: stores `waker` in the
/// slot, replacing whatever was registered before, race-free against a
/// concurrent `wake`; a wake that raced ahead of the registration notifies
/// the registered task instead of being lost.  Two *registrations* racing
/// each other are a different matter: the source may drop one of the two
/// calls entirely, which is why the waiter's poll demands exclusive access —
/// one waiter never races its own registrations.
pub assume_specification[ atomic_waker::AtomicWaker::register ](
    slot: &atomic_waker::AtomicWaker,
    waker: &std::task::Waker,
);

/// The shared completion state: a notification slot with at most one pending
/// wake capability.  Its lifetime is the protocol's clock — it is dropped
/// exactly when the last strong reference to it is released.
pub(crate) struct Inner {
    /// The single-slot notification the waiter registers into.
    pub(crate) waker: atomic_waker::AtomicWaker,
}

impl Drop for Inner {
    /// The teardown path: runs exactly once, when the last strong reference
    /// is released.  Relies on `atomic_waker::AtomicWaker::wake`: invokes the
    /// last registered wake capability, if any, and empties the slot; with
    /// nothing registered it is a no-op.
    #[verifier::external_body]
    fn drop(&mut self)
        opens_invariants none
        no_unwind
    {
        self.waker.wake();
    }
}

/// An owning reference to the shared completion state: one live `StrongRef`
/// is one strong reference, so the state stays alive while any exists.
pub struct StrongRef {
    ptr: std::sync::Arc<Inner>,
}

/// An observing reference to the shared completion state: resolvable while
/// the state is alive, but never keeping it so.
#[verifier::external_body]
pub struct WeakRef {
    ptr: std::sync::Weak<Inner>,
}

/// The strong reference a weak reference was made from — the state it
/// observes.  Verus has no model of `std::sync::Weak`, so the tie between a
/// weak reference and its target is stated through this name, applied by the
/// contracts of [`StrongRef::downgrade`] and [`WeakRef::upgrade`]: whatever
/// an upgrade hands back is the very state the waiter was downgraded from.
pub uninterp spec fn target_of(w: WeakRef) -> StrongRef;

impl StrongRef {
    /// Creates the shared state, holding its first strong reference.
    pub fn new() -> StrongRef {
        StrongRef { ptr: std::sync::Arc::new(Inner { waker: atomic_waker::AtomicWaker::new() }) }
    }

    /// Registers `waker` in the state's notification slot, replacing any
    /// previously registered capability.
    pub fn register(&self, waker: &std::task::Waker) {
        self.ptr.waker.register(waker);
    }

    /// Relies on `std::sync::Arc::strong_count`: the number of strong
    /// references at the instant of the call; `self` is one of them, so it is
    /// at least 1.  Under concurrent cloning and dropping the value is a
    /// momentary snapshot, nothing more.
    #[verifier::external_body]
    pub fn count(&self) -> (n: usize)
        ensures
            n >= 1,
    {
        std::sync::Arc::strong_count(&self.ptr)
    }

    /// Relies on `std::sync::Arc::downgrade`: an observing reference to the
    /// same state — its target — holding no strong reference to it.
    #[verifier::external_body]
    pub fn downgrade(&self) -> (w: WeakRef)
        ensures
            target_of(w) == *self,
    {
        WeakRef { ptr: std::sync::Arc::downgrade(&self.ptr) }
    }
}

impl Clone for StrongRef {
    /// Relies on `std::sync::Arc::clone`: one more strong reference to the
    /// same allocation, so the clone is the same state — and the state now
    /// outlives this handle too.
    #[verifier::external_body]
    fn clone(&self) -> (r: StrongRef)
        ensures
            r == *self,
    {
        StrongRef { ptr: std::sync::Arc::clone(&self.ptr) }
    }
}

impl WeakRef {
    /// Relies on `std::sync::Weak::upgrade`: `Some` new strong reference to
    /// this weak reference's own target while that state is still alive,
    /// `None` once every strong reference has been released — the all-done
    /// boundary.  Under concurrency either outcome may race with the last
    /// release.
    #[verifier::external_body]
    pub fn upgrade(&self) -> (r: Option<StrongRef>)
        ensures
            r matches Some(s) ==> s == target_of(*self),
    {
        match self.ptr.upgrade() {
            Some(p) => Some(StrongRef { ptr: p }),
            None => None,
        }
    }

    /// Relies on `std::sync::Weak::strong_count`: the number of strong
    /// references at the instant of the call; 0 once the state is gone.  A
    /// momentary snapshot, advisory only.
    #[verifier::external_body]
    pub fn count(&self) -> usize {
        std::sync::Weak::strong_count(&self.ptr)
    }
}

} // verus!
