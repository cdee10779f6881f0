//! The completion protocol, as a mathematical state machine.
//!
//! The executable handles share one reference-counted completion state whose
//! strong count models "number of outstanding workers", plus a single-slot
//! notification that fires exactly once, at the moment the count reaches zero.
//! This module states that protocol abstractly — a state, the events the
//! handles can perform, and a transition function — and proves the properties
//! the handles are designed around: completion is observed exactly when every
//! worker has been released, in any release order; a clone handed to a nested
//! task keeps the group open; re-polling replaces the registered capability
//! rather than queuing it, and the one wake goes to the latest; a waiter that
//! registered and was abandoned costs one harmless stale wake, one that never
//! polled costs none.
//!
//! Wake capabilities are told apart by an identifier, so that "the latest
//! registration wins" and "the wake went to the latest registration" are
//! statements the model can make.

use vstd::prelude::*;

verus! {

/// Abstract state of one completion group.
pub struct ProtocolState {
    /// Live strong references to the shared completion state: one per
    /// outstanding worker handle, plus one held by the group itself until the
    /// group is converted into a waiter.
    pub strong: nat,
    /// Whether the group has been converted into a waiter.
    pub converted: bool,
    /// The wake capability the notification slot currently holds, if any.
    pub slot: Option<nat>,
    /// Whether teardown has fired the notification slot.
    pub fired: bool,
    /// The wake notifications delivered so far, each named by the capability
    /// it went to.
    pub wakes: Seq<nat>,
}

/// The operations the handles can perform on the shared state.
pub enum ProtocolEvent {
    /// The group hands out a fresh worker handle.
    SpawnWorker,
    /// A live worker handle is cloned, to hand completion responsibility to a
    /// nested task.
    CloneWorker,
    /// A worker handle is dropped: its unit of work is finished.
    ReleaseWorker,
    /// The group is consumed into a waiter, giving up the group's own strong
    /// reference.
    ConvertGroup,
    /// The waiter is polled, registering the named wake capability.
    PollWaiter(nat),
}

/// The state of a freshly created group: one strong reference — the group's
/// own — an empty slot, nothing fired, nothing delivered.
pub open spec fn init() -> ProtocolState {
    ProtocolState { strong: 1, converted: false, slot: None, fired: false, wakes: Seq::empty() }
}

/// Number of outstanding worker handles: the strong count minus the group's
/// own reservation while the group still exists.
pub open spec fn outstanding(s: ProtocolState) -> nat {
    if s.converted {
        s.strong
    } else if s.strong > 0 {
        (s.strong - 1) as nat
    } else {
        0
    }
}

/// Whether a poll of the waiter observes completion: the shared state is gone
/// exactly when no strong reference is left.
pub open spec fn poll_ready(s: ProtocolState) -> bool {
    s.strong == 0
}

/// Which events can occur in a state.  Spawning and converting need the group,
/// which exists until conversion; cloning and releasing need a live worker
/// handle to clone or release; polling needs the waiter, which exists only
/// after conversion.
pub open spec fn enabled(s: ProtocolState, e: ProtocolEvent) -> bool {
    match e {
        ProtocolEvent::SpawnWorker => !s.converted,
        ProtocolEvent::CloneWorker => outstanding(s) > 0,
        ProtocolEvent::ReleaseWorker => outstanding(s) > 0,
        ProtocolEvent::ConvertGroup => !s.converted,
        ProtocolEvent::PollWaiter(_) => s.converted,
    }
}

/// The teardown path: once the strong count is zero the notification slot
/// fires, exactly once, emptying the slot and delivering a wake to precisely
/// the capability registered at that moment, if one is.
pub open spec fn fire_if_drained(s: ProtocolState) -> ProtocolState {
    if s.strong == 0 && !s.fired {
        ProtocolState {
            strong: s.strong,
            converted: s.converted,
            slot: None,
            fired: true,
            wakes: match s.slot {
                Some(c) => s.wakes.push(c),
                None => s.wakes,
            },
        }
    } else {
        s
    }
}

/// One protocol step.  Spawning and cloning add a strong reference; releasing
/// removes one; conversion gives up the group's own reference; each of the two
/// removals runs teardown when it removes the last reference.  A poll either
/// observes the state gone or stores its wake capability in the slot,
/// replacing — never queuing beside — whatever was stored before.
pub open spec fn step(s: ProtocolState, e: ProtocolEvent) -> ProtocolState {
    match e {
        ProtocolEvent::SpawnWorker => ProtocolState { strong: s.strong + 1, ..s },
        ProtocolEvent::CloneWorker => ProtocolState { strong: s.strong + 1, ..s },
        ProtocolEvent::ReleaseWorker => if s.strong > 0 {
            fire_if_drained(ProtocolState { strong: (s.strong - 1) as nat, ..s })
        } else {
            s
        },
        ProtocolEvent::ConvertGroup => if s.strong > 0 {
            fire_if_drained(
                ProtocolState { strong: (s.strong - 1) as nat, converted: true, ..s },
            )
        } else {
            s
        },
        ProtocolEvent::PollWaiter(c) => if s.strong > 0 {
            ProtocolState { slot: Some(c), ..s }
        } else {
            s
        },
    }
}

/// The states the protocol can actually be in.  The group's own reference
/// keeps the count positive until conversion; the slot fires exactly when the
/// count reaches zero, which only the waiter side can witness, and keeps
/// nothing afterwards; at most one wake is ever delivered, and only by the
/// fire.
pub open spec fn inv(s: ProtocolState) -> bool {
    &&& (!s.converted ==> s.strong >= 1)
    &&& (s.fired <==> (s.converted && s.strong == 0))
    &&& (s.slot is Some ==> s.converted)
    &&& (s.fired ==> s.slot is None)
    &&& s.wakes.len() <= 1
    &&& (s.wakes.len() == 1 ==> s.fired)
}

/// A fresh group satisfies the invariant.
pub proof fn lemma_init_inv()
    ensures
        inv(init()),
{
}

/// Every enabled event preserves the invariant: in particular no step can
/// fire the slot twice, nor deliver a second wake.
pub proof fn lemma_step_inv(s: ProtocolState, e: ProtocolEvent)
    requires
        inv(s),
        enabled(s, e),
    ensures
        inv(step(s, e)),
{
}

/// Whether every event of a trace is enabled in the state it runs from.
pub open spec fn valid_from(s: ProtocolState, t: Seq<ProtocolEvent>) -> bool
    decreases t.len(),
{
    t.len() == 0 || (enabled(s, t.first()) && valid_from(step(s, t.first()), t.drop_first()))
}

/// The state after running a whole trace from `s`.
pub open spec fn run_from(s: ProtocolState, t: Seq<ProtocolEvent>) -> ProtocolState
    decreases t.len(),
{
    if t.len() == 0 {
        s
    } else {
        run_from(step(s, t.first()), t.drop_first())
    }
}

/// How many events of a trace equal `e`.
pub open spec fn count_of(t: Seq<ProtocolEvent>, e: ProtocolEvent) -> nat
    decreases t.len(),
{
    if t.len() == 0 {
        0
    } else {
        count_of(t.drop_first(), e) + if t.first() == e {
            1nat
        } else {
            0nat
        }
    }
}

/// How many events of a trace are polls, whichever capability they carry.
pub open spec fn count_polls(t: Seq<ProtocolEvent>) -> nat
    decreases t.len(),
{
    if t.len() == 0 {
        0
    } else {
        count_polls(t.drop_first()) + if t.first() is PollWaiter {
            1nat
        } else {
            0nat
        }
    }
}

/// Bookkeeping along any valid trace: the invariant is preserved; the strong
/// count moves by exactly the number of references added (spawns and clones)
/// minus the number removed (releases, and the one conversion); conversion
/// happens at most once and is irreversible.
pub proof fn lemma_run_counts(s: ProtocolState, t: Seq<ProtocolEvent>)
    requires
        inv(s),
        valid_from(s, t),
    ensures
        ({
            let r = run_from(s, t);
            &&& inv(r)
            &&& r.strong + count_of(t, ProtocolEvent::ReleaseWorker) + count_of(
                t,
                ProtocolEvent::ConvertGroup,
            ) == s.strong + count_of(t, ProtocolEvent::SpawnWorker) + count_of(
                t,
                ProtocolEvent::CloneWorker,
            )
            &&& (r.converted <==> (s.converted || count_of(t, ProtocolEvent::ConvertGroup) > 0))
            &&& (s.converted ==> count_of(t, ProtocolEvent::ConvertGroup) == 0)
            &&& count_of(t, ProtocolEvent::ConvertGroup) <= 1
        }),
    decreases t.len(),
{
    if t.len() > 0 {
        lemma_step_inv(s, t.first());
        lemma_run_counts(step(s, t.first()), t.drop_first());
    }
}

/// Every prefix of a valid trace is itself valid, so the theorems below
/// apply at every intermediate point of an execution, not only at its end:
/// in particular, as long as a prefix still has fewer releases than spawned
/// references, [`lemma_no_early_completion`] on that prefix says the waiter
/// has not resolved yet.
pub proof fn lemma_prefix_valid(s: ProtocolState, t: Seq<ProtocolEvent>, i: int)
    requires
        valid_from(s, t),
        0 <= i <= t.len(),
    ensures
        valid_from(s, t.take(i)),
    decreases i,
{
    if i == 0 {
        assert(t.take(0) =~= Seq::<ProtocolEvent>::empty());
    } else {
        lemma_prefix_valid(step(s, t.first()), t.drop_first(), i - 1);
        assert(t.take(i).first() == t.first());
        assert(t.take(i).drop_first() =~= t.drop_first().take(i - 1));
    }
}

/// Completion is order-independent and exactly-once: whatever the
/// interleaving of spawns, clones and releases, the slot has fired after a
/// trace if and only if the group was converted and every reference handed
/// out was released — and never more than one wake has been delivered.
pub proof fn lemma_completion_order_independent(t: Seq<ProtocolEvent>)
    requires
        valid_from(init(), t),
    ensures
        ({
            let r = run_from(init(), t);
            &&& (r.fired <==> (count_of(t, ProtocolEvent::ConvertGroup) == 1 && count_of(
                t,
                ProtocolEvent::ReleaseWorker,
            ) == count_of(t, ProtocolEvent::SpawnWorker) + count_of(
                t,
                ProtocolEvent::CloneWorker,
            )))
            &&& r.wakes.len() <= 1
        }),
{
    lemma_init_inv();
    lemma_run_counts(init(), t);
}

/// The waiter never resolves early: while any handed-out reference is still
/// unreleased, the slot has not fired and a poll still observes the state
/// alive.
pub proof fn lemma_no_early_completion(t: Seq<ProtocolEvent>)
    requires
        valid_from(init(), t),
        count_of(t, ProtocolEvent::ReleaseWorker) < count_of(t, ProtocolEvent::SpawnWorker)
            + count_of(t, ProtocolEvent::CloneWorker),
    ensures
        !run_from(init(), t).fired,
        !poll_ready(run_from(init(), t)),
{
    lemma_init_inv();
    lemma_run_counts(init(), t);
}

/// Basic completion: spawn some number of workers, release every one of them,
/// convert the group — in any order the protocol allows — and the state is
/// torn down: the slot has fired, no worker is outstanding, and the next poll
/// observes completion.
pub proof fn lemma_basic_completion(t: Seq<ProtocolEvent>, n: nat)
    requires
        valid_from(init(), t),
        count_of(t, ProtocolEvent::SpawnWorker) == n,
        count_of(t, ProtocolEvent::CloneWorker) == 0,
        count_of(t, ProtocolEvent::ReleaseWorker) == n,
        count_of(t, ProtocolEvent::ConvertGroup) == 1,
    ensures
        ({
            let r = run_from(init(), t);
            &&& r.fired
            &&& poll_ready(r)
            &&& outstanding(r) == 0
            &&& r.wakes.len() <= 1
        }),
{
    lemma_init_inv();
    lemma_run_counts(init(), t);
}

/// Zero workers: converting a fresh group drops the only strong reference, so
/// teardown runs at once and the very first poll observes completion — and
/// polling in that state, with any capability, changes nothing.
pub proof fn lemma_zero_workers(c: nat)
    ensures
        ({
            let r = step(init(), ProtocolEvent::ConvertGroup);
            &&& r.fired
            &&& poll_ready(r)
            &&& outstanding(r) == 0
            &&& step(r, ProtocolEvent::PollWaiter(c)) == r
        }),
{
}

/// Nested spawning: a worker that clones itself for a nested task and then
/// releases its own handle leaves the protocol state exactly as it was — in
/// particular this never causes early completion, because the clone still
/// holds a reference.
pub proof fn lemma_nested_handoff(s: ProtocolState)
    requires
        inv(s),
        outstanding(s) > 0,
    ensures
        step(step(s, ProtocolEvent::CloneWorker), ProtocolEvent::ReleaseWorker) == s,
        !step(step(s, ProtocolEvent::CloneWorker), ProtocolEvent::ReleaseWorker).fired,
{
}

/// A trace of consecutive polls, registering the named capabilities in order.
pub open spec fn polls_with(ids: Seq<nat>) -> Seq<ProtocolEvent> {
    Seq::new(ids.len(), |i: int| ProtocolEvent::PollWaiter(ids[i]))
}

/// A trace of `k` consecutive worker releases.
pub open spec fn releases(k: nat) -> Seq<ProtocolEvent> {
    Seq::new(k, |i: int| ProtocolEvent::ReleaseWorker)
}

/// Re-polling coalesces: polling a pending waiter any number of times only
/// re-registers — the strong count, the fired flag and the delivered wakes
/// are untouched, and the registrations collapse into exactly the latest one,
/// replacing, never queuing.
pub proof fn lemma_repoll_coalesces(s: ProtocolState, ids: Seq<nat>)
    requires
        inv(s),
        s.converted,
        s.strong > 0,
    ensures
        valid_from(s, polls_with(ids)),
        run_from(s, polls_with(ids)) == (ProtocolState {
            slot: if ids.len() > 0 {
                Some(ids.last())
            } else {
                s.slot
            },
            ..s
        }),
    decreases ids.len(),
{
    if ids.len() == 0 {
        assert(polls_with(ids) =~= Seq::<ProtocolEvent>::empty());
    } else {
        let s1 = step(s, ProtocolEvent::PollWaiter(ids.first()));
        lemma_step_inv(s, ProtocolEvent::PollWaiter(ids.first()));
        lemma_repoll_coalesces(s1, ids.drop_first());
        assert(polls_with(ids).drop_first() =~= polls_with(ids.drop_first()));
    }
}

/// However many spurious wake-ups made the waiter re-poll while work was
/// still outstanding, the release of the last worker tears the state down and
/// delivers exactly one wake — to the capability registered last.
pub proof fn lemma_repoll_then_completion(s: ProtocolState, ids: Seq<nat>)
    requires
        inv(s),
        s.converted,
        s.strong == 1,
        ids.len() >= 1,
    ensures
        ({
            let r = step(run_from(s, polls_with(ids)), ProtocolEvent::ReleaseWorker);
            &&& r.fired
            &&& poll_ready(r)
            &&& r.wakes.len() == 1
            &&& r.wakes.last() == ids.last()
        }),
{
    lemma_repoll_coalesces(s, ids);
}

/// No leak on early abandonment, waiter never polled: with an empty slot and
/// no polls, the workers can still finish and tear the state down, and no
/// wake is ever delivered — there is no capability to invoke.
pub proof fn lemma_abandoned_waiter(s: ProtocolState, t: Seq<ProtocolEvent>)
    requires
        inv(s),
        valid_from(s, t),
        s.slot is None,
        count_polls(t) == 0,
    ensures
        run_from(s, t).slot is None,
        run_from(s, t).wakes == s.wakes,
    decreases t.len(),
{
    if t.len() > 0 {
        lemma_step_inv(s, t.first());
        lemma_abandoned_waiter(step(s, t.first()), t.drop_first());
    }
}

/// No leak on abandonment after a poll: if the waiter registered a capability
/// and was then dropped, the remaining releases still drain the state;
/// teardown fires the stale capability exactly once — for the scheduler a
/// safe no-op, its target being gone — and the emptied slot retains nothing
/// beyond the state's own life.
pub proof fn lemma_stale_registration(s: ProtocolState, k: nat, c: nat)
    requires
        inv(s),
        s.converted,
        s.strong == k,
        k >= 1,
        s.slot == Some(c),
    ensures
        valid_from(s, releases(k)),
        ({
            let r = run_from(s, releases(k));
            &&& r.fired
            &&& r.slot is None
            &&& r.wakes.len() == 1
            &&& r.wakes.last() == c
        }),
    decreases k,
{
    let s1 = step(s, ProtocolEvent::ReleaseWorker);
    lemma_step_inv(s, ProtocolEvent::ReleaseWorker);
    assert(releases(k).first() == ProtocolEvent::ReleaseWorker);
    if k == 1 {
        assert(releases(1).drop_first() =~= Seq::<ProtocolEvent>::empty());
        assert(valid_from(s1, Seq::<ProtocolEvent>::empty()));
        assert(run_from(s1, Seq::<ProtocolEvent>::empty()) == s1);
    } else {
        lemma_stale_registration(s1, (k - 1) as nat, c);
        assert(releases(k).drop_first() =~= releases((k - 1) as nat));
        assert(run_from(s, releases(k)) == run_from(s1, releases((k - 1) as nat)));
    }
}

} // verus!
