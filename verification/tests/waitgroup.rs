use std::sync::atomic::AtomicUsize;
use std::sync::atomic::Ordering;
use std::sync::Arc;
use std::task::Wake;
use std::task::Waker;
use waitgroup::poll_after_upgrade;
use waitgroup::WaitGroup;
use waitgroup::Worker;

/// A wake capability that counts how often it is invoked, so a test can check
/// that exactly one notification is delivered.
struct CountingWake {
    hits: AtomicUsize,
}

impl Wake for CountingWake {
    fn wake(self: Arc<Self>) {
        self.hits.fetch_add(1, Ordering::SeqCst);
    }
}

fn counting_waker() -> (Arc<CountingWake>, Waker) {
    let counter = Arc::new(CountingWake { hits: AtomicUsize::new(0) });
    let waker = Waker::from(counter.clone());
    (counter, waker)
}

fn hits(counter: &Arc<CountingWake>) -> usize {
    counter.hits.load(Ordering::SeqCst)
}

#[test]
fn smoke() {
    let wg = WaitGroup::new();
    for _ in 0..100 {
        let w = wg.worker();
        drop(w);
    }
    let mut future = wg.wait();
    let (_counter, waker) = counting_waker();
    assert!(future.poll(&waker));
}

#[test]
fn basic_completion() {
    let wg = WaitGroup::new();
    let workers: Vec<Worker> = vec![wg.worker(), wg.worker(), wg.worker()];
    for w in workers {
        drop(w);
    }
    let mut future = wg.wait();
    let (counter, waker) = counting_waker();
    assert!(future.poll(&waker));
    assert_eq!(future.workers(), 0);
    // the wait was already over when the capability would have been stored
    assert_eq!(hits(&counter), 0);
}

#[test]
fn zero_workers_resolves_immediately() {
    let wg = WaitGroup::new();
    let mut future = wg.wait();
    let (_counter, waker) = counting_waker();
    assert!(future.poll(&waker));
    assert_eq!(future.workers(), 0);
}

#[test]
fn order_independence() {
    let wg = WaitGroup::new();
    let w1 = wg.worker();
    let w2 = wg.worker();
    let w3 = wg.worker();
    let mut future = wg.wait();
    let (counter, waker) = counting_waker();
    assert!(!future.poll(&waker));
    drop(w2);
    assert_eq!(hits(&counter), 0);
    assert!(!future.poll(&waker));
    drop(w3);
    assert_eq!(hits(&counter), 0);
    assert!(!future.poll(&waker));
    drop(w1);
    assert_eq!(hits(&counter), 1);
    assert!(future.poll(&waker));
    // completion is reported exactly once: the wake count stays at one
    assert_eq!(hits(&counter), 1);
}

#[test]
fn reverse_release_order() {
    let wg = WaitGroup::new();
    let w1 = wg.worker();
    let w2 = wg.worker();
    let mut future = wg.wait();
    let (counter, waker) = counting_waker();
    assert!(!future.poll(&waker));
    drop(w1);
    assert!(!future.poll(&waker));
    drop(w2);
    assert_eq!(hits(&counter), 1);
    assert!(future.poll(&waker));
}

#[test]
fn nested_handoff_keeps_group_open() {
    let wg = WaitGroup::new();
    let w = wg.worker();
    let nested = w.clone();
    drop(w);
    let mut future = wg.wait();
    let (counter, waker) = counting_waker();
    assert!(!future.poll(&waker));
    assert_eq!(hits(&counter), 0);
    drop(nested);
    assert_eq!(hits(&counter), 1);
    assert!(future.poll(&waker));
}

#[test]
fn repoll_coalesces_registrations() {
    let wg = WaitGroup::new();
    let w = wg.worker();
    let mut future = wg.wait();
    let (first, first_waker) = counting_waker();
    let (second, second_waker) = counting_waker();
    assert!(!future.poll(&first_waker));
    assert!(!future.poll(&first_waker));
    assert!(!future.poll(&first_waker));
    assert!(!future.poll(&second_waker));
    drop(w);
    // only the most recent registration is fired, exactly once
    assert_eq!(hits(&first), 0);
    assert_eq!(hits(&second), 1);
    assert!(future.poll(&second_waker));
    assert_eq!(hits(&second), 1);
}

#[test]
fn early_abandonment_is_safe() {
    let wg = WaitGroup::new();
    let w1 = wg.worker();
    let w2 = wg.worker();
    let mut future = wg.wait();
    let (counter, waker) = counting_waker();
    assert!(!future.poll(&waker));
    drop(future);
    drop(w1);
    drop(w2);
    // the registered capability is fired at teardown and then forgotten;
    // nothing dangles and nothing panics
    assert_eq!(hits(&counter), 1);
}

#[test]
fn abandoned_without_poll_never_wakes() {
    let wg = WaitGroup::new();
    let w = wg.worker();
    let future = wg.wait();
    let (counter, _waker) = counting_waker();
    drop(future);
    drop(w);
    assert_eq!(hits(&counter), 0);
}

#[test]
fn hundred_workers_single_wake() {
    let wg = WaitGroup::new();
    let mut workers: Vec<Worker> = Vec::new();
    for _ in 0..100 {
        workers.push(wg.worker());
    }
    let mut future = wg.wait();
    let (counter, waker) = counting_waker();
    assert!(!future.poll(&waker));
    for w in workers {
        drop(w);
    }
    assert_eq!(hits(&counter), 1);
    assert!(future.poll(&waker));
    assert_eq!(future.workers(), 0);
}

#[test]
fn worker_counts_track_handles() {
    let wg = WaitGroup::new();
    assert_eq!(wg.workers(), 0);
    let w1 = wg.worker();
    let w2 = wg.worker();
    assert_eq!(wg.workers(), 2);
    let w3 = w1.clone();
    assert_eq!(wg.workers(), 3);
    drop(w2);
    assert_eq!(wg.workers(), 2);
    let future = wg.wait();
    assert_eq!(future.workers(), 2);
    drop(w1);
    assert_eq!(future.workers(), 1);
    drop(w3);
    assert_eq!(future.workers(), 0);
}

#[test]
fn default_group_behaves_like_new() {
    let wg = WaitGroup::default();
    assert_eq!(wg.workers(), 0);
    let w = wg.worker();
    assert_eq!(wg.workers(), 1);
    drop(w);
    let mut future = wg.wait();
    let (_counter, waker) = counting_waker();
    assert!(future.poll(&waker));
}

#[test]
fn poll_decision_on_gone_state() {
    let (_counter, waker) = counting_waker();
    let state: Option<waitgroup::shared::StrongRef> = None;
    assert!(poll_after_upgrade(state, &waker));
}
