use lite_sync::atomic_waker::AtomicWaker;
use std::sync::atomic::{AtomicUsize, Ordering};
use std::sync::Arc;
use std::task::{Wake, Waker};

struct CountingWaker {
    wakes: AtomicUsize,
}

impl Wake for CountingWaker {
    fn wake(self: Arc<Self>) {
        self.wakes.fetch_add(1, Ordering::SeqCst);
    }
}

/// Wakes the wakers the state owes a wake-up, as the owner of a shared state
/// does once it has let go of it.
fn wake_all(wakers: Vec<Waker>) {
    for w in wakers {
        w.wake();
    }
}

fn counting_waker() -> (Arc<CountingWaker>, Waker) {
    let counter = Arc::new(CountingWaker { wakes: AtomicUsize::new(0) });
    (counter.clone(), Waker::from(counter))
}

#[test]
fn test_basic_register_and_take() {
    let mut atomic_waker = AtomicWaker::new();
    let waker = Waker::noop();

    atomic_waker.register(waker);
    let taken = atomic_waker.take();
    assert!(taken.is_some());

    // Second take should return None
    let taken2 = atomic_waker.take();
    assert!(taken2.is_none());
}

#[test]
fn take_on_empty_slot_is_none() {
    let mut slot = AtomicWaker::new();
    assert!(slot.take().is_none());
}

#[test]
fn register_replaces_previous_waker() {
    let (first_count, first) = counting_waker();
    let (second_count, second) = counting_waker();
    let mut slot = AtomicWaker::new();
    slot.register(&first);
    slot.register(&second);
    slot.wake();
    wake_all(slot.take_wakeups());
    assert_eq!(first_count.wakes.load(Ordering::SeqCst), 0);
    wake_all(slot.take_wakeups());
    assert_eq!(second_count.wakes.load(Ordering::SeqCst), 1);
    assert!(slot.take().is_none());
}

#[test]
fn wake_empties_slot() {
    let (count, waker) = counting_waker();
    let mut slot = AtomicWaker::new();
    slot.register(&waker);
    slot.wake();
    slot.wake();
    wake_all(slot.take_wakeups());
    assert_eq!(count.wakes.load(Ordering::SeqCst), 1);
}

// The interleavings of two tasks sharing a slot, taken one at a time in
// each order (the slot is changed one operation at a time).

#[test]
fn loom_atomic_waker_register_wake() {
    // register, then wake: the registered waker is woken and the slot empties
    let (count, waker) = counting_waker();
    let mut slot = AtomicWaker::new();
    slot.register(&waker);
    slot.wake();
    wake_all(slot.take_wakeups());
    assert_eq!(count.wakes.load(Ordering::SeqCst), 1);
    assert!(slot.take().is_none());
    // wake, then register: nothing to wake, the waker stays registered
    let (count, waker) = counting_waker();
    let mut slot = AtomicWaker::new();
    slot.wake();
    slot.register(&waker);
    wake_all(slot.take_wakeups());
    assert_eq!(count.wakes.load(Ordering::SeqCst), 0);
    assert!(slot.take().is_some());
}

#[test]
fn loom_atomic_waker_concurrent_register() {
    let (first_count, first) = counting_waker();
    let (second_count, second) = counting_waker();
    let mut slot = AtomicWaker::new();
    slot.register(&second);
    slot.register(&first);
    slot.wake();
    wake_all(slot.take_wakeups());
    assert_eq!(first_count.wakes.load(Ordering::SeqCst), 1);
    wake_all(slot.take_wakeups());
    assert_eq!(second_count.wakes.load(Ordering::SeqCst), 0);
}

#[test]
fn loom_atomic_waker_wake_take_race() {
    // wake first: the waker is woken once, take finds nothing
    let (count, waker) = counting_waker();
    let mut slot = AtomicWaker::new();
    slot.register(&waker);
    slot.wake();
    assert!(slot.take().is_none());
    wake_all(slot.take_wakeups());
    assert_eq!(count.wakes.load(Ordering::SeqCst), 1);
    // take first: the waker is handed out, wake finds nothing
    let (count, waker) = counting_waker();
    let mut slot = AtomicWaker::new();
    slot.register(&waker);
    assert!(slot.take().is_some());
    slot.wake();
    wake_all(slot.take_wakeups());
    assert_eq!(count.wakes.load(Ordering::SeqCst), 0);
}
