use lite_sync::notify::SingleWaiterNotify;
use std::sync::atomic::{AtomicUsize, Ordering};
use std::sync::Arc;
use std::task::{Wake, Waker};

struct CountingWaker {
    wakes: AtomicUsize,
}

impl Wake for CountingWaker {
    fn wake(self: Arc<Self>) {
        self.wakes.fetch_add(1, Ordering::SeqCst);
    }
}

/// Wakes the wakers the state owes a wake-up, as the owner of a shared state
/// does once it has let go of it.
fn wake_all(wakers: Vec<Waker>) {
    for w in wakers {
        w.wake();
    }
}

fn counting_waker() -> (Arc<CountingWaker>, Waker) {
    let counter = Arc::new(CountingWaker { wakes: AtomicUsize::new(0) });
    (counter.clone(), Waker::from(counter))
}

#[test]
fn test_notify_before_wait() {
    let mut notify = SingleWaiterNotify::new();
    let _ = notify.notify_one();
    let mut wait = notify.notified();
    assert!(wait.poll_notified(&mut notify, Waker::noop()));
}

#[test]
fn test_notify_no_waiter() {
    let mut notify = SingleWaiterNotify::new();
    let _ = notify.notify_one();
    let _ = notify.notify_one();
    let mut wait = notify.notified();
    assert!(wait.poll_notified(&mut notify, Waker::noop()));
    // the two notifications counted as one
    let mut second = notify.notified();
    assert!(!second.poll_notified(&mut notify, Waker::noop()));
}

#[test]
fn test_notify_after_wait() {
    let mut notify = SingleWaiterNotify::new();
    let (count, waker) = counting_waker();
    let mut wait = notify.notified();
    assert!(!wait.poll_notified(&mut notify, &waker));
    wake_all(notify.take_wakeups());
    assert_eq!(count.wakes.load(Ordering::SeqCst), 0);
    let _ = notify.notify_one();
    wake_all(notify.take_wakeups());
    assert_eq!(count.wakes.load(Ordering::SeqCst), 1);
    assert!(wait.poll_notified(&mut notify, &waker));
}

#[test]
fn test_multiple_notify_cycles() {
    let mut notify = SingleWaiterNotify::new();
    for _ in 0..10 {
        let (count, waker) = counting_waker();
        let mut wait = notify.notified();
        assert!(!wait.poll_notified(&mut notify, &waker));
        let _ = notify.notify_one();
        wake_all(notify.take_wakeups());
        assert_eq!(count.wakes.load(Ordering::SeqCst), 1);
        assert!(wait.poll_notified(&mut notify, &waker));
    }
}

#[test]
fn pending_wait_stays_pending_without_notification() {
    let mut notify = SingleWaiterNotify::new();
    let mut wait = notify.notified();
    assert!(!wait.poll_notified(&mut notify, Waker::noop()));
    assert!(!wait.poll_notified(&mut notify, Waker::noop()));
}

#[test]
fn cancelled_wait_is_not_woken() {
    let mut notify = SingleWaiterNotify::new();
    let (count, waker) = counting_waker();
    let mut wait = notify.notified();
    assert!(!wait.poll_notified(&mut notify, &waker));
    wait.cancel(&mut notify);
    let _ = notify.notify_one();
    wake_all(notify.take_wakeups());
    assert_eq!(count.wakes.load(Ordering::SeqCst), 0);
    // the notification is kept for the next wait
    let mut next = notify.notified();
    assert!(next.poll_notified(&mut notify, Waker::noop()));
}

#[test]
fn later_poll_refreshes_waker() {
    let mut notify = SingleWaiterNotify::new();
    let (first_count, first) = counting_waker();
    let (second_count, second) = counting_waker();
    let mut wait = notify.notified();
    assert!(!wait.poll_notified(&mut notify, &first));
    assert!(!wait.poll_notified(&mut notify, &second));
    let _ = notify.notify_one();
    wake_all(notify.take_wakeups());
    assert_eq!(first_count.wakes.load(Ordering::SeqCst), 0);
    wake_all(notify.take_wakeups());
    assert_eq!(second_count.wakes.load(Ordering::SeqCst), 1);
}

// The interleavings of a waiting task and notifying tasks, taken one
// operation at a time in each order.

#[test]
fn loom_notify_basic() {
    // notify first: the wait completes at its first poll
    let mut notify = SingleWaiterNotify::new();
    let _ = notify.notify_one();
    let mut wait = notify.notified();
    assert!(wait.poll_notified(&mut notify, Waker::noop()));
    // wait first: the notification wakes the waiter, and the wait completes
    let mut notify = SingleWaiterNotify::new();
    let (count, waker) = counting_waker();
    let mut wait = notify.notified();
    assert!(!wait.poll_notified(&mut notify, &waker));
    assert!(notify.notify_one());
    wake_all(notify.take_wakeups());
    assert_eq!(count.wakes.load(Ordering::SeqCst), 1);
    assert!(wait.poll_notified(&mut notify, &waker));
}

#[test]
fn loom_notify_concurrent_notify() {
    // both notifications before the wait
    let mut notify = SingleWaiterNotify::new();
    let _ = notify.notify_one();
    let _ = notify.notify_one();
    let mut wait = notify.notified();
    assert!(wait.poll_notified(&mut notify, Waker::noop()));
    // the wait between the two notifications
    let mut notify = SingleWaiterNotify::new();
    let (count, waker) = counting_waker();
    let mut wait = notify.notified();
    assert!(!wait.poll_notified(&mut notify, &waker));
    assert!(notify.notify_one());
    assert!(!notify.notify_one());
    wake_all(notify.take_wakeups());
    assert_eq!(count.wakes.load(Ordering::SeqCst), 1);
    assert!(wait.poll_notified(&mut notify, &waker));
}

#[test]
fn loom_notify_drop_safety() {
    // a wait dropped before the notification leaves it for the next wait
    let mut notify = SingleWaiterNotify::new();
    let (count, waker) = counting_waker();
    let mut wait = notify.notified();
    assert!(!wait.poll_notified(&mut notify, &waker));
    wait.cancel(&mut notify);
    let _ = notify.notify_one();
    wake_all(notify.take_wakeups());
    assert_eq!(count.wakes.load(Ordering::SeqCst), 0);
    let mut next = notify.notified();
    assert!(next.poll_notified(&mut notify, Waker::noop()));
}
