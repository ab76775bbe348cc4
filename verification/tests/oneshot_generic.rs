use lite_sync::oneshot::common::{RecvError, TakeResult, TryRecvError};
use lite_sync::oneshot::generic::{channel, Sender};
use std::sync::atomic::{AtomicUsize, Ordering};
use std::sync::Arc;
use std::task::{Wake, Waker};

struct CountingWaker {
    wakes: AtomicUsize,
}

impl Wake for CountingWaker {
    fn wake(self: Arc<Self>) {
        self.wakes.fetch_add(1, Ordering::SeqCst);
    }
}

/// Wakes the wakers the state owes a wake-up, as the owner of a shared state
/// does once it has let go of it.
fn wake_all(wakers: Vec<Waker>) {
    for w in wakers {
        w.wake();
    }
}

fn counting_waker() -> (Arc<CountingWaker>, Waker) {
    let counter = Arc::new(CountingWaker { wakes: AtomicUsize::new(0) });
    (counter.clone(), Waker::from(counter))
}

#[test]
fn test_oneshot_try_recv() {
    let (sender, mut receiver, mut ch) = Sender::<i32>::new();

    // Try receive before sending
    assert_eq!(receiver.try_recv(&mut ch), Err(TryRecvError::Empty));

    // Send value
    sender.send(&mut ch, 42).unwrap();

    // Try receive after sending
    assert_eq!(receiver.try_recv(&mut ch), Ok(42));
}

#[test]
fn test_oneshot_try_recv_closed() {
    let (sender, mut receiver, mut ch) = Sender::<i32>::new();

    // Drop sender without sending
    sender.disconnect(&mut ch);

    // Try receive should return Closed error
    assert_eq!(receiver.try_recv(&mut ch), Err(TryRecvError::Closed));
}

#[test]
fn test_sender_is_closed_initially_false() {
    let (sender, mut _receiver, mut ch) = Sender::<i32>::new();
    assert!(!sender.is_closed(&ch));
}

#[test]
fn test_sender_is_closed_after_receiver_drop() {
    let (sender, mut receiver, mut ch) = Sender::<i32>::new();
    receiver.disconnect(&mut ch);
    assert!(sender.is_closed(&ch));
}

#[test]
fn test_sender_is_closed_after_receiver_close() {
    let (sender, mut receiver, mut ch) = Sender::<i32>::new();
    receiver.close(&mut ch);
    assert!(sender.is_closed(&ch));
}

#[test]
fn test_receiver_close_prevents_send() {
    let (sender, mut receiver, mut ch) = Sender::<i32>::new();
    receiver.close(&mut ch);

    // Send should fail after close
    assert!(sender.send(&mut ch, 42).is_err());
}

#[test]
fn test_oneshot_immediate() {
    let (sender, mut receiver, mut ch) = Sender::<String>::new();
    sender.send(&mut ch, "Immediate".to_string()).unwrap();
    let result = receiver.poll_recv(&mut ch, Waker::noop());
    assert_eq!(result, Some(Ok("Immediate".to_string())));
}

#[test]
fn test_oneshot_immediate_await() {
    let (sender, mut receiver, mut ch) = Sender::<Vec<u8>>::new();
    sender.send(&mut ch, vec![1, 2, 3]).unwrap();
    assert_eq!(receiver.poll_recv(&mut ch, Waker::noop()), Some(Ok(vec![1, 2, 3])));
}

#[test]
fn test_oneshot_dropped() {
    let (sender, mut receiver, mut ch) = Sender::<i32>::new();
    sender.disconnect(&mut ch);
    assert_eq!(receiver.poll_recv(&mut ch, Waker::noop()), Some(Err(RecvError)));
}

#[test]
fn send_hands_value_back_when_receiver_gone() {
    let (sender, mut receiver, mut ch) = channel::<String>();
    receiver.disconnect(&mut ch);
    assert_eq!(sender.send(&mut ch, "kept".to_string()), Err("kept".to_string()));
}

#[test]
fn pending_receiver_is_woken_by_send() {
    let (sender, mut receiver, mut ch) = channel::<i32>();
    let (count, waker) = counting_waker();
    assert_eq!(receiver.poll_recv(&mut ch, &waker), None);
    sender.send(&mut ch, 7).unwrap();
    wake_all(ch.take_wakeups());
    assert_eq!(count.wakes.load(Ordering::SeqCst), 1);
    assert_eq!(receiver.poll_recv(&mut ch, &waker), Some(Ok(7)));
}

#[test]
fn pending_receiver_is_woken_by_disconnect() {
    let (sender, mut receiver, mut ch) = channel::<i32>();
    let (count, waker) = counting_waker();
    assert_eq!(receiver.poll_recv(&mut ch, &waker), None);
    sender.disconnect(&mut ch);
    wake_all(ch.take_wakeups());
    assert_eq!(count.wakes.load(Ordering::SeqCst), 1);
    assert_eq!(receiver.poll_recv(&mut ch, &waker), Some(Err(RecvError)));
}

#[test]
fn value_is_taken_once() {
    let (sender, mut receiver, mut ch) = channel::<i32>();
    sender.send_unchecked(&mut ch, 5);
    assert_eq!(receiver.try_recv(&mut ch), Ok(5));
    assert_eq!(receiver.try_recv(&mut ch), Err(TryRecvError::Empty));
}

#[test]
fn take_result_helpers() {
    assert_eq!(TakeResult::Ready(3).ok(), Some(3));
    assert_eq!(TakeResult::<i32>::Pending.ok(), None);
    assert_eq!(TakeResult::<i32>::Closed.ok(), None);
    assert!(TakeResult::<i32>::Closed.is_closed());
    assert!(!TakeResult::<i32>::Pending.is_closed());
    assert!(!TakeResult::Ready(1).is_closed());
}

#[test]
fn error_messages() {
    assert_eq!(RecvError.to_string(), "channel closed");
    assert_eq!(TryRecvError::Empty.to_string(), "channel empty");
    assert_eq!(TryRecvError::Closed.to_string(), "channel closed");
}

#[test]
fn closed_is_reported_on_every_try() {
    let (sender, mut receiver, mut ch) = channel::<i32>();
    sender.disconnect(&mut ch);
    assert_eq!(receiver.try_recv(&mut ch), Err(TryRecvError::Closed));
    assert_eq!(receiver.try_recv(&mut ch), Err(TryRecvError::Closed));
    assert_eq!(receiver.poll_recv(&mut ch, Waker::noop()), Some(Err(RecvError)));
}

#[test]
fn value_sent_before_close_is_received() {
    let (sender, mut receiver, mut ch) = channel::<i32>();
    assert_eq!(sender.send(&mut ch, 42), Ok(()));
    receiver.close(&mut ch);
    assert_eq!(receiver.try_recv(&mut ch), Ok(42));
    assert_eq!(receiver.try_recv(&mut ch), Err(TryRecvError::Empty));
}

#[test]
fn close_without_value_reports_closed() {
    let (_sender, mut receiver, mut ch) = channel::<i32>();
    receiver.close(&mut ch);
    assert_eq!(receiver.try_recv(&mut ch), Err(TryRecvError::Closed));
}

#[test]
fn test_blocking_recv_immediate() {
    // the step a blocking receive repeats: the value already sent comes at once
    let (sender, mut receiver, mut ch) = Sender::<i32>::new();
    assert_eq!(sender.send(&mut ch, 42), Ok(()));
    assert_eq!(receiver.poll_recv(&mut ch, Waker::noop()), Some(Ok(42)));
}

#[test]
fn test_blocking_recv_sender_dropped() {
    let (sender, mut receiver, mut ch) = Sender::<i32>::new();
    sender.disconnect(&mut ch);
    assert_eq!(receiver.poll_recv(&mut ch, Waker::noop()), Some(Err(RecvError)));
}

#[test]
fn repoll_registers_the_new_waker() {
    let (sender, mut receiver, mut ch) = channel::<i32>();
    let (first_count, first) = counting_waker();
    let (second_count, second) = counting_waker();
    assert_eq!(receiver.poll_recv(&mut ch, &first), None);
    assert_eq!(receiver.poll_recv(&mut ch, &second), None);
    assert_eq!(sender.send(&mut ch, 1), Ok(()));
    wake_all(ch.take_wakeups());
    assert_eq!(first_count.wakes.load(Ordering::SeqCst), 0);
    wake_all(ch.take_wakeups());
    assert_eq!(second_count.wakes.load(Ordering::SeqCst), 1);
}

// The interleavings of a sending and a receiving task, taken one operation at
// a time in each order; the receive is the step a blocking receive repeats.

#[test]
fn loom_oneshot_blocking_recv_success() {
    let (sender, mut receiver, mut ch) = channel::<()>();
    assert_eq!(sender.send(&mut ch, ()), Ok(()));
    assert_eq!(receiver.poll_recv(&mut ch, Waker::noop()), Some(Ok(())));

    let (sender, mut receiver, mut ch) = channel::<()>();
    let (count, waker) = counting_waker();
    assert_eq!(receiver.poll_recv(&mut ch, &waker), None);
    assert_eq!(sender.send(&mut ch, ()), Ok(()));
    wake_all(ch.take_wakeups());
    assert_eq!(count.wakes.load(Ordering::SeqCst), 1);
    assert_eq!(receiver.poll_recv(&mut ch, &waker), Some(Ok(())));
}

#[test]
fn loom_oneshot_blocking_recv_drop_sender() {
    let (sender, mut receiver, mut ch) = channel::<()>();
    sender.disconnect(&mut ch);
    assert!(receiver.poll_recv(&mut ch, Waker::noop()).unwrap().is_err());

    let (sender, mut receiver, mut ch) = channel::<()>();
    let (count, waker) = counting_waker();
    assert_eq!(receiver.poll_recv(&mut ch, &waker), None);
    sender.disconnect(&mut ch);
    wake_all(ch.take_wakeups());
    assert_eq!(count.wakes.load(Ordering::SeqCst), 1);
    assert!(receiver.poll_recv(&mut ch, &waker).unwrap().is_err());
}

#[test]
fn loom_sender_is_closed_concurrent() {
    let (sender, receiver, mut ch) = channel::<()>();
    assert!(!sender.is_closed(&ch));
    receiver.disconnect(&mut ch);
    assert!(sender.is_closed(&ch));
}
