use lite_sync::spsc::{
    channel, Inner, Receiver, RecvOp, SendError, SendOp, Sender, SliceOp, TryRecvError, TrySendError,
};
use std::sync::atomic::{AtomicUsize, Ordering};
use std::sync::Arc;
use std::task::{Wake, Waker};

struct CountingWaker {
    wakes: AtomicUsize,
}

impl Wake for CountingWaker {
    fn wake(self: Arc<Self>) {
        self.wakes.fetch_add(1, Ordering::SeqCst);
    }
}

/// Wakes the wakers the state owes a wake-up, as the owner of a shared state
/// does once it has let go of it.
fn wake_all(wakers: Vec<Waker>) {
    for w in wakers {
        w.wake();
    }
}

fn counting_waker() -> (Arc<CountingWaker>, Waker) {
    let counter = Arc::new(CountingWaker { wakes: AtomicUsize::new(0) });
    (counter.clone(), Waker::from(counter))
}

/// Polls a send until it finishes (it must not need the receiver).
fn send_now<T, const N: usize>(
    tx: &Sender<T, N>,
    ch: &mut Inner<T>,
    value: T,
) -> Result<(), SendError<T>> {
    let mut op = SendOp::new(value);
    for _ in 0..4 {
        if let Some(r) = tx.poll_send(ch, &mut op, Waker::noop()) {
            return r;
        }
    }
    panic!("send did not finish");
}

/// Polls a receive until it finishes (it must not need the sender).
fn recv_now<T, const N: usize>(rx: &Receiver<T, N>, ch: &mut Inner<T>) -> Option<T> {
    let mut op = RecvOp::new();
    for _ in 0..4 {
        if let Some(r) = rx.poll_recv(ch, &mut op, Waker::noop()) {
            return r;
        }
    }
    panic!("receive did not finish");
}

#[test]
fn test_basic_send_recv() {
    let (tx, mut rx, mut ch) = channel::<i32, 32>(4);

    send_now(&tx, &mut ch, 1).unwrap();
    send_now(&tx, &mut ch, 2).unwrap();
    send_now(&tx, &mut ch, 3).unwrap();

    assert_eq!(recv_now(&rx, &mut ch), Some(1));
    assert_eq!(recv_now(&rx, &mut ch), Some(2));
    assert_eq!(recv_now(&rx, &mut ch), Some(3));
}

#[test]
fn test_try_send_recv() {
    let (tx, mut rx, mut ch) = channel::<i32, 32>(4);

    tx.try_send(&mut ch, 1).unwrap();
    tx.try_send(&mut ch, 2).unwrap();

    assert_eq!(rx.try_recv(&mut ch).unwrap(), 1);
    assert_eq!(rx.try_recv(&mut ch).unwrap(), 2);
    assert!(matches!(rx.try_recv(&mut ch), Err(TryRecvError::Empty)));
}

#[test]
fn test_channel_closed_on_sender_drop() {
    let (tx, mut rx, mut ch) = channel::<i32, 32>(4);

    send_now(&tx, &mut ch, 1).unwrap();
    tx.disconnect(&mut ch);
    drop(tx);

    assert_eq!(recv_now(&rx, &mut ch), Some(1));
    assert_eq!(recv_now(&rx, &mut ch), None);
}

#[test]
fn test_channel_closed_on_receiver_drop() {
    let (tx, mut rx, mut ch) = channel::<i32, 32>(4);

    rx.disconnect(&mut ch);
    drop(rx);

    assert!(matches!(send_now(&tx, &mut ch, 1), Err(SendError::Closed(1))));
}

#[test]
fn test_cross_task_communication() {
    let (tx, mut rx, mut ch) = channel::<i32, 32>(4);
    let mut sum = 0;
    let mut next = 0;
    // the sender runs ahead until the buffer is full, then the receiver drains
    while next < 10 {
        while next < 10 && tx.try_send(&mut ch, next).is_ok() {
            next += 1;
        }
        while let Ok(v) = rx.try_recv(&mut ch) {
            sum += v;
        }
    }
    tx.disconnect(&mut ch);
    while let Some(v) = recv_now(&rx, &mut ch) {
        sum += v;
    }
    assert_eq!(sum, 45);
}

#[test]
fn test_backpressure() {
    let (tx, mut rx, mut ch) = channel::<i32, 32>(4);

    tx.try_send(&mut ch, 1).unwrap();
    tx.try_send(&mut ch, 2).unwrap();
    tx.try_send(&mut ch, 3).unwrap();
    tx.try_send(&mut ch, 4).unwrap();

    assert!(matches!(tx.try_send(&mut ch, 5), Err(TrySendError::Full(5))));

    // a send of 5 has to wait
    let (count, waker) = counting_waker();
    let mut op = SendOp::new(5);
    assert!(tx.poll_send(&mut ch, &mut op, &waker).is_none());
    wake_all(ch.take_wakeups());
    assert_eq!(count.wakes.load(Ordering::SeqCst), 0);

    assert_eq!(recv_now(&rx, &mut ch), Some(1));
    // room was made: the waiting send is woken and completes
    wake_all(ch.take_wakeups());
    assert_eq!(count.wakes.load(Ordering::SeqCst), 1);
    assert_eq!(tx.poll_send(&mut ch, &mut op, &waker), Some(Ok(())));
    assert!(matches!(tx.try_send(&mut ch, 6), Err(TrySendError::Full(6))));
    assert_eq!(recv_now(&rx, &mut ch), Some(2));
    send_now(&tx, &mut ch, 6).unwrap();

    assert_eq!(recv_now(&rx, &mut ch), Some(3));
    assert_eq!(recv_now(&rx, &mut ch), Some(4));
    assert_eq!(recv_now(&rx, &mut ch), Some(5));
    assert_eq!(recv_now(&rx, &mut ch), Some(6));
}

#[test]
fn test_capacity_and_len() {
    let (tx, mut rx, mut ch) = channel::<i32, 32>(8);

    assert_eq!(rx.capacity(&ch), 8);
    assert_eq!(rx.len(&ch), 0);
    assert!(rx.is_empty(&ch));

    tx.try_send(&mut ch, 1).unwrap();
    tx.try_send(&mut ch, 2).unwrap();

    assert_eq!(rx.len(&ch), 2);
    assert!(!rx.is_empty(&ch));
}

#[test]
fn test_sender_capacity_queries() {
    let (tx, mut rx, mut ch) = channel::<i32, 32>(8);

    assert_eq!(tx.capacity(&ch), 8);
    assert_eq!(tx.len(&ch), 0);
    assert_eq!(tx.free_slots(&ch), 8);
    assert!(!tx.is_full(&ch));

    tx.try_send(&mut ch, 1).unwrap();
    tx.try_send(&mut ch, 2).unwrap();
    tx.try_send(&mut ch, 3).unwrap();

    assert_eq!(tx.len(&ch), 3);
    assert_eq!(tx.free_slots(&ch), 5);
    assert!(!tx.is_full(&ch));

    tx.try_send(&mut ch, 4).unwrap();
    tx.try_send(&mut ch, 5).unwrap();
    tx.try_send(&mut ch, 6).unwrap();
    tx.try_send(&mut ch, 7).unwrap();
    tx.try_send(&mut ch, 8).unwrap();

    assert_eq!(tx.len(&ch), 8);
    assert_eq!(tx.free_slots(&ch), 0);
    assert!(tx.is_full(&ch));

    recv_now(&rx, &mut ch);

    assert_eq!(tx.len(&ch), 7);
    assert_eq!(tx.free_slots(&ch), 1);
    assert!(!tx.is_full(&ch));
}

#[test]
fn test_try_send_slice() {
    let (tx, mut rx, mut ch) = channel::<u32, 32>(16);

    let data = [1, 2, 3, 4, 5];
    let sent = tx.try_send_slice(&mut ch, &data);

    assert_eq!(sent, 5);
    assert_eq!(rx.len(&ch), 5);

    for i in 0..5 {
        assert_eq!(recv_now(&rx, &mut ch).unwrap(), data[i]);
    }
}

#[test]
fn test_try_send_slice_partial() {
    let (tx, mut rx, mut ch) = channel::<u32, 32>(8);

    let initial = [1, 2, 3, 4, 5];
    tx.try_send_slice(&mut ch, &initial);

    let more = [6, 7, 8, 9, 10, 11, 12, 13, 14, 15];
    let sent = tx.try_send_slice(&mut ch, &more);

    assert_eq!(sent, 3);
    assert_eq!(rx.len(&ch), 8);
    assert!(tx.is_full(&ch));

    for i in 1..=8 {
        assert_eq!(recv_now(&rx, &mut ch).unwrap(), i);
    }
}

#[test]
fn test_send_slice() {
    let (tx, mut rx, mut ch) = channel::<u32, 32>(16);

    let data = [1, 2, 3, 4, 5, 6, 7, 8, 9, 10];
    let mut op = SliceOp::new();
    let result = tx.poll_send_slice(&mut ch, &mut op, &data, Waker::noop());

    assert_eq!(result, Some(Ok(10)));
    assert_eq!(rx.len(&ch), 10);

    for i in 0..10 {
        assert_eq!(recv_now(&rx, &mut ch).unwrap(), data[i]);
    }
}

#[test]
fn test_send_slice_with_backpressure() {
    let (tx, mut rx, mut ch) = channel::<u32, 32>(4);

    let data = [1, 2, 3, 4, 5, 6, 7, 8];
    let (count, waker) = counting_waker();
    let mut op = SliceOp::new();
    assert_eq!(tx.poll_send_slice(&mut ch, &mut op, &data, &waker), None);

    for i in 1..=4 {
        assert_eq!(recv_now(&rx, &mut ch).unwrap(), i);
    }
    wake_all(ch.take_wakeups());
    assert!(count.wakes.load(Ordering::SeqCst) >= 1);

    let mut sent = None;
    for _ in 0..4 {
        if let Some(r) = tx.poll_send_slice(&mut ch, &mut op, &data, &waker) {
            sent = Some(r);
            break;
        }
    }
    assert_eq!(sent, Some(Ok(8)));

    for i in 5..=8 {
        assert_eq!(recv_now(&rx, &mut ch).unwrap(), i);
    }
}

#[test]
fn test_peek() {
    let (tx, mut rx, mut ch) = channel::<i32, 32>(8);

    assert!(rx.peek(&ch).is_none());

    tx.try_send(&mut ch, 42).unwrap();
    tx.try_send(&mut ch, 100).unwrap();
    tx.try_send(&mut ch, 200).unwrap();

    assert_eq!(rx.peek(&ch), Some(&42));
    assert_eq!(rx.peek(&ch), Some(&42));
    assert_eq!(rx.len(&ch), 3);
}

#[test]
fn test_peek_after_recv() {
    let (tx, mut rx, mut ch) = channel::<String, 32>(8);

    tx.try_send(&mut ch, "first".to_string()).unwrap();
    tx.try_send(&mut ch, "second".to_string()).unwrap();
    tx.try_send(&mut ch, "third".to_string()).unwrap();

    assert_eq!(rx.peek(&ch), Some(&"first".to_string()));
    recv_now(&rx, &mut ch).unwrap();

    assert_eq!(rx.peek(&ch), Some(&"second".to_string()));
    recv_now(&rx, &mut ch).unwrap();

    assert_eq!(rx.peek(&ch), Some(&"third".to_string()));
    recv_now(&rx, &mut ch).unwrap();

    assert!(rx.peek(&ch).is_none());
}

#[test]
fn test_clear() {
    let (tx, mut rx, mut ch) = channel::<i32, 32>(16);

    for i in 0..10 {
        tx.try_send(&mut ch, i).unwrap();
    }

    assert_eq!(rx.len(&ch), 10);

    rx.clear(&mut ch);

    assert_eq!(rx.len(&ch), 0);
    assert!(rx.is_empty(&ch));
}

#[test]
fn test_clear_with_drop() {
    #[derive(Debug)]
    struct DropCounter {
        counter: Arc<AtomicUsize>,
    }

    impl Drop for DropCounter {
        fn drop(&mut self) {
            self.counter.fetch_add(1, Ordering::SeqCst);
        }
    }

    let counter = Arc::new(AtomicUsize::new(0));

    {
        let (tx, mut rx, mut ch) = channel::<DropCounter, 32>(16);

        for _ in 0..8 {
            tx.try_send(&mut ch, DropCounter { counter: counter.clone() }).unwrap();
        }

        assert_eq!(counter.load(Ordering::SeqCst), 0);

        rx.clear(&mut ch);

        assert_eq!(counter.load(Ordering::SeqCst), 8);
    }
}

#[test]
fn test_drain() {
    let (tx, mut rx, mut ch) = channel::<i32, 32>(16);

    for i in 0..10 {
        tx.try_send(&mut ch, i).unwrap();
    }

    let mut collected = Vec::new();
    let mut drain = rx.drain();
    while let Some(v) = drain.next(&mut ch) {
        collected.push(v);
    }

    assert_eq!(collected, vec![0, 1, 2, 3, 4, 5, 6, 7, 8, 9]);
    assert!(rx.is_empty(&ch));
}

#[test]
fn test_drain_empty() {
    let (_tx, mut rx, mut ch) = channel::<i32, 32>(8);

    let mut drain = rx.drain();
    assert!(drain.next(&mut ch).is_none());
}

#[test]
fn test_drain_size_hint() {
    let (tx, mut rx, mut ch) = channel::<i32, 32>(16);

    for i in 0..5 {
        tx.try_send(&mut ch, i).unwrap();
    }

    let mut drain = rx.drain();

    assert_eq!(drain.size_hint(&ch), (5, Some(5)));

    drain.next(&mut ch);
    assert_eq!(drain.size_hint(&ch), (4, Some(4)));

    drain.next(&mut ch);
    assert_eq!(drain.size_hint(&ch), (3, Some(3)));
}

#[test]
fn test_try_recv_slice() {
    let (tx, mut rx, mut ch) = channel::<u32, 32>(16);

    for i in 0..10 {
        tx.try_send(&mut ch, i).unwrap();
    }

    let mut dest = [0u32; 5];
    let received = rx.try_recv_slice(&mut ch, &mut dest);

    assert_eq!(received, 5);
    assert_eq!(dest, [0, 1, 2, 3, 4]);
    assert_eq!(rx.len(&ch), 5);
}

#[test]
fn test_try_recv_slice_partial() {
    let (tx, mut rx, mut ch) = channel::<u32, 32>(16);

    tx.try_send(&mut ch, 1).unwrap();
    tx.try_send(&mut ch, 2).unwrap();
    tx.try_send(&mut ch, 3).unwrap();

    let mut dest = [0u32; 10];
    let received = rx.try_recv_slice(&mut ch, &mut dest);

    assert_eq!(received, 3);
    assert_eq!(&dest[0..3], &[1, 2, 3]);
    assert!(rx.is_empty(&ch));
}

#[test]
fn test_recv_slice() {
    let (tx, mut rx, mut ch) = channel::<u32, 32>(16);

    for i in 1..=10 {
        tx.try_send(&mut ch, i).unwrap();
    }

    let mut dest = [0u32; 10];
    let mut op = SliceOp::new();
    let received = rx.poll_recv_slice(&mut ch, &mut op, &mut dest, Waker::noop());

    assert_eq!(received, Some(10));
    assert_eq!(dest, [1, 2, 3, 4, 5, 6, 7, 8, 9, 10]);
    assert!(rx.is_empty(&ch));
}

#[test]
fn test_recv_slice_with_wait() {
    let (tx, mut rx, mut ch) = channel::<u32, 32>(4);

    let mut dest = [0u32; 8];
    let mut op = SliceOp::new();
    let (count, waker) = counting_waker();
    assert_eq!(rx.poll_recv_slice(&mut ch, &mut op, &mut dest, &waker), None);

    let mut received = None;
    for i in 1..=8 {
        send_now(&tx, &mut ch, i).unwrap();
        wake_all(ch.take_wakeups());
        assert!(count.wakes.load(Ordering::SeqCst) >= 1);
        if let Some(n) = rx.poll_recv_slice(&mut ch, &mut op, &mut dest, &waker) {
            received = Some(n);
        }
    }
    assert_eq!(received, Some(8));
    assert_eq!(dest, [1, 2, 3, 4, 5, 6, 7, 8]);
}

#[test]
fn test_recv_slice_channel_closed() {
    let (tx, mut rx, mut ch) = channel::<u32, 32>(8);

    tx.try_send(&mut ch, 1).unwrap();
    tx.try_send(&mut ch, 2).unwrap();
    tx.try_send(&mut ch, 3).unwrap();

    tx.disconnect(&mut ch);
    drop(tx);

    let mut dest = [0u32; 10];
    let mut op = SliceOp::new();
    let received = rx.poll_recv_slice(&mut ch, &mut op, &mut dest, Waker::noop());

    assert_eq!(received, Some(3));
    assert_eq!(&dest[0..3], &[1, 2, 3]);
}

#[test]
fn test_combined_new_apis() {
    let (tx, mut rx, mut ch) = channel::<u32, 32>(16);

    let data = [1, 2, 3, 4, 5];
    tx.try_send_slice(&mut ch, &data);

    assert_eq!(tx.len(&ch), 5);
    assert_eq!(rx.len(&ch), 5);
    assert_eq!(rx.capacity(&ch), 16);

    assert_eq!(rx.peek(&ch), Some(&1));

    let mut dest = [0u32; 3];
    rx.try_recv_slice(&mut ch, &mut dest);
    assert_eq!(dest, [1, 2, 3]);

    assert_eq!(rx.len(&ch), 2);
    assert_eq!(tx.free_slots(&ch), 14);

    let mut remaining = Vec::new();
    let mut drain = rx.drain();
    while let Some(v) = drain.next(&mut ch) {
        remaining.push(v);
    }
    assert_eq!(remaining, vec![4, 5]);

    assert!(rx.is_empty(&ch));
    assert!(!tx.is_full(&ch));
}

#[test]
fn channel_holds_exactly_its_capacity() {
    let (tx, rx, mut ch) = channel::<u8, 4>(5);
    assert_eq!(tx.capacity(&ch), 5);
    assert_eq!(rx.capacity(&ch), 5);
    for i in 0..5 {
        assert_eq!(tx.try_send(&mut ch, i), Ok(()));
    }
    assert_eq!(tx.try_send(&mut ch, 5), Err(TrySendError::Full(5)));
    assert!(tx.is_full(&ch));
}

#[test]
fn closed_channel_refuses_try_send_and_slices() {
    let (tx, mut rx, mut ch) = channel::<u32, 4>(4);
    rx.disconnect(&mut ch);
    assert!(tx.is_closed(&ch));
    assert_eq!(tx.try_send(&mut ch, 9), Err(TrySendError::Closed(9)));
    assert_eq!(tx.try_send_slice(&mut ch, &[1, 2]), 0);
    let mut op = SliceOp::new();
    assert_eq!(tx.poll_send_slice(&mut ch, &mut op, &[1, 2], Waker::noop()), Some(Err(SendError::Closed(()))));
}

#[test]
fn try_recv_reports_closed_only_when_empty() {
    let (tx, mut rx, mut ch) = channel::<u32, 4>(4);
    tx.try_send(&mut ch, 1).unwrap();
    tx.disconnect(&mut ch);
    assert_eq!(rx.try_recv(&mut ch), Ok(1));
    assert_eq!(rx.try_recv(&mut ch), Err(TryRecvError::Closed));
}

#[test]
fn waiting_receiver_is_woken_by_send() {
    let (tx, mut rx, mut ch) = channel::<u32, 4>(4);
    let (count, waker) = counting_waker();
    let mut op = RecvOp::new();
    assert_eq!(rx.poll_recv(&mut ch, &mut op, &waker), None);
    tx.try_send(&mut ch, 11).unwrap();
    wake_all(ch.take_wakeups());
    assert_eq!(count.wakes.load(Ordering::SeqCst), 1);
    assert_eq!(rx.poll_recv(&mut ch, &mut op, &waker), Some(Some(11)));
}

#[test]
fn waiting_receiver_is_woken_by_sender_drop() {
    let (tx, mut rx, mut ch) = channel::<u32, 4>(4);
    let (count, waker) = counting_waker();
    let mut op = RecvOp::new();
    assert_eq!(rx.poll_recv(&mut ch, &mut op, &waker), None);
    tx.disconnect(&mut ch);
    wake_all(ch.take_wakeups());
    assert_eq!(count.wakes.load(Ordering::SeqCst), 1);
    assert_eq!(rx.poll_recv(&mut ch, &mut op, &waker), Some(None));
}

#[test]
fn waiting_sender_gets_value_back_when_receiver_drops() {
    let (tx, mut rx, mut ch) = channel::<u32, 4>(1);
    tx.try_send(&mut ch, 1).unwrap();
    let (count, waker) = counting_waker();
    let mut op = SendOp::new(2);
    assert_eq!(tx.poll_send(&mut ch, &mut op, &waker), None);
    rx.disconnect(&mut ch);
    wake_all(ch.take_wakeups());
    assert_eq!(count.wakes.load(Ordering::SeqCst), 1);
    assert_eq!(tx.poll_send(&mut ch, &mut op, &waker), Some(Err(SendError::Closed(2))));
}

#[test]
fn empty_batch_on_closed_channel_reports_closed() {
    let (tx, rx, mut ch) = channel::<u32, 4>(4);
    rx.disconnect(&mut ch);
    let mut op = SliceOp::new();
    assert_eq!(tx.poll_send_slice(&mut ch, &mut op, &[], Waker::noop()), Some(Err(SendError::Closed(()))));
}

#[test]
fn len_and_free_slots_add_up_to_capacity() {
    let (tx, rx, mut ch) = channel::<u32, 4>(8);
    for i in 0..5 {
        tx.try_send(&mut ch, i).unwrap();
        assert_eq!(tx.len(&ch) + tx.free_slots(&ch), tx.capacity(&ch));
    }
    assert_eq!(rx.try_recv(&mut ch), Ok(0));
    assert_eq!(rx.len(&ch) + tx.free_slots(&ch), rx.capacity(&ch));
}
