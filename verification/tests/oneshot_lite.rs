use lite_sync::oneshot::lite::error::RecvError;
use lite_sync::oneshot::lite::{channel, Sender, State};
use std::task::Waker;

#[derive(Debug, Clone, Copy, PartialEq, Eq)]
enum TestCompletion {
    Called,
    Cancelled,
}

impl State for TestCompletion {
    fn code(&self) -> u8 {
        self.to_u8()
    }

    fn decode(value: u8) -> Option<Self> {
        Self::from_u8(value)
    }

    fn pending_code() -> u8 {
        Self::pending_value()
    }

    fn closed_code() -> u8 {
        Self::closed_value()
    }

    fn lemma_encoding(_s: Self) {}

    fn to_u8(&self) -> u8 {
        match self {
            TestCompletion::Called => 1,
            TestCompletion::Cancelled => 2,
        }
    }

    fn from_u8(value: u8) -> Option<Self> {
        match value {
            1 => Some(TestCompletion::Called),
            2 => Some(TestCompletion::Cancelled),
            _ => None,
        }
    }

    fn pending_value() -> u8 {
        0
    }

    fn closed_value() -> u8 {
        255
    }
}

#[derive(Debug, Clone, Copy, PartialEq, Eq)]
enum CustomState {
    Success,
    Failure,
    Timeout,
}

impl State for CustomState {
    fn code(&self) -> u8 {
        self.to_u8()
    }

    fn decode(value: u8) -> Option<Self> {
        Self::from_u8(value)
    }

    fn pending_code() -> u8 {
        Self::pending_value()
    }

    fn closed_code() -> u8 {
        Self::closed_value()
    }

    fn lemma_encoding(_s: Self) {}

    fn to_u8(&self) -> u8 {
        match self {
            CustomState::Success => 1,
            CustomState::Failure => 2,
            CustomState::Timeout => 3,
        }
    }

    fn from_u8(value: u8) -> Option<Self> {
        match value {
            1 => Some(CustomState::Success),
            2 => Some(CustomState::Failure),
            3 => Some(CustomState::Timeout),
            _ => None,
        }
    }

    fn pending_value() -> u8 {
        0
    }

    fn closed_value() -> u8 {
        255
    }
}

#[test]
fn test_oneshot_try_recv_pending() {
    let (_notifier, mut receiver, mut ch) = Sender::<TestCompletion>::new();
    let result = receiver.try_recv(&ch);
    assert_eq!(result, Ok(None));
}

#[test]
fn test_oneshot_try_recv_ready() {
    let (notifier, mut receiver, mut ch) = Sender::<TestCompletion>::new();
    notifier.send(&mut ch, TestCompletion::Called).unwrap();
    let result = receiver.try_recv(&ch);
    assert_eq!(result, Ok(Some(TestCompletion::Called)));
}

#[test]
fn test_oneshot_try_recv_sender_dropped() {
    let (notifier, mut receiver, mut ch) = Sender::<TestCompletion>::new();
    notifier.disconnect(&mut ch);
    let result = receiver.try_recv(&ch);
    assert_eq!(result, Err(RecvError));
}

#[test]
fn test_oneshot_immediate_called() {
    let (notifier, mut receiver, mut ch) = Sender::<TestCompletion>::new();
    notifier.send(&mut ch, TestCompletion::Called).unwrap();
    assert_eq!(receiver.poll_recv(&mut ch, Waker::noop()), Some(Ok(TestCompletion::Called)));
}

#[test]
fn test_oneshot_immediate_cancelled() {
    let (notifier, mut receiver, mut ch) = Sender::<TestCompletion>::new();
    notifier.send(&mut ch, TestCompletion::Cancelled).unwrap();
    assert_eq!(receiver.poll_recv(&mut ch, Waker::noop()), Some(Ok(TestCompletion::Cancelled)));
}

#[test]
fn test_oneshot_custom_state_timeout() {
    let (notifier, mut receiver, mut ch) = Sender::<CustomState>::new();
    notifier.send(&mut ch, CustomState::Timeout).unwrap();
    assert_eq!(receiver.poll_recv(&mut ch, Waker::noop()), Some(Ok(CustomState::Timeout)));
}

#[test]
fn test_oneshot_unit_type_immediate() {
    let (notifier, mut receiver, mut ch) = Sender::<()>::new();
    notifier.send(&mut ch, ()).unwrap();
    assert_eq!(receiver.poll_recv(&mut ch, Waker::noop()), Some(Ok(())));
}

#[test]
fn test_oneshot_sender_dropped_before_recv() {
    let (notifier, mut receiver, mut ch) = Sender::<TestCompletion>::new();
    notifier.disconnect(&mut ch);
    assert_eq!(receiver.poll_recv(&mut ch, Waker::noop()), Some(Err(RecvError)));
}

#[test]
fn test_oneshot_sender_dropped_unit_type() {
    let (notifier, mut receiver, mut ch) = Sender::<()>::new();
    notifier.disconnect(&mut ch);
    assert_eq!(receiver.poll_recv(&mut ch, Waker::noop()), Some(Err(RecvError)));
}

#[test]
fn test_oneshot_sender_dropped_custom_state() {
    let (notifier, mut receiver, mut ch) = Sender::<CustomState>::new();
    notifier.disconnect(&mut ch);
    assert_eq!(receiver.poll_recv(&mut ch, Waker::noop()), Some(Err(RecvError)));
}

#[test]
fn pending_poll_then_send() {
    let (notifier, mut receiver, mut ch) = channel::<CustomState>();
    assert_eq!(receiver.poll_recv(&mut ch, Waker::noop()), None);
    notifier.send(&mut ch, CustomState::Failure).unwrap();
    assert_eq!(receiver.poll_recv(&mut ch, Waker::noop()), Some(Ok(CustomState::Failure)));
}

#[test]
fn send_fails_when_receiver_dropped() {
    let (notifier, mut receiver, mut ch) = channel::<CustomState>();
    receiver.disconnect(&mut ch);
    assert_eq!(notifier.send(&mut ch, CustomState::Success), Err(CustomState::Success));
}

#[test]
fn unit_state_codes() {
    assert_eq!(().to_u8(), 1);
    assert_eq!(<() as State>::from_u8(1), Some(()));
    assert_eq!(<() as State>::from_u8(0), None);
    assert_eq!(<() as State>::pending_value(), 0);
    assert_eq!(<() as State>::closed_value(), 255);
}

#[test]
fn state_is_not_consumed_by_reading() {
    let (notifier, mut receiver, mut ch) = channel::<TestCompletion>();
    notifier.send(&mut ch, TestCompletion::Called).unwrap();
    assert_eq!(receiver.try_recv(&ch), Ok(Some(TestCompletion::Called)));
    // the state stays readable: a one-byte state is not consumed
    assert_eq!(receiver.try_recv(&ch), Ok(Some(TestCompletion::Called)));
}

#[test]
fn lite_error_message() {
    assert_eq!(RecvError.to_string(), "sender dropped");
}

// The interleavings of a sending and a receiving task, taken one operation at
// a time in each order.

#[test]
fn loom_oneshot_lite_success() {
    let (notifier, mut receiver, mut ch) = channel::<()>();
    notifier.send(&mut ch, ()).unwrap();
    assert_eq!(receiver.poll_recv(&mut ch, Waker::noop()), Some(Ok(())));

    let (notifier, mut receiver, mut ch) = channel::<()>();
    assert_eq!(receiver.poll_recv(&mut ch, Waker::noop()), None);
    notifier.send(&mut ch, ()).unwrap();
    assert_eq!(receiver.poll_recv(&mut ch, Waker::noop()), Some(Ok(())));
}

#[test]
fn loom_oneshot_lite_drop_sender() {
    let (notifier, mut receiver, mut ch) = channel::<()>();
    notifier.disconnect(&mut ch);
    assert!(receiver.poll_recv(&mut ch, Waker::noop()).unwrap().is_err());

    let (notifier, mut receiver, mut ch) = channel::<()>();
    assert_eq!(receiver.poll_recv(&mut ch, Waker::noop()), None);
    notifier.disconnect(&mut ch);
    assert!(receiver.poll_recv(&mut ch, Waker::noop()).unwrap().is_err());
}

#[test]
fn loom_oneshot_lite_close_receiver() {
    // the receiver goes away before the send: the state comes back
    let (notifier, receiver, mut ch) = channel::<()>();
    receiver.disconnect(&mut ch);
    assert_eq!(notifier.send(&mut ch, ()), Err(()));
    // after the send: the send succeeds
    let (notifier, receiver, mut ch) = channel::<()>();
    notifier.send(&mut ch, ()).unwrap();
    receiver.disconnect(&mut ch);
}
