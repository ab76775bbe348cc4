//! One-shot channel for values of any type.
use super::common::{self, close_phase, take_phase, OneshotStorage, Phase, TakeResult};
use std::task::Waker;
use vstd::prelude::*;

pub use super::common::error;
pub use super::common::RecvError;
pub use super::common::TryRecvError;

verus! {

/// No value stored.
pub const EMPTY: u8 = 0;

/// A value is ready.
pub const READY: u8 = 1;

/// The sender was dropped without sending.
pub const SENDER_CLOSED: u8 = 2;

/// The receiver was closed.
pub const RECEIVER_CLOSED: u8 = 3;

/// Storage of a value of type `T` together with a state code.
pub struct GenericStorage<T> {
    state: u8,
    value: Option<T>,
}

impl<T> GenericStorage<T> {
    /// The state code.
    pub closed spec fn state(&self) -> u8 {
        self.state
    }

    /// The value held, if any.
    pub closed spec fn value(&self) -> Option<T> {
        self.value
    }
}

impl<T: Send> OneshotStorage for GenericStorage<T> {
    type Value = T;

    open spec fn wf(&self) -> bool {
        &&& self.state() <= RECEIVER_CLOSED
        &&& self.state() == READY ==> self.value() is Some
    }

    open spec fn phase(&self) -> Phase<T> {
        if self.state() == READY {
            Phase::Ready(self.value()->0)
        } else if self.state() == SENDER_CLOSED {
            Phase::SenderDropped
        } else if self.state() == RECEIVER_CLOSED {
            Phase::ReceiverClosed
        } else {
            Phase::Empty
        }
    }

    fn new() -> (s: Self) {
        GenericStorage { state: EMPTY, value: None }
    }

    fn store(&mut self, value: T) {
        self.value = Some(value);
        self.state = READY;
    }

    fn try_take(&mut self) -> (r: TakeResult<T>) {
        if self.state == READY {
            self.state = EMPTY;
            match self.value.take() {
                Some(v) => TakeResult::Ready(v),
                None => TakeResult::Pending,
            }
        } else if self.state == SENDER_CLOSED || self.state == RECEIVER_CLOSED {
            TakeResult::Closed
        } else {
            TakeResult::Pending
        }
    }

    fn is_sender_dropped(&self) -> (b: bool) {
        self.state == SENDER_CLOSED
    }

    fn mark_sender_dropped(&mut self) {
        self.state = SENDER_CLOSED;
    }

    fn is_receiver_closed(&self) -> (b: bool) {
        self.state == RECEIVER_CLOSED
    }

    fn mark_receiver_closed(&mut self) {
        if self.state != READY {
            self.state = RECEIVER_CLOSED;
        }
    }
}

/// Sending side of a one-shot channel for values of type `T`.
pub type Sender<T> = common::Sender<GenericStorage<T>>;

/// Receiving side of a one-shot channel for values of type `T`.
pub type Receiver<T> = common::Receiver<GenericStorage<T>>;

/// The state of a one-shot channel for values of type `T`.
pub type Inner<T> = common::Inner<GenericStorage<T>>;

/// A new one-shot channel for values of type `T`: its two sides and its
/// state, open and empty.
pub fn channel<T: Send>() -> (r: (Sender<T>, Receiver<T>, Inner<T>))
    ensures
        r.2.wf(),
        r.2.phase() == Phase::<T>::Empty,
        !r.2.receiver_dropped(),
        !r.2.has_waker(),
        r.2.wakeups() == Seq::<Waker>::empty(),
{
    Sender::new()
}

/// What `try_recv` returns for an outcome of taking.
pub open spec fn try_recv_result<T>(taken: TakeResult<T>) -> Result<T, TryRecvError> {
    match taken {
        TakeResult::Ready(v) => Ok(v),
        TakeResult::Pending => Err(TryRecvError::Empty),
        TakeResult::Closed => Err(TryRecvError::Closed),
    }
}

/// Computes [`try_recv_result`].
pub fn try_recv_outcome<T>(taken: TakeResult<T>) -> (r: Result<T, TryRecvError>)
    ensures
        r == try_recv_result(taken),
{
    match taken {
        TakeResult::Ready(v) => Ok(v),
        TakeResult::Pending => Err(TryRecvError::Empty),
        TakeResult::Closed => Err(TryRecvError::Closed),
    }
}

impl<T: Send> common::Receiver<GenericStorage<T>> {
    /// Takes the value without waiting: `Empty` when none was sent yet (or it
    /// was already taken), `Closed` when the sender was dropped without
    /// sending or the receiver was closed.
    pub fn try_recv(&mut self, inner: &mut Inner<T>) -> (r: Result<T, TryRecvError>)
        requires
            old(inner).wf(),
        ensures
            final(inner).wf(),
            r == try_recv_result(take_phase(old(inner).phase()).1),
            final(inner).phase() == take_phase(old(inner).phase()).0,
            final(inner).receiver_dropped() == old(inner).receiver_dropped(),
            final(inner).waiter() == old(inner).waiter(),
            final(inner).wakeups() == old(inner).wakeups(),
    {
        try_recv_outcome(inner.try_recv())
    }
}

/// The receiver reports a sender dropped without sending as `Closed`, on
/// every try.
pub proof fn lemma_dropped_sender_reported<T>()
    ensures
        try_recv_result(take_phase(Phase::<T>::SenderDropped).1) == Err::<T, TryRecvError>(
            TryRecvError::Closed,
        ),
        take_phase(Phase::<T>::SenderDropped).0 == Phase::<T>::SenderDropped,
{
}

/// A fresh channel has nothing to receive; after a send the value is received,
/// and then nothing again.
pub proof fn lemma_try_recv_round_trip<T>(v: T)
    ensures
        try_recv_result(take_phase(Phase::<T>::Empty).1) == Err::<T, TryRecvError>(
            TryRecvError::Empty,
        ),
        try_recv_result(take_phase(Phase::Ready(v)).1) == Ok::<T, TryRecvError>(v),
        try_recv_result(take_phase(take_phase(Phase::Ready(v)).0).1) == Err::<T, TryRecvError>(
            TryRecvError::Empty,
        ),
{
}

/// A value sent before the receiver closes is still received.
pub proof fn lemma_close_after_send<T>(v: T)
    ensures
        try_recv_result(take_phase(close_phase(Phase::Ready(v))).1) == Ok::<T, TryRecvError>(v),
{
}

} // verus!
