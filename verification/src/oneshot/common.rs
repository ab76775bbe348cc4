//! Parts shared by the one-shot channels: the error types, the outcome of
//! taking from a storage, the storage interface, the channel state built over
//! any storage, and the operations of its sender and its receiver.
use crate::atomic_waker::{wakeup_of, AtomicWaker};
use std::marker::PhantomData;
use std::task::Waker;
use vstd::prelude::*;

pub mod error;

pub use self::error::RecvError;
pub use self::error::TryRecvError;

verus! {

/// Outcome of trying to take a value from a storage.
#[derive(Debug, Clone, Copy, PartialEq, Eq)]
pub enum TakeResult<T> {
    /// The value was ready and is handed over.
    Ready(T),
    /// No value yet.
    Pending,
    /// The channel was closed without a value.
    Closed,
}

impl<T> TakeResult<T> {
    /// The value, when there is one.
    pub fn ok(self) -> (r: Option<T>)
        ensures
            r == (match self {
                TakeResult::Ready(v) => Some(v),
                _ => None,
            }),
    {
        match self {
            TakeResult::Ready(v) => Some(v),
            _ => None,
        }
    }

    /// Whether the channel was closed without a value.
    pub fn is_closed(&self) -> (b: bool)
        ensures
            b == (*self is Closed),
    {
        match self {
            TakeResult::Closed => true,
            _ => false,
        }
    }
}

/// Where a one-shot channel stands, as seen by its two sides.
pub enum Phase<V> {
    /// Nothing sent yet, or the value was already taken.
    Empty,
    /// A value is ready to be taken.
    Ready(V),
    /// The sender was dropped without sending.
    SenderDropped,
    /// The receiver was closed before a value arrived.
    ReceiverClosed,
}

/// Taking from a channel: a ready value is handed over once and leaves the
/// channel empty; a closed channel is reported closed and stays closed.
pub open spec fn take_phase<V>(p: Phase<V>) -> (Phase<V>, TakeResult<V>) {
    match p {
        Phase::Ready(v) => (Phase::Empty, TakeResult::Ready(v)),
        Phase::Empty => (Phase::Empty, TakeResult::Pending),
        Phase::SenderDropped => (p, TakeResult::Closed),
        Phase::ReceiverClosed => (p, TakeResult::Closed),
    }
}

/// Closing the receiver: a value that is already ready stays to be taken;
/// otherwise the channel is closed.
pub open spec fn close_phase<V>(p: Phase<V>) -> Phase<V> {
    match p {
        Phase::Ready(_) => p,
        _ => Phase::ReceiverClosed,
    }
}

/// Whether a send fails: the receiver was closed or dropped.
pub open spec fn receiver_gone<V>(p: Phase<V>, receiver_dropped: bool) -> bool {
    p is ReceiverClosed || receiver_dropped
}

/// Where a one-shot channel keeps its value. The channel changes a storage one
/// operation at a time; `wf` is the invariant each operation keeps and `phase`
/// says where the channel stands.
pub trait OneshotStorage: Send + Sized {
    /// The type of the value sent.
    type Value: Send;

    spec fn wf(&self) -> bool;

    spec fn phase(&self) -> Phase<Self::Value>;

    /// An empty storage.
    fn new() -> (s: Self)
        ensures
            s.wf(),
            s.phase() == Phase::<Self::Value>::Empty,
    ;

    /// Stores the value (called by the sender).
    fn store(&mut self, value: Self::Value)
        requires
            old(self).wf(),
        ensures
            final(self).wf(),
            final(self).phase() == Phase::Ready(value),
    ;

    /// Takes the value, if one is ready (called by the receiver).
    fn try_take(&mut self) -> (r: TakeResult<Self::Value>)
        requires
            old(self).wf(),
        ensures
            final(self).wf(),
            (final(self).phase(), r) == take_phase(old(self).phase()),
    ;

    /// Whether the sender was dropped without sending.
    fn is_sender_dropped(&self) -> (b: bool)
        requires
            self.wf(),
        ensures
            b == self.phase() is SenderDropped,
    ;

    /// Records that the sender was dropped.
    fn mark_sender_dropped(&mut self)
        requires
            old(self).wf(),
        ensures
            final(self).wf(),
            final(self).phase() == Phase::<Self::Value>::SenderDropped,
    ;

    /// Whether the receiver was closed.
    fn is_receiver_closed(&self) -> (b: bool)
        requires
            self.wf(),
        ensures
            b == self.phase() is ReceiverClosed,
    ;

    /// Records that the receiver was closed.
    fn mark_receiver_closed(&mut self)
        requires
            old(self).wf(),
        ensures
            final(self).wf(),
            final(self).phase() == close_phase(old(self).phase()),
    ;
}

/// The shared state of a one-shot channel: the storage, the receiver's waker,
/// and whether the receiver was dropped. The sender and the receiver act on
/// it one operation at a time.
pub struct Inner<S: OneshotStorage> {
    waker: AtomicWaker,
    storage: S,
    receiver_dropped: bool,
}

impl<S: OneshotStorage> Inner<S> {
    /// The invariant every operation keeps: that of the storage.
    pub closed spec fn wf(&self) -> bool {
        self.storage.wf()
    }

    /// Where the channel stands.
    pub closed spec fn phase(&self) -> Phase<S::Value> {
        self.storage.phase()
    }

    /// Whether the receiver was dropped.
    pub closed spec fn receiver_dropped(&self) -> bool {
        self.receiver_dropped
    }

    /// The receiver's waker, if one is stored.
    pub closed spec fn waiter(&self) -> Option<Waker> {
        self.waker.stored()
    }

    /// The wake-ups owed to the receiver, oldest first: its wakers that were
    /// woken and are still to be handed out with `take_wakeups`.
    pub closed spec fn wakeups(&self) -> Seq<Waker> {
        self.waker.due()
    }

    /// Whether the receiver's waker is stored.
    pub open spec fn has_waker(&self) -> bool {
        self.waiter() is Some
    }

    /// A new channel state with an empty storage and no waker.
    pub fn new() -> (r: Self)
        ensures
            r.wf(),
            r.phase() == Phase::<S::Value>::Empty,
            !r.receiver_dropped(),
            !r.has_waker(),
            r.wakeups() == Seq::<Waker>::empty(),
    {
        Inner { waker: AtomicWaker::new(), storage: S::new(), receiver_dropped: false }
    }

    /// Stores `value` and wakes the receiver.
    pub fn send(&mut self, value: S::Value)
        requires
            old(self).wf(),
        ensures
            final(self).wf(),
            final(self).phase() == Phase::Ready(value),
            final(self).receiver_dropped() == old(self).receiver_dropped(),
            !final(self).has_waker(),
            final(self).wakeups() == old(self).wakeups() + wakeup_of(old(self).waiter()),
    {
        self.storage.store(value);
        self.waker.wake();
    }

    /// Takes the value if one is ready.
    pub fn try_recv(&mut self) -> (r: TakeResult<S::Value>)
        requires
            old(self).wf(),
        ensures
            final(self).wf(),
            (final(self).phase(), r) == take_phase(old(self).phase()),
            final(self).receiver_dropped() == old(self).receiver_dropped(),
            final(self).waiter() == old(self).waiter(),
            final(self).wakeups() == old(self).wakeups(),
    {
        self.storage.try_take()
    }

    /// Hands out the wake-ups owed to the receiver, oldest first, for the
    /// caller to wake once it has let go of the state.
    pub fn take_wakeups(&mut self) -> (r: Vec<Waker>)
        requires
            old(self).wf(),
        ensures
            final(self).wf(),
            r@ == old(self).wakeups(),
            final(self).wakeups() == Seq::<Waker>::empty(),
            final(self).phase() == old(self).phase(),
            final(self).receiver_dropped() == old(self).receiver_dropped(),
            final(self).waiter() == old(self).waiter(),
    {
        self.waker.take_wakeups()
    }

    /// Registers the receiver's waker.
    pub fn register_waker(&mut self, waker: &Waker)
        requires
            old(self).wf(),
        ensures
            final(self).wf(),
            final(self).phase() == old(self).phase(),
            final(self).receiver_dropped() == old(self).receiver_dropped(),
            final(self).waiter() matches Some(w) && vstd::pervasive::strictly_cloned(*waker, w),
            final(self).wakeups() == old(self).wakeups(),
    {
        self.waker.register(waker);
    }

    /// Whether the sender was dropped without sending.
    pub fn is_sender_dropped(&self) -> (b: bool)
        requires
            self.wf(),
        ensures
            b == self.phase() is SenderDropped,
    {
        self.storage.is_sender_dropped()
    }
}

/// What a poll of the receiver yields for an outcome of taking: `None` while
/// the value is still to come.
pub open spec fn recv_result<V>(taken: TakeResult<V>) -> Option<Result<V, RecvError>> {
    match taken {
        TakeResult::Ready(v) => Some(Ok(v)),
        TakeResult::Closed => Some(Err(RecvError)),
        TakeResult::Pending => None,
    }
}

/// Computes [`recv_result`].
pub fn recv_outcome<V>(taken: TakeResult<V>) -> (r: Option<Result<V, RecvError>>)
    ensures
        r == recv_result(taken),
{
    match taken {
        TakeResult::Ready(v) => Some(Ok(v)),
        TakeResult::Closed => Some(Err(RecvError)),
        TakeResult::Pending => None,
    }
}

/// The sending side of a one-shot channel: its operations on the channel
/// state. Sending consumes it, so at most one value is sent.
pub struct Sender<S: OneshotStorage> {
    marker: PhantomData<S>,
}

/// The receiving side of a one-shot channel: its operations on the channel
/// state.
pub struct Receiver<S: OneshotStorage> {
    marker: PhantomData<S>,
}

impl<S: OneshotStorage> Sender<S> {
    /// A new channel: its two sides and its state, open and empty.
    pub fn new() -> (r: (Self, Receiver<S>, Inner<S>))
        ensures
            r.2.wf(),
            r.2.phase() == Phase::<S::Value>::Empty,
            !r.2.receiver_dropped(),
            !r.2.has_waker(),
            r.2.wakeups() == Seq::<Waker>::empty(),
    {
        (Sender { marker: PhantomData }, Receiver { marker: PhantomData }, Inner::new())
    }

    /// Sends `value`. When the receiver was closed or dropped, the value comes
    /// back and, as the sender is then gone, the channel records that;
    /// otherwise the value is stored for the receiver. Either way the receiver
    /// is woken.
    pub fn send(self, inner: &mut Inner<S>, value: S::Value) -> (r: Result<(), S::Value>)
        requires
            old(inner).wf(),
        ensures
            final(inner).wf(),
            r == (if receiver_gone(old(inner).phase(), old(inner).receiver_dropped()) {
                Err::<(), S::Value>(value)
            } else {
                Ok(())
            }),
            final(inner).phase() == (if r is Ok {
                Phase::Ready(value)
            } else {
                Phase::<S::Value>::SenderDropped
            }),
            final(inner).receiver_dropped() == old(inner).receiver_dropped(),
            !final(inner).has_waker(),
            final(inner).wakeups() == old(inner).wakeups() + wakeup_of(old(inner).waiter()),
    {
        if self.is_closed(inner) {
            self.disconnect(inner);
            return Err(value);
        }
        self.send_unchecked(inner, value);
        Ok(())
    }

    /// Sends `value` without checking whether the receiver is still there.
    pub fn send_unchecked(self, inner: &mut Inner<S>, value: S::Value)
        requires
            old(inner).wf(),
        ensures
            final(inner).wf(),
            final(inner).phase() == Phase::Ready(value),
            final(inner).receiver_dropped() == old(inner).receiver_dropped(),
            !final(inner).has_waker(),
            final(inner).wakeups() == old(inner).wakeups() + wakeup_of(old(inner).waiter()),
    {
        inner.send(value);
    }

    /// Whether the receiver was closed or dropped.
    pub fn is_closed(&self, inner: &Inner<S>) -> (b: bool)
        requires
            inner.wf(),
        ensures
            b == receiver_gone(inner.phase(), inner.receiver_dropped()),
    {
        inner.storage.is_receiver_closed() || inner.receiver_dropped
    }

    /// What dropping a sender that did not send does: records that the sender
    /// is gone and wakes the receiver.
    pub fn disconnect(self, inner: &mut Inner<S>)
        requires
            old(inner).wf(),
        ensures
            final(inner).wf(),
            final(inner).phase() == Phase::<S::Value>::SenderDropped,
            final(inner).receiver_dropped() == old(inner).receiver_dropped(),
            !final(inner).has_waker(),
            final(inner).wakeups() == old(inner).wakeups() + wakeup_of(old(inner).waiter()),
    {
        inner.storage.mark_sender_dropped();
        inner.waker.wake();
    }
}

impl<S: OneshotStorage> Receiver<S> {
    /// Closes the receiver: a later `send` fails. A value sent before can
    /// still be taken.
    pub fn close(&mut self, inner: &mut Inner<S>)
        requires
            old(inner).wf(),
        ensures
            final(inner).wf(),
            final(inner).phase() == close_phase(old(inner).phase()),
            final(inner).receiver_dropped() == old(inner).receiver_dropped(),
            final(inner).waiter() == old(inner).waiter(),
            final(inner).wakeups() == old(inner).wakeups(),
    {
        inner.storage.mark_receiver_closed();
    }

    /// One poll of the receive: the value, an error when the channel is
    /// closed without a value, or `None` with `waker` registered.
    pub fn poll_recv(&mut self, inner: &mut Inner<S>, waker: &Waker) -> (r: Option<
        Result<S::Value, RecvError>,
    >)
        requires
            old(inner).wf(),
        ensures
            final(inner).wf(),
            r == recv_result(take_phase(old(inner).phase()).1),
            final(inner).phase() == take_phase(old(inner).phase()).0,
            final(inner).receiver_dropped() == old(inner).receiver_dropped(),
            r is None ==> (final(inner).waiter() matches Some(w) && vstd::pervasive::strictly_cloned(*waker, w)),
            r is Some ==> final(inner).waiter() == old(inner).waiter(),
            final(inner).wakeups() == old(inner).wakeups(),
    {
        let taken = inner.try_recv();
        if let TakeResult::Pending = taken {
            inner.register_waker(waker);
        }
        recv_outcome(taken)
    }

    /// What dropping the receiver does: a later `send` fails.
    pub fn disconnect(self, inner: &mut Inner<S>)
        requires
            old(inner).wf(),
        ensures
            final(inner).wf(),
            final(inner).phase() == old(inner).phase(),
            final(inner).receiver_dropped(),
            final(inner).waiter() == old(inner).waiter(),
            final(inner).wakeups() == old(inner).wakeups(),
    {
        inner.receiver_dropped = true;
    }
}

/// A new one-shot channel over the storage `S`: its two sides and its state,
/// open and empty.
pub fn channel<S: OneshotStorage>() -> (r: (Sender<S>, Receiver<S>, Inner<S>))
    ensures
        r.2.wf(),
        r.2.phase() == Phase::<S::Value>::Empty,
        !r.2.receiver_dropped(),
        !r.2.has_waker(),
        r.2.wakeups() == Seq::<Waker>::empty(),
{
    Sender::new()
}

/// A value stored is taken exactly once: the first take hands it over, the
/// next finds the channel empty.
pub proof fn lemma_value_taken_once<V>(v: V)
    ensures
        take_phase(Phase::Ready(v)) == (Phase::<V>::Empty, TakeResult::Ready(v)),
        take_phase(take_phase(Phase::Ready(v)).0) == (Phase::<V>::Empty, TakeResult::<V>::Pending),
{
}

/// A value sent before the receiver closes can still be taken.
pub proof fn lemma_close_keeps_sent_value<V>(v: V)
    ensures
        take_phase(close_phase(Phase::Ready(v))).1 == TakeResult::Ready(v),
{
}

/// A closed channel stays closed: every take reports it, and leaves it as it
/// was.
pub proof fn lemma_closed_stays_closed<V>(p: Phase<V>)
    requires
        p is SenderDropped || p is ReceiverClosed,
    ensures
        take_phase(p) == (p, TakeResult::<V>::Closed),
        recv_result(take_phase(p).1) == Some(Err::<V, RecvError>(RecvError)),
{
}

/// After the receiver closes without a value, a send fails; after it is
/// dropped, a send fails too.
pub proof fn lemma_send_after_close_fails<V>(p: Phase<V>, receiver_dropped: bool)
    requires
        !(p is Ready),
    ensures
        receiver_gone(close_phase(p), receiver_dropped),
        receiver_gone(p, true),
{
}

/// Taking from a channel hands over a value exactly when one is ready, and
/// then leaves the channel empty; it reports `Closed` exactly when the sender
/// was dropped or the receiver closed, and then leaves the channel as it was;
/// otherwise nothing is there yet. A poll of the receiver yields the value or
/// the error in the first two cases and keeps waiting only in the last.
pub proof fn lemma_take_outcomes<V>(p: Phase<V>)
    ensures
        take_phase(p).1 is Ready <==> p is Ready,
        p matches Phase::Ready(v) ==> take_phase(p) == (Phase::<V>::Empty, TakeResult::Ready(v)),
        take_phase(p).1 is Closed <==> (p is SenderDropped || p is ReceiverClosed),
        take_phase(p).1 is Closed ==> take_phase(p).0 == p,
        take_phase(p).1 is Pending <==> p is Empty,
        recv_result(take_phase(p).1) is None <==> p is Empty,
        p matches Phase::Ready(v) ==> recv_result(take_phase(p).1) == Some(Ok::<V, RecvError>(v)),
        (p is SenderDropped || p is ReceiverClosed) ==> recv_result(take_phase(p).1) == Some(
            Err::<V, RecvError>(RecvError),
        ),
{
}

/// Closing the receiver keeps a value that is ready and otherwise makes
/// every later send fail; a send fails exactly after such a close or once the
/// receiver is dropped, and never on a fresh channel.
pub proof fn lemma_close_outcomes<V>(p: Phase<V>, receiver_dropped: bool)
    ensures
        p is Ready ==> close_phase(p) == p,
        !(p is Ready) ==> close_phase(p) is ReceiverClosed,
        !receiver_gone(Phase::<V>::Empty, false),
        receiver_gone(p, true),
        !receiver_dropped && !(p is ReceiverClosed) ==> !receiver_gone(p, receiver_dropped),
{
}

} // verus!
