//! One-shot channel for a small completion state encoded in one byte.
//!
//! The state type says how it is encoded (`State`); one code stands for
//! "not completed yet" and one for "sender dropped".
use crate::atomic_waker::{wakeup_of, AtomicWaker};
use std::marker::PhantomData;
use std::task::Waker;
use vstd::prelude::*;

pub mod error;

use self::error::RecvError;

verus! {

/// A state that a one-shot channel can carry, encoded in one byte.
///
/// `code` is the encoding and `decode` its inverse on the codes that states
/// use; `pending_code` and `closed_code` are two distinct codes that no state
/// uses.
pub trait State: Sized + Send + Sync + 'static {
    spec fn code(&self) -> u8;

    spec fn decode(value: u8) -> Option<Self>;

    spec fn pending_code() -> u8;

    spec fn closed_code() -> u8;

    /// Decoding undoes encoding, and no state is encoded as the pending or
    /// the closed code.
    proof fn lemma_encoding(s: Self)
        ensures
            Self::decode(s.code()) == Some(s),
            s.code() != Self::pending_code(),
            s.code() != Self::closed_code(),
            Self::pending_code() != Self::closed_code(),
    ;

    /// The code of this state.
    fn to_u8(&self) -> (r: u8)
        ensures
            r == self.code(),
    ;

    /// The state that `value` encodes, if any.
    fn from_u8(value: u8) -> (r: Option<Self>)
        ensures
            r == Self::decode(value),
    ;

    /// The code meaning "not completed yet".
    fn pending_value() -> (r: u8)
        ensures
            r == Self::pending_code(),
    ;

    /// The code meaning "sender dropped without sending".
    fn closed_value() -> (r: u8)
        ensures
            r == Self::closed_code(),
    ;
}

/// The unit state: plain completion, without further information.
impl State for () {
    open spec fn code(&self) -> u8 {
        1
    }

    open spec fn decode(value: u8) -> Option<()> {
        if value == 1 {
            Some(())
        } else {
            None
        }
    }

    open spec fn pending_code() -> u8 {
        0
    }

    open spec fn closed_code() -> u8 {
        255
    }

    proof fn lemma_encoding(s: ()) {
    }

    fn to_u8(&self) -> (code: u8) {
        1
    }

    fn from_u8(value: u8) -> (s: Option<()>) {
        if value == 1 {
            Some(())
        } else {
            None
        }
    }

    fn pending_value() -> (code: u8) {
        0
    }

    fn closed_value() -> (code: u8) {
        255
    }
}

/// The state a receiver reports for the code `current`, when `current` is
/// not the closed code: the decoded state `decoded` unless `current` is the
/// pending code.
pub fn ready_state<T>(current: u8, pending: u8, decoded: Option<T>) -> (r: Option<T>)
    ensures
        r == (if current != pending {
            decoded
        } else {
            None
        }),
{
    if current != pending {
        decoded
    } else {
        None
    }
}

/// What `try_recv` returns when the channel holds `code`.
pub open spec fn try_recv_result<T: State>(code: u8) -> Result<Option<T>, RecvError> {
    if code == T::closed_code() {
        Err(RecvError)
    } else if code != T::pending_code() {
        Ok(T::decode(code))
    } else {
        Ok(None)
    }
}

/// What a poll of the receiver yields when the channel holds `code`: `None`
/// while no state is there.
pub open spec fn poll_result<T: State>(code: u8) -> Option<Result<T, RecvError>> {
    match try_recv_result::<T>(code) {
        Err(e) => Some(Err(e)),
        Ok(Some(s)) => Some(Ok(s)),
        Ok(None) => None,
    }
}

/// The shared state of a one-shot state channel: the state code, the
/// receiver's waker, and whether the receiver was dropped.
pub struct Inner<T: State> {
    code: u8,
    waker: AtomicWaker,
    receiver_dropped: bool,
    marker: PhantomData<T>,
}

impl<T: State> Inner<T> {
    /// The state code held.
    pub closed spec fn code(&self) -> u8 {
        self.code
    }

    /// Whether the receiver was dropped.
    pub closed spec fn receiver_dropped(&self) -> bool {
        self.receiver_dropped
    }

    /// The receiver's waker, if one is stored.
    pub closed spec fn waiter(&self) -> Option<Waker> {
        self.waker.stored()
    }

    /// The wake-ups owed to the receiver, oldest first: its wakers that were
    /// woken and are still to be handed out with `take_wakeups`.
    pub closed spec fn wakeups(&self) -> Seq<Waker> {
        self.waker.due()
    }

    /// Whether the receiver's waker is stored.
    pub open spec fn has_waker(&self) -> bool {
        self.waiter() is Some
    }

    /// A channel state holding the pending code.
    pub fn new() -> (r: Self)
        ensures
            r.code() == T::pending_code(),
            !r.receiver_dropped(),
            !r.has_waker(),
            r.wakeups() == Seq::<Waker>::empty(),
    {
        Inner {
            code: T::pending_value(),
            waker: AtomicWaker::new(),
            receiver_dropped: false,
            marker: PhantomData,
        }
    }

    /// Stores `code` and wakes the receiver.
    fn store_and_wake(&mut self, code: u8)
        ensures
            final(self).code() == code,
            final(self).receiver_dropped() == old(self).receiver_dropped(),
            !final(self).has_waker(),
            final(self).wakeups() == old(self).wakeups() + wakeup_of(old(self).waiter()),
    {
        self.code = code;
        self.waker.wake();
    }

    /// Sends the completion state and wakes the receiver.
    pub fn send(&mut self, state: T)
        ensures
            final(self).code() == state.code(),
            final(self).receiver_dropped() == old(self).receiver_dropped(),
            !final(self).has_waker(),
            final(self).wakeups() == old(self).wakeups() + wakeup_of(old(self).waiter()),
    {
        self.store_and_wake(state.to_u8());
    }

    /// Hands out the wake-ups owed to the receiver, oldest first, for the
    /// caller to wake once it has let go of the state.
    pub fn take_wakeups(&mut self) -> (r: Vec<Waker>)
        ensures
            r@ == old(self).wakeups(),
            final(self).wakeups() == Seq::<Waker>::empty(),
            final(self).code() == old(self).code(),
            final(self).receiver_dropped() == old(self).receiver_dropped(),
            final(self).waiter() == old(self).waiter(),
    {
        self.waker.take_wakeups()
    }

    /// Registers the receiver's waker.
    fn register_waker(&mut self, waker: &Waker)
        ensures
            final(self).code() == old(self).code(),
            final(self).receiver_dropped() == old(self).receiver_dropped(),
            final(self).waiter() matches Some(w) && vstd::pervasive::strictly_cloned(*waker, w),
            final(self).wakeups() == old(self).wakeups(),
    {
        self.waker.register(waker);
    }
}

/// Completion notifier of a one-shot task: its operations on the channel
/// state. Sending consumes it, so at most one state is sent.
pub struct Sender<T: State> {
    marker: PhantomData<T>,
}

/// Completion receiver of a one-shot task: its operations on the channel
/// state.
pub struct Receiver<T: State> {
    marker: PhantomData<T>,
}

impl<T: State> Sender<T> {
    /// A new channel: its two sides and its state, holding the pending code.
    pub fn new() -> (r: (Self, Receiver<T>, Inner<T>))
        ensures
            r.2.code() == T::pending_code(),
            !r.2.receiver_dropped(),
            !r.2.has_waker(),
            r.2.wakeups() == Seq::<Waker>::empty(),
    {
        (Sender { marker: PhantomData }, Receiver { marker: PhantomData }, Inner::new())
    }

    /// Sends the completion state. When the receiver was dropped, the state
    /// comes back and, as the notifier is then gone, the closed code is
    /// stored; otherwise the state's code is stored. Either way the receiver
    /// is woken.
    pub fn send(self, inner: &mut Inner<T>, state: T) -> (r: Result<(), T>)
        ensures
            r == (if old(inner).receiver_dropped() {
                Err::<(), T>(state)
            } else {
                Ok(())
            }),
            final(inner).code() == (if r is Ok {
                state.code()
            } else {
                T::closed_code()
            }),
            final(inner).receiver_dropped() == old(inner).receiver_dropped(),
            !final(inner).has_waker(),
            final(inner).wakeups() == old(inner).wakeups() + wakeup_of(old(inner).waiter()),
    {
        if inner.receiver_dropped {
            self.disconnect(inner);
            return Err(state);
        }
        self.send_unchecked(inner, state);
        Ok(())
    }

    /// Sends the completion state without checking for the receiver.
    pub fn send_unchecked(self, inner: &mut Inner<T>, state: T)
        ensures
            final(inner).code() == state.code(),
            final(inner).receiver_dropped() == old(inner).receiver_dropped(),
            !final(inner).has_waker(),
            final(inner).wakeups() == old(inner).wakeups() + wakeup_of(old(inner).waiter()),
    {
        inner.send(state);
    }

    /// What dropping a notifier that did not send does: stores the closed
    /// code and wakes the receiver.
    pub fn disconnect(self, inner: &mut Inner<T>)
        ensures
            final(inner).code() == T::closed_code(),
            final(inner).receiver_dropped() == old(inner).receiver_dropped(),
            !final(inner).has_waker(),
            final(inner).wakeups() == old(inner).wakeups() + wakeup_of(old(inner).waiter()),
    {
        inner.store_and_wake(T::closed_value());
    }
}

impl<T: State> Receiver<T> {
    /// Takes the state without waiting: `Ok(None)` while not completed,
    /// `Err` when the sender was dropped.
    pub fn try_recv(&mut self, inner: &Inner<T>) -> (r: Result<Option<T>, RecvError>)
        ensures
            r == try_recv_result::<T>(inner.code()),
    {
        let current = inner.code;
        if current == T::closed_value() {
            return Err(RecvError);
        }
        Ok(ready_state(current, T::pending_value(), T::from_u8(current)))
    }

    /// One poll of the receive: the state, an error when the sender was
    /// dropped, or `None` with `waker` registered.
    pub fn poll_recv(&mut self, inner: &mut Inner<T>, waker: &Waker) -> (r: Option<
        Result<T, RecvError>,
    >)
        ensures
            r == poll_result::<T>(old(inner).code()),
            final(inner).code() == old(inner).code(),
            final(inner).receiver_dropped() == old(inner).receiver_dropped(),
            r is None ==> (final(inner).waiter() matches Some(w) && vstd::pervasive::strictly_cloned(*waker, w)),
            r is Some ==> final(inner).waiter() == old(inner).waiter(),
            final(inner).wakeups() == old(inner).wakeups(),
    {
        match self.try_recv(inner) {
            Err(e) => Some(Err(e)),
            Ok(Some(s)) => Some(Ok(s)),
            Ok(None) => {
                inner.register_waker(waker);
                None
            },
        }
    }

    /// What dropping the receiver does: a later `send` fails.
    pub fn disconnect(self, inner: &mut Inner<T>)
        ensures
            final(inner).code() == old(inner).code(),
            final(inner).receiver_dropped(),
            final(inner).waiter() == old(inner).waiter(),
            final(inner).wakeups() == old(inner).wakeups(),
    {
        inner.receiver_dropped = true;
    }
}

/// A new one-shot state channel: its two sides and its state, holding the
/// pending code.
pub fn channel<T: State>() -> (r: (Sender<T>, Receiver<T>, Inner<T>))
    ensures
        r.2.code() == T::pending_code(),
        !r.2.receiver_dropped(),
        !r.2.has_waker(),
        r.2.wakeups() == Seq::<Waker>::empty(),
{
    Sender::new()
}

/// A fresh channel has no state to report; a state sent is then received as
/// it was sent, on every try; a notifier dropped without sending is reported
/// as an error.
pub proof fn lemma_state_round_trip<T: State>(s: T)
    ensures
        try_recv_result::<T>(T::pending_code()) == Ok::<Option<T>, RecvError>(None),
        try_recv_result::<T>(s.code()) == Ok::<Option<T>, RecvError>(Some(s)),
        poll_result::<T>(s.code()) == Some(Ok::<T, RecvError>(s)),
        try_recv_result::<T>(T::closed_code()) == Err::<Option<T>, RecvError>(RecvError),
        poll_result::<T>(T::closed_code()) == Some(Err::<T, RecvError>(RecvError)),
{
    T::lemma_encoding(s);
}

/// For every code the channel can hold: the receiver reports an error
/// exactly at the closed code; at the pending code it reports that nothing
/// was sent yet; at any other code it reports the state the code decodes to.
/// A poll waits exactly when no state and no error is to be reported.
pub proof fn lemma_receive_outcomes<T: State>(code: u8)
    ensures
        try_recv_result::<T>(code) is Err <==> code == T::closed_code(),
        code != T::closed_code() && code == T::pending_code() ==> try_recv_result::<T>(code) == Ok::<
            Option<T>,
            RecvError,
        >(None),
        code != T::closed_code() && code != T::pending_code() ==> try_recv_result::<T>(code) == Ok::<
            Option<T>,
            RecvError,
        >(T::decode(code)),
        poll_result::<T>(code) is None <==> (try_recv_result::<T>(code) == Ok::<
            Option<T>,
            RecvError,
        >(None)),
        code == T::closed_code() ==> poll_result::<T>(code) == Some(Err::<T, RecvError>(RecvError)),
{
}

} // verus!
