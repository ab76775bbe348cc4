//! Bounded single-producer single-consumer channel.
//!
//! Messages come out in the order they were sent, and the channel holds at
//! most the capacity it was made with. Disconnecting either end, which is
//! what dropping it does, closes the channel; messages already sent can still
//! be received after the sender is gone.
use crate::notify::{cancel_step, notify_step, notify_wakeup, NotifyModel, SingleWaiterNotify, WAITING};
use std::collections::VecDeque;
use std::marker::PhantomData;
use std::task::Waker;
use vstd::prelude::*;

verus! {

/// Error of `send`: the channel is closed; the message is handed back.
#[derive(Debug, Clone, Copy, PartialEq, Eq)]
pub enum SendError<T> {
    Closed(T),
}

/// Why `try_recv` returned no message.
#[derive(Debug, Clone, Copy, PartialEq, Eq)]
pub enum TryRecvError {
    /// No message is buffered.
    Empty,
    /// No message is buffered and the channel is closed.
    Closed,
}

/// Error of `try_send`; the message is handed back.
#[derive(Debug, Clone, Copy, PartialEq, Eq)]
pub enum TrySendError<T> {
    /// The buffer is full.
    Full(T),
    /// The channel is closed.
    Closed(T),
}

/// The buffered messages, the capacity and the closed flag of a channel.
pub struct Ring<T> {
    items: VecDeque<T>,
    capacity: usize,
    closed: bool,
}

/// `try_send` on a channel holding `items`: refused when closed or full,
/// appended otherwise.
pub open spec fn send_step<T>(items: Seq<T>, capacity: nat, closed: bool, value: T) -> (
    Seq<T>,
    Result<(), TrySendError<T>>,
) {
    if closed {
        (items, Err(TrySendError::Closed(value)))
    } else if items.len() >= capacity {
        (items, Err(TrySendError::Full(value)))
    } else {
        (items.push(value), Ok(()))
    }
}

/// `try_recv` on a channel holding `items`: the oldest message, or why there
/// is none.
pub open spec fn recv_step<T>(items: Seq<T>, closed: bool) -> (Seq<T>, Result<T, TryRecvError>) {
    if items.len() > 0 {
        (items.drop_first(), Ok(items[0]))
    } else if closed {
        (items, Err(TryRecvError::Closed))
    } else {
        (items, Err(TryRecvError::Empty))
    }
}

/// How many of `offered` messages fit in a channel holding `len` of `capacity`.
pub open spec fn batch_size(len: nat, capacity: nat, offered: nat) -> nat {
    if capacity <= len {
        0
    } else if capacity - len < offered {
        (capacity - len) as nat
    } else {
        offered
    }
}

impl<T> Ring<T> {
    /// The buffered messages, oldest first.
    pub closed spec fn items(&self) -> Seq<T> {
        self.items@
    }

    /// The capacity.
    pub closed spec fn cap(&self) -> nat {
        self.capacity as nat
    }

    /// Whether the channel is closed.
    pub closed spec fn is_shut(&self) -> bool {
        self.closed
    }

    /// The invariant every operation keeps: a positive capacity, never exceeded.
    pub open spec fn wf(&self) -> bool {
        &&& 0 < self.cap()
        &&& self.items().len() <= self.cap()
    }

    /// An open, empty channel state for `capacity` messages.
    pub fn new(capacity: usize) -> (r: Self)
        requires
            0 < capacity,
        ensures
            r.wf(),
            r.items() == Seq::<T>::empty(),
            r.cap() == capacity,
            !r.is_shut(),
    {
        Ring { items: VecDeque::new(), capacity, closed: false }
    }

    /// Appends `value` unless the channel is closed or full.
    pub fn try_send(&mut self, value: T) -> (r: Result<(), TrySendError<T>>)
        requires
            old(self).wf(),
        ensures
            final(self).wf(),
            final(self).cap() == old(self).cap(),
            final(self).is_shut() == old(self).is_shut(),
            (final(self).items(), r) == send_step(
                old(self).items(),
                old(self).cap(),
                old(self).is_shut(),
                value,
            ),
    {
        if self.closed {
            return Err(TrySendError::Closed(value));
        }
        if self.items.len() >= self.capacity {
            return Err(TrySendError::Full(value));
        }
        self.items.push_back(value);
        Ok(())
    }

    /// Removes and returns the oldest message.
    pub fn try_recv(&mut self) -> (r: Result<T, TryRecvError>)
        requires
            old(self).wf(),
        ensures
            final(self).wf(),
            final(self).cap() == old(self).cap(),
            final(self).is_shut() == old(self).is_shut(),
            (final(self).items(), r) == recv_step(old(self).items(), old(self).is_shut()),
    {
        match self.items.pop_front() {
            Some(v) => Ok(v),
            None => {
                if self.closed {
                    Err(TryRecvError::Closed)
                } else {
                    Err(TryRecvError::Empty)
                }
            },
        }
    }

    /// The number of buffered messages.
    pub fn len(&self) -> (n: usize)
        ensures
            n == self.items().len(),
    {
        self.items.len()
    }

    /// The capacity.
    pub fn capacity(&self) -> (n: usize)
        ensures
            n == self.cap(),
    {
        self.capacity
    }

    /// Whether no message is buffered.
    pub fn is_empty(&self) -> (b: bool)
        ensures
            b == (self.items().len() == 0),
    {
        self.items.len() == 0
    }

    /// The number of free slots.
    pub fn free_slots(&self) -> (n: usize)
        requires
            self.wf(),
        ensures
            n == self.cap() - self.items().len(),
    {
        self.capacity - self.items.len()
    }

    /// Whether the buffer is full.
    pub fn is_full(&self) -> (b: bool)
        ensures
            b == (self.items().len() >= self.cap()),
    {
        self.items.len() >= self.capacity
    }

    /// Whether the channel is closed.
    pub fn is_closed(&self) -> (b: bool)
        ensures
            b == self.is_shut(),
    {
        self.closed
    }

    /// Closes the channel; buffered messages stay.
    pub fn close(&mut self)
        requires
            old(self).wf(),
        ensures
            final(self).wf(),
            final(self).items() == old(self).items(),
            final(self).cap() == old(self).cap(),
            final(self).is_shut(),
    {
        self.closed = true;
    }

    /// Drops every buffered message.
    pub fn clear(&mut self)
        requires
            old(self).wf(),
        ensures
            final(self).wf(),
            final(self).items() == Seq::<T>::empty(),
            final(self).cap() == old(self).cap(),
            final(self).is_shut() == old(self).is_shut(),
    {
        self.items.clear();
    }
}

impl<T> Ring<T> {
    /// The oldest message, which stays buffered.
    pub fn peek(&self) -> (r: Option<&T>)
        ensures
            r is Some <==> self.items().len() > 0,
            r is Some ==> *r->0 == self.items()[0],
    {
        if self.items.len() == 0 {
            None
        } else {
            Some(&self.items[0])
        }
    }
}

impl<T: Copy> Ring<T> {
    /// Appends as many of `values[start..]` as fit, unless the channel is
    /// closed; returns how many were appended.
    pub fn try_send_slice(&mut self, values: &[T], start: usize) -> (n: usize)
        requires
            old(self).wf(),
            start <= values@.len(),
        ensures
            final(self).wf(),
            final(self).cap() == old(self).cap(),
            final(self).is_shut() == old(self).is_shut(),
            n == (if old(self).is_shut() {
                0
            } else {
                batch_size(old(self).items().len(), old(self).cap(), (values@.len() - start) as nat)
            }),
            final(self).items() == old(self).items() + values@.subrange(
                start as int,
                start + n,
            ),
    {
        if self.closed {
            assert(values@.subrange(start as int, start as int) =~= Seq::<T>::empty());
            assert(self.items@ + Seq::<T>::empty() =~= self.items@);
            return 0;
        }
        let free = self.capacity - self.items.len();
        let vlen = values.len();
        let offered = vlen - start;
        let n = if free < offered {
            free
        } else {
            offered
        };
        let mut i: usize = 0;
        while i < n
            invariant
                0 <= i <= n,
                n <= free,
                free == self.capacity - old(self).items@.len(),
                start + n <= vlen,
                vlen == values@.len(),
                self.capacity == old(self).capacity,
                self.closed == old(self).closed,
                self.items@ == old(self).items@ + values@.subrange(start as int, start + i),
            decreases n - i,
        {
            let v = values[start + i];
            self.items.push_back(v);
            assert(values@.subrange(start as int, start + i + 1) =~= values@.subrange(
                start as int,
                start + i,
            ).push(v));
            i = i + 1;
        }
        n
    }

    /// Moves as many of the oldest messages as fit into `dest[start..]`;
    /// returns how many were moved.
    pub fn try_recv_slice(&mut self, dest: &mut [T], start: usize) -> (n: usize)
        requires
            old(self).wf(),
            start <= old(dest)@.len(),
        ensures
            final(self).wf(),
            final(self).cap() == old(self).cap(),
            final(self).is_shut() == old(self).is_shut(),
            n == (if old(self).items().len() < old(dest)@.len() - start {
                old(self).items().len()
            } else {
                (old(dest)@.len() - start) as nat
            }),
            final(self).items() == old(self).items().subrange(n as int, old(self).items().len() as int),
            final(dest)@.len() == old(dest)@.len(),
            forall|j: int|
                0 <= j < old(dest)@.len() ==> #[trigger] final(dest)@[j] == (if start <= j < start + n {
                    old(self).items()[j - start]
                } else {
                    old(dest)@[j]
                }),
    {
        let len = self.items.len();
        let dlen = dest.len();
        let room = dlen - start;
        let n = if len < room {
            len
        } else {
            room
        };
        let mut i: usize = 0;
        while i < n
            invariant
                0 <= i <= n,
                n <= old(self).items@.len(),
                start + n <= dlen,
                dlen == dest@.len(),
                dest@.len() == old(dest)@.len(),
                self.capacity == old(self).capacity,
                self.closed == old(self).closed,
                self.items@ == old(self).items@.subrange(i as int, old(self).items@.len() as int),
                forall|j: int|
                    0 <= j < dest@.len() ==> #[trigger] dest@[j] == (if start <= j < start + i {
                        old(self).items@[j - start]
                    } else {
                        old(dest)@[j]
                    }),
            decreases n - i,
        {
            match self.items.pop_front() {
                Some(v) => {
                    dest[start + i] = v;
                },
                None => {},
            }
            i = i + 1;
        }
        n
    }
}

/// The messages of `items` after sending each of `values` in turn.
pub open spec fn send_all<T>(items: Seq<T>, capacity: nat, closed: bool, values: Seq<T>) -> Seq<T>
    decreases values.len(),
{
    if values.len() == 0 {
        items
    } else {
        send_all(
            send_step(items, capacity, closed, values[0]).0,
            capacity,
            closed,
            values.drop_first(),
        )
    }
}

/// The messages `n` receives in turn take from `items`, stopping at the first
/// receive that finds none.
pub open spec fn recv_all<T>(items: Seq<T>, closed: bool, n: nat) -> Seq<T>
    decreases n,
{
    if n == 0 {
        Seq::empty()
    } else {
        match recv_step(items, closed).1 {
            Ok(v) => seq![v] + recv_all(recv_step(items, closed).0, closed, (n - 1) as nat),
            Err(_) => Seq::empty(),
        }
    }
}

/// Sending to an open channel with room for every value appends them all, in
/// order.
pub proof fn lemma_send_all_appends<T>(items: Seq<T>, capacity: nat, values: Seq<T>)
    requires
        items.len() + values.len() <= capacity,
    ensures
        send_all(items, capacity, false, values) == items + values,
    decreases values.len(),
{
    if values.len() == 0 {
        assert(items + values =~= items);
    } else {
        lemma_send_all_appends(items.push(values[0]), capacity, values.drop_first());
        assert(items.push(values[0]) + values.drop_first() =~= items + values);
    }
}

/// Receiving `n` times from a channel holding at least `n` messages yields
/// its `n` oldest messages, oldest first.
pub proof fn lemma_recv_all_takes_oldest<T>(items: Seq<T>, closed: bool, n: nat)
    requires
        n <= items.len(),
    ensures
        recv_all(items, closed, n) == items.take(n as int),
    decreases n,
{
    if n == 0 {
        assert(items.take(0) =~= Seq::<T>::empty());
    } else {
        lemma_recv_all_takes_oldest(items.drop_first(), closed, (n - 1) as nat);
        assert(seq![items[0]] + items.drop_first().take(n - 1) =~= items.take(n as int));
    }
}

/// Messages come out in the order they went in: after sending `values` to an
/// open channel with room for them, receiving every buffered message yields
/// the messages that were buffered, then `values`.
pub proof fn lemma_fifo<T>(items: Seq<T>, capacity: nat, values: Seq<T>)
    requires
        items.len() + values.len() <= capacity,
    ensures
        recv_all(send_all(items, capacity, false, values), false, items.len() + values.len())
            == items + values,
{
    lemma_send_all_appends(items, capacity, values);
    lemma_recv_all_takes_oldest(items + values, false, items.len() + values.len());
    assert((items + values).take((items.len() + values.len()) as int) =~= items + values);
}

/// An empty channel accepts exactly `capacity` messages: one more is refused
/// as `Full` and handed back.
pub proof fn lemma_capacity_is_exact<T>(capacity: nat, values: Seq<T>, extra: T)
    requires
        values.len() == capacity,
    ensures
        send_all(Seq::<T>::empty(), capacity, false, values) == values,
        send_step(values, capacity, false, extra) == (values, Err::<(), TrySendError<T>>(
            TrySendError::Full(extra),
        )),
{
    lemma_send_all_appends(Seq::<T>::empty(), capacity, values);
    assert(Seq::<T>::empty() + values =~= values);
}

/// A closed channel refuses messages, handing them back, yet still gives out
/// what it buffered before reporting `Closed`.
pub proof fn lemma_closed_channel_drains<T>(items: Seq<T>, capacity: nat, value: T)
    ensures
        send_step(items, capacity, true, value) == (items, Err::<(), TrySendError<T>>(
            TrySendError::Closed(value),
        )),
        recv_all(items, true, items.len()) == items,
        recv_step(Seq::<T>::empty(), true).1 == Err::<T, TryRecvError>(TryRecvError::Closed),
{
    lemma_recv_all_takes_oldest(items, true, items.len());
    assert(items.take(items.len() as int) =~= items);
}

/// The shared state of a channel: the buffered messages, and one notifier for
/// each end to wait on (`recv_notify` for the receiver, `send_notify` for
/// the sender). The two ends act on it one operation at a time.
pub struct Inner<T> {
    ring: Ring<T>,
    recv_notify: SingleWaiterNotify,
    send_notify: SingleWaiterNotify,
}

/// The notifier after a wake-up of its waiter when `woke` holds.
pub open spec fn notified_if(m: NotifyModel, woke: bool) -> NotifyModel {
    if woke {
        notify_step(m).0
    } else {
        m
    }
}

/// The notifier after a wait that was registered (`waiting`) is withdrawn.
pub open spec fn withdrawn_if(m: NotifyModel, waiting: bool) -> NotifyModel {
    if waiting {
        cancel_step(m, true)
    } else {
        m
    }
}

/// The wake-ups a notification owes when `woke` holds: the stored waker `w`
/// of a notifier `m` that has a waiter registered.
pub open spec fn wakeup_if(m: NotifyModel, w: Option<Waker>, woke: bool) -> Seq<Waker> {
    if woke {
        notify_wakeup(m, w)
    } else {
        Seq::empty()
    }
}

/// A notifier with a waiter registered.
pub open spec fn waiting_model() -> NotifyModel {
    NotifyModel { state: WAITING, has_waker: true }
}

impl<T> Inner<T> {
    /// The invariant every operation keeps: a positive capacity, never
    /// exceeded, and valid notifier states.
    pub closed spec fn wf(&self) -> bool {
        &&& self.ring.wf()
        &&& self.recv_notify.wf()
        &&& self.send_notify.wf()
    }

    /// The buffered messages, oldest first.
    pub closed spec fn items(&self) -> Seq<T> {
        self.ring.items()
    }

    /// The capacity.
    pub closed spec fn cap(&self) -> nat {
        self.ring.cap()
    }

    /// Whether the channel is closed.
    pub closed spec fn is_shut(&self) -> bool {
        self.ring.is_shut()
    }

    /// The notifier the receiver waits on.
    pub closed spec fn recv_waiter(&self) -> NotifyModel {
        self.recv_notify.model()
    }

    /// The notifier the sender waits on.
    pub closed spec fn send_waiter(&self) -> NotifyModel {
        self.send_notify.model()
    }

    /// The wake-ups owed to the receiver, oldest first.
    pub closed spec fn recv_wakeups(&self) -> Seq<Waker> {
        self.recv_notify.wakeups()
    }

    /// The wake-ups owed to the sender, oldest first.
    pub closed spec fn send_wakeups(&self) -> Seq<Waker> {
        self.send_notify.wakeups()
    }

    /// The receiver's waker, if one is stored.
    pub closed spec fn recv_waker(&self) -> Option<Waker> {
        self.recv_notify.waiter()
    }

    /// The sender's waker, if one is stored.
    pub closed spec fn send_waker(&self) -> Option<Waker> {
        self.send_notify.waiter()
    }

    /// An open, empty channel state for `capacity` messages.
    pub fn new(capacity: usize) -> (r: Self)
        requires
            0 < capacity,
        ensures
            r.wf(),
            r.items() == Seq::<T>::empty(),
            r.cap() == capacity,
            !r.is_shut(),
            r.recv_waiter() == (NotifyModel { state: crate::notify::EMPTY, has_waker: false }),
            r.recv_wakeups() == Seq::<Waker>::empty(),
            r.send_wakeups() == Seq::<Waker>::empty(),
            r.send_waiter() == (NotifyModel { state: crate::notify::EMPTY, has_waker: false }),
    {
        Inner {
            ring: Ring::new(capacity),
            recv_notify: SingleWaiterNotify::new(),
            send_notify: SingleWaiterNotify::new(),
        }
    }

    /// A state that keeps its invariant holds no more messages than its
    /// positive capacity.
    pub proof fn lemma_bounds(&self)
        requires
            self.wf(),
        ensures
            0 < self.cap(),
            self.items().len() <= self.cap(),
    {
    }

    /// Hands out the wake-ups owed, the receiver's and then the sender's,
    /// for the caller to wake once it has let go of the state.
    pub fn take_wakeups(&mut self) -> (r: Vec<Waker>)
        requires
            old(self).wf(),
        ensures
            final(self).wf(),
            r@ == old(self).recv_wakeups() + old(self).send_wakeups(),
            final(self).recv_wakeups() == Seq::<Waker>::empty(),
            final(self).send_wakeups() == Seq::<Waker>::empty(),
            final(self).items() == old(self).items(),
            final(self).cap() == old(self).cap(),
            final(self).is_shut() == old(self).is_shut(),
            final(self).recv_waiter() == old(self).recv_waiter(),
            final(self).send_waiter() == old(self).send_waiter(),
            final(self).recv_waker() == old(self).recv_waker(),
            final(self).send_waker() == old(self).send_waker(),
    {
        let mut r = self.recv_notify.take_wakeups();
        let mut s = self.send_notify.take_wakeups();
        r.append(&mut s);
        r
    }
}

/// Creates a channel for messages of type `T` with room for `capacity`
/// messages: its two ends and its state. `N` is
/// the inline-storage hint of the channel type; the buffer here is always
/// allocated on the heap.
pub fn channel<T, const N: usize>(capacity: usize) -> (r: (Sender<T, N>, Receiver<T, N>, Inner<T>))
    requires
        0 < capacity,
    ensures
        r.2.wf(),
        r.2.recv_wakeups() == Seq::<Waker>::empty(),
        r.2.send_wakeups() == Seq::<Waker>::empty(),
        r.2.items() == Seq::<T>::empty(),
        r.2.cap() == capacity,
        !r.2.is_shut(),
{
    (Sender { marker: PhantomData }, Receiver { marker: PhantomData }, Inner::new(capacity))
}

/// Progress of a `send` that may have to wait for room.
pub struct SendOp<T> {
    value: Option<T>,
    waiting: bool,
}

impl<T> SendOp<T> {
    /// The message not yet sent.
    pub closed spec fn pending(&self) -> Option<T> {
        self.value
    }

    /// Whether the send waits for room, with a waker registered.
    pub closed spec fn is_waiting(&self) -> bool {
        self.waiting
    }

    /// A send of `value` that has not started.
    pub fn new(value: T) -> (op: Self)
        ensures
            op.pending() == Some(value),
            !op.is_waiting(),
    {
        SendOp { value: Some(value), waiting: false }
    }
}

/// Progress of a `recv` that may have to wait for a message.
pub struct RecvOp {
    waiting: bool,
}

impl RecvOp {
    /// Whether the receive waits for a message, with a waker registered.
    pub closed spec fn is_waiting(&self) -> bool {
        self.waiting
    }

    /// A receive that has not started.
    pub fn new() -> (op: Self)
        ensures
            !op.is_waiting(),
    {
        RecvOp { waiting: false }
    }
}

/// Progress of a batch send or receive: how many elements are done.
pub struct SliceOp {
    done: usize,
    waiting: bool,
}

impl SliceOp {
    /// How many elements are done.
    pub closed spec fn count(&self) -> nat {
        self.done as nat
    }

    /// Whether the batch waits for the other end, with a waker registered.
    pub closed spec fn is_waiting(&self) -> bool {
        self.waiting
    }

    /// A batch that has not started.
    pub fn new() -> (op: Self)
        ensures
            op.count() == 0,
            !op.is_waiting(),
    {
        SliceOp { done: 0, waiting: false }
    }
}

/// What a poll of `send` yields for the outcome of one `try_send`: `None`
/// while the channel is full.
pub open spec fn send_poll_result<T>(res: Result<(), TrySendError<T>>) -> Option<
    Result<(), SendError<T>>,
> {
    match res {
        Ok(()) => Some(Ok(())),
        Err(TrySendError::Closed(v)) => Some(Err(SendError::Closed(v))),
        Err(TrySendError::Full(_)) => None,
    }
}

/// What a poll of `recv` yields for the outcome of one `try_recv`: `None`
/// while the channel is empty and open, `Some(None)` once it is closed and
/// empty.
pub open spec fn recv_poll_result<T>(res: Result<T, TryRecvError>) -> Option<Option<T>> {
    match res {
        Ok(v) => Some(Some(v)),
        Err(TryRecvError::Closed) => Some(None),
        Err(TryRecvError::Empty) => None,
    }
}

/// How many messages a receive into `room` free places takes from `len`
/// buffered ones.
pub open spec fn take_count(len: nat, room: nat) -> nat {
    if len < room {
        len
    } else {
        room
    }
}

/// Sending end of a channel: its operations on the channel state.
pub struct Sender<T, const N: usize> {
    marker: PhantomData<T>,
}

impl<T, const N: usize> Sender<T, N> {
    /// Sends without waiting: `Full` when the buffer is full, `Closed` when
    /// the channel is closed; the message comes back with the error. A
    /// message sent wakes the receiver.
    pub fn try_send(&self, inner: &mut Inner<T>, value: T) -> (r: Result<(), TrySendError<T>>)
        requires
            old(inner).wf(),
        ensures
            final(inner).wf(),
            (final(inner).items(), r) == send_step(
                old(inner).items(),
                old(inner).cap(),
                old(inner).is_shut(),
                value,
            ),
            final(inner).cap() == old(inner).cap(),
            final(inner).is_shut() == old(inner).is_shut(),
            final(inner).recv_waiter() == notified_if(old(inner).recv_waiter(), r is Ok),
            final(inner).send_waiter() == old(inner).send_waiter(),
            final(inner).recv_wakeups() == old(inner).recv_wakeups() + wakeup_if(old(inner).recv_waiter(), old(inner).recv_waker(), r is Ok),
            final(inner).send_wakeups() == old(inner).send_wakeups(),
    {
        let r = inner.ring.try_send(value);
        if r.is_ok() {
            inner.recv_notify.notify_one();
        }
        r
    }

    /// One poll of a send that waits for room: the message is sent when there
    /// is room, handed back with `Closed` when the channel is closed, and
    /// otherwise the send waits with `waker` registered (`None`). A finished
    /// send is polled to `None` without effect.
    pub fn poll_send(&self, inner: &mut Inner<T>, op: &mut SendOp<T>, waker: &Waker) -> (r: Option<
        Result<(), SendError<T>>,
    >)
        requires
            old(inner).wf(),
        ensures
            final(inner).wf(),
            old(op).pending() is None ==> r is None && *final(inner) == *old(inner) && *final(op)
                == *old(op),
            old(op).pending() matches Some(v) ==> {
                let (items, res) = send_step(
                    old(inner).items(),
                    old(inner).cap(),
                    old(inner).is_shut(),
                    v,
                );
                &&& final(inner).items() == items
                &&& r == send_poll_result(res)
                &&& final(inner).recv_waiter() == notified_if(old(inner).recv_waiter(), res is Ok)
                &&& final(inner).recv_wakeups() == old(inner).recv_wakeups() + wakeup_if(
                    old(inner).recv_waiter(),
                    old(inner).recv_waker(),
                    res is Ok,
                )
                &&& r is None ==> final(op).pending() == old(op).pending() && final(op).is_waiting()
                    && final(inner).send_waiter() == waiting_model()
                &&& r is None ==> (final(inner).send_waker() matches Some(w) && vstd::pervasive::strictly_cloned(*waker, w))
                &&& r is Some ==> final(op).pending() is None && !final(op).is_waiting()
                    && final(inner).send_waiter() == withdrawn_if(
                    old(inner).send_waiter(),
                    old(op).is_waiting(),
                )
            },
            final(inner).cap() == old(inner).cap(),
            final(inner).is_shut() == old(inner).is_shut(),
            final(inner).send_wakeups() == old(inner).send_wakeups(),
    {
        match op.value.take() {
            None => None,
            Some(v) => {
                if op.waiting {
                    op.waiting = false;
                    inner.send_notify.cancel_waiter(true);
                }
                match self.try_send(inner, v) {
                    Ok(()) => Some(Ok(())),
                    Err(TrySendError::Closed(v)) => Some(Err(SendError::Closed(v))),
                    Err(TrySendError::Full(v)) => {
                        op.value = Some(v);
                        op.waiting = true;
                        inner.send_notify.wait_with(waker);
                        None
                    },
                }
            },
        }
    }

    /// Withdraws the wait of a send that is abandoned; its message stays in
    /// `op`.
    pub fn cancel_send(&self, inner: &mut Inner<T>, op: &mut SendOp<T>)
        requires
            old(inner).wf(),
        ensures
            final(inner).wf(),
            final(op).pending() == old(op).pending(),
            !final(op).is_waiting(),
            final(inner).send_waiter() == withdrawn_if(old(inner).send_waiter(), old(op).is_waiting()),
            final(inner).recv_waiter() == old(inner).recv_waiter(),
            final(inner).items() == old(inner).items(),
            final(inner).cap() == old(inner).cap(),
            final(inner).is_shut() == old(inner).is_shut(),
            final(inner).recv_wakeups() == old(inner).recv_wakeups(),
            final(inner).send_wakeups() == old(inner).send_wakeups(),
    {
        if op.waiting {
            op.waiting = false;
            inner.send_notify.cancel_waiter(true);
        }
    }

    /// Withdraws the wait of a batch send that is abandoned; its count stays.
    pub fn cancel_send_slice(&self, inner: &mut Inner<T>, op: &mut SliceOp)
        requires
            old(inner).wf(),
        ensures
            final(inner).wf(),
            final(op).count() == old(op).count(),
            !final(op).is_waiting(),
            final(inner).send_waiter() == withdrawn_if(old(inner).send_waiter(), old(op).is_waiting()),
            final(inner).recv_waiter() == old(inner).recv_waiter(),
            final(inner).items() == old(inner).items(),
            final(inner).cap() == old(inner).cap(),
            final(inner).is_shut() == old(inner).is_shut(),
            final(inner).recv_wakeups() == old(inner).recv_wakeups(),
            final(inner).send_wakeups() == old(inner).send_wakeups(),
    {
        if op.waiting {
            op.waiting = false;
            inner.send_notify.cancel_waiter(true);
        }
    }

    /// Whether the channel is closed.
    pub fn is_closed(&self, inner: &Inner<T>) -> (b: bool)
        requires
            inner.wf(),
        ensures
            b == inner.is_shut(),
    {
        inner.ring.is_closed()
    }

    /// The capacity of the channel.
    pub fn capacity(&self, inner: &Inner<T>) -> (n: usize)
        requires
            inner.wf(),
        ensures
            n == inner.cap(),
    {
        inner.ring.capacity()
    }

    /// The number of buffered messages.
    pub fn len(&self, inner: &Inner<T>) -> (n: usize)
        requires
            inner.wf(),
        ensures
            n == inner.items().len(),
            n <= inner.cap(),
    {
        inner.ring.len()
    }

    /// Whether no message is buffered.
    pub fn is_empty(&self, inner: &Inner<T>) -> (b: bool)
        requires
            inner.wf(),
        ensures
            b == (inner.items().len() == 0),
    {
        inner.ring.is_empty()
    }

    /// The number of free slots.
    pub fn free_slots(&self, inner: &Inner<T>) -> (n: usize)
        requires
            inner.wf(),
        ensures
            n + inner.items().len() == inner.cap(),
    {
        inner.ring.free_slots()
    }

    /// Whether the buffer is full.
    pub fn is_full(&self, inner: &Inner<T>) -> (b: bool)
        requires
            inner.wf(),
        ensures
            b == (inner.items().len() >= inner.cap()),
    {
        inner.ring.is_full()
    }

    /// What dropping the sender does: closes the channel and wakes the
    /// receiver. Messages already sent stay to be received.
    pub fn disconnect(&self, inner: &mut Inner<T>)
        requires
            old(inner).wf(),
        ensures
            final(inner).wf(),
            final(inner).is_shut(),
            final(inner).items() == old(inner).items(),
            final(inner).cap() == old(inner).cap(),
            final(inner).recv_waiter() == notify_step(old(inner).recv_waiter()).0,
            final(inner).send_waiter() == old(inner).send_waiter(),
            final(inner).recv_wakeups() == old(inner).recv_wakeups() + wakeup_if(old(inner).recv_waiter(), old(inner).recv_waker(), true),
            final(inner).send_wakeups() == old(inner).send_wakeups(),
    {
        inner.ring.close();
        inner.recv_notify.notify_one();
    }
}

impl<T: Copy, const N: usize> Sender<T, N> {
    /// Sends as many of `values` as fit without waiting, unless the channel
    /// is closed; returns how many were sent, and wakes the receiver when
    /// that is more than none.
    pub fn try_send_slice(&self, inner: &mut Inner<T>, values: &[T]) -> (n: usize)
        requires
            old(inner).wf(),
        ensures
            final(inner).wf(),
            n == (if old(inner).is_shut() {
                0
            } else {
                batch_size(old(inner).items().len(), old(inner).cap(), values@.len())
            }),
            final(inner).items() == old(inner).items() + values@.subrange(0, n as int),
            final(inner).cap() == old(inner).cap(),
            final(inner).is_shut() == old(inner).is_shut(),
            final(inner).recv_waiter() == notified_if(old(inner).recv_waiter(), n > 0),
            final(inner).send_waiter() == old(inner).send_waiter(),
            final(inner).recv_wakeups() == old(inner).recv_wakeups() + wakeup_if(old(inner).recv_waiter(), old(inner).recv_waker(), n > 0),
            final(inner).send_wakeups() == old(inner).send_wakeups(),
    {
        self.send_slice_from(inner, values, 0)
    }

    fn send_slice_from(&self, inner: &mut Inner<T>, values: &[T], start: usize) -> (n: usize)
        requires
            old(inner).wf(),
            start <= values@.len(),
        ensures
            final(inner).wf(),
            n == (if old(inner).is_shut() {
                0
            } else {
                batch_size(old(inner).items().len(), old(inner).cap(), (values@.len() - start) as nat)
            }),
            final(inner).items() == old(inner).items() + values@.subrange(start as int, start + n),
            final(inner).cap() == old(inner).cap(),
            final(inner).is_shut() == old(inner).is_shut(),
            final(inner).recv_waiter() == notified_if(old(inner).recv_waiter(), n > 0),
            final(inner).send_waiter() == old(inner).send_waiter(),
            final(inner).recv_wakeups() == old(inner).recv_wakeups() + wakeup_if(old(inner).recv_waiter(), old(inner).recv_waker(), n > 0),
            final(inner).send_wakeups() == old(inner).send_wakeups(),
    {
        let n = inner.ring.try_send_slice(values, start);
        if n > 0 {
            inner.recv_notify.notify_one();
        }
        n
    }

    /// One poll of a batch send that waits for room until every value is
    /// sent. `Closed` when the channel is closed; otherwise as many values as
    /// fit are sent, and the poll yields their total once all are sent, or
    /// waits with `waker` registered (`None`).
    pub fn poll_send_slice(
        &self,
        inner: &mut Inner<T>,
        op: &mut SliceOp,
        values: &[T],
        waker: &Waker,
    ) -> (r: Option<Result<usize, SendError<()>>>)
        requires
            old(inner).wf(),
            old(op).count() <= values@.len(),
        ensures
            final(inner).wf(),
            old(inner).is_shut() ==> r == Some(Err::<usize, SendError<()>>(SendError::Closed(())))
                && final(inner).items() == old(inner).items() && final(op).count() == old(
                op,
            ).count() && final(inner).recv_wakeups() == old(inner).recv_wakeups(),
            !old(inner).is_shut() ==> {
                let n = batch_size(
                    old(inner).items().len(),
                    old(inner).cap(),
                    (values@.len() - old(op).count()) as nat,
                );
                &&& final(op).count() == old(op).count() + n
                &&& final(inner).items() == old(inner).items() + values@.subrange(
                    old(op).count() as int,
                    (old(op).count() + n) as int,
                )
                &&& final(inner).recv_wakeups() == old(inner).recv_wakeups() + wakeup_if(
                    old(inner).recv_waiter(),
                    old(inner).recv_waker(),
                    n > 0,
                )
                &&& r == (if old(op).count() + n == values@.len() {
                    Some(Ok::<usize, SendError<()>>(values@.len() as usize))
                } else {
                    None
                })
            },
            r is None ==> final(op).is_waiting() && final(inner).send_waiter() == waiting_model(),
            r is None ==> (final(inner).send_waker() matches Some(w) && vstd::pervasive::strictly_cloned(*waker, w)),
            r is Some ==> !final(op).is_waiting(),
            final(inner).cap() == old(inner).cap(),
            final(inner).is_shut() == old(inner).is_shut(),
            final(inner).send_wakeups() == old(inner).send_wakeups(),
    {
        if op.waiting {
            op.waiting = false;
            inner.send_notify.cancel_waiter(true);
        }
        if inner.ring.is_closed() {
            return Some(Err(SendError::Closed(())));
        }
        let sent = self.send_slice_from(inner, values, op.done);
        let vlen = values.len();
        assert(op.done + sent <= vlen);
        op.done = op.done + sent;
        if op.done == values.len() {
            return Some(Ok(op.done));
        }
        op.waiting = true;
        inner.send_notify.wait_with(waker);
        None
    }
}

/// Receiving end of a channel: its operations on the channel state.
pub struct Receiver<T, const N: usize> {
    marker: PhantomData<T>,
}

impl<T, const N: usize> Receiver<T, N> {
    /// Receives without waiting: the oldest message, `Empty` when none is
    /// buffered, `Closed` when none is buffered and the channel is closed. A
    /// message taken wakes the sender.
    pub fn try_recv(&self, inner: &mut Inner<T>) -> (r: Result<T, TryRecvError>)
        requires
            old(inner).wf(),
        ensures
            final(inner).wf(),
            (final(inner).items(), r) == recv_step(old(inner).items(), old(inner).is_shut()),
            final(inner).cap() == old(inner).cap(),
            final(inner).is_shut() == old(inner).is_shut(),
            final(inner).send_waiter() == notified_if(old(inner).send_waiter(), r is Ok),
            final(inner).recv_waiter() == old(inner).recv_waiter(),
            final(inner).send_wakeups() == old(inner).send_wakeups() + wakeup_if(old(inner).send_waiter(), old(inner).send_waker(), r is Ok),
            final(inner).recv_wakeups() == old(inner).recv_wakeups(),
    {
        let r = inner.ring.try_recv();
        if r.is_ok() {
            inner.send_notify.notify_one();
        }
        r
    }

    /// One poll of a receive that waits for a message: the oldest message;
    /// no message once the channel is closed and empty; otherwise the receive
    /// waits with `waker` registered (`None`).
    pub fn poll_recv(&self, inner: &mut Inner<T>, op: &mut RecvOp, waker: &Waker) -> (r: Option<
        Option<T>,
    >)
        requires
            old(inner).wf(),
        ensures
            final(inner).wf(),
            ({
                let (items, res) = recv_step(old(inner).items(), old(inner).is_shut());
                &&& final(inner).items() == items
                &&& r == recv_poll_result(res)
                &&& final(inner).send_waiter() == notified_if(old(inner).send_waiter(), res is Ok)
                &&& final(inner).send_wakeups() == old(inner).send_wakeups() + wakeup_if(
                    old(inner).send_waiter(),
                    old(inner).send_waker(),
                    res is Ok,
                )
            }),
            r is None ==> final(op).is_waiting() && final(inner).recv_waiter() == waiting_model(),
            r is None ==> (final(inner).recv_waker() matches Some(w) && vstd::pervasive::strictly_cloned(*waker, w)),
            r is Some ==> !final(op).is_waiting() && final(inner).recv_waiter() == withdrawn_if(
                old(inner).recv_waiter(),
                old(op).is_waiting(),
            ),
            final(inner).cap() == old(inner).cap(),
            final(inner).is_shut() == old(inner).is_shut(),
            final(inner).recv_wakeups() == old(inner).recv_wakeups(),
    {
        if op.waiting {
            op.waiting = false;
            inner.recv_notify.cancel_waiter(true);
        }
        match self.try_recv(inner) {
            Ok(v) => Some(Some(v)),
            Err(TryRecvError::Closed) => Some(None),
            Err(TryRecvError::Empty) => {
                op.waiting = true;
                inner.recv_notify.wait_with(waker);
                None
            },
        }
    }

    /// Withdraws the wait of a receive that is abandoned.
    pub fn cancel_recv(&self, inner: &mut Inner<T>, op: &mut RecvOp)
        requires
            old(inner).wf(),
        ensures
            final(inner).wf(),
            !final(op).is_waiting(),
            final(inner).recv_waiter() == withdrawn_if(old(inner).recv_waiter(), old(op).is_waiting()),
            final(inner).send_waiter() == old(inner).send_waiter(),
            final(inner).items() == old(inner).items(),
            final(inner).cap() == old(inner).cap(),
            final(inner).is_shut() == old(inner).is_shut(),
            final(inner).recv_wakeups() == old(inner).recv_wakeups(),
            final(inner).send_wakeups() == old(inner).send_wakeups(),
    {
        if op.waiting {
            op.waiting = false;
            inner.recv_notify.cancel_waiter(true);
        }
    }

    /// Withdraws the wait of a batch receive that is abandoned; its count
    /// stays.
    pub fn cancel_recv_slice(&self, inner: &mut Inner<T>, op: &mut SliceOp)
        requires
            old(inner).wf(),
        ensures
            final(inner).wf(),
            final(op).count() == old(op).count(),
            !final(op).is_waiting(),
            final(inner).recv_waiter() == withdrawn_if(old(inner).recv_waiter(), old(op).is_waiting()),
            final(inner).send_waiter() == old(inner).send_waiter(),
            final(inner).items() == old(inner).items(),
            final(inner).cap() == old(inner).cap(),
            final(inner).is_shut() == old(inner).is_shut(),
            final(inner).recv_wakeups() == old(inner).recv_wakeups(),
            final(inner).send_wakeups() == old(inner).send_wakeups(),
    {
        if op.waiting {
            op.waiting = false;
            inner.recv_notify.cancel_waiter(true);
        }
    }

    /// Whether no message is buffered.
    pub fn is_empty(&self, inner: &Inner<T>) -> (b: bool)
        requires
            inner.wf(),
        ensures
            b == (inner.items().len() == 0),
    {
        inner.ring.is_empty()
    }

    /// The number of buffered messages.
    pub fn len(&self, inner: &Inner<T>) -> (n: usize)
        requires
            inner.wf(),
        ensures
            n == inner.items().len(),
            n <= inner.cap(),
    {
        inner.ring.len()
    }

    /// The capacity of the channel.
    pub fn capacity(&self, inner: &Inner<T>) -> (n: usize)
        requires
            inner.wf(),
        ensures
            n == inner.cap(),
    {
        inner.ring.capacity()
    }

    /// Drops every buffered message and wakes a sender waiting for room.
    pub fn clear(&mut self, inner: &mut Inner<T>)
        requires
            old(inner).wf(),
        ensures
            final(inner).wf(),
            final(inner).items() == Seq::<T>::empty(),
            final(inner).cap() == old(inner).cap(),
            final(inner).is_shut() == old(inner).is_shut(),
            final(inner).send_waiter() == notify_step(old(inner).send_waiter()).0,
            final(inner).recv_waiter() == old(inner).recv_waiter(),
            final(inner).send_wakeups() == old(inner).send_wakeups() + wakeup_if(old(inner).send_waiter(), old(inner).send_waker(), true),
            final(inner).recv_wakeups() == old(inner).recv_wakeups(),
    {
        inner.ring.clear();
        inner.send_notify.notify_one();
    }

    /// A handle that receives the buffered messages one by one.
    pub fn drain(&mut self) -> Drain<T, N> {
        Drain { marker: PhantomData }
    }

    /// What dropping the receiver does: closes the channel and wakes a
    /// sender waiting for room.
    pub fn disconnect(&self, inner: &mut Inner<T>)
        requires
            old(inner).wf(),
        ensures
            final(inner).wf(),
            final(inner).is_shut(),
            final(inner).items() == old(inner).items(),
            final(inner).cap() == old(inner).cap(),
            final(inner).send_waiter() == notify_step(old(inner).send_waiter()).0,
            final(inner).recv_waiter() == old(inner).recv_waiter(),
            final(inner).send_wakeups() == old(inner).send_wakeups() + wakeup_if(old(inner).send_waiter(), old(inner).send_waker(), true),
            final(inner).recv_wakeups() == old(inner).recv_wakeups(),
    {
        inner.ring.close();
        inner.send_notify.notify_one();
    }
}

impl<T, const N: usize> Receiver<T, N> {
    /// The oldest message, which stays buffered; `None` when no message is
    /// buffered.
    pub fn peek<'a>(&self, inner: &'a Inner<T>) -> (r: Option<&'a T>)
        ensures
            r is Some <==> inner.items().len() > 0,
            r is Some ==> *r->0 == inner.items()[0],
    {
        inner.ring.peek()
    }
}

impl<T: Copy, const N: usize> Receiver<T, N> {
    /// Receives as many messages as fit in `dest` without waiting, oldest
    /// first; returns how many, and wakes the sender when that is more than
    /// none.
    pub fn try_recv_slice(&mut self, inner: &mut Inner<T>, dest: &mut [T]) -> (n: usize)
        requires
            old(inner).wf(),
        ensures
            final(inner).wf(),
            n == take_count(old(inner).items().len(), old(dest)@.len()),
            final(inner).items() == old(inner).items().subrange(
                n as int,
                old(inner).items().len() as int,
            ),
            final(dest)@ == old(inner).items().subrange(0, n as int) + old(dest)@.subrange(
                n as int,
                old(dest)@.len() as int,
            ),
            final(inner).cap() == old(inner).cap(),
            final(inner).is_shut() == old(inner).is_shut(),
            final(inner).send_waiter() == notified_if(old(inner).send_waiter(), n > 0),
            final(inner).recv_waiter() == old(inner).recv_waiter(),
            final(inner).send_wakeups() == old(inner).send_wakeups() + wakeup_if(old(inner).send_waiter(), old(inner).send_waker(), n > 0),
            final(inner).recv_wakeups() == old(inner).recv_wakeups(),
    {
        let n = self.recv_slice_from(inner, dest, 0);
        assert(dest@ =~= old(inner).items().subrange(0, n as int) + old(dest)@.subrange(
            n as int,
            old(dest)@.len() as int,
        ));
        n
    }

    fn recv_slice_from(&self, inner: &mut Inner<T>, dest: &mut [T], start: usize) -> (n: usize)
        requires
            old(inner).wf(),
            start <= old(dest)@.len(),
        ensures
            final(inner).wf(),
            n == take_count(old(inner).items().len(), (old(dest)@.len() - start) as nat),
            final(inner).items() == old(inner).items().subrange(
                n as int,
                old(inner).items().len() as int,
            ),
            final(dest)@.len() == old(dest)@.len(),
            forall|j: int|
                0 <= j < old(dest)@.len() ==> #[trigger] final(dest)@[j] == (if start <= j < start
                    + n {
                    old(inner).items()[j - start]
                } else {
                    old(dest)@[j]
                }),
            final(inner).cap() == old(inner).cap(),
            final(inner).is_shut() == old(inner).is_shut(),
            final(inner).send_waiter() == notified_if(old(inner).send_waiter(), n > 0),
            final(inner).recv_waiter() == old(inner).recv_waiter(),
            final(inner).send_wakeups() == old(inner).send_wakeups() + wakeup_if(old(inner).send_waiter(), old(inner).send_waker(), n > 0),
            final(inner).recv_wakeups() == old(inner).recv_wakeups(),
    {
        let n = inner.ring.try_recv_slice(dest, start);
        if n > 0 {
            inner.send_notify.notify_one();
        }
        n
    }

    /// One poll of a batch receive that waits until `dest` is full or the
    /// channel is closed: as many messages as fit are received, and the poll
    /// yields the total once `dest` is full or the channel is closed, or
    /// waits with `waker` registered (`None`).
    pub fn poll_recv_slice(
        &self,
        inner: &mut Inner<T>,
        op: &mut SliceOp,
        dest: &mut [T],
        waker: &Waker,
    ) -> (r: Option<usize>)
        requires
            old(inner).wf(),
            old(op).count() <= old(dest)@.len(),
        ensures
            final(inner).wf(),
            ({
                let n = take_count(
                    old(inner).items().len(),
                    (old(dest)@.len() - old(op).count()) as nat,
                );
                &&& final(op).count() == old(op).count() + n
                &&& final(inner).items() == old(inner).items().subrange(
                    n as int,
                    old(inner).items().len() as int,
                )
                &&& final(dest)@.len() == old(dest)@.len()
                &&& forall|j: int|
                    0 <= j < old(dest)@.len() ==> #[trigger] final(dest)@[j] == (if old(op).count()
                        <= j < old(op).count() + n {
                        old(inner).items()[j - old(op).count()]
                    } else {
                        old(dest)@[j]
                    })
                &&& final(inner).send_wakeups() == old(inner).send_wakeups() + wakeup_if(
                    old(inner).send_waiter(),
                    old(inner).send_waker(),
                    n > 0,
                )
                &&& r == (if old(op).count() + n == old(dest)@.len() || old(inner).is_shut() {
                    Some((old(op).count() + n) as usize)
                } else {
                    None
                })
            }),
            r is None ==> final(op).is_waiting() && final(inner).recv_waiter() == waiting_model(),
            r is None ==> (final(inner).recv_waker() matches Some(w) && vstd::pervasive::strictly_cloned(*waker, w)),
            r is Some ==> !final(op).is_waiting(),
            final(inner).cap() == old(inner).cap(),
            final(inner).is_shut() == old(inner).is_shut(),
            final(inner).recv_wakeups() == old(inner).recv_wakeups(),
    {
        if op.waiting {
            op.waiting = false;
            inner.recv_notify.cancel_waiter(true);
        }
        let got = self.recv_slice_from(inner, dest, op.done);
        let dlen = dest.len();
        assert(op.done + got <= dlen);
        op.done = op.done + got;
        if op.done == dest.len() || inner.ring.is_closed() {
            return Some(op.done);
        }
        op.waiting = true;
        inner.recv_notify.wait_with(waker);
        None
    }
}

/// Receives the buffered messages one by one, oldest first.
pub struct Drain<T, const N: usize> {
    marker: PhantomData<T>,
}

impl<T, const N: usize> Drain<T, N> {
    /// The next buffered message; `None` when none is buffered. A message
    /// taken wakes the sender.
    pub fn next(&mut self, inner: &mut Inner<T>) -> (r: Option<T>)
        requires
            old(inner).wf(),
        ensures
            final(inner).wf(),
            ({
                let (items, res) = recv_step(old(inner).items(), old(inner).is_shut());
                &&& final(inner).items() == items
                &&& r == (match res {
                    Ok(v) => Some(v),
                    Err(_) => None,
                })
                &&& final(inner).send_waiter() == notified_if(old(inner).send_waiter(), res is Ok)
                &&& final(inner).send_wakeups() == old(inner).send_wakeups() + wakeup_if(
                    old(inner).send_waiter(),
                    old(inner).send_waker(),
                    res is Ok,
                )
            }),
            final(inner).cap() == old(inner).cap(),
            final(inner).is_shut() == old(inner).is_shut(),
            final(inner).recv_waiter() == old(inner).recv_waiter(),
            final(inner).recv_wakeups() == old(inner).recv_wakeups(),
    {
        let rx: Receiver<T, N> = Receiver { marker: PhantomData };
        match rx.try_recv(inner) {
            Ok(v) => Some(v),
            Err(_) => None,
        }
    }

    /// The number of messages left: both bounds are the buffered count.
    pub fn size_hint(&self, inner: &Inner<T>) -> (r: (usize, Option<usize>))
        requires
            inner.wf(),
        ensures
            r == (inner.items().len() as usize, Some(inner.items().len() as usize)),
    {
        let len = inner.ring.len();
        (len, Some(len))
    }
}

/// A sent message owes the waiting receiver exactly one wake-up, of the
/// waker it registered; a taken message owes the waiting sender the same.
pub proof fn lemma_waiting_end_is_woken(w: Waker)
    ensures
        wakeup_if(waiting_model(), Some(w), true) == seq![w],
        notified_if(waiting_model(), true).state == crate::notify::NOTIFIED,
{
}

/// A batch send into a channel holding `len` of `capacity` messages, offered
/// `offered` values, sends as many as possible: never more than offered nor
/// than the free slots, and either every offered value or until the channel
/// is full. In particular all of them when they all fit.
pub proof fn lemma_batch_send_fills_free_slots(len: nat, capacity: nat, offered: nat)
    requires
        len <= capacity,
    ensures
        batch_size(len, capacity, offered) <= offered,
        len + batch_size(len, capacity, offered) <= capacity,
        batch_size(len, capacity, offered) == offered || len + batch_size(len, capacity, offered)
            == capacity,
        len + offered <= capacity ==> batch_size(len, capacity, offered) == offered,
{
}

/// A batch receive of `len` buffered messages into `room` free places takes
/// as many as possible: never more than buffered nor than fit, and either
/// every buffered message or until the places are full.
pub proof fn lemma_batch_recv_takes_what_fits(len: nat, room: nat)
    ensures
        take_count(len, room) <= len,
        take_count(len, room) <= room,
        take_count(len, room) == len || take_count(len, room) == room,
{
}

/// A send is accepted exactly when the channel is open and has a free slot;
/// it then appends the value last. A refused send leaves the messages as they
/// were and hands the value back: `Closed` exactly when the channel is
/// closed, `Full` otherwise.
pub proof fn lemma_send_accepted_iff_room<T>(items: Seq<T>, capacity: nat, closed: bool, value: T)
    ensures
        send_step(items, capacity, closed, value).1 is Ok <==> (!closed && items.len()
            < capacity),
        send_step(items, capacity, closed, value).1 is Ok ==> send_step(
            items,
            capacity,
            closed,
            value,
        ).0 == items.push(value),
        send_step(items, capacity, closed, value).1 is Err ==> send_step(
            items,
            capacity,
            closed,
            value,
        ).0 == items,
        send_step(items, capacity, closed, value).1 == Err::<(), TrySendError<T>>(
            TrySendError::Closed(value),
        ) <==> closed,
        send_step(items, capacity, closed, value).1 == Err::<(), TrySendError<T>>(
            TrySendError::Full(value),
        ) <==> (!closed && items.len() >= capacity),
{
}

/// A receive takes the oldest message whenever there is one; with none, it
/// reports `Closed` exactly when the channel is closed and `Empty` otherwise,
/// and leaves the channel as it was.
pub proof fn lemma_recv_takes_oldest<T>(items: Seq<T>, closed: bool)
    ensures
        items.len() > 0 ==> recv_step(items, closed) == (items.drop_first(), Ok::<T, TryRecvError>(items[0])),
        items.len() == 0 ==> recv_step(items, closed).0 == items,
        items.len() == 0 ==> (recv_step(items, closed).1 == Err::<T, TryRecvError>(
            TryRecvError::Closed,
        ) <==> closed),
        items.len() == 0 ==> (recv_step(items, closed).1 == Err::<T, TryRecvError>(
            TryRecvError::Empty,
        ) <==> !closed),
{
}

/// A poll of `recv` yields a message exactly when `try_recv` takes one, yields
/// "no message" exactly when the channel is closed and empty, and waits
/// exactly when it is open and empty; a poll of `send` waits exactly when the
/// channel is full, and hands the message back when it is closed.
pub proof fn lemma_poll_results<T>(items: Seq<T>, capacity: nat, closed: bool, value: T)
    ensures
        recv_poll_result(recv_step(items, closed).1) is None <==> (items.len() == 0 && !closed),
        recv_poll_result(recv_step(items, closed).1) == Some(None::<T>) <==> (items.len() == 0
            && closed),
        items.len() > 0 ==> recv_poll_result(recv_step(items, closed).1) == Some(Some(items[0])),
        send_poll_result(send_step(items, capacity, closed, value).1) is None <==> (!closed
            && items.len() >= capacity),
        closed ==> send_poll_result(send_step(items, capacity, closed, value).1) == Some(
            Err::<(), SendError<T>>(SendError::Closed(value)),
        ),
        !closed && items.len() < capacity ==> send_poll_result(
            send_step(items, capacity, closed, value).1,
        ) == Some(Ok::<(), SendError<T>>(())),
{
}

} // verus!
