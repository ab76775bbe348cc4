//! Request-response channel between many requesters (side A, which can be
//! cloned) and one responder (side B).
//!
//! Requests wait in a queue and are served in the order they were submitted;
//! each carries the handle (`Reply`) on which its response travels back.
use super::common::ChannelError;
use crate::atomic_waker::{wakeup_of, AtomicWaker};
use std::collections::VecDeque;
use std::marker::PhantomData;
use std::task::Waker;
use vstd::prelude::*;

verus! {

/// The queue of a many-to-one channel as far as its behaviour goes.
pub struct QueueModel<Req> {
    /// The requests waiting, oldest first.
    pub requests: Seq<Req>,
    pub b_closed: bool,
    /// How many side-A handles are alive.
    pub senders: usize,
    /// Whether B has a waker registered.
    pub b_waiting: bool,
}

/// Submitting `req`: refused when B is closed, queued last otherwise, and B's
/// waker is taken (second component: whether B was waiting).
pub open spec fn submit_step<Req>(m: QueueModel<Req>, req: Req) -> (QueueModel<Req>, bool) {
    if m.b_closed {
        (m, false)
    } else {
        (QueueModel { requests: m.requests.push(req), b_waiting: false, ..m }, m.b_waiting)
    }
}

/// What one poll of B's receive yields.
pub enum QueuePoll<Req> {
    Received(Req),
    Closed,
    Wait,
}

/// One poll of B's receive: the oldest request; closed when no request waits
/// and no side A is left; waiting otherwise.
pub open spec fn serve_step<Req>(m: QueueModel<Req>, first_poll: bool) -> (
    QueueModel<Req>,
    QueuePoll<Req>,
) {
    if m.requests.len() > 0 {
        (QueueModel { requests: m.requests.drop_first(), ..m }, QueuePoll::Received(m.requests[0]))
    } else if m.senders == 0 {
        (m, QueuePoll::Closed)
    } else if first_poll {
        (QueueModel { b_waiting: true, ..m }, QueuePoll::Wait)
    } else {
        (m, QueuePoll::Wait)
    }
}

/// A side-A handle is dropped; the last one takes B's waker (second
/// component).
pub open spec fn leave_step<Req>(m: QueueModel<Req>) -> (QueueModel<Req>, bool) {
    if m.senders == 1 {
        (QueueModel { senders: 0, b_waiting: false, ..m }, m.b_waiting)
    } else {
        (QueueModel { senders: (if m.senders == 0 { usize::MAX } else { (m.senders - 1) as usize }), ..m }, false)
    }
}

/// The queued requests, each with the handle its response goes back on.
pub struct QueueCore<Req, Reply> {
    queue: VecDeque<(Req, Reply)>,
    b_closed: bool,
    senders: usize,
    b_waker: AtomicWaker,
}

impl<Req, Reply> QueueCore<Req, Reply> {
    /// The queue as a model: the queued entries (request and reply handle),
    /// oldest first.
    pub closed spec fn model(&self) -> QueueModel<(Req, Reply)> {
        QueueModel {
            requests: self.queue@,
            b_closed: self.b_closed,
            senders: self.senders,
            b_waiting: self.b_waker.is_registered(),
        }
    }

    /// B's waker, if one is stored.
    pub closed spec fn b_waiter(&self) -> Option<Waker> {
        self.b_waker.stored()
    }

    /// The wake-ups owed to B, oldest first.
    pub closed spec fn b_wakeups(&self) -> Seq<Waker> {
        self.b_waker.due()
    }

    /// Hands out the wake-ups owed to B, oldest first, for the caller to wake
    /// once it has let go of the state.
    pub fn take_wakeups(&mut self) -> (r: Vec<Waker>)
        ensures
            r@ == old(self).b_wakeups(),
            final(self).b_wakeups() == Seq::<Waker>::empty(),
            final(self).model() == old(self).model(),
            final(self).b_waiter() == old(self).b_waiter(),
    {
        self.b_waker.take_wakeups()
    }

    /// An empty queue with one side A.
    pub fn new() -> (c: Self)
        ensures
            c.b_wakeups() == Seq::<Waker>::empty(),
            c.model().requests == Seq::<(Req, Reply)>::empty(),
            !c.model().b_closed,
            c.model().senders == 1,
            !c.model().b_waiting,
    {
        QueueCore { queue: VecDeque::new(), b_closed: false, senders: 1, b_waker: AtomicWaker::new() }
    }

    /// Queues `req` with its reply handle, unless B is closed; wakes B.
    pub fn submit(&mut self, req: Req, reply: Reply) -> (r: Result<(), ChannelError>)
        ensures
            r == (if old(self).model().b_closed {
                Err::<(), ChannelError>(ChannelError::Closed)
            } else {
                Ok(())
            }),
            final(self).model() == submit_step(old(self).model(), (req, reply)).0,
            final(self).b_wakeups() == old(self).b_wakeups() + (if r is Ok {
                wakeup_of(old(self).b_waiter())
            } else {
                Seq::empty()
            }),
    {
        if self.b_closed {
            return Err(ChannelError::Closed);
        }
        self.queue.push_back((req, reply));
        self.b_waker.wake();
        Ok(())
    }

    /// Whether B is closed.
    pub fn is_b_closed(&self) -> (b: bool)
        ensures
            b == self.model().b_closed,
    {
        self.b_closed
    }

    /// One poll of B's receive: the oldest entry.
    pub fn poll_serve(&mut self, first_poll: bool, waker: &Waker) -> (r: QueuePoll<(Req, Reply)>)
        ensures
            (final(self).model(), r) == serve_step(old(self).model(), first_poll),
            final(self).b_wakeups() == old(self).b_wakeups(),
            r is Wait && first_poll ==> (final(self).b_waiter() matches Some(w) && vstd::pervasive::strictly_cloned(*waker, w)),
    {
        match self.queue.pop_front() {
            Some(e) => QueuePoll::Received(e),
            None => {
                if self.senders == 0 {
                    QueuePoll::Closed
                } else {
                    if first_poll {
                        self.b_waker.register(waker);
                    }
                    QueuePoll::Wait
                }
            },
        }
    }

    /// A side-A handle is cloned.
    pub fn join(&mut self)
        ensures
            final(self).model() == (QueueModel {
                senders: old(self).model().senders.wrapping_add(1),
                ..old(self).model()
            }),
            final(self).b_wakeups() == old(self).b_wakeups(),
    {
        self.senders = self.senders.wrapping_add(1);
    }

    /// A side-A handle is dropped; the last one wakes B.
    pub fn leave(&mut self)
        ensures
            final(self).model() == leave_step(old(self).model()).0,
            final(self).b_wakeups() == old(self).b_wakeups() + (if old(self).model().senders == 1 {
                wakeup_of(old(self).b_waiter())
            } else {
                Seq::empty()
            }),
    {
        let prev = self.senders;
        self.senders = self.senders.wrapping_sub(1);
        if prev == 1 {
            self.b_waker.wake();
        }
    }

    /// B goes away: marks it closed and hands back every queued entry, oldest
    /// first, whose reply handles the caller closes.
    pub fn close_b(&mut self) -> (drained: Vec<(Req, Reply)>)
        ensures
            final(self).model() == (QueueModel {
                requests: Seq::<(Req, Reply)>::empty(),
                b_closed: true,
                ..old(self).model()
            }),
            drained@ == old(self).model().requests,
            final(self).b_wakeups() == old(self).b_wakeups(),
    {
        self.b_closed = true;
        let mut drained: Vec<(Req, Reply)> = Vec::new();
        let ghost all = self.queue@;
        while self.queue.len() > 0
            invariant
                all == drained@ + self.queue@,
                self.b_closed,
                self.senders == old(self).senders,
                self.b_waker == old(self).b_waker,
            decreases self.queue@.len(),
        {
            match self.queue.pop_front() {
                Some(e) => {
                    proof {
                        assert(drained@.push(e) + self.queue@ =~= all);
                    }
                    drained.push(e);
                },
                None => {},
            }
        }
        proof {
            assert(drained@ =~= all);
            assert(self.queue@ =~= Seq::<(Req, Reply)>::empty());
        }
        drained
    }
}

/// The queue after submitting each of `entries` in turn.
pub open spec fn submit_all<E>(m: QueueModel<E>, entries: Seq<E>) -> QueueModel<E>
    decreases entries.len(),
{
    if entries.len() == 0 {
        m
    } else {
        submit_all(submit_step(m, entries[0]).0, entries.drop_first())
    }
}

/// What `n` polls of B's receive hand out in turn, stopping at the first
/// that hands out nothing.
pub open spec fn serve_n<E>(m: QueueModel<E>, n: nat) -> Seq<E>
    decreases n,
{
    if n == 0 {
        Seq::empty()
    } else {
        match serve_step(m, false).1 {
            QueuePoll::Received(e) => seq![e] + serve_n(serve_step(m, false).0, (n - 1) as nat),
            _ => Seq::empty(),
        }
    }
}

/// Submitting to an open queue appends each entry, whole, in order.
pub proof fn lemma_submit_all_appends<E>(m: QueueModel<E>, entries: Seq<E>)
    requires
        !m.b_closed,
    ensures
        submit_all(m, entries).requests == m.requests + entries,
        !submit_all(m, entries).b_closed,
    decreases entries.len(),
{
    if entries.len() > 0 {
        let m1 = submit_step(m, entries[0]).0;
        lemma_submit_all_appends(m1, entries.drop_first());
        assert(m1.requests + entries.drop_first() =~= m.requests + entries);
    } else {
        assert(m.requests + entries =~= m.requests);
    }
}

/// Serving as many times as entries wait hands out every entry, whole, in
/// the order they wait.
pub proof fn lemma_serve_n_takes_all<E>(m: QueueModel<E>)
    ensures
        serve_n(m, m.requests.len()) == m.requests,
    decreases m.requests.len(),
{
    if m.requests.len() > 0 {
        let m1 = serve_step(m, false).0;
        lemma_serve_n_takes_all(m1);
        assert(seq![m.requests[0]] + m1.requests =~= m.requests);
    } else {
        assert(m.requests =~= Seq::<E>::empty());
    }
}

/// Every request reaches B together with the reply handle it was submitted
/// with, in the order of submission, whatever requesters submitted them: B
/// serving an open queue hands out exactly the entries waiting and then those
/// submitted, request and reply handle unchanged.
pub proof fn lemma_replies_reach_their_requesters<E>(m: QueueModel<E>, entries: Seq<E>)
    requires
        !m.b_closed,
    ensures
        serve_n(submit_all(m, entries), (m.requests.len() + entries.len()) as nat) == m.requests
            + entries,
{
    lemma_submit_all_appends(m, entries);
    lemma_serve_n_takes_all(submit_all(m, entries));
}

/// Requests are served in the order they were submitted.
pub proof fn lemma_served_in_order<Req>(m: QueueModel<Req>, a: Req, b: Req, first_poll: bool)
    requires
        !m.b_closed,
        m.requests.len() == 0,
    ensures
        ({
            let s1 = submit_step(submit_step(m, a).0, b).0;
            let s2 = serve_step(s1, first_poll);
            let s3 = serve_step(s2.0, first_poll);
            &&& s2.1 == QueuePoll::Received(a)
            &&& s3.1 == QueuePoll::Received(b)
        }),
{
    let s1 = submit_step(submit_step(m, a).0, b).0;
    assert(s1.requests =~= seq![a, b]);
    assert(s1.requests.drop_first() =~= seq![b]);
}

/// Once B is closed, every submission is refused.
pub proof fn lemma_closed_responder_refuses<Req>(m: QueueModel<Req>, req: Req)
    requires
        m.b_closed,
    ensures
        submit_step(m, req).0 == m,
{
}

/// Once every side A is gone and the queue is empty, B's receive reports the
/// channel closed; requests still queued are served first.
pub proof fn lemma_requesters_gone<Req>(m: QueueModel<Req>, first_poll: bool)
    requires
        m.senders == 1,
    ensures
        leave_step(m).0.senders == 0,
        m.requests.len() == 0 ==> serve_step(leave_step(m).0, first_poll).1 is Closed,
        m.requests.len() > 0 ==> serve_step(leave_step(m).0, first_poll).1 == QueuePoll::Received(
            m.requests[0],
        ),
{
}

/// Side A: submits requests, acting on the queue. Cloning it makes another
/// requester (see `join`).
pub struct SideA<Req, Reply> {
    marker: PhantomData<(Req, Reply)>,
}

/// Side B: receives the requests, acting on the queue.
pub struct SideB<Req, Reply> {
    marker: PhantomData<(Req, Reply)>,
}

/// Creates a many-to-one channel: its first side A, its side B, and its
/// state, an empty queue with one requester.
pub fn channel<Req, Reply>() -> (r: (SideA<Req, Reply>, SideB<Req, Reply>, QueueCore<Req, Reply>))
    ensures
        r.2.model().requests == Seq::<(Req, Reply)>::empty(),
        !r.2.model().b_closed,
        r.2.model().senders == 1,
        !r.2.model().b_waiting,
        r.2.b_wakeups() == Seq::<Waker>::empty(),
{
    (SideA { marker: PhantomData }, SideB { marker: PhantomData }, QueueCore::new())
}

impl<Req, Reply> SideA<Req, Reply> {
    /// Another requester on the same channel: counts it in the queue.
    pub fn clone_on(&self, core: &mut QueueCore<Req, Reply>) -> (r: Self)
        ensures
            final(core).model() == (QueueModel {
                senders: old(core).model().senders.wrapping_add(1),
                ..old(core).model()
            }),
            final(core).b_wakeups() == old(core).b_wakeups(),
    {
        core.join();
        SideA { marker: PhantomData }
    }

    /// Submits `req` without waiting for its response, which comes back on
    /// `reply`; `Closed` when B is gone.
    pub fn try_request(&self, core: &mut QueueCore<Req, Reply>, req: Req, reply: Reply) -> (r: Result<
        (),
        ChannelError,
    >)
        ensures
            r == (if old(core).model().b_closed {
                Err::<(), ChannelError>(ChannelError::Closed)
            } else {
                Ok(())
            }),
            final(core).model() == submit_step(old(core).model(), (req, reply)).0,
            final(core).b_wakeups() == old(core).b_wakeups() + (if r is Ok {
                wakeup_of(old(core).b_waiter())
            } else {
                Seq::empty()
            }),
    {
        core.submit(req, reply)
    }

    /// What dropping a side A does: one requester less; the last one wakes B.
    pub fn disconnect(&self, core: &mut QueueCore<Req, Reply>)
        ensures
            final(core).model() == leave_step(old(core).model()).0,
            final(core).b_wakeups() == old(core).b_wakeups() + (if old(core).model().senders == 1 {
                wakeup_of(old(core).b_waiter())
            } else {
                Seq::empty()
            }),
    {
        core.leave();
    }
}

/// Progress of B's `recv_request`.
pub struct RecvRequestOp {
    registered: bool,
}

impl RecvRequestOp {
    /// Whether the receive has been polled.
    pub closed spec fn is_started(&self) -> bool {
        self.registered
    }

    /// A receive that has not started.
    pub fn new() -> (op: Self)
        ensures
            !op.is_started(),
    {
        RecvRequestOp { registered: false }
    }
}

/// A received request with the handle its reply goes back on.
pub struct RequestGuard<Req, Reply> {
    req: Option<Req>,
    response_tx: Option<Reply>,
}

impl<Req, Reply> SideB<Req, Reply> {
    /// One poll of `recv_request`: a guard holding the oldest request and its
    /// reply handle, `Closed` once every side A is gone and no request waits,
    /// or `None` while waiting.
    pub fn poll_recv_request(
        &self,
        core: &mut QueueCore<Req, Reply>,
        op: &mut RecvRequestOp,
        waker: &Waker,
    ) -> (r: Option<Result<RequestGuard<Req, Reply>, ChannelError>>)
        ensures
            final(core).model() == serve_step(old(core).model(), !old(op).is_started()).0,
            (match serve_step(old(core).model(), !old(op).is_started()).1 {
                QueuePoll::Received(e) => r matches Some(Ok(g)) && g.held() == Some(e.0)
                    && g.reply_to() == Some(e.1),
                QueuePoll::Closed => r == Some(
                    Err::<RequestGuard<Req, Reply>, ChannelError>(ChannelError::Closed),
                ),
                QueuePoll::Wait => r is None,
            }),
            final(op).is_started(),
            final(core).b_wakeups() == old(core).b_wakeups(),
    {
        let first_poll = !op.registered;
        op.registered = true;
        match core.poll_serve(first_poll, waker) {
            QueuePoll::Received((req, tx)) => Some(
                Ok(RequestGuard { req: Some(req), response_tx: Some(tx) }),
            ),
            QueuePoll::Closed => Some(Err(ChannelError::Closed)),
            QueuePoll::Wait => None,
        }
    }

    /// What dropping side B does: marks it closed and hands back every entry
    /// still queued, oldest first, whose reply handles the caller closes.
    pub fn disconnect(&self, core: &mut QueueCore<Req, Reply>) -> (drained: Vec<(Req, Reply)>)
        ensures
            final(core).model() == (QueueModel {
                requests: Seq::<(Req, Reply)>::empty(),
                b_closed: true,
                ..old(core).model()
            }),
            drained@ == old(core).model().requests,
            final(core).b_wakeups() == old(core).b_wakeups(),
    {
        core.close_b()
    }
}

impl<Req, Reply> RequestGuard<Req, Reply> {
    /// The request held, until it is taken out.
    pub closed spec fn held(&self) -> Option<Req> {
        self.req
    }

    /// The handle the reply goes back on, until it is handed out.
    pub closed spec fn reply_to(&self) -> Option<Reply> {
        self.response_tx
    }

    /// The request; `None` once it was taken out.
    pub fn request(&self) -> (r: Option<&Req>)
        ensures
            r is Some <==> self.held() is Some,
            r is Some ==> *r->0 == self.held()->0,
    {
        match &self.req {
            Some(req) => Some(req),
            None => None,
        }
    }

    /// Takes the request out, leaving the guard to send the reply.
    pub fn take_request(&mut self) -> (r: Option<Req>)
        ensures
            r == old(self).held(),
            final(self).held() is None,
            final(self).reply_to() == old(self).reply_to(),
    {
        self.req.take()
    }

    /// Hands out the handle to send the reply on (what `reply` and `abandon`
    /// act on).
    pub fn into_reply_handle(self) -> (r: Option<Reply>)
        ensures
            r == self.reply_to(),
    {
        self.response_tx
    }
}

/// B's receive takes the oldest entry whenever one waits; with none waiting
/// it reports `Closed` exactly when no requester is left, and waits
/// otherwise. Waiting leaves the queue as it was.
pub proof fn lemma_serve_outcomes<E>(m: QueueModel<E>, first_poll: bool)
    ensures
        m.requests.len() > 0 ==> serve_step(m, first_poll).1 == QueuePoll::Received(m.requests[0])
            && serve_step(m, first_poll).0.requests == m.requests.drop_first(),
        m.requests.len() == 0 ==> (serve_step(m, first_poll).1 is Closed <==> m.senders == 0),
        m.requests.len() == 0 ==> (serve_step(m, first_poll).1 is Wait <==> m.senders != 0),
        m.requests.len() == 0 ==> serve_step(m, first_poll).0.requests == m.requests,
        serve_step(m, first_poll).0.senders == m.senders,
        serve_step(m, first_poll).0.b_closed == m.b_closed,
{
}

/// A submission is accepted exactly when B is open, and then queued last;
/// a refused one leaves the queue as it was.
pub proof fn lemma_submit_accepted_iff_open<E>(m: QueueModel<E>, e: E)
    ensures
        !m.b_closed ==> submit_step(m, e).0.requests == m.requests.push(e),
        m.b_closed ==> submit_step(m, e).0 == m,
        submit_step(m, e).0.senders == m.senders,
{
}

/// A requester leaving takes one from the count of requesters and leaves
/// the queue as it was; B sees the channel closed only once the last one has
/// left and the queue is empty.
pub proof fn lemma_leave_counts_down<E>(m: QueueModel<E>, first_poll: bool)
    requires
        m.senders > 0,
    ensures
        leave_step(m).0.senders == m.senders - 1,
        leave_step(m).0.requests == m.requests,
        m.requests.len() == 0 ==> (serve_step(leave_step(m).0, first_poll).1 is Closed <==> m.senders
            == 1),
{
}

} // verus!
