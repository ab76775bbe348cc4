//! Request-response channel between one requester (side A) and one responder
//! (side B).
//!
//! The exchange is strict: A sends a request, B must reply, and only then can
//! A send the next request. No buffer is needed.
use super::common::{ChannelError, IDLE, RESPONSE_READY, WAITING_RESPONSE};
use crate::atomic_waker::{wakeup_of, AtomicWaker};
use std::marker::PhantomData;
use std::task::Waker;
use vstd::prelude::*;

verus! {

/// The state of an exchange as far as its behaviour goes.
pub struct ExchangeModel<Req, Resp> {
    /// `IDLE`, `WAITING_RESPONSE` or `RESPONSE_READY`.
    pub state: u8,
    pub a_closed: bool,
    pub b_closed: bool,
    /// The request sent and not yet taken by B.
    pub request: Option<Req>,
    /// The response sent and not yet taken by A.
    pub response: Option<Resp>,
    /// Whether A has a waker registered.
    pub a_waiting: bool,
    /// Whether B has a waker registered.
    pub b_waiting: bool,
}

/// The invariant of an exchange: a known state, and a response present when
/// the state says it is ready.
pub open spec fn exchange_wf<Req, Resp>(m: ExchangeModel<Req, Resp>) -> bool {
    &&& (m.state == IDLE || m.state == WAITING_RESPONSE || m.state == RESPONSE_READY)
    &&& m.state == RESPONSE_READY ==> m.response is Some
}

/// What one poll of A's send does.
pub enum SendPoll {
    /// The request was sent.
    Sent,
    /// B is closed; the request is dropped.
    Closed,
    /// A previous exchange is in progress; the request waits.
    Wait,
}

/// One poll of A's send: refused when B is closed, sent when the channel is
/// idle (B's waker is taken, third component), waiting otherwise (the first
/// poll registers A's waker).
pub open spec fn send_step<Req, Resp>(m: ExchangeModel<Req, Resp>, req: Req, first_poll: bool) -> (
    ExchangeModel<Req, Resp>,
    SendPoll,
    bool,
) {
    if m.b_closed {
        (m, SendPoll::Closed, false)
    } else if m.state == IDLE {
        (
            ExchangeModel { state: WAITING_RESPONSE, request: Some(req), b_waiting: false, ..m },
            SendPoll::Sent,
            m.b_waiting,
        )
    } else if first_poll {
        (ExchangeModel { a_waiting: true, ..m }, SendPoll::Wait, false)
    } else {
        (m, SendPoll::Wait, false)
    }
}

/// What one poll of a receive (of A's response or of B's request) yields.
pub enum TakePoll<T> {
    Received(T),
    Closed,
    Wait,
}

/// One poll of A's receive: a ready response is taken and the channel is
/// idle again; otherwise closed when B is closed, or waiting.
pub open spec fn response_step<Req, Resp>(m: ExchangeModel<Req, Resp>, first_poll: bool) -> (
    ExchangeModel<Req, Resp>,
    TakePoll<Resp>,
) {
    if m.state == RESPONSE_READY {
        (ExchangeModel { state: IDLE, response: None, ..m }, TakePoll::Received(m.response->0))
    } else if m.b_closed {
        (m, TakePoll::Closed)
    } else if first_poll {
        (ExchangeModel { a_waiting: true, ..m }, TakePoll::Wait)
    } else {
        (m, TakePoll::Wait)
    }
}

/// One poll of B's receive: a sent request is taken; otherwise closed when A
/// is closed, or waiting.
pub open spec fn request_step<Req, Resp>(m: ExchangeModel<Req, Resp>, first_poll: bool) -> (
    ExchangeModel<Req, Resp>,
    TakePoll<Req>,
) {
    if m.state == WAITING_RESPONSE && m.request is Some {
        (ExchangeModel { request: None, ..m }, TakePoll::Received(m.request->0))
    } else if m.a_closed {
        (m, TakePoll::Closed)
    } else if first_poll {
        (ExchangeModel { b_waiting: true, ..m }, TakePoll::Wait)
    } else {
        (m, TakePoll::Wait)
    }
}

/// B's reply: the response is stored, the state is `RESPONSE_READY`, and A's
/// waker is taken (second component).
pub open spec fn reply_step<Req, Resp>(m: ExchangeModel<Req, Resp>, resp: Resp) -> (
    ExchangeModel<Req, Resp>,
    bool,
) {
    (
        ExchangeModel { state: RESPONSE_READY, response: Some(resp), a_waiting: false, ..m },
        m.a_waiting,
    )
}

/// Side A goes away: B's waker is taken (second component).
pub open spec fn close_a_step<Req, Resp>(m: ExchangeModel<Req, Resp>) -> (
    ExchangeModel<Req, Resp>,
    bool,
) {
    (ExchangeModel { a_closed: true, b_waiting: false, ..m }, m.b_waiting)
}

/// Side B goes away: A's waker is taken (second component).
pub open spec fn close_b_step<Req, Resp>(m: ExchangeModel<Req, Resp>) -> (
    ExchangeModel<Req, Resp>,
    bool,
) {
    (ExchangeModel { b_closed: true, a_waiting: false, ..m }, m.a_waiting)
}

/// Outcome of one poll of A's send, with the request handed back while it
/// waits.
pub enum SendAttempt<Req> {
    Sent,
    Closed,
    Wait(Req),
}

/// The state of an exchange as one value, changed one operation at a time.
pub struct ExchangeCore<Req, Resp> {
    state: u8,
    a_waker: AtomicWaker,
    b_waker: AtomicWaker,
    a_closed: bool,
    b_closed: bool,
    request: Option<Req>,
    response: Option<Resp>,
}

impl<Req, Resp> ExchangeCore<Req, Resp> {
    /// The state of the exchange as a model.
    pub closed spec fn model(&self) -> ExchangeModel<Req, Resp> {
        ExchangeModel {
            state: self.state,
            a_closed: self.a_closed,
            b_closed: self.b_closed,
            request: self.request,
            response: self.response,
            a_waiting: self.a_waker.is_registered(),
            b_waiting: self.b_waker.is_registered(),
        }
    }

    /// The invariant every operation keeps.
    pub open spec fn wf(&self) -> bool {
        exchange_wf(self.model())
    }

    /// A's waker, if one is stored.
    pub closed spec fn a_waiter(&self) -> Option<Waker> {
        self.a_waker.stored()
    }

    /// B's waker, if one is stored.
    pub closed spec fn b_waiter(&self) -> Option<Waker> {
        self.b_waker.stored()
    }

    /// The wake-ups owed to A, oldest first.
    pub closed spec fn a_wakeups(&self) -> Seq<Waker> {
        self.a_waker.due()
    }

    /// The wake-ups owed to B, oldest first.
    pub closed spec fn b_wakeups(&self) -> Seq<Waker> {
        self.b_waker.due()
    }

    /// Hands out the wake-ups owed, A's and then B's, for the caller to wake
    /// once it has let go of the state.
    pub fn take_wakeups(&mut self) -> (r: Vec<Waker>)
        requires
            old(self).wf(),
        ensures
            final(self).wf(),
            r@ == old(self).a_wakeups() + old(self).b_wakeups(),
            final(self).a_wakeups() == Seq::<Waker>::empty(),
            final(self).b_wakeups() == Seq::<Waker>::empty(),
            final(self).model() == old(self).model(),
            final(self).a_waiter() == old(self).a_waiter(),
            final(self).b_waiter() == old(self).b_waiter(),
    {
        let mut r = self.a_waker.take_wakeups();
        let mut b = self.b_waker.take_wakeups();
        r.append(&mut b);
        r
    }

    /// An idle exchange with both sides open.
    pub fn new() -> (c: Self)
        ensures
            c.wf(),
            c.model() == (ExchangeModel::<Req, Resp> {
                state: IDLE,
                a_closed: false,
                b_closed: false,
                request: None,
                response: None,
                a_waiting: false,
                b_waiting: false,
            }),
            c.a_wakeups() == Seq::<Waker>::empty(),
            c.b_wakeups() == Seq::<Waker>::empty(),
    {
        ExchangeCore {
            state: IDLE,
            a_waker: AtomicWaker::new(),
            b_waker: AtomicWaker::new(),
            a_closed: false,
            b_closed: false,
            request: None,
            response: None,
        }
    }

    /// One poll of A's send of `req`.
    pub fn poll_send(&mut self, req: Req, first_poll: bool, waker: &Waker) -> (r: SendAttempt<Req>)
        requires
            old(self).wf(),
        ensures
            final(self).wf(),
            final(self).model() == send_step(old(self).model(), req, first_poll).0,
            match r {
                SendAttempt::Sent => send_step(old(self).model(), req, first_poll).1 is Sent,
                SendAttempt::Closed => send_step(old(self).model(), req, first_poll).1 is Closed,
                SendAttempt::Wait(q) => send_step(old(self).model(), req, first_poll).1 is Wait
                    && q == req,
            },
            r is Wait && first_poll ==> (final(self).a_waiter() matches Some(w) && vstd::pervasive::strictly_cloned(*waker, w)),
            final(self).b_wakeups() == old(self).b_wakeups() + (if r is Sent {
                wakeup_of(old(self).b_waiter())
            } else {
                Seq::empty()
            }),
            final(self).a_wakeups() == old(self).a_wakeups(),
    {
        if self.b_closed {
            return SendAttempt::Closed;
        }
        if self.state == IDLE {
            self.state = WAITING_RESPONSE;
            self.request = Some(req);
            self.b_waker.wake();
            return SendAttempt::Sent;
        }
        if first_poll {
            self.a_waker.register(waker);
        }
        SendAttempt::Wait(req)
    }

    /// One poll of A's receive of the response.
    pub fn poll_response(&mut self, first_poll: bool, waker: &Waker) -> (r: TakePoll<Resp>)
        requires
            old(self).wf(),
        ensures
            final(self).wf(),
            (final(self).model(), r) == response_step(old(self).model(), first_poll),
            r is Wait && first_poll ==> (final(self).a_waiter() matches Some(w) && vstd::pervasive::strictly_cloned(*waker, w)),
            final(self).a_wakeups() == old(self).a_wakeups(),
            final(self).b_wakeups() == old(self).b_wakeups(),
    {
        if self.state == RESPONSE_READY {
            if let Some(resp) = self.response.take() {
                self.state = IDLE;
                return TakePoll::Received(resp);
            }
        }
        if self.b_closed {
            return TakePoll::Closed;
        }
        if first_poll {
            self.a_waker.register(waker);
        }
        TakePoll::Wait
    }

    /// One poll of B's receive of the request.
    pub fn poll_request(&mut self, first_poll: bool, waker: &Waker) -> (r: TakePoll<Req>)
        requires
            old(self).wf(),
        ensures
            final(self).wf(),
            (final(self).model(), r) == request_step(old(self).model(), first_poll),
            r is Wait && first_poll ==> (final(self).b_waiter() matches Some(w) && vstd::pervasive::strictly_cloned(*waker, w)),
            final(self).a_wakeups() == old(self).a_wakeups(),
            final(self).b_wakeups() == old(self).b_wakeups(),
    {
        if self.state == WAITING_RESPONSE {
            if let Some(req) = self.request.take() {
                return TakePoll::Received(req);
            }
        }
        if self.a_closed {
            return TakePoll::Closed;
        }
        if first_poll {
            self.b_waker.register(waker);
        }
        TakePoll::Wait
    }

    /// B's reply: stores the response and wakes A.
    pub fn reply(&mut self, resp: Resp)
        requires
            old(self).wf(),
        ensures
            final(self).wf(),
            final(self).model() == reply_step(old(self).model(), resp).0,
            final(self).a_wakeups() == old(self).a_wakeups() + wakeup_of(old(self).a_waiter()),
            final(self).b_wakeups() == old(self).b_wakeups(),
    {
        self.response = Some(resp);
        self.state = RESPONSE_READY;
        self.a_waker.wake();
    }

    /// Side A goes away: marks it closed and wakes B.
    pub fn close_a(&mut self)
        requires
            old(self).wf(),
        ensures
            final(self).wf(),
            final(self).model() == close_a_step(old(self).model()).0,
            final(self).b_wakeups() == old(self).b_wakeups() + wakeup_of(old(self).b_waiter()),
            final(self).a_wakeups() == old(self).a_wakeups(),
    {
        self.a_closed = true;
        self.b_waker.wake();
    }

    /// Side B goes away: marks it closed and wakes A.
    pub fn close_b(&mut self)
        requires
            old(self).wf(),
        ensures
            final(self).wf(),
            final(self).model() == close_b_step(old(self).model()).0,
            final(self).a_wakeups() == old(self).a_wakeups() + wakeup_of(old(self).a_waiter()),
            final(self).b_wakeups() == old(self).b_wakeups(),
    {
        self.b_closed = true;
        self.a_waker.wake();
    }
}

/// A request sent on an idle channel reaches B unchanged, and B's reply
/// reaches A unchanged; the channel is then idle again.
pub proof fn lemma_round_trip<Req, Resp>(
    m: ExchangeModel<Req, Resp>,
    req: Req,
    resp: Resp,
    a_first: bool,
    b_first: bool,
    a_recv_first: bool,
)
    requires
        exchange_wf(m),
        m.state == IDLE,
        !m.b_closed,
    ensures
        ({
            let s1 = send_step(m, req, a_first);
            let s2 = request_step(s1.0, b_first);
            let s3 = reply_step(s2.0, resp);
            let s4 = response_step(s3.0, a_recv_first);
            &&& s1.1 is Sent
            &&& s2.1 == TakePoll::<Req>::Received(req)
            &&& s4.1 == TakePoll::<Resp>::Received(resp)
            &&& s4.0.state == IDLE
            &&& exchange_wf(s4.0)
        }),
{
}

/// While an exchange is in progress, a new request is not sent: it waits.
pub proof fn lemma_one_request_at_a_time<Req, Resp>(
    m: ExchangeModel<Req, Resp>,
    req: Req,
    first_poll: bool,
)
    requires
        exchange_wf(m),
        m.state != IDLE,
        !m.b_closed,
    ensures
        send_step(m, req, first_poll).1 is Wait,
        send_step(m, req, first_poll).0.state == m.state,
        send_step(m, req, first_poll).0.request == m.request,
{
}

/// A response sent before B went away still reaches A.
pub proof fn lemma_response_outlives_responder<Req, Resp>(
    m: ExchangeModel<Req, Resp>,
    first_poll: bool,
)
    requires
        exchange_wf(m),
        m.state == RESPONSE_READY,
    ensures
        response_step(close_b_step(m).0, first_poll).1 == TakePoll::<Resp>::Received(m.response->0),
{
}

/// A request sent before A went away still reaches B.
pub proof fn lemma_request_outlives_requester<Req, Resp>(
    m: ExchangeModel<Req, Resp>,
    first_poll: bool,
)
    requires
        m.state == WAITING_RESPONSE,
        m.request is Some,
    ensures
        request_step(close_a_step(m).0, first_poll).1 == TakePoll::<Req>::Received(m.request->0),
{
}

/// Once B is gone and no response is ready, A's send and receive report the
/// channel closed.
pub proof fn lemma_closed_responder<Req, Resp>(
    m: ExchangeModel<Req, Resp>,
    req: Req,
    first_poll: bool,
)
    requires
        m.b_closed,
        m.state != RESPONSE_READY,
    ensures
        send_step(m, req, first_poll).1 is Closed,
        response_step(m, first_poll).1 is Closed,
{
}

/// Once A is gone and no request is pending, B's receive reports the channel
/// closed.
pub proof fn lemma_closed_requester<Req, Resp>(m: ExchangeModel<Req, Resp>, first_poll: bool)
    requires
        m.a_closed,
        !(m.state == WAITING_RESPONSE && m.request is Some),
    ensures
        request_step(m, first_poll).1 is Closed,
{
}

/// Side A: sends requests and receives their responses, acting on the
/// exchange state.
pub struct SideA<Req, Resp> {
    marker: PhantomData<(Req, Resp)>,
}

/// Side B: receives requests and replies to them, acting on the exchange
/// state.
pub struct SideB<Req, Resp> {
    marker: PhantomData<(Req, Resp)>,
}

/// Creates a request-response channel: its side A, its side B, and its
/// state, idle with both sides open.
pub fn channel<Req, Resp>() -> (r: (SideA<Req, Resp>, SideB<Req, Resp>, ExchangeCore<Req, Resp>))
    ensures
        r.2.wf(),
        r.2.model() == (ExchangeModel::<Req, Resp> {
            state: IDLE,
            a_closed: false,
            b_closed: false,
            request: None,
            response: None,
            a_waiting: false,
            b_waiting: false,
        }),
        r.2.a_wakeups() == Seq::<Waker>::empty(),
        r.2.b_wakeups() == Seq::<Waker>::empty(),
{
    (SideA { marker: PhantomData }, SideB { marker: PhantomData }, ExchangeCore::new())
}

/// Where A's `request` stands.
pub struct RequestOpModel<Req> {
    /// The request not yet sent.
    pub request: Option<Req>,
    /// Whether the request was sent.
    pub sent: bool,
    /// Whether the current phase has polled once.
    pub registered: bool,
    /// Whether the request has completed.
    pub done: bool,
}

/// Progress of A's `request`: first sending the request, then receiving its
/// response.
pub struct RequestOp<Req> {
    request: Option<Req>,
    sent: bool,
    registered: bool,
    done: bool,
}

impl<Req> RequestOp<Req> {
    /// Where the request stands.
    pub closed spec fn model(&self) -> RequestOpModel<Req> {
        RequestOpModel {
            request: self.request,
            sent: self.sent,
            registered: self.registered,
            done: self.done,
        }
    }

    /// The request not yet sent.
    pub open spec fn pending(&self) -> Option<Req> {
        self.model().request
    }

    /// Whether the request has completed.
    pub open spec fn is_done(&self) -> bool {
        self.model().done
    }

    /// A request of `req` that has not started.
    pub fn new(req: Req) -> (op: Self)
        ensures
            op.model() == (RequestOpModel {
                request: Some(req),
                sent: false,
                registered: false,
                done: false,
            }),
    {
        RequestOp { request: Some(req), sent: false, registered: false, done: false }
    }
}

/// The receive phase of one poll of A's `request`: a ready response completes
/// it; a closed B completes it with `Closed`; otherwise it waits.
pub open spec fn response_phase<Req, Resp>(m: ExchangeModel<Req, Resp>, op: RequestOpModel<Req>) -> (
    ExchangeModel<Req, Resp>,
    RequestOpModel<Req>,
    Option<Result<Resp, ChannelError>>,
) {
    let (m2, taken) = response_step(m, !op.registered);
    let op2 = RequestOpModel { registered: true, ..op };
    match taken {
        TakePoll::Received(resp) => (m2, RequestOpModel { done: true, ..op2 }, Some(Ok(resp))),
        TakePoll::Closed => (m2, RequestOpModel { done: true, ..op2 }, Some(Err(ChannelError::Closed))),
        TakePoll::Wait => (m2, op2, None),
    }
}

/// Whether one poll of A's `request` sends its request (which wakes B).
pub open spec fn request_poll_sends<Req, Resp>(m: ExchangeModel<Req, Resp>, op: RequestOpModel<Req>) -> bool {
    &&& !op.done
    &&& !op.sent
    &&& op.request matches Some(req) && send_step(m, req, !op.registered).1 is Sent
}

/// One poll of A's `request`: a finished request yields nothing more; an
/// unsent request is sent once the channel is idle (`Closed` when B is gone,
/// waiting while an exchange is in progress), and a sent one receives its
/// response.
pub open spec fn request_poll<Req, Resp>(m: ExchangeModel<Req, Resp>, op: RequestOpModel<Req>) -> (
    ExchangeModel<Req, Resp>,
    RequestOpModel<Req>,
    Option<Result<Resp, ChannelError>>,
) {
    if op.done {
        (m, op, None)
    } else if !op.sent {
        match op.request {
            None => (m, op, None),
            Some(req) => {
                let (m1, sent, _) = send_step(m, req, !op.registered);
                match sent {
                    SendPoll::Closed => (
                        m1,
                        RequestOpModel { request: None, done: true, ..op },
                        Some(Err(ChannelError::Closed)),
                    ),
                    SendPoll::Wait => (m1, RequestOpModel { registered: true, ..op }, None),
                    SendPoll::Sent => response_phase(
                        m1,
                        RequestOpModel { request: None, sent: true, registered: false, ..op },
                    ),
                }
            },
        }
    } else {
        response_phase(m, op)
    }
}

/// A `request` started on an idle channel sends its request and waits; B
/// receives exactly that request; once B replies, the next poll of the
/// `request` completes with exactly that response, also when B goes away
/// right after replying. The channel is then idle and well formed again, with
/// B as open as before, so the next request starts from the same situation.
pub proof fn lemma_request_round_trip<Req, Resp>(
    m: ExchangeModel<Req, Resp>,
    req: Req,
    resp: Resp,
    b_started: bool,
)
    requires
        exchange_wf(m),
        m.state == IDLE,
        !m.b_closed,
    ensures
        ({
            let op0 = RequestOpModel { request: Some(req), sent: false, registered: false, done: false };
            let (m1, op1, r1) = request_poll(m, op0);
            let (m2, got) = request_step(m1, !b_started);
            let m3 = reply_step(m2, resp).0;
            let (m4, op4, r4) = request_poll(m3, op1);
            &&& r1 is None
            &&& got == TakePoll::<Req>::Received(req)
            &&& r4 == Some(Ok::<Resp, ChannelError>(resp))
            &&& op4.done
            &&& m4.state == IDLE
            &&& exchange_wf(m4)
            &&& !m4.b_closed
            &&& request_poll(close_b_step(m3).0, op1).2 == Some(Ok::<Resp, ChannelError>(resp))
        }),
{
}

/// One full exchange on an idle channel: A's `request` of `req` is polled,
/// B receives and replies `resp`, and A's `request` is polled again. The
/// channel after it, and what that last poll yielded.
pub open spec fn exchange_round<Req, Resp>(m: ExchangeModel<Req, Resp>, req: Req, resp: Resp) -> (
    ExchangeModel<Req, Resp>,
    Option<Result<Resp, ChannelError>>,
) {
    let op0 = RequestOpModel { request: Some(req), sent: false, registered: false, done: false };
    let (m1, op1, _) = request_poll(m, op0);
    let m2 = request_step(m1, true).0;
    let m3 = reply_step(m2, resp).0;
    let (m4, _, r4) = request_poll(m3, op1);
    (m4, r4)
}

/// What A's requests `reqs` yield, one exchange after the other, when B
/// answers each request `q` with `answer(q)`.
pub open spec fn exchange_rounds<Req, Resp>(
    m: ExchangeModel<Req, Resp>,
    reqs: Seq<Req>,
    answer: spec_fn(Req) -> Resp,
) -> Seq<Option<Result<Resp, ChannelError>>>
    decreases reqs.len(),
{
    if reqs.len() == 0 {
        Seq::empty()
    } else {
        let (m1, r) = exchange_round(m, reqs[0], answer(reqs[0]));
        seq![r] + exchange_rounds(m1, reqs.drop_first(), answer)
    }
}

/// Over any number of exchanges one after the other, every request gets
/// exactly its own answer, in order.
pub proof fn lemma_rounds_answer_in_order<Req, Resp>(
    m: ExchangeModel<Req, Resp>,
    reqs: Seq<Req>,
    answer: spec_fn(Req) -> Resp,
)
    requires
        exchange_wf(m),
        m.state == IDLE,
        !m.b_closed,
    ensures
        exchange_rounds(m, reqs, answer) == reqs.map_values(
            |q: Req| Some(Ok::<Resp, ChannelError>(answer(q))),
        ),
    decreases reqs.len(),
{
    if reqs.len() > 0 {
        lemma_request_round_trip(m, reqs[0], answer(reqs[0]), false);
        let (m1, r) = exchange_round(m, reqs[0], answer(reqs[0]));
        lemma_rounds_answer_in_order(m1, reqs.drop_first(), answer);
        assert(reqs.map_values(|q: Req| Some(Ok::<Resp, ChannelError>(answer(q)))) =~= seq![r]
            + reqs.drop_first().map_values(|q: Req| Some(Ok::<Resp, ChannelError>(answer(q)))));
    } else {
        assert(reqs.map_values(|q: Req| Some(Ok::<Resp, ChannelError>(answer(q))))
            =~= Seq::<Option<Result<Resp, ChannelError>>>::empty());
    }
}

impl<Req, Resp> SideA<Req, Resp> {
    /// One poll of `request` on the exchange `core`: sends the request once
    /// the channel is idle, then waits for B's response. `None` while
    /// waiting; `Closed` when B is gone before answering.
    pub fn poll_request(
        &self,
        core: &mut ExchangeCore<Req, Resp>,
        op: &mut RequestOp<Req>,
        waker: &Waker,
    ) -> (r: Option<Result<Resp, ChannelError>>)
        requires
            old(core).wf(),
        ensures
            final(core).wf(),
            (final(core).model(), final(op).model(), r) == request_poll(
                old(core).model(),
                old(op).model(),
            ),
            final(core).b_wakeups() == old(core).b_wakeups() + (if request_poll_sends(
                old(core).model(),
                old(op).model(),
            ) {
                wakeup_of(old(core).b_waiter())
            } else {
                Seq::empty()
            }),
            final(core).a_wakeups() == old(core).a_wakeups(),
    {
        if op.done {
            return None;
        }
        if !op.sent {
            let req = match op.request.take() {
                Some(req) => req,
                None => return None,
            };
            match core.poll_send(req, !op.registered, waker) {
                SendAttempt::Sent => {
                    op.sent = true;
                    op.registered = false;
                },
                SendAttempt::Closed => {
                    op.done = true;
                    return Some(Err(ChannelError::Closed));
                },
                SendAttempt::Wait(req) => {
                    op.request = Some(req);
                    op.registered = true;
                    return None;
                },
            }
        }
        let first_poll = !op.registered;
        op.registered = true;
        match core.poll_response(first_poll, waker) {
            TakePoll::Received(resp) => {
                op.done = true;
                Some(Ok(resp))
            },
            TakePoll::Closed => {
                op.done = true;
                Some(Err(ChannelError::Closed))
            },
            TakePoll::Wait => None,
        }
    }

    /// What dropping side A does: marks it closed and wakes B.
    pub fn disconnect(&self, core: &mut ExchangeCore<Req, Resp>)
        requires
            old(core).wf(),
        ensures
            final(core).wf(),
            final(core).model() == close_a_step(old(core).model()).0,
            final(core).b_wakeups() == old(core).b_wakeups() + wakeup_of(old(core).b_waiter()),
            final(core).a_wakeups() == old(core).a_wakeups(),
    {
        core.close_a();
    }
}

/// Progress of B's `recv_request`.
pub struct RecvRequestOp {
    registered: bool,
}

impl RecvRequestOp {
    /// Whether the receive has been polled.
    pub closed spec fn is_started(&self) -> bool {
        self.registered
    }

    /// A receive that has not started.
    pub fn new() -> (op: Self)
        ensures
            !op.is_started(),
    {
        RecvRequestOp { registered: false }
    }
}

/// A received request that B must reply to.
pub struct RequestGuard<Req: Send, Resp: Send> {
    req: Option<Req>,
    marker: PhantomData<Resp>,
}

/// What one poll of B's receive yields for what the exchange gave.
pub open spec fn recv_request_result<Req: Send, Resp: Send>(taken: TakePoll<Req>) -> Option<
    Result<Option<Req>, ChannelError>,
> {
    match taken {
        TakePoll::Received(req) => Some(Ok(Some(req))),
        TakePoll::Closed => Some(Err(ChannelError::Closed)),
        TakePoll::Wait => None,
    }
}

impl<Req: Send, Resp: Send> SideB<Req, Resp> {
    /// One poll of `recv_request` on the exchange `core`: a guard holding the
    /// request, `Closed` once A is gone and no request is pending, or `None`
    /// while waiting.
    pub fn poll_recv_request(
        &self,
        core: &mut ExchangeCore<Req, Resp>,
        op: &mut RecvRequestOp,
        waker: &Waker,
    ) -> (r: Option<Result<RequestGuard<Req, Resp>, ChannelError>>)
        requires
            old(core).wf(),
        ensures
            final(core).wf(),
            final(core).model() == request_step(old(core).model(), !old(op).is_started()).0,
            recv_request_result::<Req, Resp>(
                request_step(old(core).model(), !old(op).is_started()).1,
            ) == (match r {
                Some(Ok(g)) => Some(Ok(g.held())),
                Some(Err(e)) => Some(Err(e)),
                None => None,
            }),
            final(op).is_started(),
            final(core).a_wakeups() == old(core).a_wakeups(),
            final(core).b_wakeups() == old(core).b_wakeups(),
    {
        let first_poll = !op.registered;
        op.registered = true;
        match core.poll_request(first_poll, waker) {
            TakePoll::Received(req) => Some(Ok(RequestGuard { req: Some(req), marker: PhantomData })),
            TakePoll::Closed => Some(Err(ChannelError::Closed)),
            TakePoll::Wait => None,
        }
    }
}

impl<Req, Resp> SideB<Req, Resp> {
    /// What dropping side B does: marks it closed and wakes A.
    pub fn disconnect(&self, core: &mut ExchangeCore<Req, Resp>)
        requires
            old(core).wf(),
        ensures
            final(core).wf(),
            final(core).model() == close_b_step(old(core).model()).0,
            final(core).a_wakeups() == old(core).a_wakeups() + wakeup_of(old(core).a_waiter()),
            final(core).b_wakeups() == old(core).b_wakeups(),
    {
        core.close_b();
    }
}

impl<Req: Send, Resp: Send> RequestGuard<Req, Resp> {
    /// The request held, until it is taken out.
    pub closed spec fn held(&self) -> Option<Req> {
        self.req
    }

    /// The request; `None` once it was taken out.
    pub fn request(&self) -> (r: Option<&Req>)
        ensures
            r is Some <==> self.held() is Some,
            r is Some ==> *r->0 == self.held()->0,
    {
        match &self.req {
            Some(req) => Some(req),
            None => None,
        }
    }

    /// Takes the request out, leaving the guard to send the reply.
    pub fn take_request(&mut self) -> (r: Option<Req>)
        ensures
            r == old(self).held(),
            final(self).held() is None,
    {
        self.req.take()
    }

    /// Sends the reply to A on the exchange `core` and wakes it.
    pub fn reply(self, core: &mut ExchangeCore<Req, Resp>, resp: Resp)
        requires
            old(core).wf(),
        ensures
            final(core).wf(),
            final(core).model() == reply_step(old(core).model(), resp).0,
            final(core).a_wakeups() == old(core).a_wakeups() + wakeup_of(old(core).a_waiter()),
            final(core).b_wakeups() == old(core).b_wakeups(),
    {
        core.reply(resp);
    }
}

/// A's send goes out exactly when B is open and the channel is idle, and is
/// refused with `Closed` exactly when B is closed; a send that goes out puts
/// the request in the channel, which then waits for the response.
pub proof fn lemma_send_goes_out_iff_idle<Req, Resp>(m: ExchangeModel<Req, Resp>, req: Req, first_poll: bool)
    ensures
        send_step(m, req, first_poll).1 is Sent <==> (!m.b_closed && m.state == IDLE),
        send_step(m, req, first_poll).1 is Closed <==> m.b_closed,
        send_step(m, req, first_poll).1 is Sent ==> send_step(m, req, first_poll).0.request == Some(
            req,
        ) && send_step(m, req, first_poll).0.state == WAITING_RESPONSE,
        !(send_step(m, req, first_poll).1 is Sent) ==> send_step(m, req, first_poll).0.state
            == m.state && send_step(m, req, first_poll).0.request == m.request,
{
}

/// A's receive gets the response exactly when one is ready; otherwise it
/// reports `Closed` exactly when B is closed, and waits while B is open.
pub proof fn lemma_response_taken_iff_ready<Req, Resp>(m: ExchangeModel<Req, Resp>, first_poll: bool)
    requires
        exchange_wf(m),
    ensures
        response_step(m, first_poll).1 is Received <==> m.state == RESPONSE_READY,
        m.state == RESPONSE_READY ==> response_step(m, first_poll).1 == TakePoll::Received(
            m.response->0,
        ),
        response_step(m, first_poll).1 is Closed <==> (m.state != RESPONSE_READY && m.b_closed),
        response_step(m, first_poll).1 is Wait <==> (m.state != RESPONSE_READY && !m.b_closed),
{
}

/// B's receive gets the request exactly when one is pending; otherwise it
/// reports `Closed` only once A is gone, and waits while A is open. Waiting
/// changes neither the state nor the pending request.
pub proof fn lemma_request_taken_iff_pending<Req, Resp>(m: ExchangeModel<Req, Resp>, first_poll: bool)
    ensures
        request_step(m, first_poll).1 is Received <==> (m.state == WAITING_RESPONSE
            && m.request is Some),
        request_step(m, first_poll).1 is Received ==> request_step(m, first_poll).1
            == TakePoll::Received(m.request->0),
        request_step(m, first_poll).1 is Closed ==> m.a_closed,
        !m.a_closed ==> !(request_step(m, first_poll).1 is Closed),
        !m.a_closed && !(m.state == WAITING_RESPONSE && m.request is Some) ==> request_step(
            m,
            first_poll,
        ).1 is Wait,
        request_step(m, first_poll).0.state == m.state,
        !(request_step(m, first_poll).1 is Received) ==> request_step(m, first_poll).0.request
            == m.request,
{
}

/// What one poll of A's `request` yields, for every state of the channel and
/// of the request:
/// - a finished request yields nothing and changes nothing;
/// - a sent request completes with the response once it is ready, with
///   `Closed` once B is gone without a response, and waits otherwise;
/// - an unsent request is refused with `Closed` when B is gone, waits (kept
///   unsent) while another exchange is in progress, and otherwise goes out
///   and waits for its response;
/// - a poll that yields something finishes the request, and one that yields
///   nothing leaves it unfinished.
pub proof fn lemma_request_poll_outcomes<Req, Resp>(
    m: ExchangeModel<Req, Resp>,
    op: RequestOpModel<Req>,
)
    requires
        exchange_wf(m),
    ensures
        op.done ==> request_poll(m, op) == (m, op, None::<Result<Resp, ChannelError>>),
        !op.done && op.sent && m.state == RESPONSE_READY ==> request_poll(m, op).2 == Some(
            Ok::<Resp, ChannelError>(m.response->0),
        ) && request_poll(m, op).0.state == IDLE,
        !op.done && op.sent && m.state != RESPONSE_READY && m.b_closed ==> request_poll(m, op).2
            == Some(Err::<Resp, ChannelError>(ChannelError::Closed)),
        !op.done && op.sent && m.state != RESPONSE_READY && !m.b_closed ==> request_poll(
            m,
            op,
        ).2 is None,
        !op.done && !op.sent && op.request is Some && m.b_closed ==> request_poll(m, op).2 == Some(
            Err::<Resp, ChannelError>(ChannelError::Closed),
        ),
        !op.done && !op.sent && op.request is Some && !m.b_closed && m.state != IDLE ==> {
            &&& request_poll(m, op).2 is None
            &&& request_poll(m, op).1.request == op.request
            &&& !request_poll(m, op).1.sent
            &&& request_poll(m, op).0.request == m.request
        },
        !op.done && !op.sent && op.request is Some && !m.b_closed && m.state == IDLE ==> {
            &&& request_poll(m, op).2 is None
            &&& request_poll(m, op).1.sent
            &&& request_poll(m, op).0.request == op.request
            &&& request_poll(m, op).0.state == WAITING_RESPONSE
        },
        !op.done ==> (request_poll(m, op).2 is Some <==> request_poll(m, op).1.done),
{
}

} // verus!
