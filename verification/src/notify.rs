//! Single-waiter notification.
//!
//! A notifier wakes at most one waiting task. A notification sent while no
//! task waits is kept, and the next wait completes at once; several
//! notifications sent before a wait count as one.
use crate::atomic_waker::{wakeup_of, AtomicWaker};
use std::task::Waker;
use vstd::prelude::*;

verus! {

/// No waiter is registered and no notification is pending.
pub const EMPTY: u8 = 0;

/// A waiter has registered and waits.
pub const WAITING: u8 = 1;

/// A notification is pending.
pub const NOTIFIED: u8 = 2;

/// What a notifier is, as far as its behaviour goes: its state code and
/// whether a waker is stored.
pub struct NotifyModel {
    pub state: u8,
    pub has_waker: bool,
}

/// The state codes a notifier can be in.
pub open spec fn valid_notify_state(state: u8) -> bool {
    state == EMPTY || state == WAITING || state == NOTIFIED
}

/// `notify_one`: the state becomes `NOTIFIED`; when a waiter was registered,
/// its waker is taken out and woken (the second component).
pub open spec fn notify_step(m: NotifyModel) -> (NotifyModel, bool) {
    if m.state == WAITING {
        (NotifyModel { state: NOTIFIED, has_waker: false }, m.has_waker)
    } else {
        (NotifyModel { state: NOTIFIED, has_waker: m.has_waker }, false)
    }
}

/// Registering a waiter: a pending notification is consumed and reported
/// (second component `true`); otherwise the waker is stored and the state is
/// `WAITING`.
pub open spec fn register_step(m: NotifyModel) -> (NotifyModel, bool) {
    if m.state == NOTIFIED {
        (NotifyModel { state: EMPTY, has_waker: m.has_waker }, true)
    } else {
        (NotifyModel { state: WAITING, has_waker: true }, false)
    }
}

/// One poll of a wait. The first poll registers; a later poll completes when a
/// notification is pending and otherwise refreshes the registration.
pub open spec fn poll_step(m: NotifyModel, first_poll: bool) -> (NotifyModel, bool) {
    if first_poll {
        register_step(m)
    } else if m.state == NOTIFIED {
        (NotifyModel { state: EMPTY, has_waker: m.has_waker }, true)
    } else {
        (register_step(m).0, false)
    }
}

/// Abandoning a wait: a registered waiter that was not notified withdraws.
pub open spec fn cancel_step(m: NotifyModel, registered: bool) -> NotifyModel {
    if registered && m.state == WAITING {
        NotifyModel { state: EMPTY, has_waker: m.has_waker }
    } else {
        m
    }
}

/// The wake-ups a notification owes: the stored waker `w` when a waiter is
/// registered, none otherwise.
pub open spec fn notify_wakeup(m: NotifyModel, w: Option<Waker>) -> Seq<Waker> {
    if m.state == WAITING {
        wakeup_of(w)
    } else {
        Seq::empty()
    }
}

/// Lightweight single-waiter notifier: its state code and the waiting task's
/// waker, changed one operation at a time.
pub struct SingleWaiterNotify {
    state: u8,
    waker: AtomicWaker,
}

impl SingleWaiterNotify {
    /// The state code and whether a waker is stored.
    pub closed spec fn model(&self) -> NotifyModel {
        NotifyModel { state: self.state, has_waker: self.waker.is_registered() }
    }

    /// The waker of the waiting task, if one is stored.
    pub closed spec fn waiter(&self) -> Option<Waker> {
        self.waker.stored()
    }

    /// The wake-ups owed, oldest first: wakers that were woken and are still
    /// to be handed out with `take_wakeups`.
    pub closed spec fn wakeups(&self) -> Seq<Waker> {
        self.waker.due()
    }

    /// The invariant every operation keeps.
    pub open spec fn wf(&self) -> bool {
        valid_notify_state(self.model().state)
    }

    /// A notifier with no waiter and no pending notification.
    pub fn new() -> (s: Self)
        ensures
            s.model() == (NotifyModel { state: EMPTY, has_waker: false }),
            s.wf(),
            s.wakeups() == Seq::<Waker>::empty(),
    {
        SingleWaiterNotify { state: EMPTY, waker: AtomicWaker::new() }
    }

    /// Marks the notifier notified and wakes the registered waiter, if any
    /// (its waker joins the wake-ups owed); `true` when a waiter was woken.
    /// When none waits, the next wait completes at once.
    pub fn notify_one(&mut self) -> (woken: bool)
        requires
            old(self).wf(),
        ensures
            final(self).wf(),
            (final(self).model(), woken) == notify_step(old(self).model()),
            final(self).wakeups() == old(self).wakeups() + notify_wakeup(
                old(self).model(),
                old(self).waiter(),
            ),
            !woken ==> final(self).waiter() == old(self).waiter(),
    {
        let prev = self.state;
        self.state = NOTIFIED;
        if prev == WAITING {
            self.waker.wake()
        } else {
            assert(old(self).wakeups() + notify_wakeup(old(self).model(), old(self).waiter())
                =~= old(self).wakeups());
            false
        }
    }

    /// Hands out the wake-ups owed, oldest first, for the caller to wake.
    pub fn take_wakeups(&mut self) -> (r: Vec<Waker>)
        requires
            old(self).wf(),
        ensures
            final(self).wf(),
            r@ == old(self).wakeups(),
            final(self).wakeups() == Seq::<Waker>::empty(),
            final(self).model() == old(self).model(),
            final(self).waiter() == old(self).waiter(),
    {
        self.waker.take_wakeups()
    }

    /// Registers `waker` for the waiting task; `true` when a notification was
    /// pending, which this call consumes.
    pub fn register_waker(&mut self, waker: &Waker) -> (notified: bool)
        requires
            old(self).wf(),
        ensures
            final(self).wf(),
            (final(self).model(), notified) == register_step(old(self).model()),
            notified ==> final(self).waiter() == old(self).waiter(),
            final(self).wakeups() == old(self).wakeups(),
            !notified ==> (final(self).waiter() matches Some(w) && vstd::pervasive::strictly_cloned(*waker, w)),
    {
        if self.state == EMPTY {
            self.state = WAITING;
            self.waker.register(waker);
            false
        } else if self.state == NOTIFIED {
            self.state = EMPTY;
            true
        } else {
            self.waker.register(waker);
            if self.state == NOTIFIED {
                self.state = EMPTY;
                true
            } else {
                false
            }
        }
    }

    /// Registers `waker` as the waiter and drops a pending notification: for
    /// a caller that has just found, with the state in hand, that it must
    /// wait.
    pub fn wait_with(&mut self, waker: &Waker)
        ensures
            final(self).wf(),
            final(self).model() == (NotifyModel { state: WAITING, has_waker: true }),
            final(self).wakeups() == old(self).wakeups(),
            final(self).waiter() matches Some(w) && vstd::pervasive::strictly_cloned(*waker, w),
    {
        self.state = WAITING;
        self.waker.register(waker);
    }

    /// One poll of a wait; `true` when the wait completes.
    pub fn poll_waiter(&mut self, first_poll: bool, waker: &Waker) -> (ready: bool)
        requires
            old(self).wf(),
        ensures
            final(self).wf(),
            (final(self).model(), ready) == poll_step(old(self).model(), first_poll),
            ready ==> final(self).waiter() == old(self).waiter(),
            final(self).wakeups() == old(self).wakeups(),
            !ready ==> (final(self).waiter() matches Some(w) && vstd::pervasive::strictly_cloned(*waker, w)),
    {
        if first_poll {
            self.register_waker(waker)
        } else if self.state == NOTIFIED {
            self.state = EMPTY;
            true
        } else {
            let _ = self.register_waker(waker);
            false
        }
    }

    /// Withdraws a wait that is abandoned before it completed.
    pub fn cancel_waiter(&mut self, registered: bool)
        requires
            old(self).wf(),
        ensures
            final(self).wf(),
            final(self).model() == cancel_step(old(self).model(), registered),
            final(self).waiter() == old(self).waiter(),
            final(self).wakeups() == old(self).wakeups(),
    {
        if registered && self.state == WAITING {
            self.state = EMPTY;
        }
    }
}

/// A notification sent while nobody waits makes the next wait complete at its
/// first poll.
pub proof fn lemma_notify_before_wait(m: NotifyModel)
    requires
        valid_notify_state(m.state),
    ensures
        poll_step(notify_step(m).0, true).1,
{
}

/// A completed wait consumes the notification: a wait that starts afterwards
/// does not complete at its first poll.
pub proof fn lemma_notification_consumed(m: NotifyModel)
    requires
        valid_notify_state(m.state),
    ensures
        poll_step(notify_step(m).0, true).0.state == EMPTY,
        !poll_step(poll_step(notify_step(m).0, true).0, true).1,
{
}

/// Notifications sent before a wait count as one.
pub proof fn lemma_notifications_coalesce(m: NotifyModel)
    requires
        valid_notify_state(m.state),
    ensures
        notify_step(notify_step(m).0).0.state == notify_step(m).0.state,
        poll_step(notify_step(notify_step(m).0).0, true).1,
        !poll_step(poll_step(notify_step(notify_step(m).0).0, true).0, true).1,
{
}

/// A waiter that registered and was not notified is woken by the next
/// notification: no wakeup is lost.
pub proof fn lemma_waiter_is_woken(m: NotifyModel)
    requires
        valid_notify_state(m.state),
        !register_step(m).1,
    ensures
        notify_step(register_step(m).0).1,
        poll_step(notify_step(register_step(m).0).0, false).1,
{
}

/// Every step keeps the state code valid.
pub proof fn lemma_steps_keep_state_valid(m: NotifyModel, first_poll: bool, registered: bool)
    requires
        valid_notify_state(m.state),
    ensures
        valid_notify_state(notify_step(m).0.state),
        valid_notify_state(register_step(m).0.state),
        valid_notify_state(poll_step(m, first_poll).0.state),
        valid_notify_state(cancel_step(m, registered).state),
{
}

/// One wait on a [`SingleWaiterNotify`]: whether its first poll has happened.
pub struct Notified {
    registered: bool,
}

impl SingleWaiterNotify {
    /// Returns a wait, to be polled until it completes.
    pub fn notified(&self) -> (w: Notified)
        ensures
            !w.is_registered(),
    {
        Notified { registered: false }
    }
}

impl Notified {
    /// Whether the first poll has happened.
    pub closed spec fn is_registered(&self) -> bool {
        self.registered
    }

    /// Polls the wait on `notify`; `true` when it has completed. The first
    /// poll registers `waker`; later polls complete when a notification is
    /// pending.
    pub fn poll_notified(&mut self, notify: &mut SingleWaiterNotify, waker: &Waker) -> (ready: bool)
        requires
            old(notify).wf(),
        ensures
            final(self).is_registered(),
            final(notify).wf(),
            (final(notify).model(), ready) == poll_step(
                old(notify).model(),
                !old(self).is_registered(),
            ),
            !ready ==> (final(notify).waiter() matches Some(w) && vstd::pervasive::strictly_cloned(*waker, w)),
            final(notify).wakeups() == old(notify).wakeups(),
    {
        let first_poll = !self.registered;
        self.registered = true;
        notify.poll_waiter(first_poll, waker)
    }

    /// Withdraws the wait from `notify`; called when it is dropped before it
    /// completed.
    pub fn cancel(&mut self, notify: &mut SingleWaiterNotify)
        requires
            old(notify).wf(),
        ensures
            final(notify).wf(),
            final(notify).model() == cancel_step(old(notify).model(), old(self).is_registered()),
            final(notify).waiter() == old(notify).waiter(),
            final(notify).wakeups() == old(notify).wakeups(),
            !final(self).is_registered(),
    {
        notify.cancel_waiter(self.registered);
        self.registered = false;
    }
}

/// A waiter whose wait did not complete at once is woken by the next
/// notification: the waker it registered is owed exactly one wake-up, and
/// its next poll completes.
pub proof fn lemma_registered_waiter_is_woken(m: NotifyModel, w: Waker)
    requires
        valid_notify_state(m.state),
        !poll_step(m, true).1,
    ensures
        notify_wakeup(poll_step(m, true).0, Some(w)) == seq![w],
        poll_step(notify_step(poll_step(m, true).0).0, false).1,
{
}

/// Withdrawing a wait never consumes a pending notification: the next wait
/// still completes at once. It only takes back a registration that is still
/// waiting, and a wait that never registered withdraws nothing.
pub proof fn lemma_withdrawal_keeps_notification(m: NotifyModel, registered: bool)
    requires
        valid_notify_state(m.state),
    ensures
        m.state == NOTIFIED ==> cancel_step(m, registered) == m,
        !registered ==> cancel_step(m, registered) == m,
        cancel_step(m, registered).state != m.state ==> m.state == WAITING && cancel_step(
            m,
            registered,
        ).state == EMPTY,
        cancel_step(m, registered).has_waker == m.has_waker,
        poll_step(cancel_step(notify_step(m).0, registered), true).1,
{
}

/// A notification always leaves the notifier notified, whatever it held;
/// a first poll completes exactly when a notification is pending, and
/// consumes it; a later poll completes exactly when one is pending.
pub proof fn lemma_poll_completes_iff_notified(m: NotifyModel, first_poll: bool)
    requires
        valid_notify_state(m.state),
    ensures
        notify_step(m).0.state == NOTIFIED,
        poll_step(m, first_poll).1 <==> m.state == NOTIFIED,
        poll_step(m, first_poll).1 ==> poll_step(m, first_poll).0.state == EMPTY,
        !poll_step(m, first_poll).1 ==> poll_step(m, first_poll).0.state == WAITING,
{
}

} // verus!
