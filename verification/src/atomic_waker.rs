//! Waker storage shared by the primitives of this crate.
//!
//! A slot holds at most one registered waker. Registering replaces the waker
//! that was there with a clone of the new one; taking empties the slot and
//! hands out what it held; waking moves it to the wake-ups that are owed,
//! which the owner of the state hands out (`take_wakeups`) and wakes once it
//! has let go of the state. The primitives keep such a slot in their state,
//! which is changed one operation at a time, so registering and waking never
//! overlap.
use std::task::Waker;
use vstd::prelude::*;

verus! {

/// Makes `std::task::Waker` known to the verifier, as an opaque type.
#[verifier::external_type_specification]
#[verifier::external_body]
pub struct ExWaker(Waker);

/// Calls `Waker::clone`: the result is what that call returns, a waker that
/// wakes the same task. Nothing more is claimed of it: it is opaque.
#[verifier::external_body]
pub(crate) fn clone_waker(waker: &Waker) -> (r: Waker)
    ensures
        vstd::pervasive::strictly_cloned(*waker, r),
{
    waker.clone()
}

/// The wake-ups owed for the waker `w`: one when there is a waker.
pub open spec fn wakeup_of(w: Option<Waker>) -> Seq<Waker> {
    match w {
        Some(w) => seq![w],
        None => Seq::empty(),
    }
}

/// Storage for the waker of the one task that waits on a primitive, and the
/// wake-ups owed.
pub struct AtomicWaker {
    waker: Option<Waker>,
    due: Vec<Waker>,
}

impl AtomicWaker {
    /// The waker stored, if any.
    pub closed spec fn stored(&self) -> Option<Waker> {
        self.waker
    }

    /// The wakers to wake, oldest first.
    pub closed spec fn due(&self) -> Seq<Waker> {
        self.due@
    }

    /// Whether a waker is registered.
    pub open spec fn is_registered(&self) -> bool {
        self.stored() is Some
    }

    /// An empty slot.
    pub fn new() -> (slot: Self)
        ensures
            slot.stored() is None,
            slot.due() == Seq::<Waker>::empty(),
    {
        AtomicWaker { waker: None, due: Vec::new() }
    }

    /// Stores a clone of `waker`, replacing (and dropping) any waker stored before.
    pub fn register(&mut self, waker: &Waker)
        ensures
            final(self).stored() matches Some(w) && vstd::pervasive::strictly_cloned(*waker, w),
            final(self).due() == old(self).due(),
    {
        self.waker = Some(clone_waker(waker));
    }

    /// Removes the stored waker and hands it back; `None` when the slot was empty.
    pub fn take(&mut self) -> (taken: Option<Waker>)
        ensures
            taken == old(self).stored(),
            final(self).stored() is None,
            final(self).due() == old(self).due(),
    {
        self.waker.take()
    }

    /// Wakes the stored waker, if any: it leaves the slot and joins the
    /// wake-ups owed; `true` when there was one.
    pub fn wake(&mut self) -> (woken: bool)
        ensures
            woken == old(self).stored() is Some,
            final(self).stored() is None,
            final(self).due() == old(self).due() + wakeup_of(old(self).stored()),
    {
        let woken = match self.waker.take() {
            Some(w) => {
                self.due.push(w);
                true
            },
            None => false,
        };
        assert(self.due@ =~= old(self).due@ + wakeup_of(old(self).waker));
        woken
    }

    /// Hands out the wake-ups owed, oldest first, for the caller to wake.
    pub fn take_wakeups(&mut self) -> (r: Vec<Waker>)
        ensures
            r@ == old(self).due(),
            final(self).due() == Seq::<Waker>::empty(),
            final(self).stored() == old(self).stored(),
    {
        let mut r: Vec<Waker> = Vec::new();
        std::mem::swap(&mut r, &mut self.due);
        r
    }
}

} // verus!
