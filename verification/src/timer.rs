//! A timer that a computation can wait for.
//!
//! The timer is shared by two parties: the computation that waits, and
//! whoever lets the time pass and then completes the timer. They meet in one
//! block behind one lock. A step that finds the timer running leaves its
//! wake handle in the block; completing the timer takes that handle out and
//! wakes it. Whichever of the two gets the lock first, the computation
//! learns of the completion: it is woken, or its next step finds the timer
//! completed.

use vstd::prelude::*;
use std::sync::Arc;
use std::sync::Mutex;
use crate::sync::held;
use crate::sync::lock;
use crate::task::Computation;
use crate::task::Step;
use crate::task::Wake;

verus! {

/// What a timer's shared block holds: whether the time has passed, and the
/// wake handle of the computation that waits for it, if one was left.
pub struct TimerState<W> {
    pub completed: bool,
    pub waker: Option<W>,
}

impl<W> TimerState<W> {
    /// A timer that has just been started.
    pub open spec fn fresh() -> Self {
        TimerState { completed: false, waker: None }
    }

    /// A completed timer holds no wake handle: there is nobody left to wake.
    pub open spec fn wf(self) -> bool {
        self.completed ==> self.waker is None
    }

    /// What a step of the waiting computation reports on this state.
    pub open spec fn step(self) -> Step {
        if self.completed {
            Step::Complete
        } else {
            Step::Pending
        }
    }

    /// The state after a step that brought `waker`. On a running timer
    /// `waker` takes the place of whatever handle was left before; a
    /// completed timer is not written to.
    pub open spec fn poll(self, waker: W) -> Self {
        if self.completed {
            self
        } else {
            TimerState { completed: false, waker: Some(waker) }
        }
    }

    /// The wake handle that completing the timer has to wake.
    pub open spec fn due(self) -> Option<W> {
        self.waker
    }

    /// The state after the timer was completed.
    pub open spec fn complete(self) -> Self {
        TimerState { completed: true, waker: None }
    }
}

/// No wake-up is lost, whoever gets the lock first. Where the step comes
/// first, it reports [`Step::Pending`] and its wake handle is the one that
/// the completion wakes. Where the completion comes first, it has nobody to
/// wake, and the step reports [`Step::Complete`] and leaves no handle.
pub proof fn lemma_no_lost_wake_up<W>(s: TimerState<W>, waker: W)
    requires
        s.wf(),
        !s.completed,
    ensures
        s.step() == Step::Pending,
        s.poll(waker).complete() == s.complete(),
        s.poll(waker).due() == Some(waker),
        s.complete().step() == Step::Complete,
        s.complete().poll(waker) == s.complete(),
        s.complete().poll(waker).due() is None,
{
}

/// A wake handle is woken at most once: after a completion, completed
/// timers have nothing left to wake, whatever steps and completions follow.
pub proof fn lemma_woken_once<W>(s: TimerState<W>, waker: W)
    requires
        s.wf(),
    ensures
        s.complete().wf(),
        s.complete().due() is None,
        s.complete().complete() == s.complete(),
        s.complete().poll(waker).due() is None,
        s.complete().poll(waker).step() == Step::Complete,
{
}

/// Only the latest wake handle counts: a step on a running timer replaces
/// the handle that an earlier step left.
pub proof fn lemma_latest_waker_counts<W>(s: TimerState<W>, earlier: W, later: W)
    requires
        !s.completed,
    ensures
        s.poll(earlier).poll(later).due() == Some(later),
        s.poll(earlier).poll(later) == s.poll(later),
{
}

/// Every step and every completion keeps a well-formed state well-formed.
pub proof fn lemma_wf_is_kept<W>(s: TimerState<W>, waker: W)
    requires
        s.wf(),
    ensures
        TimerState::<W>::fresh().wf(),
        s.poll(waker).wf(),
        s.complete().wf(),
{
}

/// The block that a timer shares with the computation that waits for it.
pub struct SharedState<W> {
    completed: bool,
    waker: Option<W>,
}

impl<W> View for SharedState<W> {
    type V = TimerState<W>;

    closed spec fn view(&self) -> TimerState<W> {
        TimerState { completed: self.completed, waker: self.waker }
    }
}

impl<W> SharedState<W> {
    #[verifier::type_invariant]
    spec fn well_formed(&self) -> bool {
        self.completed ==> self.waker is None
    }

    /// The block of a timer that has just been started.
    pub fn new() -> (state: Self)
        ensures
            state@ == TimerState::<W>::fresh(),
    {
        SharedState { completed: false, waker: None }
    }

    /// One step of the waiting computation: reports whether the timer has
    /// completed and, if it has not, keeps `waker` for the completion.
    pub fn poll(&mut self, waker: W) -> (step: Step)
        ensures
            old(self)@.wf(),
            step == old(self)@.step(),
            final(self)@ == old(self)@.poll(waker),
    {
        proof {
            use_type_invariant(&*self);
        }
        if self.completed {
            Step::Complete
        } else {
            self.waker = Some(waker);
            Step::Pending
        }
    }

    /// Completes the timer and hands out the wake handle that was left, for
    /// the caller to wake.
    pub fn complete(&mut self) -> (due: Option<W>)
        ensures
            old(self)@.wf(),
            due == old(self)@.due(),
            final(self)@ == old(self)@.complete(),
    {
        proof {
            use_type_invariant(&*self);
        }
        let mut due: Option<W> = None;
        std::mem::swap(&mut due, &mut self.waker);
        self.completed = true;
        due
    }
}

/// A timer: a handle on the block that it shares with its other clones.
/// One clone is driven by the computation that waits; another is completed
/// by whoever lets the time pass.
#[verifier::reject_recursive_types(W)]
pub struct TimerFuture<W> {
    shared_state: Arc<Mutex<SharedState<W>>>,
}

impl<W> TimerFuture<W> {
    /// The two clones are handles on the same timer.
    pub closed spec fn same_timer(&self, other: &Self) -> bool {
        self.shared_state == other.shared_state
    }

    /// A running timer.
    pub fn new() -> Self {
        TimerFuture { shared_state: Arc::new(Mutex::new(SharedState::new())) }
    }

    /// One step of the waiting computation, under the lock
    /// ([`SharedState::poll`]).
    pub fn poll(&self, waker: W) -> (step: Step) {
        let mut guard = lock(&self.shared_state);
        held(&mut guard).poll(waker)
    }

    /// What is done when the time has passed: under the lock, the timer is
    /// completed ([`SharedState::complete`]) and the wake handle that was
    /// left, if any, is woken.
    pub fn complete(&self) where W: Wake {
        let mut guard = lock(&self.shared_state);
        match held(&mut guard).complete() {
            Some(waker) => waker.wake(),
            None => {},
        }
    }
}

impl<W> Clone for TimerFuture<W> {
    /// Another handle on the same timer.
    fn clone(&self) -> (cloned: Self)
        ensures
            cloned.same_timer(self),
    {
        TimerFuture { shared_state: Arc::clone(&self.shared_state) }
    }
}

impl<W> Computation<W> for TimerFuture<W> {
    /// A timer is itself a computation: it is done when the time has passed.
    fn step(&mut self, waker: W) -> Step {
        self.poll(waker)
    }
}

} // verus!
