//! Tasks, and the handles that wake them.
//!
//! A task holds one computation that is driven a step at a time. The
//! computation sits in a [`Slot`]. Whoever drives the task takes it out of
//! the slot, runs one step with the lock released, and puts it back if the
//! step was not the last one. While a step runs the slot is empty, so a
//! second driver finds nothing to run; once the computation has completed
//! the slot stays empty for good.
//!
//! A task cannot name the type of its own handle: a handle owns the task,
//! and the task owns a sender of handles. So the handle type is a parameter
//! `H`, which the user of the crate closes with a type of their own (see
//! [`crate::executor::TaskHandle`]).

use vstd::prelude::*;
use std::sync::Mutex;
use crate::channel::Sender;
use crate::sync::held;
use crate::sync::lock;

verus! {

/// What one step of a computation reports.
#[derive(Clone, Copy, Debug, PartialEq, Eq, Structural)]
pub enum Step {
    /// The computation has suspended and wants to be driven again once it is
    /// woken.
    Pending,
    /// The computation is done.
    Complete,
}

/// What became of one attempt to drive a task.
#[derive(Clone, Copy, Debug, PartialEq, Eq, Structural)]
pub enum Drive {
    /// The slot was empty: the computation has completed, or someone else is
    /// driving it. Nothing was run.
    Skipped,
    /// One step ran and the computation suspended; it is back in the slot.
    Suspended,
    /// One step ran and the computation completed; the slot stays empty.
    Finished,
}

/// Something that can be told that the task it stands for is ready to be
/// driven again.
pub trait Wake {
    /// Tells it so. A wake is safe at any time and from any thread.
    fn wake(&self);
}

/// A computation that is driven one step at a time. A step that reports
/// [`Step::Pending`] keeps `waker`, or a clone of it, with whatever it waits
/// for, to be woken when it can go on.
pub trait Computation<W> {
    /// Runs the computation up to its next suspension or to its end.
    fn step(&mut self, waker: W) -> Step;
}

/// What a driver takes out of a slot that it finds as `slot`.
pub open spec fn taken<C>(slot: Option<C>) -> Option<C> {
    slot
}

/// The slot after a driver has taken from it: empty, whatever it held.
pub open spec fn emptied<C>(slot: Option<C>) -> Option<C> {
    None
}

/// What one drive attempt reports, given what it took out of the slot and
/// what the step reported that it ran, if it ran one.
pub open spec fn outcome_of<C>(taken: Option<C>, step: Step) -> Drive {
    match taken {
        None => Drive::Skipped,
        Some(_) => match step {
            Step::Pending => Drive::Suspended,
            Step::Complete => Drive::Finished,
        },
    }
}

/// The slot after a driver has settled a step: a computation that reported
/// [`Step::Pending`] is back in it, and after [`Step::Complete`] it is as
/// the driver found it.
pub open spec fn settled<C>(slot: Option<C>, computation: C, step: Step) -> Option<C> {
    match step {
        Step::Pending => Some(computation),
        Step::Complete => slot,
    }
}

/// The slot after one whole drive attempt that found it as `slot`: `step` is
/// what the step reports if one is run, and `next` is the computation after
/// that step. An attempt that finds a computation empties the slot, runs the
/// step and settles it; one that finds none leaves the slot empty.
pub open spec fn slot_after_attempt<C>(slot: Option<C>, next: C, step: Step) -> Option<C> {
    match taken(slot) {
        None => emptied(slot),
        Some(_) => settled(emptied(slot), next, step),
    }
}

/// The slot after `steps.len()` drive attempts in a row; attempt `i` would
/// report `steps[i].1` and leave `steps[i].0`, if it ran a step.
pub open spec fn slot_after_attempts<C>(slot: Option<C>, steps: Seq<(C, Step)>) -> Option<C>
    decreases steps.len(),
{
    if steps.len() == 0 {
        slot
    } else {
        slot_after_attempts(
            slot_after_attempt(slot, steps[0].0, steps[0].1),
            steps.drop_first(),
        )
    }
}

/// What each of `steps.len()` drive attempts in a row reports.
pub open spec fn outcomes_of_attempts<C>(slot: Option<C>, steps: Seq<(C, Step)>) -> Seq<Drive>
    decreases steps.len(),
{
    if steps.len() == 0 {
        Seq::empty()
    } else {
        seq![outcome_of(slot, steps[0].1)] + outcomes_of_attempts(
            slot_after_attempt(slot, steps[0].0, steps[0].1),
            steps.drop_first(),
        )
    }
}

/// One driver at a time. Two drivers reach an occupied slot together; the
/// lock lets one of them take first. That one takes the computation and
/// runs the step. The other takes from the emptied slot: it gets nothing,
/// runs nothing, reports [`Drive::Skipped`] and leaves the slot empty,
/// whatever its step would have been.
pub proof fn lemma_one_driver<C>(slot: Option<C>, next: C, step: Step, other_step: Step)
    requires
        slot is Some,
    ensures
        taken(slot) is Some,
        outcome_of(taken(slot), step) != Drive::Skipped,
        taken(emptied(slot)) is None,
        outcome_of(taken(emptied(slot)), other_step) == Drive::Skipped,
        slot_after_attempt(emptied(slot), next, other_step) == emptied(slot),
{
}

/// A completed task stays completed: the attempt that completes it leaves
/// the slot empty, and on an empty slot any number of further attempts run
/// nothing, each reports [`Drive::Skipped`], and the slot stays empty.
pub proof fn lemma_completed_for_good<C>(slot: Option<C>, next: C, steps: Seq<(C, Step)>)
    ensures
        slot_after_attempt(slot, next, Step::Complete) is None,
        slot_after_attempts(None::<C>, steps) is None,
        outcomes_of_attempts(None::<C>, steps) == Seq::new(steps.len(), |i: int| Drive::Skipped),
    decreases steps.len(),
{
    if steps.len() > 0 {
        lemma_completed_for_good(slot, next, steps.drop_first());
    }
}

/// The holder of a task's computation. Its view is the computation that it
/// holds, if it holds one.
pub struct Slot<C> {
    computation: Option<C>,
}

impl<C> View for Slot<C> {
    type V = Option<C>;

    closed spec fn view(&self) -> Option<C> {
        self.computation
    }
}

impl<C> Slot<C> {
    /// A slot that holds `computation`.
    pub fn new(computation: C) -> (slot: Self)
        ensures
            slot@ == Some(computation),
    {
        Slot { computation: Some(computation) }
    }

    /// Takes out what the slot holds and leaves it empty.
    pub fn take(&mut self) -> (taken: Option<C>)
        ensures
            taken == self::taken(old(self)@),
            final(self)@ == emptied(old(self)@),
    {
        self.computation.take()
    }

    /// Settles the step that a driver has run on `computation`, which it
    /// had taken out of this slot: after [`Step::Pending`] the computation
    /// goes back into the slot, after [`Step::Complete`] it is dropped and
    /// the slot is left as it is.
    pub fn settle(&mut self, computation: C, step: Step) -> (outcome: Drive)
        ensures
            final(self)@ == settled(old(self)@, computation, step),
            outcome == outcome_of(Some(computation), step),
    {
        match step {
            Step::Pending => {
                self.computation = Some(computation);
                Drive::Suspended
            },
            Step::Complete => Drive::Finished,
        }
    }
}

/// A handle that puts one task back on the ready-queue: the task's handle,
/// and a sender of the queue.
#[verifier::reject_recursive_types(H)]
pub struct WakeHandle<H> {
    task: H,
    reschedule_sender: Sender<H>,
}

impl<H> WakeHandle<H> {
    /// The task that this handle wakes.
    pub closed spec fn task(&self) -> H {
        self.task
    }

    /// The sender on which it sends the task.
    pub closed spec fn reschedule_sender(&self) -> Sender<H> {
        self.reschedule_sender
    }

    /// A handle that wakes `task` by sending it on `reschedule_sender`.
    pub fn new(task: H, reschedule_sender: Sender<H>) -> (handle: Self)
        ensures
            handle.task() == task,
            handle.reschedule_sender() == reschedule_sender,
    {
        WakeHandle { task, reschedule_sender }
    }
}

impl<H: Clone> Wake for WakeHandle<H> {
    /// Sends a clone of the task's handle on the ready-queue. It may be
    /// called from any thread, any number of times, also after the task has
    /// completed: each call queues the task once more, and a drive attempt
    /// on a completed task runs nothing.
    fn wake(&self) {
        self.reschedule_sender.send(self.task.clone());
    }
}

impl<H: Clone> Clone for WakeHandle<H> {
    /// Another handle for the same task, with a sender of its own for the
    /// same queue.
    fn clone(&self) -> (handle: Self)
        ensures
            cloned(self.task(), handle.task()),
            handle.reschedule_sender().shared() == self.reschedule_sender().shared(),
    {
        WakeHandle { task: self.task.clone(), reschedule_sender: self.reschedule_sender.clone() }
    }
}

/// One computation in its slot, behind a lock, and a sender of the
/// ready-queue from which the task's wake handles are made. As long as a
/// task lives, the queue has a sender and stays open.
#[verifier::reject_recursive_types(C)]
#[verifier::reject_recursive_types(H)]
pub struct Task<C, H> {
    computation: Mutex<Slot<C>>,
    reschedule_sender: Sender<H>,
}

impl<C, H> Task<C, H> {
    /// The sender from which the task's wake handles get theirs.
    pub closed spec fn reschedule_sender(&self) -> Sender<H> {
        self.reschedule_sender
    }

    /// A task that holds `computation` and reschedules itself through
    /// `reschedule_sender`.
    pub fn new(computation: C, reschedule_sender: Sender<H>) -> (task: Self)
        ensures
            task.reschedule_sender() == reschedule_sender,
    {
        Task { computation: Mutex::new(Slot::new(computation)), reschedule_sender }
    }

    /// One drive attempt. `self_handle` is a handle of this very task; the
    /// wake handle that the step gets is bound to a clone of it.
    ///
    /// The computation is taken out of the slot under the lock
    /// ([`Slot::take`]), and [`Task::resume`] does the rest.
    pub fn drive(&self, self_handle: &H) -> (outcome: Drive)
        where
            H: Clone,
            C: Computation<WakeHandle<H>>,
    {
        let taken = {
            let mut guard = lock(&self.computation);
            held(&mut guard).take()
        };
        self.resume(taken, self_handle)
    }

    /// The rest of a drive attempt that took `taken` out of the slot. Where
    /// nothing was taken, nothing is run. Otherwise the computation runs one
    /// step, with a new wake handle and with the lock released, and the
    /// step is settled under the lock ([`Slot::settle`]).
    pub fn resume(&self, taken: Option<C>, self_handle: &H) -> (outcome: Drive)
        where
            H: Clone,
            C: Computation<WakeHandle<H>>,
        ensures
            outcome == outcome_of(taken, Step::Pending) || outcome == outcome_of(
                taken,
                Step::Complete,
            ),
    {
        match taken {
            None => Drive::Skipped,
            Some(mut computation) => {
                let waker = WakeHandle::new(self_handle.clone(), self.reschedule_sender.clone());
                let step = computation.step(waker);
                let mut guard = lock(&self.computation);
                held(&mut guard).settle(computation, step)
            },
        }
    }
}

} // verus!
