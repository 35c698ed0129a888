//! The ready-queue and its two ends: the spawner, which queues new tasks,
//! and the executor, which drives what is queued.
//!
//! The ready-queue is a channel of task handles. It is unbounded, so
//! spawning never blocks; the price is that nothing holds back a caller that
//! spawns faster than the executor drives.
//!
//! The executor's run-loop is `while executor.turn() == RunState::Draining
//! {}`. It ends when the queue is closed and drained: when every spawner and
//! every task is gone. A suspended task is owned by the wake handle that it
//! left with whatever it waits for, so the loop does not end while a
//! wake-up is still to come.

use vstd::prelude::*;
use crate::channel::channel;
use crate::channel::ChannelState;
use crate::channel::Receiver;
use crate::channel::Sender;
use crate::channel::lemma_drain_queued;
use crate::channel::lemma_fifo;
use crate::task::outcome_of;
use crate::task::taken;
use crate::task::Computation;
use crate::task::Drive;
use crate::task::Step;
use crate::task::Task;
use crate::task::WakeHandle;

verus! {

/// A handle on a task: what travels through the ready-queue. It is for the
/// user of the crate to implement, most simply by a struct around an
/// `Arc<Task<Self::Computation, Self>>`: `wrap` puts a new task behind a
/// handle, `task` looks through the handle, and `clone` makes another handle
/// on the same task.
pub trait TaskHandle: Clone + Sized {
    /// What the tasks behind these handles compute.
    type Computation: Computation<WakeHandle<Self>>;

    /// A handle on `task`, which nothing else owns yet.
    fn wrap(task: Task<Self::Computation, Self>) -> Self;

    /// The task behind this handle.
    fn task(&self) -> &Task<Self::Computation, Self>;
}

/// The two states of the run-loop.
#[derive(Clone, Copy, Debug, PartialEq, Eq, Structural)]
pub enum RunState {
    /// The queue is open or holds tasks: the loop goes on.
    Draining,
    /// The queue is closed and empty: the loop has ended.
    Terminated,
}

impl RunState {
    /// The state of the run-loop after it has received `received` from the
    /// ready-queue.
    pub open spec fn after<H>(received: Option<H>) -> RunState {
        match received {
            Some(_) => RunState::Draining,
            None => RunState::Terminated,
        }
    }
}

/// One wake, one drive. A task is suspended, with its computation in the
/// slot. A wake queues the task once, behind whatever is queued. The receives
/// that follow hand out what was queued before, then the task, and then the
/// queue is empty: the wake is not lost, and no second drive follows from
/// it. The executor is the only driver, so it has settled the step that
/// suspended the task before it receives the task again: the drive attempt
/// that the wake leads to finds the computation in the slot and runs a step.
pub proof fn lemma_one_wake_one_drive<H, C>(
    queue: ChannelState<H>,
    task: H,
    slot: Option<C>,
    step: Step,
)
    requires
        slot is Some,
    ensures
        queue.send(task).queue == queue.queue.push(task),
        queue.send(task).drain(queue.queue.len() + 1) == Seq::new(
            queue.queue.len() + 1,
            |i: int| Some(queue.queue.push(task)[i]),
        ),
        queue.send(task).drain(queue.queue.len() + 1).last() == Some(task),
        queue.send(task).after_drain(queue.queue.len() + 1).queue.len() == 0,
        outcome_of(taken(slot), step) != Drive::Skipped,
{
    lemma_drain_queued(queue.send(task), queue.queue.len() + 1);
}

/// As many drives as wakes. After a task was woken `wakes` times while
/// nothing else was queued, the next `wakes` receives hand out the task,
/// once each, and the queue is then as it was before the wakes.
pub proof fn lemma_wakes_are_counted<H>(queue: ChannelState<H>, task: H, wakes: nat)
    requires
        queue.queue.len() == 0,
    ensures
        queue.send_all(Seq::new(wakes, |i: int| task)).drain(wakes) == Seq::new(
            wakes,
            |i: int| Some(task),
        ),
        queue.send_all(Seq::new(wakes, |i: int| task)).after_drain(wakes) == queue,
{
    lemma_fifo(queue, Seq::new(wakes, |i: int| task));
}

/// The end of the ready-queue that takes new computations.
#[verifier::reject_recursive_types(H)]
pub struct Spawner<H> {
    task_sender: Sender<H>,
}

impl<H: TaskHandle> Spawner<H> {
    /// Wraps `computation` into a new task, which gets a sender of the
    /// ready-queue of its own, and queues the task once. It returns at once
    /// and has no result. A task that is spawned after the run-loop has
    /// ended is queued and never driven.
    pub fn spawn(&self, computation: H::Computation) {
        let task = Task::new(computation, self.task_sender.clone());
        self.task_sender.send(H::wrap(task));
    }
}

impl<H> Spawner<H> {
    /// The sender of the ready-queue that this spawner holds.
    pub closed spec fn task_sender(&self) -> Sender<H> {
        self.task_sender
    }
}

impl<H> Clone for Spawner<H> {
    /// Another spawner for the same ready-queue.
    fn clone(&self) -> (cloned: Self)
        ensures
            cloned.task_sender().shared() == self.task_sender().shared(),
    {
        Spawner { task_sender: self.task_sender.clone() }
    }
}

/// The end of the ready-queue that drives the tasks.
#[verifier::reject_recursive_types(H)]
pub struct Executor<H> {
    ready_queue: Receiver<H>,
}

impl<H> Executor<H> {
    /// The receiver of the ready-queue that this executor holds.
    pub closed spec fn ready_queue(&self) -> Receiver<H> {
        self.ready_queue
    }
}

impl<H: TaskHandle> Executor<H> {
    /// One turn of the run-loop: blocks until the ready-queue hands out a
    /// task or ends, and lets [`Executor::dispatch`] do the rest. Tasks are
    /// driven in the order in which they were queued.
    pub fn turn(&self) -> (state: RunState) {
        let received = self.ready_queue.recv();
        Self::dispatch(received)
    }

    /// What the run-loop does with what it received: a task is driven once
    /// ([`Task::drive`]) and the loop goes on; the end of the queue ends the
    /// loop. A task that was queued twice is driven twice; an attempt that
    /// finds the slot empty runs nothing.
    pub fn dispatch(received: Option<H>) -> (state: RunState)
        ensures
            state == RunState::after(received),
    {
        match received {
            None => RunState::Terminated,
            Some(handle) => {
                handle.task().drive(&handle);
                RunState::Draining
            },
        }
    }
}

/// A new ready-queue, with its spawner and its executor.
pub fn ready_queue<H>() -> (ends: (Spawner<H>, Executor<H>))
    ensures
        ends.0.task_sender().feeds(&ends.1.ready_queue()),
{
    let (sender, receiver) = channel();
    (Spawner { task_sender: sender }, Executor { ready_queue: receiver })
}

} // verus!
