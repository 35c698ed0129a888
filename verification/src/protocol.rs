//! The protocols of the scheduler, as transition systems.
//!
//! The first is the wake-up protocol. One task waits for one timer. An
//! executor drives the task, in four moves: it receives the task from the
//! ready-queue; it takes the computation out of the slot; it runs the step,
//! which looks at the timer; it settles the step. A timer thread completes
//! the timer and then wakes the handle that it found there, at any moment
//! between the executor's moves. The task owns a sender of the ready-queue,
//! and so does each wake handle; the spawner is gone. When nothing is queued
//! and no sender is left, the executor's loop ends.
//!
//! What is proved of every state that these moves can reach: the task is
//! never left suspended with nobody to wake it, it is queued at most once at
//! a time, every time it is queued it runs a step, when it has completed it
//! has run one step more than it was woken, and the loop ends when the task
//! has completed and not before.
//!
//! The second is the protocol of the slot, with two drivers that take and
//! settle in any order: the computation is never in two places.
//!
//! Each move is one critical section of the code, and is written with the
//! very functions that the contracts of the code speak of.

use vstd::prelude::*;
use crate::channel::ChannelState;
use crate::task::emptied;
use crate::task::settled;
use crate::task::taken;
use crate::task::Step;
use crate::timer::TimerState;

verus! {

/// What the executor is doing with the task.
pub enum Phase<C> {
    /// Nothing: it is between two turns of its loop.
    Idle,
    /// It has received the task and is about to take from the slot.
    Received,
    /// It has taken the computation out of the slot and is about to run the
    /// step.
    Holding(C),
    /// It has run the step, which reported this, and is about to settle it.
    Stepped(C, Step),
    /// It has found the ready-queue closed and has left its loop.
    Terminated,
}

/// What the timer thread is doing.
pub enum Clock<H> {
    /// It lets the time pass.
    Sleeping,
    /// It has completed the timer and found this wake handle there; it still
    /// holds the timer's lock and is about to wake the handle.
    Waking(H),
    /// It has done its work.
    Done,
}

/// The three shared blocks, what the two threads are doing, and two
/// counters.
pub struct System<C, H> {
    /// The ready-queue.
    pub queue: ChannelState<H>,
    /// The task's slot.
    pub slot: Option<C>,
    /// The timer's block. The wake handle that a step leaves there is
    /// written as the handle of the task that it wakes.
    pub timer: TimerState<H>,
    /// The executor's place in its turn.
    pub executor: Phase<C>,
    /// The timer thread's place in its work.
    pub clock: Clock<H>,
    /// How many steps of the computation have run.
    pub steps: nat,
    /// How many times the task was woken.
    pub wakes: nat,
}

impl<C, H> System<C, H> {
    /// The task has just been spawned and the spawner dropped: the task has
    /// got a sender of its own and is queued once, its computation sits in
    /// the slot, and the timer runs.
    pub open spec fn spawned(computation: C, task: H) -> Self {
        System {
            queue: ChannelState::<H>::fresh().add_sender().send(task).drop_sender(),
            slot: Some(computation),
            timer: TimerState::<H>::fresh(),
            executor: Phase::Idle,
            clock: Clock::Sleeping,
            steps: 0,
            wakes: 0,
        }
    }

    /// The executor can receive: it is idle and the queue holds a task.
    pub open spec fn can_receive(self) -> bool {
        self.executor is Idle && self.queue.head() is Some
    }

    /// The executor receives the task.
    pub open spec fn receive(self) -> Self {
        System { queue: self.queue.recv(), executor: Phase::Received, ..self }
    }

    /// The executor can take from the slot: it has received the task.
    pub open spec fn can_take(self) -> bool {
        self.executor is Received
    }

    /// A wake handle is alive: the timer holds it, or the timer thread does.
    pub open spec fn wake_handle_alive(self) -> bool {
        self.timer.waker is Some || self.clock is Waking
    }

    /// The queue when the executor has dropped its handle of the task at the
    /// end of a turn. Where no other handle is left, queued or in a wake
    /// handle, the task goes, and its sender with it.
    pub open spec fn released(self) -> ChannelState<H> {
        if self.queue.queue.len() == 0 && !self.wake_handle_alive() {
            self.queue.drop_sender()
        } else {
            self.queue
        }
    }

    /// The executor takes from the slot. Where it finds nothing, its turn
    /// is over.
    pub open spec fn take(self) -> Self {
        System {
            queue: match taken(self.slot) {
                Some(_) => self.queue,
                None => self.released(),
            },
            slot: emptied(self.slot),
            executor: match taken(self.slot) {
                Some(computation) => Phase::Holding(computation),
                None => Phase::Idle,
            },
            ..self
        }
    }

    /// The executor can run the step: it holds the computation, and the
    /// timer's lock is free.
    pub open spec fn can_step(self) -> bool {
        self.executor is Holding && !(self.clock is Waking)
    }

    /// The executor runs the step, with a new wake handle, which has a
    /// sender of its own: the computation looks at the timer and leaves the
    /// wake handle of `task` there if the timer still runs. Otherwise the
    /// wake handle is dropped.
    pub open spec fn step(self, task: H) -> Self {
        System {
            queue: if self.timer.completed {
                self.queue.add_sender().drop_sender()
            } else {
                self.queue.add_sender()
            },
            timer: self.timer.poll(task),
            executor: Phase::Stepped(self.executor->Holding_0, self.timer.step()),
            steps: self.steps + 1,
            ..self
        }
    }

    /// The executor can settle: it has run the step.
    pub open spec fn can_settle(self) -> bool {
        self.executor is Stepped
    }

    /// The executor settles the step, and its turn is over.
    pub open spec fn settle(self) -> Self {
        System {
            queue: self.released(),
            slot: settled(self.slot, self.executor->Stepped_0, self.executor->Stepped_1),
            executor: Phase::Idle,
            ..self
        }
    }

    /// The timer thread can complete the timer: the time has not passed yet.
    pub open spec fn can_complete(self) -> bool {
        self.clock is Sleeping
    }

    /// The timer thread completes the timer and takes out the wake handle
    /// that it finds there. With no handle to wake, its work is done.
    pub open spec fn complete(self) -> Self {
        System {
            timer: self.timer.complete(),
            clock: match self.timer.due() {
                Some(task) => Clock::Waking(task),
                None => Clock::Done,
            },
            ..self
        }
    }

    /// The timer thread can wake: it has found a wake handle.
    pub open spec fn can_wake(self) -> bool {
        self.clock is Waking
    }

    /// The timer thread wakes the handle, which queues the task, and drops
    /// it.
    pub open spec fn wake(self) -> Self {
        System {
            queue: self.queue.send(self.clock->Waking_0).drop_sender(),
            clock: Clock::Done,
            wakes: self.wakes + 1,
            ..self
        }
    }

    /// The executor can leave its loop: it is idle and finds the queue
    /// closed.
    pub open spec fn can_terminate(self) -> bool {
        self.executor is Idle && self.queue.is_closed()
    }

    /// The executor leaves its loop.
    pub open spec fn terminate(self) -> Self {
        System { executor: Phase::Terminated, ..self }
    }

    /// `after` is what one move makes of this state.
    pub open spec fn moves_to(self, after: Self, task: H) -> bool {
        ||| self.can_terminate() && after == self.terminate()
        ||| self.can_receive() && after == self.receive()
        ||| self.can_take() && after == self.take()
        ||| self.can_step() && after == self.step(task)
        ||| self.can_settle() && after == self.settle()
        ||| self.can_complete() && after == self.complete()
        ||| self.can_wake() && after == self.wake()
    }

    /// No move is left.
    pub open spec fn at_rest(self) -> bool {
        &&& !self.can_terminate()
        &&& !self.can_receive()
        &&& !self.can_take()
        &&& !self.can_step()
        &&& !self.can_settle()
        &&& !self.can_complete()
        &&& !self.can_wake()
    }

    /// The task has completed: its computation is nowhere any more.
    pub open spec fn completed(self) -> bool {
        (self.executor is Idle || self.executor is Terminated) && self.slot is None
    }

    /// A handle of the task is alive: it is queued, or the executor has it
    /// in its turn, or a wake handle has it.
    pub open spec fn task_alive(self) -> bool {
        ||| self.queue.queue.len() > 0
        ||| self.executor is Received
        ||| self.executor is Holding
        ||| self.executor is Stepped
        ||| self.wake_handle_alive()
    }

    /// The task is suspended: its computation sits in the slot and nobody is
    /// driving it.
    pub open spec fn suspended(self) -> bool {
        self.executor is Idle && self.slot is Some
    }

    /// How often the task is on its way to a step: queued, or received and
    /// not yet stepped.
    pub open spec fn on_the_way(self) -> nat {
        self.queue.queue.len() + (if self.executor is Received || self.executor is Holding {
            1nat
        } else {
            0nat
        })
    }

    /// What holds of every state that the moves reach from a spawned task.
    pub open spec fn holds(self, computation: C, task: H) -> bool {
        let queued = self.queue.queue;
        &&& self.timer.wf()
        &&& forall|i: int| 0 <= i < queued.len() ==> queued[i] == task
        &&& self.on_the_way() <= 1
        &&& self.steps + self.on_the_way() == 1 + self.wakes
        &&& self.queue.senders == (if self.task_alive() {
            1nat
        } else {
            0nat
        }) + (if self.wake_handle_alive() {
            1nat
        } else {
            0nat
        })
        &&& match self.clock {
            Clock::Sleeping => !self.timer.completed && self.wakes == 0,
            Clock::Waking(woken) => {
                &&& woken == task
                &&& self.timer.completed
                &&& self.wakes == 0
                &&& self.on_the_way() == 0
                &&& self.suspended() || self.executor is Stepped
            },
            Clock::Done => self.timer.completed && self.wakes <= 1,
        }
        &&& self.timer.waker is Some ==> {
            &&& self.timer.waker == Some(task)
            &&& self.on_the_way() == 0
            &&& self.suspended() || self.executor is Stepped
        }
        &&& match self.executor {
            Phase::Idle => match self.slot {
                Some(c) => {
                    &&& c == computation
                    &&& queued.len() == 1 || self.timer.waker is Some || self.clock is Waking
                },
                None => self.clock is Done && queued.len() == 0,
            },
            Phase::Received => self.slot == Some(computation),
            Phase::Holding(c) => c == computation && self.slot is None,
            Phase::Stepped(c, step) => {
                &&& c == computation
                &&& self.slot is None
                &&& match step {
                    Step::Pending => {
                        ||| self.timer.waker is Some
                        ||| self.clock is Waking
                        ||| queued.len() == 1
                    },
                    Step::Complete => self.clock is Done && queued.len() == 0,
                }
            },
            Phase::Terminated => self.slot is None && self.clock is Done && queued.len() == 0,
        }
    }
}

/// A task that has just been spawned satisfies the invariant.
pub proof fn lemma_holds_at_spawn<C, H>(computation: C, task: H)
    ensures
        System::spawned(computation, task).holds(computation, task),
{
}

/// Every move keeps the invariant, whoever makes it and whenever.
pub proof fn lemma_holds_after_every_move<C, H>(
    before: System<C, H>,
    after: System<C, H>,
    computation: C,
    task: H,
)
    requires
        before.holds(computation, task),
        before.moves_to(after, task),
    ensures
        after.holds(computation, task),
{
}

/// A run: the states that a spawned task goes through, each made of the one
/// before by one move.
pub open spec fn is_run<C, H>(states: Seq<System<C, H>>, computation: C, task: H) -> bool {
    &&& states.len() > 0
    &&& states[0] == System::spawned(computation, task)
    &&& forall|i: int|
        0 <= i < states.len() - 1 ==> (#[trigger] states[i]).moves_to(states[i + 1], task)
}

/// The invariant holds of every state of every run.
pub proof fn lemma_holds_along_every_run<C, H>(
    states: Seq<System<C, H>>,
    computation: C,
    task: H,
    at: int,
)
    requires
        is_run(states, computation, task),
        0 <= at < states.len(),
    ensures
        states[at].holds(computation, task),
    decreases at,
{
    if at == 0 {
        lemma_holds_at_spawn(computation, task);
    } else {
        lemma_holds_along_every_run(states, computation, task, at - 1);
        lemma_holds_after_every_move(states[at - 1], states[at], computation, task);
    }
}

/// No wake-up is lost. A suspended task is queued, so that the executor can
/// receive it; or the timer thread is about to wake it; or the timer still
/// runs and holds the task's wake handle, so that the timer thread will
/// find it. The task is never suspended with nobody left to queue it.
pub proof fn lemma_suspended_task_is_not_forgotten<C, H>(
    s: System<C, H>,
    computation: C,
    task: H,
)
    requires
        s.holds(computation, task),
        s.suspended(),
    ensures
        !s.at_rest(),
        s.can_receive() || s.can_wake() || (s.can_complete() && s.timer.due() == Some(task)),
        s.can_complete() && s.timer.due() == Some(task) ==> s.complete().can_wake(),
        s.can_wake() ==> s.wake().can_receive(),
{
}

/// Whatever is queued is driven. When the executor has received the task,
/// it finds the computation in the slot, holds it, and runs a step as soon
/// as the timer's lock is free: a drive attempt is never skipped, so each
/// time the task is queued it runs one step.
pub proof fn lemma_queued_task_runs_a_step<C, H>(s: System<C, H>, computation: C, task: H)
    requires
        s.holds(computation, task),
        s.can_receive(),
    ensures
        s.queue.head() == Some(task),
        s.receive().can_take(),
        s.receive().take().executor == Phase::Holding(computation),
        s.receive().take().step(task).steps == s.steps + 1,
{
}

/// One step more than wakes. The task is woken at most once. When it has
/// completed, nothing is queued and no sender is left, so that the
/// executor's loop ends; the task has run one step if it was never woken,
/// and two if it was woken: one that left the wake handle with the timer,
/// and one that found the timer completed.
pub proof fn lemma_steps_when_completed<C, H>(s: System<C, H>, computation: C, task: H)
    requires
        s.holds(computation, task),
        s.completed(),
    ensures
        s.wakes <= 1,
        s.steps == 1 + s.wakes,
        s.queue.is_closed(),
        s.executor is Idle ==> s.can_terminate(),
        s.executor is Terminated ==> s.at_rest(),
{
}

/// The loop does not end before the task has completed. As long as the
/// task has not completed, the ready-queue is not closed: the task or a
/// wake handle holds a sender. So a suspended task is not abandoned.
pub proof fn lemma_open_until_completed<C, H>(s: System<C, H>, computation: C, task: H)
    requires
        s.holds(computation, task),
        !s.completed(),
    ensures
        !s.queue.is_closed(),
        !s.can_terminate(),
        !(s.executor is Terminated),
{
}

/// The moves end only when the executor has left its loop, and then the
/// task has completed: as long as it has not, one of the two threads can
/// move.
pub proof fn lemma_rest_means_terminated<C, H>(s: System<C, H>, computation: C, task: H)
    requires
        s.holds(computation, task),
        s.at_rest(),
    ensures
        s.executor is Terminated,
        s.completed(),
        s.steps == 1 + s.wakes,
{
    if s.executor is Idle && s.slot is Some {
        lemma_suspended_task_is_not_forgotten(s, computation, task);
    }
}

/// Two drivers of one task: the slot, and what each driver has taken out of
/// it and not yet settled.
pub struct Drivers<C> {
    pub slot: Option<C>,
    pub first: Option<C>,
    pub second: Option<C>,
}

impl<C> Drivers<C> {
    /// Nobody drives the task, which is suspended or has completed.
    pub open spec fn undriven(slot: Option<C>) -> Self {
        Drivers { slot, first: None, second: None }
    }

    /// The first driver takes from the slot.
    pub open spec fn first_takes(self) -> Self {
        Drivers { slot: emptied(self.slot), first: taken(self.slot), ..self }
    }

    /// The second driver takes from the slot.
    pub open spec fn second_takes(self) -> Self {
        Drivers { slot: emptied(self.slot), second: taken(self.slot), ..self }
    }

    /// The first driver settles the step that it has run, which reported
    /// `step` and left `next`.
    pub open spec fn first_settles(self, next: C, step: Step) -> Self {
        Drivers { slot: settled(self.slot, next, step), first: None, ..self }
    }

    /// The second driver settles the step that it has run.
    pub open spec fn second_settles(self, next: C, step: Step) -> Self {
        Drivers { slot: settled(self.slot, next, step), second: None, ..self }
    }

    /// `after` is what one move of one driver makes of this state. A driver
    /// takes when it holds nothing, and settles when it holds a computation,
    /// on which it has run the step.
    pub open spec fn moves_to(self, after: Self) -> bool {
        ||| self.first is None && after == self.first_takes()
        ||| self.second is None && after == self.second_takes()
        ||| self.first is Some && exists|next: C, step: Step|
            after == self.first_settles(next, step)
        ||| self.second is Some && exists|next: C, step: Step|
            after == self.second_settles(next, step)
    }

    /// In how many places the computation is: in the slot, with the first
    /// driver, with the second.
    pub open spec fn places(self) -> nat {
        (if self.slot is Some {
            1nat
        } else {
            0nat
        }) + (if self.first is Some {
            1nat
        } else {
            0nat
        }) + (if self.second is Some {
            1nat
        } else {
            0nat
        })
    }
}

/// One driver at a time, however the moves of two drivers interleave: the
/// computation is in one place at most. So the two never hold it together,
/// and while one of them runs the step the other finds the slot empty.
pub proof fn lemma_one_place<C>(before: Drivers<C>, after: Drivers<C>, slot: Option<C>)
    requires
        before.places() <= 1,
        before.moves_to(after),
    ensures
        Drivers::undriven(slot).places() <= 1,
        after.places() <= 1,
        !(after.first is Some && after.second is Some),
        after.first is Some || after.second is Some ==> after.slot is None,
{
}

/// Two drivers reach a suspended task together. Whichever takes first gets
/// the computation, and the other gets nothing: exactly one of them runs
/// the step.
pub proof fn lemma_one_of_two_drives<C>(slot: Option<C>)
    requires
        slot is Some,
    ensures
        ({
            let both = Drivers::undriven(slot).first_takes().second_takes();
            both.first == slot && both.second is None && both.slot is None
        }),
        ({
            let both = Drivers::undriven(slot).second_takes().first_takes();
            both.second == slot && both.first is None && both.slot is None
        }),
{
}

} // verus!
