use std::sync::Arc;
use std::sync::Mutex;

use coop_sched::executor::ready_queue;
use coop_sched::executor::Executor;
use coop_sched::executor::RunState;
use coop_sched::executor::TaskHandle;
use coop_sched::task::Computation;
use coop_sched::task::Step;
use coop_sched::task::Task;
use coop_sched::task::Wake;
use coop_sched::task::WakeHandle;
use coop_sched::timer::TimerFuture;

struct Handle(Arc<Task<Job, Handle>>);

impl Clone for Handle {
    fn clone(&self) -> Self {
        Handle(self.0.clone())
    }
}

impl TaskHandle for Handle {
    type Computation = Job;

    fn wrap(task: Task<Job, Handle>) -> Self {
        Handle(Arc::new(task))
    }

    fn task(&self) -> &Task<Job, Handle> {
        &self.0
    }
}

/// What a job does in one step.
enum Plan {
    /// Waits for the timer.
    Await(TimerFuture<WakeHandle<Handle>>),
    /// Waits for the timer, which completes just after the step has looked
    /// at it.
    AwaitThenFire(TimerFuture<WakeHandle<Handle>>),
    /// Waits for the timer, which completes just before the step looks at
    /// it.
    FireThenAwait(TimerFuture<WakeHandle<Handle>>),
    /// Wakes itself this many times and suspends; completes when driven
    /// again.
    WakeSelf(u32),
    /// Suspends and drops its wake handle.
    Forget,
    /// Completes.
    Finish,
}

struct Job {
    name: u32,
    plan: Plan,
    log: Arc<Mutex<Vec<u32>>>,
}

impl Computation<WakeHandle<Handle>> for Job {
    fn step(&mut self, waker: WakeHandle<Handle>) -> Step {
        self.log.lock().unwrap().push(self.name);
        match &self.plan {
            Plan::Await(timer) => timer.poll(waker),
            Plan::AwaitThenFire(timer) => {
                let step = timer.poll(waker);
                timer.complete();
                step
            }
            Plan::FireThenAwait(timer) => {
                timer.complete();
                timer.poll(waker)
            }
            Plan::WakeSelf(times) => {
                for _ in 0..*times {
                    waker.wake();
                }
                self.plan = Plan::Finish;
                Step::Pending
            }
            Plan::Forget => Step::Pending,
            Plan::Finish => Step::Complete,
        }
    }
}

fn run(executor: &Executor<Handle>) -> u32 {
    let mut turns = 0;
    while executor.turn() == RunState::Draining {
        turns += 1;
    }
    turns
}

#[test]
fn timer_task_is_driven_twice() {
    let (spawner, executor) = ready_queue::<Handle>();
    let timer = TimerFuture::new();
    let log = Arc::new(Mutex::new(Vec::new()));
    spawner.spawn(Job { name: 1, plan: Plan::Await(timer.clone()), log: log.clone() });
    drop(spawner);

    assert_eq!(executor.turn(), RunState::Draining);
    assert_eq!(*log.lock().unwrap(), vec![1]);

    timer.complete();

    assert_eq!(executor.turn(), RunState::Draining);
    assert_eq!(*log.lock().unwrap(), vec![1, 1]);

    assert_eq!(executor.turn(), RunState::Terminated);
    assert_eq!(*log.lock().unwrap(), vec![1, 1]);
}

#[test]
fn timer_that_completed_before_the_first_drive_needs_one_drive() {
    let (spawner, executor) = ready_queue::<Handle>();
    let timer = TimerFuture::new();
    let log = Arc::new(Mutex::new(Vec::new()));
    spawner.spawn(Job { name: 1, plan: Plan::Await(timer.clone()), log: log.clone() });
    drop(spawner);
    timer.complete();
    assert_eq!(run(&executor), 1);
    assert_eq!(*log.lock().unwrap(), vec![1]);
}

#[test]
fn run_loop_ends_at_once_without_tasks() {
    let (spawner, executor) = ready_queue::<Handle>();
    drop(spawner);
    assert_eq!(executor.turn(), RunState::Terminated);
    assert_eq!(executor.turn(), RunState::Terminated);
}

#[test]
fn tasks_are_driven_in_the_order_of_spawning() {
    let (spawner, executor) = ready_queue::<Handle>();
    let log = Arc::new(Mutex::new(Vec::new()));
    let second = spawner.clone();
    spawner.spawn(Job { name: 1, plan: Plan::Finish, log: log.clone() });
    second.spawn(Job { name: 2, plan: Plan::Finish, log: log.clone() });
    spawner.spawn(Job { name: 3, plan: Plan::Finish, log: log.clone() });
    drop(spawner);
    drop(second);
    assert_eq!(run(&executor), 3);
    assert_eq!(*log.lock().unwrap(), vec![1, 2, 3]);
}

#[test]
fn a_task_woken_once_is_driven_once_more() {
    let (spawner, executor) = ready_queue::<Handle>();
    let log = Arc::new(Mutex::new(Vec::new()));
    spawner.spawn(Job { name: 1, plan: Plan::WakeSelf(1), log: log.clone() });
    drop(spawner);
    assert_eq!(run(&executor), 2);
    assert_eq!(*log.lock().unwrap(), vec![1, 1]);
}

#[test]
fn a_task_queued_twice_is_not_run_twice() {
    let (spawner, executor) = ready_queue::<Handle>();
    let log = Arc::new(Mutex::new(Vec::new()));
    spawner.spawn(Job { name: 1, plan: Plan::WakeSelf(3), log: log.clone() });
    drop(spawner);
    // One turn for the spawn and one for each of the three wakes; the
    // computation runs in the first two and has completed by then.
    assert_eq!(run(&executor), 4);
    assert_eq!(*log.lock().unwrap(), vec![1, 1]);
}

#[test]
fn a_task_that_nobody_will_wake_is_given_up() {
    let (spawner, executor) = ready_queue::<Handle>();
    let log = Arc::new(Mutex::new(Vec::new()));
    spawner.spawn(Job { name: 1, plan: Plan::Forget, log: log.clone() });
    spawner.spawn(Job { name: 2, plan: Plan::Finish, log: log.clone() });
    drop(spawner);
    assert_eq!(run(&executor), 2);
    assert_eq!(*log.lock().unwrap(), vec![1, 2]);
}

#[test]
fn tasks_interleave_at_their_suspensions() {
    let (spawner, executor) = ready_queue::<Handle>();
    let log = Arc::new(Mutex::new(Vec::new()));
    spawner.spawn(Job { name: 1, plan: Plan::WakeSelf(1), log: log.clone() });
    spawner.spawn(Job { name: 2, plan: Plan::WakeSelf(1), log: log.clone() });
    drop(spawner);
    assert_eq!(run(&executor), 4);
    assert_eq!(*log.lock().unwrap(), vec![1, 2, 1, 2]);
}

#[test]
fn a_waiting_task_keeps_the_run_loop_alive() {
    let (spawner, executor) = ready_queue::<Handle>();
    let timer = TimerFuture::new();
    let log = Arc::new(Mutex::new(Vec::new()));
    spawner.spawn(Job { name: 1, plan: Plan::Await(timer.clone()), log: log.clone() });
    spawner.spawn(Job { name: 2, plan: Plan::Finish, log: log.clone() });
    drop(spawner);
    assert_eq!(executor.turn(), RunState::Draining);
    assert_eq!(executor.turn(), RunState::Draining);
    assert_eq!(*log.lock().unwrap(), vec![1, 2]);
    // Task 1 is suspended and the queue is empty, but the timer holds its
    // wake handle: the queue is still open, and the wake-up comes through.
    timer.complete();
    assert_eq!(run(&executor), 1);
    assert_eq!(*log.lock().unwrap(), vec![1, 2, 1]);
}

#[test]
fn timer_that_completes_during_the_step_still_wakes() {
    let (spawner, executor) = ready_queue::<Handle>();
    let log = Arc::new(Mutex::new(Vec::new()));
    spawner.spawn(Job { name: 1, plan: Plan::AwaitThenFire(TimerFuture::new()), log: log.clone() });
    drop(spawner);
    assert_eq!(run(&executor), 2);
    assert_eq!(*log.lock().unwrap(), vec![1, 1]);
}

#[test]
fn timer_that_completes_before_the_step_looks_needs_no_wake() {
    let (spawner, executor) = ready_queue::<Handle>();
    let log = Arc::new(Mutex::new(Vec::new()));
    spawner.spawn(Job { name: 1, plan: Plan::FireThenAwait(TimerFuture::new()), log: log.clone() });
    drop(spawner);
    assert_eq!(run(&executor), 1);
    assert_eq!(*log.lock().unwrap(), vec![1]);
}

#[test]
fn a_task_spawned_without_an_executor_is_never_driven() {
    let (spawner, executor) = ready_queue::<Handle>();
    let log = Arc::new(Mutex::new(Vec::new()));
    drop(executor);
    spawner.spawn(Job { name: 1, plan: Plan::Finish, log: log.clone() });
    spawner.spawn(Job { name: 2, plan: Plan::Finish, log: log.clone() });
    drop(spawner);
    assert!(log.lock().unwrap().is_empty());
}
