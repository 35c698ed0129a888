use std::sync::Arc;
use std::sync::Mutex;

use coop_sched::channel::channel;
use coop_sched::channel::Receiver;
use coop_sched::channel::Sender;
use coop_sched::executor::ready_queue;
use coop_sched::executor::Executor;
use coop_sched::executor::RunState;
use coop_sched::executor::TaskHandle;
use coop_sched::task::Computation;
use coop_sched::task::Drive;
use coop_sched::task::Step;
use coop_sched::task::Task;
use coop_sched::task::WakeHandle;
use coop_sched::timer::TimerFuture;
use tokio::runtime::Builder;
use tokio::runtime::Runtime;

fn threads() -> Runtime {
    Builder::new_multi_thread().worker_threads(1).max_blocking_threads(8).build().unwrap()
}

struct Handle(Arc<Task<Job, Handle>>);

impl Clone for Handle {
    fn clone(&self) -> Self {
        Handle(self.0.clone())
    }
}

impl TaskHandle for Handle {
    type Computation = Job;

    fn wrap(task: Task<Job, Handle>) -> Self {
        Handle(Arc::new(task))
    }

    fn task(&self) -> &Task<Job, Handle> {
        &self.0
    }
}

enum Job {
    /// Waits for the timer and says on `registered` when it has left its
    /// wake handle there.
    Await {
        timer: TimerFuture<WakeHandle<Handle>>,
        registered: Sender<()>,
        drives: Arc<Mutex<u32>>,
    },
    /// Says on `entered` that its step runs, and ends the step when it is
    /// told to on `leave`.
    Linger { entered: Sender<()>, leave: Receiver<()>, drives: Arc<Mutex<u32>> },
}

impl Computation<WakeHandle<Handle>> for Job {
    fn step(&mut self, waker: WakeHandle<Handle>) -> Step {
        match self {
            Job::Await { timer, registered, drives } => {
                *drives.lock().unwrap() += 1;
                let step = timer.poll(waker);
                if step == Step::Pending {
                    registered.send(());
                }
                step
            }
            Job::Linger { entered, leave, drives } => {
                *drives.lock().unwrap() += 1;
                entered.send(());
                leave.recv();
                Step::Complete
            }
        }
    }
}

fn run(executor: &Executor<Handle>) -> u32 {
    let mut turns = 0;
    while executor.turn() == RunState::Draining {
        turns += 1;
    }
    turns
}

#[test]
fn receiver_waits_for_a_sender_on_another_thread() {
    let pool = threads();
    let (ping_tx, ping_rx) = channel::<u32>();
    let (pong_tx, pong_rx) = channel::<u32>();
    let echo = pool.spawn_blocking(move || {
        let mut echoed = 0;
        while let Some(v) = ping_rx.recv() {
            pong_tx.send(v + 1);
            echoed += 1;
        }
        echoed
    });
    for v in 0..2000u32 {
        ping_tx.send(v);
        assert_eq!(pong_rx.recv(), Some(v + 1));
    }
    drop(ping_tx);
    assert_eq!(pong_rx.recv(), None);
    assert_eq!(pool.block_on(echo).unwrap(), 2000);
}

#[test]
fn receiver_is_woken_when_the_last_sender_goes() {
    let pool = threads();
    let (tx, rx) = channel::<u32>();
    let (ready_tx, ready_rx) = channel::<()>();
    let waiting = pool.spawn_blocking(move || {
        ready_tx.send(());
        rx.recv()
    });
    assert_eq!(ready_rx.recv(), Some(()));
    let second = tx.clone();
    drop(tx);
    drop(second);
    assert_eq!(pool.block_on(waiting).unwrap(), None);
}

#[test]
fn many_senders_on_many_threads_lose_nothing() {
    let pool = threads();
    let (tx, rx) = channel::<(u32, u32)>();
    let mut senders = Vec::new();
    for name in 0..4u32 {
        let tx = tx.clone();
        senders.push(pool.spawn_blocking(move || {
            for v in 0..500u32 {
                tx.send((name, v));
            }
        }));
    }
    drop(tx);
    let mut next = [0u32; 4];
    let mut received = 0;
    while let Some((name, v)) = rx.recv() {
        // What one sender sends arrives in the order in which it sent it.
        assert_eq!(v, next[name as usize]);
        next[name as usize] += 1;
        received += 1;
    }
    assert_eq!(received, 2000);
    assert_eq!(next, [500u32; 4]);
    for sender in senders {
        pool.block_on(sender).unwrap();
    }
}

#[test]
fn run_loop_waits_for_the_timer_thread() {
    let pool = threads();
    let (spawner, executor) = ready_queue::<Handle>();
    let timer = TimerFuture::new();
    let (registered_tx, registered_rx) = channel::<()>();
    let drives = Arc::new(Mutex::new(0));
    spawner.spawn(Job::Await {
        timer: timer.clone(),
        registered: registered_tx,
        drives: drives.clone(),
    });
    drop(spawner);
    // The timer thread: it lets no time pass, but it does not complete the
    // timer before the task waits for it.
    let timer_thread = pool.spawn_blocking(move || {
        let waited_for = registered_rx.recv();
        timer.complete();
        waited_for
    });
    assert_eq!(run(&executor), 2);
    assert_eq!(*drives.lock().unwrap(), 2);
    assert_eq!(pool.block_on(timer_thread).unwrap(), Some(()));
}

#[test]
fn a_task_is_driven_by_one_thread_at_a_time() {
    let pool = threads();
    let (queue_tx, queue_rx) = channel::<Handle>();
    let (entered_tx, entered_rx) = channel::<()>();
    let (leave_tx, leave_rx) = channel::<()>();
    let drives = Arc::new(Mutex::new(0));
    let job = Job::Linger { entered: entered_tx, leave: leave_rx, drives: drives.clone() };
    let handle = Handle(Arc::new(Task::new(job, queue_tx)));

    let first = handle.clone();
    let first_driver = pool.spawn_blocking(move || first.0.drive(&first));
    // The first driver is inside the step now, and stays there.
    assert_eq!(entered_rx.recv(), Some(()));
    assert_eq!(handle.0.drive(&handle), Drive::Skipped);
    assert_eq!(handle.0.drive(&handle), Drive::Skipped);
    assert_eq!(*drives.lock().unwrap(), 1);
    leave_tx.send(());
    assert_eq!(pool.block_on(first_driver).unwrap(), Drive::Finished);
    assert_eq!(handle.0.drive(&handle), Drive::Skipped);
    assert_eq!(*drives.lock().unwrap(), 1);
    drop(queue_rx);
}
