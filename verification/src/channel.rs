//! A blocking channel with many senders and one receiver.
//!
//! The senders and the receiver share one block: a queue and the number of
//! live senders, guarded by one lock, with a condition variable on which the
//! receiver waits. [`ChannelState`] is what the block holds, as mathematics;
//! [`Inner`] is the block itself, and each of its operations is one step of
//! [`ChannelState`]. [`Sender`] and [`Receiver`] take the lock and apply one
//! of these operations.

use vstd::prelude::*;
use std::collections::VecDeque;
use std::sync::Arc;
use std::sync::Condvar;
use std::sync::Mutex;
use std::sync::MutexGuard;
use crate::sync::held;
use crate::sync::lock;
use crate::sync::lock_poisoned_too;
use crate::sync::notify_all;
use crate::sync::notify_one;

verus! {

/// What a channel's shared block holds: the values that were sent and not
/// yet received, oldest first, and the number of live senders.
pub struct ChannelState<T> {
    pub queue: Seq<T>,
    pub senders: nat,
}

impl<T> ChannelState<T> {
    /// A new channel: nothing queued, one sender.
    pub open spec fn fresh() -> Self {
        ChannelState { queue: Seq::empty(), senders: 1 }
    }

    /// No sender is left and nothing is queued: the receiver sees the end.
    pub open spec fn is_closed(self) -> bool {
        self.senders == 0 && self.queue.len() == 0
    }

    /// Nothing is queued but a sender is left: the receiver has to wait.
    pub open spec fn is_idle(self) -> bool {
        self.senders > 0 && self.queue.len() == 0
    }

    /// The state after `t` was sent.
    pub open spec fn send(self, t: T) -> Self {
        ChannelState { queue: self.queue.push(t), senders: self.senders }
    }

    /// What a receive takes from this state: the oldest value, or nothing
    /// where the queue is empty.
    pub open spec fn head(self) -> Option<T> {
        if self.queue.len() > 0 {
            Some(self.queue[0])
        } else {
            None
        }
    }

    /// The state after a receive.
    pub open spec fn recv(self) -> Self {
        if self.queue.len() > 0 {
            ChannelState { queue: self.queue.drop_first(), senders: self.senders }
        } else {
            self
        }
    }

    /// The state after a sender was cloned.
    pub open spec fn add_sender(self) -> Self {
        ChannelState { queue: self.queue, senders: self.senders + 1 }
    }

    /// The state after a sender was dropped. A count of zero stays zero.
    pub open spec fn drop_sender(self) -> Self {
        ChannelState {
            queue: self.queue,
            senders: if self.senders > 0 {
                (self.senders - 1) as nat
            } else {
                0
            },
        }
    }

    /// The state after each of `values` was sent, in order.
    pub open spec fn send_all(self, values: Seq<T>) -> Self
        decreases values.len(),
    {
        if values.len() == 0 {
            self
        } else {
            self.send(values[0]).send_all(values.drop_first())
        }
    }

    /// What `n` receives in a row take from this state.
    pub open spec fn drain(self, n: nat) -> Seq<Option<T>>
        decreases n,
    {
        if n == 0 {
            Seq::empty()
        } else {
            seq![self.head()] + self.recv().drain((n - 1) as nat)
        }
    }

    /// The state after `n` receives in a row.
    pub open spec fn after_drain(self, n: nat) -> Self
        decreases n,
    {
        if n == 0 {
            self
        } else {
            self.recv().after_drain((n - 1) as nat)
        }
    }
}

/// One thing that a sender or the receiver does to the queue.
pub enum Event<T> {
    /// A sender has sent this value.
    Sent(T),
    /// The receiver has looked for a value.
    Received,
}

/// The values that `events` send, in order.
pub open spec fn sent<T>(events: Seq<Event<T>>) -> Seq<T>
    decreases events.len(),
{
    if events.len() == 0 {
        Seq::empty()
    } else {
        match events.last() {
            Event::Sent(t) => sent(events.drop_last()).push(t),
            Event::Received => sent(events.drop_last()),
        }
    }
}

impl<T> ChannelState<T> {
    /// The state after `events` have happened, in order.
    pub open spec fn after(self, events: Seq<Event<T>>) -> Self
        decreases events.len(),
    {
        if events.len() == 0 {
            self
        } else {
            let before = self.after(events.drop_last());
            match events.last() {
                Event::Sent(t) => before.send(t),
                Event::Received => before.recv(),
            }
        }
    }

    /// The values that the receiver has taken in the course of `events`, in
    /// the order in which it took them.
    pub open spec fn taken(self, events: Seq<Event<T>>) -> Seq<T>
        decreases events.len(),
    {
        if events.len() == 0 {
            Seq::empty()
        } else {
            let before = self.after(events.drop_last());
            let taken = self.taken(events.drop_last());
            match events.last() {
                Event::Sent(_) => taken,
                Event::Received => match before.head() {
                    Some(t) => taken.push(t),
                    None => taken,
                },
            }
        }
    }
}

/// First in, first out, however sends and receives interleave: what the
/// receiver has taken, followed by what is still queued, is what was queued
/// at the start followed by what was sent, in the order of sending. So the
/// receiver takes the values in the order in which they were sent, none
/// twice and none left out.
pub proof fn lemma_fifo_interleaved<T>(s: ChannelState<T>, events: Seq<Event<T>>)
    ensures
        s.taken(events) + s.after(events).queue == s.queue + sent(events),
        s.taken(events).is_prefix_of(s.queue + sent(events)),
    decreases events.len(),
{
    if events.len() > 0 {
        let earlier = events.drop_last();
        lemma_fifo_interleaved(s, earlier);
        if let Event::Sent(t) = events.last() {
            assert(s.queue + sent(earlier).push(t) =~= (s.queue + sent(earlier)).push(t));
        }
    }
}

/// Sending a sequence of values appends it to the queue and leaves the
/// sender count alone.
pub proof fn lemma_send_all<T>(s: ChannelState<T>, values: Seq<T>)
    ensures
        s.send_all(values).queue == s.queue + values,
        s.send_all(values).senders == s.senders,
    decreases values.len(),
{
    if values.len() > 0 {
        lemma_send_all(s.send(values[0]), values.drop_first());
    }
}

/// As long as values are queued, receives take them oldest first, and leave
/// the rest of the queue and the sender count as they were.
pub proof fn lemma_drain_queued<T>(s: ChannelState<T>, n: nat)
    requires
        n <= s.queue.len(),
    ensures
        s.drain(n) == Seq::new(n, |i: int| Some(s.queue[i])),
        s.after_drain(n).queue == s.queue.skip(n as int),
        s.after_drain(n).senders == s.senders,
    decreases n,
{
    if n > 0 {
        lemma_drain_queued(s.recv(), (n - 1) as nat);
    }
}

/// First in, first out: the values sent into an empty channel are received
/// one by one in the order in which they were sent, and the channel is then
/// empty again.
pub proof fn lemma_fifo<T>(s: ChannelState<T>, values: Seq<T>)
    requires
        s.queue.len() == 0,
    ensures
        s.send_all(values).drain(values.len()) == Seq::new(
            values.len(),
            |i: int| Some(values[i]),
        ),
        s.send_all(values).after_drain(values.len()) == s,
{
    lemma_send_all(s, values);
    lemma_drain_queued(s.send_all(values), values.len());
    assert(s.send_all(values).after_drain(values.len()).queue =~= s.queue);
}

/// First in, first out, for a channel that already holds values: what was
/// queued comes out first, then what is sent after it, each in its order.
pub proof fn lemma_fifo_behind_queue<T>(s: ChannelState<T>, values: Seq<T>)
    ensures
        s.send_all(values).drain(s.queue.len() + values.len()) == Seq::new(
            s.queue.len() + values.len(),
            |i: int| Some((s.queue + values)[i]),
        ),
{
    lemma_send_all(s, values);
    lemma_drain_queued(s.send_all(values), s.queue.len() + values.len());
}

/// A closed channel stays closed: every receive finds nothing and changes
/// nothing, however many follow.
pub proof fn lemma_closed_for_good<T>(s: ChannelState<T>, n: nat)
    requires
        s.is_closed(),
    ensures
        s.drain(n) == Seq::new(n, |i: int| None::<T>),
        s.after_drain(n) == s,
    decreases n,
{
    if n > 0 {
        lemma_closed_for_good(s, (n - 1) as nat);
    }
}

/// Dropping the last sender of an empty channel closes it.
pub proof fn lemma_last_sender_closes<T>(s: ChannelState<T>)
    requires
        s.senders == 1,
        s.queue.len() == 0,
    ensures
        s.drop_sender().is_closed(),
        s.drop_sender().head() is None,
{
}

/// The block that the senders and the receiver of one channel share.
pub struct Inner<T> {
    queue: VecDeque<T>,
    senders: usize,
}

impl<T> View for Inner<T> {
    type V = ChannelState<T>;

    closed spec fn view(&self) -> ChannelState<T> {
        ChannelState { queue: self.queue@, senders: self.senders as nat }
    }
}

impl<T> Inner<T> {
    /// The block of a new channel: an empty queue and the one sender that
    /// the channel is created with.
    pub fn new() -> (inner: Self)
        ensures
            inner@ == ChannelState::<T>::fresh(),
    {
        Inner { queue: VecDeque::new(), senders: 1 }
    }

    /// Queues `t` behind everything that is queued.
    pub fn push(&mut self, t: T)
        ensures
            final(self)@ == old(self)@.send(t),
    {
        self.queue.push_back(t);
    }

    /// Takes the oldest value off the queue, if there is one.
    pub fn pop(&mut self) -> (taken: Option<T>)
        ensures
            taken == old(self)@.head(),
            final(self)@ == old(self)@.recv(),
    {
        self.queue.pop_front()
    }

    /// Whether a receiver that finds this state has to wait: nothing is
    /// queued, and a sender is left that may still send.
    pub fn is_idle(&self) -> (idle: bool)
        ensures
            idle == self@.is_idle(),
    {
        self.queue.len() == 0 && self.senders > 0
    }

    /// Counts one more sender. The count stops at `usize::MAX`.
    pub fn add_sender(&mut self)
        ensures
            old(self)@.senders < usize::MAX ==> final(self)@ == old(self)@.add_sender(),
            old(self)@.senders == usize::MAX ==> final(self)@ == old(self)@,
    {
        if self.senders < usize::MAX {
            self.senders = self.senders + 1;
        }
    }

    /// Counts one sender less, and returns how many are left. A count of
    /// zero stays zero.
    pub fn drop_sender(&mut self) -> (left: usize)
        ensures
            final(self)@ == old(self)@.drop_sender(),
            left == final(self)@.senders,
        opens_invariants none
        no_unwind
    {
        if self.senders > 0 {
            self.senders = self.senders - 1;
        }
        self.senders
    }
}

/// One channel's shared block behind its lock, and the condition variable
/// that is signalled when the block changes in a way the receiver waits for.
#[verifier::reject_recursive_types(T)]
pub struct Shared<T> {
    inner: Mutex<Inner<T>>,
    available: Condvar,
}

impl<T> Shared<T> {
    /// The shared block of a new channel.
    pub fn new() -> Self {
        Shared { inner: Mutex::new(Inner::new()), available: Condvar::new() }
    }
}

/// `Condvar::wait_while`, with the guard taken out of the `Ok`: gives up the
/// lock and blocks until the block is not idle, testing again after every
/// wake-up, then returns with the lock held. It panics where the lock is
/// poisoned. Nothing is claimed of the guarded value.
#[verifier::external_body]
fn wait_while_idle<'a, T>(available: &Condvar, guard: MutexGuard<'a, Inner<T>>) -> (woken:
    MutexGuard<'a, Inner<T>>)
{
    available.wait_while(guard, |inner| inner.is_idle()).unwrap()
}

/// The sending side of a channel. It can be cloned; the channel closes when
/// the last clone is dropped.
#[verifier::reject_recursive_types(T)]
pub struct Sender<T> {
    shared: Arc<Shared<T>>,
}

impl<T> Sender<T> {
    /// The block that this sender shares with the other handles of its
    /// channel.
    pub closed spec fn shared(&self) -> Shared<T> {
        *self.shared
    }

    /// This sender and `receiver` are the two sides of one channel.
    pub open spec fn feeds(&self, receiver: &Receiver<T>) -> bool {
        self.shared() == receiver.shared()
    }

    /// Queues `t` ([`Inner::push`]) and wakes the receiver. It never blocks
    /// and never fails: a value sent after the receiver is gone stays in
    /// the queue and is dropped with it.
    pub fn send(&self, t: T) {
        {
            let mut guard = lock(&self.shared.inner);
            held(&mut guard).push(t);
        }
        notify_one(&self.shared.available);
    }
}

impl<T> Clone for Sender<T> {
    /// Another sender of the same channel. It is counted
    /// ([`Inner::add_sender`]) under the lock that guards the queue, so the
    /// receiver never finds a count of zero while a clone is being made.
    fn clone(&self) -> (cloned: Self)
        ensures
            cloned.shared() == self.shared(),
    {
        let mut guard = lock(&self.shared.inner);
        held(&mut guard).add_sender();
        Sender { shared: Arc::clone(&self.shared) }
    }
}

impl<T> Drop for Sender<T> {
    /// Counts this sender out ([`Inner::drop_sender`]). Where it was the
    /// last one, the receiver is woken so that it can see the end.
    fn drop(&mut self)
        opens_invariants none
        no_unwind
    {
        let left = {
            let mut guard = lock_poisoned_too(&self.shared.inner);
            held(&mut guard).drop_sender()
        };
        if left == 0 {
            notify_one(&self.shared.available);
        }
    }
}

/// The receiving side of a channel.
#[verifier::reject_recursive_types(T)]
pub struct Receiver<T> {
    shared: Arc<Shared<T>>,
}

impl<T> Receiver<T> {
    /// The block that this receiver shares with the senders of its channel.
    pub closed spec fn shared(&self) -> Shared<T> {
        *self.shared
    }

    /// Blocks while the channel is idle ([`Inner::is_idle`]), then takes the
    /// oldest value ([`Inner::pop`]). `None` is the end of the channel: no
    /// value is queued and no sender is left to send one.
    pub fn recv(&self) -> (received: Option<T>) {
        let guard = lock(&self.shared.inner);
        let mut guard = wait_while_idle(&self.shared.available, guard);
        held(&mut guard).pop()
    }
}

impl<T> Drop for Receiver<T> {
    /// Wakes whoever waits on the channel.
    fn drop(&mut self)
        opens_invariants none
        no_unwind
    {
        notify_all(&self.shared.available);
    }
}

/// A new channel, with its one sender and its receiver.
pub fn channel<T>() -> (sides: (Sender<T>, Receiver<T>))
    ensures
        sides.0.feeds(&sides.1),
{
    let shared = Arc::new(Shared::new());
    (Sender { shared: Arc::clone(&shared) }, Receiver { shared })
}

} // verus!
