use coop_sched::channel::channel;
use coop_sched::channel::Inner;
use coop_sched::channel::Shared;

#[test]
fn ping_pong() {
    let (tx, rx) = channel();
    tx.send(42);
    assert_eq!(rx.recv(), Some(42));
}

#[test]
fn test_drop_last_sender() {
    let (tx, rx) = channel::<i32>();
    drop(tx);
    assert_eq!(rx.recv(), None);
}

#[test]
fn values_arrive_in_the_order_of_sending() {
    let (tx, rx) = channel();
    for v in 0..100u32 {
        tx.send(v);
    }
    for v in 0..100u32 {
        assert_eq!(rx.recv(), Some(v));
    }
}

#[test]
fn sends_and_receives_may_interleave() {
    let (tx, rx) = channel();
    tx.send('a');
    tx.send('b');
    assert_eq!(rx.recv(), Some('a'));
    tx.send('c');
    assert_eq!(rx.recv(), Some('b'));
    assert_eq!(rx.recv(), Some('c'));
}

#[test]
fn closed_channel_stays_closed() {
    let (tx, rx) = channel::<u8>();
    drop(tx);
    assert_eq!(rx.recv(), None);
    assert_eq!(rx.recv(), None);
    assert_eq!(rx.recv(), None);
}

#[test]
fn queued_values_outlive_their_sender() {
    let (tx, rx) = channel();
    tx.send(String::from("first"));
    tx.send(String::from("second"));
    drop(tx);
    assert_eq!(rx.recv(), Some(String::from("first")));
    assert_eq!(rx.recv(), Some(String::from("second")));
    assert_eq!(rx.recv(), None);
}

#[test]
fn a_clone_keeps_the_channel_open() {
    let (tx, rx) = channel();
    let tx2 = tx.clone();
    drop(tx);
    tx2.send(1u64);
    assert_eq!(rx.recv(), Some(1));
    let tx3 = tx2.clone();
    drop(tx2);
    tx3.send(2);
    drop(tx3);
    assert_eq!(rx.recv(), Some(2));
    assert_eq!(rx.recv(), None);
}

#[test]
fn clones_send_into_one_queue() {
    let (tx, rx) = channel();
    let tx2 = tx.clone();
    tx.send(1);
    tx2.send(2);
    tx.send(3);
    drop(tx);
    drop(tx2);
    assert_eq!(rx.recv(), Some(1));
    assert_eq!(rx.recv(), Some(2));
    assert_eq!(rx.recv(), Some(3));
    assert_eq!(rx.recv(), None);
}

#[test]
fn send_without_receiver_does_not_fail() {
    let (tx, rx) = channel();
    drop(rx);
    tx.send(5);
    tx.send(6);
}

#[test]
fn shared_block_can_be_made_alone() {
    let _shared: Shared<u8> = Shared::new();
}

#[test]
fn inner_is_first_in_first_out() {
    let mut inner = Inner::new();
    inner.push(1);
    inner.push(2);
    inner.push(3);
    assert_eq!(inner.pop(), Some(1));
    assert_eq!(inner.pop(), Some(2));
    inner.push(4);
    assert_eq!(inner.pop(), Some(3));
    assert_eq!(inner.pop(), Some(4));
    assert_eq!(inner.pop(), None);
}

#[test]
fn inner_is_idle_only_while_empty_and_open() {
    let mut inner = Inner::new();
    assert!(inner.is_idle());
    inner.push(9u8);
    assert!(!inner.is_idle());
    assert_eq!(inner.pop(), Some(9));
    assert!(inner.is_idle());
    assert_eq!(inner.drop_sender(), 0);
    assert!(!inner.is_idle());
    assert_eq!(inner.pop(), None);
    assert_eq!(inner.pop(), None);
    assert!(!inner.is_idle());
}

#[test]
fn inner_counts_its_senders() {
    let mut inner = Inner::<u8>::new();
    inner.add_sender();
    inner.add_sender();
    assert_eq!(inner.drop_sender(), 2);
    assert_eq!(inner.drop_sender(), 1);
    assert!(inner.is_idle());
    assert_eq!(inner.drop_sender(), 0);
    assert_eq!(inner.drop_sender(), 0);
    inner.add_sender();
    assert_eq!(inner.drop_sender(), 0);
}

#[test]
fn inner_keeps_its_queue_when_the_last_sender_goes() {
    let mut inner = Inner::new();
    inner.push(7);
    assert_eq!(inner.drop_sender(), 0);
    assert!(!inner.is_idle());
    assert_eq!(inner.pop(), Some(7));
    assert_eq!(inner.pop(), None);
}
