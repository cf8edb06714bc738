use mini_runtime::runtime::reactor::FIRST_ID;
use mini_runtime::{Reactor, ReadyQueue, Waker};

#[test]
fn operation_ids_start_at_one_and_count_up() {
    let mut reactor = Reactor::new();
    assert_eq!(FIRST_ID, 1);
    assert_eq!(reactor.next_id(), 1);
    assert_eq!(reactor.next_id(), 2);
    assert_eq!(reactor.next_id(), 3);
}

#[test]
fn each_reactor_counts_for_itself() {
    let mut first = Reactor::new();
    let mut second = Reactor::new();
    assert_eq!(first.next_id(), 1);
    assert_eq!(first.next_id(), 2);
    assert_eq!(second.next_id(), 1);
}

#[test]
fn a_registered_waker_fires_on_its_event() {
    let queue = ReadyQueue::new();
    let mut reactor = Reactor::new();
    let id = reactor.next_id();
    assert!(!reactor.is_registered(id));
    reactor.set_waker(&Waker::new(4, 17, queue.clone()), id);
    assert!(reactor.is_registered(id));
    assert_eq!(reactor.wake(id), Some(4));
    assert_eq!(queue.pop(), Some(17));
    assert_eq!(queue.pop(), None);
}

#[test]
fn the_last_waker_registered_is_the_one_that_fires() {
    let queue_a = ReadyQueue::new();
    let queue_b = ReadyQueue::new();
    let a = Waker::new(1, 10, queue_a.clone());
    let b = Waker::new(2, 20, queue_b.clone());
    let mut reactor = Reactor::new();
    let id = reactor.next_id();
    reactor.set_waker(&a, id);
    reactor.set_waker(&b, id);
    assert_eq!(reactor.wake(id), Some(2));
    assert_eq!(queue_b.pop(), Some(20));
    assert_eq!(queue_b.pop(), None);
    assert_eq!(queue_a.pop(), None);
}

#[test]
fn set_waker_may_be_repeated() {
    let queue = ReadyQueue::new();
    let waker = Waker::new(1, 3, queue.clone());
    let mut reactor = Reactor::new();
    reactor.set_waker(&waker, 5);
    reactor.set_waker(&waker, 5);
    reactor.set_waker(&waker, 5);
    assert_eq!(reactor.wake(5), Some(1));
    assert_eq!(queue.pop(), Some(3));
    assert_eq!(queue.pop(), None);
}

#[test]
fn wakers_of_different_operations_are_kept_apart() {
    let queue = ReadyQueue::new();
    let mut reactor = Reactor::new();
    reactor.set_waker(&Waker::new(1, 100, queue.clone()), 1);
    reactor.set_waker(&Waker::new(1, 200, queue.clone()), 2);
    assert_eq!(reactor.wake(2), Some(1));
    assert_eq!(queue.pop(), Some(200));
    assert_eq!(reactor.wake(1), Some(1));
    assert_eq!(queue.pop(), Some(100));
}

#[test]
fn an_event_without_a_waker_is_ignored() {
    let reactor = Reactor::new();
    assert_eq!(reactor.wake(1), None);
    assert_eq!(reactor.wake(0), None);
    assert_eq!(reactor.wake(usize::MAX), None);
}

#[test]
fn a_deregistered_waker_does_not_fire() {
    let queue = ReadyQueue::new();
    let mut reactor = Reactor::new();
    let id = reactor.next_id();
    reactor.set_waker(&Waker::new(1, 8, queue.clone()), id);
    reactor.deregister(id);
    assert!(!reactor.is_registered(id));
    assert_eq!(reactor.wake(id), None);
    assert_eq!(queue.pop(), None);
}

#[test]
fn deregister_leaves_other_operations_alone() {
    let queue = ReadyQueue::new();
    let mut reactor = Reactor::new();
    reactor.set_waker(&Waker::new(1, 8, queue.clone()), 1);
    reactor.set_waker(&Waker::new(1, 9, queue.clone()), 2);
    reactor.deregister(1);
    assert!(!reactor.is_registered(1));
    assert!(!reactor.is_registered(77));
    assert!(reactor.is_registered(2));
    assert_eq!(reactor.wake(2), Some(1));
    assert_eq!(queue.pop(), Some(9));
}

#[test]
fn a_registered_waker_fires_on_every_event() {
    let queue = ReadyQueue::new();
    let mut reactor = Reactor::new();
    reactor.set_waker(&Waker::new(6, 8, queue.clone()), 1);
    assert_eq!(reactor.wake(1), Some(6));
    assert_eq!(reactor.wake(1), Some(6));
    assert_eq!(queue.pop(), Some(8));
    assert_eq!(queue.pop(), Some(8));
    assert_eq!(queue.pop(), None);
}

#[test]
fn dispatch_answers_the_events_of_a_round_in_order() {
    let queue_a = ReadyQueue::new();
    let queue_b = ReadyQueue::new();
    let mut reactor = Reactor::new();
    reactor.set_waker(&Waker::new(1, 10, queue_a.clone()), 1);
    reactor.set_waker(&Waker::new(2, 20, queue_b.clone()), 2);
    reactor.set_waker(&Waker::new(1, 30, queue_a.clone()), 3);
    let threads = reactor.dispatch(&vec![3, 9, 2, 1, 2]);
    assert_eq!(threads, vec![1, 2, 1, 2]);
    assert_eq!(queue_a.pop(), Some(10));
    assert_eq!(queue_a.pop(), Some(30));
    assert_eq!(queue_a.pop(), None);
    assert_eq!(queue_b.pop(), Some(20));
    assert_eq!(queue_b.pop(), Some(20));
    assert_eq!(queue_b.pop(), None);
}

#[test]
fn dispatch_of_no_event_wakes_nobody() {
    let queue = ReadyQueue::new();
    let mut reactor = Reactor::new();
    reactor.set_waker(&Waker::new(1, 10, queue.clone()), 1);
    assert_eq!(reactor.dispatch(&Vec::new()), Vec::<usize>::new());
    assert_eq!(reactor.dispatch(&vec![5, 6]), Vec::<usize>::new());
    assert_eq!(queue.pop(), None);
}
