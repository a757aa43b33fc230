use dc_dispatch::ring_deque::{Actor, Closed, Error, Poll, RingQueue};
use std::collections::VecDeque;
use std::sync::atomic::{AtomicUsize, Ordering};
use std::sync::Arc;
use std::task::{Wake, Waker};

struct CountingWaker(AtomicUsize);

impl Wake for CountingWaker {
    fn wake(self: Arc<Self>) {
        self.0.fetch_add(1, Ordering::SeqCst);
    }
}

fn counting_waker() -> (Arc<CountingWaker>, Waker) {
    let c = Arc::new(CountingWaker(AtomicUsize::new(0)));
    let w = Waker::from(c.clone());
    (c, w)
}

#[test]
fn bounded_push_stops_at_capacity() {
    let mut q = RingQueue::with_capacity(3);
    for i in 0..3u32 {
        assert_eq!(q.push(i), Ok(None));
        assert!(q.len() <= q.capacity());
    }
    assert_eq!(q.push(3), Err(Error::Full));
    assert_eq!(q.len(), 3);
    assert_eq!(q.pop(), Ok(Some(0)));
    assert_eq!(q.pop(), Ok(Some(1)));
    assert_eq!(q.pop(), Ok(Some(2)));
    assert_eq!(q.pop(), Ok(None));
}

#[test]
fn bounded_push_on_closed_queue_is_refused() {
    let mut q = RingQueue::with_capacity(2);
    q.close();
    assert_eq!(q.push(1u8), Err(Error::Closed));
    assert_eq!(q.len(), 0);
}

#[test]
fn bounded_push_on_zero_capacity_is_full() {
    let mut q = RingQueue::with_capacity(0);
    assert_eq!(q.push(1u8), Err(Error::Full));
}

#[test]
fn force_push_evicts_the_oldest() {
    let mut q = RingQueue::with_capacity(2);
    assert_eq!(q.force_push('a'), None);
    assert_eq!(q.force_push('b'), None);
    assert_eq!(q.force_push('c'), Some('a'));
    assert_eq!(q.len(), 2);
    assert_eq!(q.pop(), Ok(Some('b')));
    assert_eq!(q.pop(), Ok(Some('c')));
}

#[test]
fn force_push_on_zero_capacity_hands_item_back() {
    let mut q = RingQueue::with_capacity(0);
    assert_eq!(q.force_push(7u8), Some(7));
    assert_eq!(q.len(), 0);
}

#[test]
fn force_push_on_closed_queue_hands_item_back() {
    let mut q = RingQueue::with_capacity(2);
    q.force_push(1u8);
    q.close();
    assert_eq!(q.force_push(2), Some(2));
    assert_eq!(q.len(), 1);
}

#[test]
fn pops_keep_push_order() {
    let mut q = RingQueue::with_capacity(5);
    for i in [5u8, 3, 9, 1] {
        q.push(i).unwrap();
    }
    let mut out = Vec::new();
    while let Ok(Some(v)) = q.pop() {
        out.push(v);
    }
    assert_eq!(out, vec![5, 3, 9, 1]);
}

#[test]
fn closed_queue_drains_then_reports_closed() {
    let mut q = RingQueue::with_capacity(2);
    q.push(1u8).unwrap();
    q.close();
    assert!(!q.is_open());
    assert_eq!(q.pop(), Ok(Some(1)));
    assert_eq!(q.pop(), Err(Closed));
    let (_, w) = counting_waker();
    assert_eq!(q.poll_pop(&w, Actor::Application), Poll::Ready(Err(Closed)));
}

#[test]
fn poll_pop_waits_and_push_wakes() {
    let mut q = RingQueue::with_capacity(2);
    let (count, w) = counting_waker();
    assert_eq!(q.poll_pop(&w, Actor::Worker), Poll::Pending);
    assert_eq!(q.waiting_actor(), Some(Actor::Worker));
    assert_eq!(count.0.load(Ordering::SeqCst), 0);
    q.push(4u8).unwrap();
    assert_eq!(count.0.load(Ordering::SeqCst), 1);
    assert_eq!(q.waiting_actor(), None);
    assert_eq!(q.poll_pop(&w, Actor::Worker), Poll::Ready(Ok(4)));
}

#[test]
fn close_wakes_the_waiter() {
    let mut q: RingQueue<u8> = RingQueue::with_capacity(2);
    let (count, w) = counting_waker();
    assert_eq!(q.poll_pop(&w, Actor::Application), Poll::Pending);
    q.close();
    assert_eq!(count.0.load(Ordering::SeqCst), 1);
    assert_eq!(q.poll_pop(&w, Actor::Application), Poll::Ready(Err(Closed)));
}

#[test]
fn poll_swap_moves_everything_in_order() {
    let mut q = RingQueue::with_capacity(4);
    let (_, w) = counting_waker();
    let mut out = VecDeque::new();
    out.push_back(0u8);
    assert_eq!(q.poll_swap(&w, Actor::Application, &mut out), Poll::Pending);
    q.push(1).unwrap();
    q.push(2).unwrap();
    q.force_push(3);
    assert_eq!(q.poll_swap(&w, Actor::Application, &mut out), Poll::Ready(Ok(())));
    assert_eq!(out, VecDeque::from(vec![0, 1, 2, 3]));
    assert_eq!(q.len(), 0);
    q.close();
    assert_eq!(q.poll_swap(&w, Actor::Application, &mut out), Poll::Ready(Err(Closed)));
}
