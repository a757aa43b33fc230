use dc_dispatch::descriptor::Half;
use dc_dispatch::dispatch::Dispatch;
use dc_dispatch::ring_deque::{Actor, Closed, Error, Poll};
use std::collections::VecDeque;
use std::sync::atomic::{AtomicUsize, Ordering};
use std::sync::Arc;
use std::task::{Wake, Waker};

struct NoopWaker;

impl Wake for NoopWaker {
    fn wake(self: Arc<Self>) {}
}

fn waker() -> Waker {
    Waker::from(Arc::new(NoopWaker))
}

#[test]
fn end_to_end_bounded_then_forced_then_swap() {
    let mut d: Dispatch<char, u32> = Dispatch::new();
    let (sender, control, stream) = d.create(7, 2);
    assert_eq!(sender.send_stream(&mut d, 'A'), Ok(None));
    assert_eq!(sender.send_stream(&mut d, 'B'), Ok(None));
    assert_eq!(sender.send_stream(&mut d, 'C'), Err(Error::Full));
    assert_eq!(stream.push(&mut d, 'C'), Some('A'));
    let mut out = VecDeque::new();
    let w = waker();
    assert_eq!(stream.poll_swap(&mut d, &w, Actor::Application, &mut out), Poll::Ready(Ok(())));
    assert_eq!(out, VecDeque::from(vec!['B', 'C']));
    assert_eq!(control.try_recv(&mut d), Ok(None));
}

#[test]
fn halves_are_independent() {
    let mut d: Dispatch<u8, u32> = Dispatch::new();
    let (sender, control, stream) = d.create(1, 2);
    sender.send_control(&mut d, 1).unwrap();
    sender.send_stream(&mut d, 10).unwrap();
    sender.send_control(&mut d, 2).unwrap();
    sender.send_stream(&mut d, 20).unwrap();
    assert_eq!(sender.send_control(&mut d, 3), Err(Error::Full));
    assert_eq!(stream.try_recv(&mut d), Ok(Some(10)));
    assert_eq!(control.try_recv(&mut d), Ok(Some(1)));
    assert_eq!(control.try_recv(&mut d), Ok(Some(2)));
    assert_eq!(stream.try_recv(&mut d), Ok(Some(20)));
}

#[test]
fn last_sender_drop_closes_both_halves_after_drain() {
    let mut d: Dispatch<u8, u32> = Dispatch::new();
    let (sender, control, stream) = d.create(1, 4);
    let second = sender.clone(&mut d);
    sender.send_stream(&mut d, 5).unwrap();
    assert!(!sender.drop(&mut d));
    let w = waker();
    assert_eq!(control.poll_recv(&mut d, &w, Actor::Application), Poll::Pending);
    assert!(!second.drop(&mut d));
    assert_eq!(control.poll_recv(&mut d, &w, Actor::Application), Poll::Ready(Err(Closed)));
    assert_eq!(stream.poll_recv(&mut d, &w, Actor::Application), Poll::Ready(Ok(5)));
    assert_eq!(stream.poll_recv(&mut d, &w, Actor::Application), Poll::Ready(Err(Closed)));
    assert_eq!(d.route(stream.queue_id()).map(|s| s.queue_id()), None);
}

#[test]
fn receiver_drop_refuses_pushes_to_its_half() {
    let mut d: Dispatch<u8, u32> = Dispatch::new();
    let (sender, control, stream) = d.create(1, 4);
    assert!(!stream.drop(&mut d));
    assert_eq!(sender.send_stream(&mut d, 1), Err(Error::Closed));
    assert_eq!(sender.send_control(&mut d, 2), Ok(None));
    assert_eq!(control.try_recv(&mut d), Ok(Some(2)));
}

#[test]
fn route_of_unknown_identifier_is_none() {
    let mut d: Dispatch<u8, u32> = Dispatch::new();
    assert!(d.route(0).is_none());
    let (sender, _control, _stream) = d.create(1, 1);
    assert!(d.route(sender.queue_id() + 1).is_none());
    assert!(d.route(u64::MAX).is_none());
    let routed = d.route(sender.queue_id()).unwrap();
    assert_eq!(routed.queue_id(), sender.queue_id());
    assert_eq!(routed.send_stream(&mut d, 3), Ok(None));
}

#[test]
fn reclaimed_once_on_last_handle() {
    let mut d: Dispatch<u8, &str> = Dispatch::new();
    let (sender, control, stream) = d.create("peer", 1);
    let id = sender.queue_id();
    let routed = d.route(id).unwrap();
    assert_eq!(d.key(id), Some(&"peer"));
    assert!(!control.drop(&mut d));
    assert!(!sender.drop(&mut d));
    assert!(!stream.drop(&mut d));
    assert!(d.route(id).is_none());
    assert_eq!(d.key(id), Some(&"peer"));
    assert!(routed.drop(&mut d));
    assert_eq!(d.key(id), None);
}

#[test]
fn reused_slot_gets_next_generation() {
    let mut d: Dispatch<u8, u32> = Dispatch::new();
    let (s1, c1, t1) = d.create(1, 2);
    let old_sender = s1.clone(&mut d);
    let id = s1.queue_id();
    assert!(!s1.drop(&mut d));
    assert!(!c1.drop(&mut d));
    assert!(!old_sender.drop(&mut d));
    assert!(t1.drop(&mut d));
    let (s2, _c2, t2) = d.create(2, 2);
    assert_eq!(s2.queue_id(), id);
    assert_eq!(s2.generation(), 1);
    assert_eq!(s2.send_stream(&mut d, 4), Ok(None));
    assert_eq!(t2.try_recv(&mut d), Ok(Some(4)));
    assert_eq!(d.key(id), Some(&2));
    assert_eq!(d.len(), 1);
}

#[test]
fn create_uses_new_slots_while_others_live() {
    let mut d: Dispatch<u8, u32> = Dispatch::new();
    let (a, _, _) = d.create(1, 1);
    let (b, _, _) = d.create(2, 1);
    assert_eq!(a.queue_id(), 0);
    assert_eq!(b.queue_id(), 1);
    assert_eq!(d.len(), 2);
    assert_eq!(d.key(1), Some(&2));
    assert_eq!(d.key(2), None);
}

struct CountingWaker(AtomicUsize);

impl Wake for CountingWaker {
    fn wake(self: Arc<Self>) {
        self.0.fetch_add(1, Ordering::SeqCst);
    }
}

#[test]
fn send_wakes_the_waiting_consumer() {
    let mut d: Dispatch<u8, u32> = Dispatch::new();
    let (sender, control, _stream) = d.create(1, 2);
    let count = Arc::new(CountingWaker(AtomicUsize::new(0)));
    let w = Waker::from(count.clone());
    assert_eq!(control.poll_recv(&mut d, &w, Actor::Worker), Poll::Pending);
    assert_eq!(sender.send_stream(&mut d, 1), Ok(None));
    assert_eq!(count.0.load(Ordering::SeqCst), 0);
    assert_eq!(sender.send_control(&mut d, 2), Ok(None));
    assert_eq!(count.0.load(Ordering::SeqCst), 1);
    assert_eq!(control.poll_recv(&mut d, &w, Actor::Worker), Poll::Ready(Ok(2)));
}

#[test]
fn last_sender_drop_wakes_both_consumers() {
    let mut d: Dispatch<u8, u32> = Dispatch::new();
    let (sender, control, stream) = d.create(1, 2);
    let count = Arc::new(CountingWaker(AtomicUsize::new(0)));
    let w = Waker::from(count.clone());
    assert_eq!(control.poll_recv(&mut d, &w, Actor::Application), Poll::Pending);
    assert_eq!(stream.poll_recv(&mut d, &w, Actor::Application), Poll::Pending);
    assert!(!sender.drop(&mut d));
    assert_eq!(count.0.load(Ordering::SeqCst), 2);
    assert_eq!(stream.poll_recv(&mut d, &w, Actor::Application), Poll::Ready(Err(Closed)));
}

#[test]
fn events_are_counted_per_half() {
    let mut d: Dispatch<u8, u32> = Dispatch::new();
    let (sender, control, stream) = d.create(1, 2);
    let id = sender.queue_id();
    sender.send_stream(&mut d, 1).unwrap();
    sender.send_stream(&mut d, 2).unwrap();
    assert_eq!(sender.send_stream(&mut d, 3), Err(Error::Full));
    assert_eq!(stream.push(&mut d, 3), Some(1));
    sender.send_control(&mut d, 9).unwrap();
    assert_eq!(d.sent(id, Half::Stream), Some(3));
    assert_eq!(d.sent(id, Half::Control), Some(1));
    let mut out = VecDeque::new();
    assert_eq!(stream.poll_swap(&mut d, &waker(), Actor::Application, &mut out), Poll::Ready(Ok(())));
    assert_eq!(control.try_recv(&mut d), Ok(Some(9)));
    assert_eq!(control.try_recv(&mut d), Ok(None));
    assert_eq!(d.received(id, Half::Stream), Some(2));
    assert_eq!(d.received(id, Half::Control), Some(1));
    assert_eq!(d.sent(id + 1, Half::Stream), None);
}
