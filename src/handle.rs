use std::collections::VecDeque;
use std::task::Waker;
use vstd::prelude::*;

use crate::descriptor::{clone_sender_spec, drop_receiver_spec, drop_sender_spec, Half};
use crate::dispatch::Dispatch;
use crate::ring_deque::{
    force_push_spec, poll_pop_spec, poll_swap_spec, pop_spec, push_spec, Actor, Closed, Error,
    Poll,
};

verus! {

/// A producer handle: pushes into either half of one descriptor, refusing when full.
/// Handles name their descriptor by routing identifier and generation, so a handle
/// whose descriptor has gone observes `Closed`.
#[derive(Debug)]
pub struct Sender {
    pub(crate) queue_id: u64,
    pub(crate) generation: u64,
}

/// The consumer handle of the control half of one descriptor.
#[derive(Debug)]
pub struct Control {
    pub(crate) queue_id: u64,
    pub(crate) generation: u64,
}

/// The consumer handle of the stream half of one descriptor.
#[derive(Debug)]
pub struct Stream {
    pub(crate) queue_id: u64,
    pub(crate) generation: u64,
}

impl Sender {
    pub closed spec fn queue_id_spec(&self) -> u64 {
        self.queue_id
    }

    pub closed spec fn generation_spec(&self) -> u64 {
        self.generation
    }

    pub(crate) fn new(queue_id: u64, generation: u64) -> (r: Self)
        ensures
            r.queue_id_spec() == queue_id,
            r.generation_spec() == generation,
    {
        Sender { queue_id, generation }
    }

    /// The routing identifier of the descriptor this handle feeds.
    pub fn queue_id(&self) -> (r: u64)
        ensures
            r == self.queue_id_spec(),
    {
        self.queue_id
    }

    /// The generation of the descriptor this handle feeds.
    pub fn generation(&self) -> (r: u64)
        ensures
            r == self.generation_spec(),
    {
        self.generation
    }

    /// Bounded push into the stream half: refused with `Full` at capacity and with
    /// `Closed` once the half is closed; never evicts.
    pub fn send_stream<T, Key>(&self, dispatch: &mut Dispatch<T, Key>, item: T) -> (r: Result<
        Option<T>,
        Error,
    >)
        requires
            old(dispatch).wf(),
        ensures
            final(dispatch).wf(),
            !old(dispatch).holds(self.queue_id_spec(), self.generation_spec()) ==> r == Err::<Option<T>, Error>(Error::Closed)
                && *final(dispatch) == *old(dispatch),
            old(dispatch).holds(self.queue_id_spec(), self.generation_spec()) ==> final(dispatch).queue_changed_only(old(dispatch), self.queue_id_spec(), Half::Stream)
                && push_spec(old(dispatch).descriptor(self.queue_id_spec()).queue(Half::Stream), final(dispatch).descriptor(self.queue_id_spec()).queue(Half::Stream), item, r),
    {
        dispatch.push(self.queue_id, self.generation, Half::Stream, item)
    }

    /// Bounded push into the control half: refused with `Full` at capacity and with
    /// `Closed` once the half is closed; never evicts.
    pub fn send_control<T, Key>(&self, dispatch: &mut Dispatch<T, Key>, item: T) -> (r: Result<
        Option<T>,
        Error,
    >)
        requires
            old(dispatch).wf(),
        ensures
            final(dispatch).wf(),
            !old(dispatch).holds(self.queue_id_spec(), self.generation_spec()) ==> r == Err::<Option<T>, Error>(Error::Closed)
                && *final(dispatch) == *old(dispatch),
            old(dispatch).holds(self.queue_id_spec(), self.generation_spec()) ==> final(dispatch).queue_changed_only(old(dispatch), self.queue_id_spec(), Half::Control)
                && push_spec(old(dispatch).descriptor(self.queue_id_spec()).queue(Half::Control), final(dispatch).descriptor(self.queue_id_spec()).queue(Half::Control), item, r),
    {
        dispatch.push(self.queue_id, self.generation, Half::Control, item)
    }

    /// Another sender for the same descriptor.
    pub fn clone<T, Key>(&self, dispatch: &mut Dispatch<T, Key>) -> (r: Sender)
        requires
            old(dispatch).wf(),
            old(dispatch).holds_sender(self.queue_id_spec(), self.generation_spec()),
            old(dispatch).descriptor(self.queue_id_spec()).sender_count() < u64::MAX,
        ensures
            final(dispatch).wf(),
            r.queue_id_spec() == self.queue_id_spec(),
            r.generation_spec() == self.generation_spec(),
            final(dispatch).others_unchanged(old(dispatch), self.queue_id_spec()),
            clone_sender_spec(
                old(dispatch).descriptor(self.queue_id_spec()),
                final(dispatch).descriptor(self.queue_id_spec()),
            ),
    {
        dispatch.clone_sender(self.queue_id, self.generation);
        Sender { queue_id: self.queue_id, generation: self.generation }
    }

    /// Gives up this sender; the result tells whether it was the descriptor's last
    /// handle, whose state is then released.
    pub fn drop<T, Key>(self, dispatch: &mut Dispatch<T, Key>) -> (reclaimed: bool)
        requires
            old(dispatch).wf(),
            old(dispatch).holds_sender(self.queue_id_spec(), self.generation_spec()),
        ensures
            final(dispatch).wf(),
            final(dispatch).others_unchanged(old(dispatch), self.queue_id_spec()),
            drop_sender_spec(
                old(dispatch).descriptor(self.queue_id_spec()),
                final(dispatch).descriptor(self.queue_id_spec()),
                reclaimed,
            ),
    {
        dispatch.drop_sender(self.queue_id, self.generation)
    }
}

impl Control {
    pub closed spec fn queue_id_spec(&self) -> u64 {
        self.queue_id
    }

    pub closed spec fn generation_spec(&self) -> u64 {
        self.generation
    }

    pub(crate) fn new(queue_id: u64, generation: u64) -> (r: Self)
        ensures
            r.queue_id_spec() == queue_id,
            r.generation_spec() == generation,
    {
        Control { queue_id, generation }
    }

    /// The routing identifier a peer uses to reach this channel.
    pub fn queue_id(&self) -> (r: u64)
        ensures
            r == self.queue_id_spec(),
    {
        self.queue_id
    }

    /// Forced push into this half: at capacity the oldest item is evicted and
    /// returned; a closed half hands `item` back.
    pub fn push<T, Key>(&self, dispatch: &mut Dispatch<T, Key>, item: T) -> (r: Option<T>)
        requires
            old(dispatch).wf(),
        ensures
            final(dispatch).wf(),
            !old(dispatch).holds(self.queue_id_spec(), self.generation_spec()) ==> r == Some(item) && *final(dispatch) == *old(dispatch),
            old(dispatch).holds(self.queue_id_spec(), self.generation_spec()) ==> final(dispatch).queue_changed_only(old(dispatch), self.queue_id_spec(), Half::Control)
                && force_push_spec(old(dispatch).descriptor(self.queue_id_spec()).queue(Half::Control), final(dispatch).descriptor(self.queue_id_spec()).queue(Half::Control), item, r),
    {
        dispatch.force_push(self.queue_id, self.generation, Half::Control, item)
    }

    /// Takes the oldest item without waiting: `Ok(None)` while empty and open,
    /// `Err(Closed)` once closed and drained.
    pub fn try_recv<T, Key>(&self, dispatch: &mut Dispatch<T, Key>) -> (r: Result<Option<T>, Closed>)
        requires
            old(dispatch).wf(),
        ensures
            final(dispatch).wf(),
            !old(dispatch).holds(self.queue_id_spec(), self.generation_spec()) ==> r == Err::<Option<T>, Closed>(Closed)
                && *final(dispatch) == *old(dispatch),
            old(dispatch).holds(self.queue_id_spec(), self.generation_spec()) ==> final(dispatch).queue_changed_only(old(dispatch), self.queue_id_spec(), Half::Control)
                && pop_spec(old(dispatch).descriptor(self.queue_id_spec()).queue(Half::Control), final(dispatch).descriptor(self.queue_id_spec()).queue(Half::Control), r),
    {
        dispatch.pop(self.queue_id, self.generation, Half::Control)
    }

    /// Takes the oldest item, or registers `waker` and is pending while the half is
    /// empty and open.
    pub fn poll_recv<T, Key>(&self, dispatch: &mut Dispatch<T, Key>, waker: &Waker, actor: Actor) -> (r:
        Poll<Result<T, Closed>>)
        requires
            old(dispatch).wf(),
        ensures
            final(dispatch).wf(),
            !old(dispatch).holds(self.queue_id_spec(), self.generation_spec()) ==> r == Poll::Ready(Err::<T, Closed>(Closed))
                && *final(dispatch) == *old(dispatch),
            old(dispatch).holds(self.queue_id_spec(), self.generation_spec()) ==> final(dispatch).queue_changed_only(old(dispatch), self.queue_id_spec(), Half::Control)
                && poll_pop_spec(old(dispatch).descriptor(self.queue_id_spec()).queue(Half::Control), final(dispatch).descriptor(self.queue_id_spec()).queue(Half::Control), r),
    {
        dispatch.poll_pop(self.queue_id, self.generation, Half::Control, waker, actor)
    }

    /// Moves every queued item, in order, to the back of `out`, or waits as
    /// `poll_recv` does.
    pub fn poll_swap<T, Key>(
        &self,
        dispatch: &mut Dispatch<T, Key>,
        waker: &Waker,
        actor: Actor,
        out: &mut VecDeque<T>,
    ) -> (r: Poll<Result<(), Closed>>)
        requires
            old(dispatch).wf(),
        ensures
            final(dispatch).wf(),
            !old(dispatch).holds(self.queue_id_spec(), self.generation_spec()) ==> r == Poll::Ready(Err::<(), Closed>(Closed))
                && *final(dispatch) == *old(dispatch) && final(out)@ == old(out)@,
            old(dispatch).holds(self.queue_id_spec(), self.generation_spec()) ==> final(dispatch).queue_changed_only(old(dispatch), self.queue_id_spec(), Half::Control)
                && poll_swap_spec(old(dispatch).descriptor(self.queue_id_spec()).queue(Half::Control), final(dispatch).descriptor(self.queue_id_spec()).queue(Half::Control), old(out)@, final(out)@, r),
    {
        dispatch.poll_swap(self.queue_id, self.generation, Half::Control, waker, actor, out)
    }

    /// Gives up this receiver, closing its half; the result tells whether it was the
    /// descriptor's last handle, whose state is then released.
    pub fn drop<T, Key>(self, dispatch: &mut Dispatch<T, Key>) -> (reclaimed: bool)
        requires
            old(dispatch).wf(),
            old(dispatch).holds_receiver(self.queue_id_spec(), self.generation_spec(), Half::Control),
        ensures
            final(dispatch).wf(),
            final(dispatch).others_unchanged(old(dispatch), self.queue_id_spec()),
            drop_receiver_spec(
                old(dispatch).descriptor(self.queue_id_spec()),
                final(dispatch).descriptor(self.queue_id_spec()),
                Half::Control,
                reclaimed,
            ),
    {
        dispatch.drop_receiver(self.queue_id, self.generation, Half::Control)
    }
}

impl Stream {
    pub closed spec fn queue_id_spec(&self) -> u64 {
        self.queue_id
    }

    pub closed spec fn generation_spec(&self) -> u64 {
        self.generation
    }

    pub(crate) fn new(queue_id: u64, generation: u64) -> (r: Self)
        ensures
            r.queue_id_spec() == queue_id,
            r.generation_spec() == generation,
    {
        Stream { queue_id, generation }
    }

    /// The routing identifier a peer uses to reach this channel.
    pub fn queue_id(&self) -> (r: u64)
        ensures
            r == self.queue_id_spec(),
    {
        self.queue_id
    }

    /// Forced push into this half: at capacity the oldest item is evicted and
    /// returned; a closed half hands `item` back.
    pub fn push<T, Key>(&self, dispatch: &mut Dispatch<T, Key>, item: T) -> (r: Option<T>)
        requires
            old(dispatch).wf(),
        ensures
            final(dispatch).wf(),
            !old(dispatch).holds(self.queue_id_spec(), self.generation_spec()) ==> r == Some(item) && *final(dispatch) == *old(dispatch),
            old(dispatch).holds(self.queue_id_spec(), self.generation_spec()) ==> final(dispatch).queue_changed_only(old(dispatch), self.queue_id_spec(), Half::Stream)
                && force_push_spec(old(dispatch).descriptor(self.queue_id_spec()).queue(Half::Stream), final(dispatch).descriptor(self.queue_id_spec()).queue(Half::Stream), item, r),
    {
        dispatch.force_push(self.queue_id, self.generation, Half::Stream, item)
    }

    /// Takes the oldest item without waiting: `Ok(None)` while empty and open,
    /// `Err(Closed)` once closed and drained.
    pub fn try_recv<T, Key>(&self, dispatch: &mut Dispatch<T, Key>) -> (r: Result<Option<T>, Closed>)
        requires
            old(dispatch).wf(),
        ensures
            final(dispatch).wf(),
            !old(dispatch).holds(self.queue_id_spec(), self.generation_spec()) ==> r == Err::<Option<T>, Closed>(Closed)
                && *final(dispatch) == *old(dispatch),
            old(dispatch).holds(self.queue_id_spec(), self.generation_spec()) ==> final(dispatch).queue_changed_only(old(dispatch), self.queue_id_spec(), Half::Stream)
                && pop_spec(old(dispatch).descriptor(self.queue_id_spec()).queue(Half::Stream), final(dispatch).descriptor(self.queue_id_spec()).queue(Half::Stream), r),
    {
        dispatch.pop(self.queue_id, self.generation, Half::Stream)
    }

    /// Takes the oldest item, or registers `waker` and is pending while the half is
    /// empty and open.
    pub fn poll_recv<T, Key>(&self, dispatch: &mut Dispatch<T, Key>, waker: &Waker, actor: Actor) -> (r:
        Poll<Result<T, Closed>>)
        requires
            old(dispatch).wf(),
        ensures
            final(dispatch).wf(),
            !old(dispatch).holds(self.queue_id_spec(), self.generation_spec()) ==> r == Poll::Ready(Err::<T, Closed>(Closed))
                && *final(dispatch) == *old(dispatch),
            old(dispatch).holds(self.queue_id_spec(), self.generation_spec()) ==> final(dispatch).queue_changed_only(old(dispatch), self.queue_id_spec(), Half::Stream)
                && poll_pop_spec(old(dispatch).descriptor(self.queue_id_spec()).queue(Half::Stream), final(dispatch).descriptor(self.queue_id_spec()).queue(Half::Stream), r),
    {
        dispatch.poll_pop(self.queue_id, self.generation, Half::Stream, waker, actor)
    }

    /// Moves every queued item, in order, to the back of `out`, or waits as
    /// `poll_recv` does.
    pub fn poll_swap<T, Key>(
        &self,
        dispatch: &mut Dispatch<T, Key>,
        waker: &Waker,
        actor: Actor,
        out: &mut VecDeque<T>,
    ) -> (r: Poll<Result<(), Closed>>)
        requires
            old(dispatch).wf(),
        ensures
            final(dispatch).wf(),
            !old(dispatch).holds(self.queue_id_spec(), self.generation_spec()) ==> r == Poll::Ready(Err::<(), Closed>(Closed))
                && *final(dispatch) == *old(dispatch) && final(out)@ == old(out)@,
            old(dispatch).holds(self.queue_id_spec(), self.generation_spec()) ==> final(dispatch).queue_changed_only(old(dispatch), self.queue_id_spec(), Half::Stream)
                && poll_swap_spec(old(dispatch).descriptor(self.queue_id_spec()).queue(Half::Stream), final(dispatch).descriptor(self.queue_id_spec()).queue(Half::Stream), old(out)@, final(out)@, r),
    {
        dispatch.poll_swap(self.queue_id, self.generation, Half::Stream, waker, actor, out)
    }

    /// Gives up this receiver, closing its half; the result tells whether it was the
    /// descriptor's last handle, whose state is then released.
    pub fn drop<T, Key>(self, dispatch: &mut Dispatch<T, Key>) -> (reclaimed: bool)
        requires
            old(dispatch).wf(),
            old(dispatch).holds_receiver(self.queue_id_spec(), self.generation_spec(), Half::Stream),
        ensures
            final(dispatch).wf(),
            final(dispatch).others_unchanged(old(dispatch), self.queue_id_spec()),
            drop_receiver_spec(
                old(dispatch).descriptor(self.queue_id_spec()),
                final(dispatch).descriptor(self.queue_id_spec()),
                Half::Stream,
                reclaimed,
            ),
    {
        dispatch.drop_receiver(self.queue_id, self.generation, Half::Stream)
    }
}

} // verus!
