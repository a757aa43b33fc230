use std::collections::VecDeque;
use std::task::Waker;
use vstd::prelude::*;

use crate::ring_deque::{
    lemma_closed_queue_refuses_pushes, quiet, woken,
    force_push_spec, poll_pop_spec, poll_swap_spec, pop_spec, push_spec, Actor, Closed, Error,
    Poll, RingQueue,
};

verus! {

/// One of the two independent sub-channels of a descriptor.
#[derive(Clone, Copy, Debug, PartialEq, Eq, Structural)]
pub enum Half {
    Control,
    Stream,
}

impl Half {
    pub open spec fn other(self) -> Half {
        match self {
            Half::Control => Half::Stream,
            Half::Stream => Half::Control,
        }
    }
}

/// The shared state behind one routing identifier: its key, one queue per half, and
/// the counts of the handles that refer to it.
pub struct Descriptor<T, Key> {
    queue_id: u64,
    generation: u64,
    key: Option<Key>,
    control: RingQueue<T>,
    stream: RingQueue<T>,
    senders: u64,
    control_receiver: bool,
    stream_receiver: bool,
    registered: bool,
}

impl<T, Key> Descriptor<T, Key> {
    pub closed spec fn queue_id_spec(&self) -> u64 {
        self.queue_id
    }

    /// Tells apart successive descriptors that reuse one slot.
    pub closed spec fn generation_spec(&self) -> u64 {
        self.generation
    }

    pub closed spec fn key_spec(&self) -> Option<Key> {
        self.key
    }

    pub closed spec fn queue(&self, half: Half) -> RingQueue<T> {
        match half {
            Half::Control => self.control,
            Half::Stream => self.stream,
        }
    }

    pub closed spec fn sender_count(&self) -> nat {
        self.senders as nat
    }

    pub closed spec fn has_receiver(&self, half: Half) -> bool {
        match half {
            Half::Control => self.control_receiver,
            Half::Stream => self.stream_receiver,
        }
    }

    /// Whether the router may still hand out senders for this descriptor.
    pub closed spec fn is_registered(&self) -> bool {
        self.registered
    }

    /// All outstanding handles: the senders and the live receivers.
    pub open spec fn handle_count(&self) -> nat {
        self.sender_count() + (if self.has_receiver(Half::Control) {
            1nat
        } else {
            0nat
        }) + (if self.has_receiver(Half::Stream) {
            1nat
        } else {
            0nat
        })
    }

    /// The descriptor's state is held until its last handle goes.
    pub open spec fn is_live(&self) -> bool {
        self.handle_count() > 0
    }

    pub closed spec fn wf(&self) -> bool {
        &&& self.control.wf()
        &&& self.stream.wf()
        &&& self.registered ==> self.senders > 0 && (self.control_receiver
            || self.stream_receiver)
        &&& self.senders == 0 ==> !self.control.is_open_spec() && !self.stream.is_open_spec()
        &&& !self.control_receiver ==> !self.control.is_open_spec()
        &&& !self.stream_receiver ==> !self.stream.is_open_spec()
        &&& !self.is_live() ==> {
            &&& self.key.is_none()
            &&& self.control@.len() == 0
            &&& self.stream@.len() == 0
        }
    }

    /// Everything but the queue of `half` is as in `other`.
    pub open spec fn same_except_queue(&self, other: &Self, half: Half) -> bool {
        &&& self.queue_id_spec() == other.queue_id_spec()
        &&& self.generation_spec() == other.generation_spec()
        &&& self.key_spec() == other.key_spec()
        &&& self.sender_count() == other.sender_count()
        &&& self.has_receiver(Half::Control) == other.has_receiver(Half::Control)
        &&& self.has_receiver(Half::Stream) == other.has_receiver(Half::Stream)
        &&& self.is_registered() == other.is_registered()
        &&& self.queue(half.other()) == other.queue(half.other())
    }

    /// A registered descriptor with one sender, both receivers and two empty open
    /// queues of `capacity`.
    pub fn new(queue_id: u64, generation: u64, key: Key, capacity: usize) -> (r: Self)
        ensures
            r.wf(),
            fresh_spec(r, queue_id, generation, key, capacity),
    {
        Descriptor {
            queue_id,
            generation,
            key: Some(key),
            control: RingQueue::with_capacity(capacity),
            stream: RingQueue::with_capacity(capacity),
            senders: 1,
            control_receiver: true,
            stream_receiver: true,
            registered: true,
        }
    }

    pub fn queue_id(&self) -> (r: u64)
        ensures
            r == self.queue_id_spec(),
    {
        self.queue_id
    }

    pub fn generation(&self) -> (r: u64)
        ensures
            r == self.generation_spec(),
    {
        self.generation
    }

    pub fn key(&self) -> (r: &Option<Key>)
        ensures
            *r == self.key_spec(),
    {
        &self.key
    }

    pub fn is_registered_exec(&self) -> (r: bool)
        ensures
            r == self.is_registered(),
    {
        self.registered
    }

    /// Whether any handle still refers to the descriptor.
    pub fn is_live_exec(&self) -> (r: bool)
        ensures
            r == self.is_live(),
    {
        self.senders > 0 || self.control_receiver || self.stream_receiver
    }

    /// Send events counted on `half`.
    pub fn sent(&self, half: Half) -> (r: u64)
        ensures
            r == self.queue(half).sent_count(),
    {
        match half {
            Half::Control => self.control.sent(),
            Half::Stream => self.stream.sent(),
        }
    }

    /// Receive events counted on `half`.
    pub fn received(&self, half: Half) -> (r: u64)
        ensures
            r == self.queue(half).received_count(),
    {
        match half {
            Half::Control => self.control.received(),
            Half::Stream => self.stream.received(),
        }
    }

    pub fn senders(&self) -> (r: u64)
        ensures
            r == self.sender_count(),
    {
        self.senders
    }

    pub fn push(&mut self, half: Half, item: T) -> (r: Result<Option<T>, Error>)
        requires
            old(self).wf(),
        ensures
            final(self).wf(),
            final(self).same_except_queue(old(self), half),
            push_spec(old(self).queue(half), final(self).queue(half), item, r),
    {
        match half {
            Half::Control => self.control.push(item),
            Half::Stream => self.stream.push(item),
        }
    }

    pub fn force_push(&mut self, half: Half, item: T) -> (r: Option<T>)
        requires
            old(self).wf(),
        ensures
            final(self).wf(),
            final(self).same_except_queue(old(self), half),
            force_push_spec(old(self).queue(half), final(self).queue(half), item, r),
    {
        match half {
            Half::Control => self.control.force_push(item),
            Half::Stream => self.stream.force_push(item),
        }
    }

    pub fn pop(&mut self, half: Half) -> (r: Result<Option<T>, Closed>)
        requires
            old(self).wf(),
        ensures
            final(self).wf(),
            final(self).same_except_queue(old(self), half),
            pop_spec(old(self).queue(half), final(self).queue(half), r),
    {
        match half {
            Half::Control => self.control.pop(),
            Half::Stream => self.stream.pop(),
        }
    }

    pub fn poll_pop(&mut self, half: Half, waker: &Waker, actor: Actor) -> (r: Poll<
        Result<T, Closed>,
    >)
        requires
            old(self).wf(),
        ensures
            final(self).wf(),
            final(self).same_except_queue(old(self), half),
            poll_pop_spec(old(self).queue(half), final(self).queue(half), r),
    {
        match half {
            Half::Control => self.control.poll_pop(waker, actor),
            Half::Stream => self.stream.poll_pop(waker, actor),
        }
    }

    pub fn poll_swap(&mut self, half: Half, waker: &Waker, actor: Actor, out: &mut VecDeque<T>) -> (r:
        Poll<Result<(), Closed>>)
        requires
            old(self).wf(),
        ensures
            final(self).wf(),
            final(self).same_except_queue(old(self), half),
            poll_swap_spec(old(self).queue(half), final(self).queue(half), old(out)@, final(out)@, r),
    {
        match half {
            Half::Control => self.control.poll_swap(waker, actor, out),
            Half::Stream => self.stream.poll_swap(waker, actor, out),
        }
    }

    /// What every well-formed descriptor satisfies: a registered one has a sender and
    /// a receiver; a half without its receiver, or without any sender, is closed; a
    /// descriptor without handles holds no key and no items.
    pub proof fn lemma_wf(&self)
        requires
            self.wf(),
        ensures
            self.is_registered() ==> self.sender_count() > 0 && (self.has_receiver(Half::Control)
                || self.has_receiver(Half::Stream)),
            self.sender_count() == 0 ==> !self.queue(Half::Control).is_open_spec()
                && !self.queue(Half::Stream).is_open_spec(),
            !self.has_receiver(Half::Control) ==> !self.queue(Half::Control).is_open_spec(),
            !self.has_receiver(Half::Stream) ==> !self.queue(Half::Stream).is_open_spec(),
            !self.is_live() ==> self.key_spec().is_none() && self.queue(Half::Control)@.len() == 0
                && self.queue(Half::Stream)@.len() == 0,
            self.queue(Half::Control).wf(),
            self.queue(Half::Stream).wf(),
    {
    }

    /// Counts one more sender.
    pub fn clone_for_sender(&mut self)
        requires
            old(self).wf(),
            old(self).sender_count() > 0,
            old(self).sender_count() < u64::MAX,
        ensures
            final(self).wf(),
            clone_sender_spec(*old(self), *final(self)),
    {
        self.senders = self.senders + 1;
    }

    /// Releases what the descriptor holds once no handle is left.
    fn reclaim_if_unused(&mut self) -> (reclaimed: bool)
        requires
            old(self).control.wf(),
            old(self).stream.wf(),
        ensures
            reclaimed == !old(self).is_live(),
            final(self).control.wf(),
            final(self).stream.wf(),
            final(self).queue_id == old(self).queue_id,
            final(self).generation == old(self).generation,
            final(self).senders == old(self).senders,
            final(self).control_receiver == old(self).control_receiver,
            final(self).stream_receiver == old(self).stream_receiver,
            final(self).registered == old(self).registered,
            !reclaimed ==> *final(self) == *old(self),
            reclaimed ==> {
                &&& final(self).key.is_none()
                &&& final(self).control@.len() == 0
                &&& final(self).stream@.len() == 0
            },
            final(self).control.is_open_spec() == old(self).control.is_open_spec(),
            final(self).stream.is_open_spec() == old(self).stream.is_open_spec(),
            final(self).control.has_waiter() == old(self).control.has_waiter(),
            final(self).stream.has_waiter() == old(self).stream.has_waiter(),
            final(self).control.capacity_spec() == old(self).control.capacity_spec(),
            final(self).stream.capacity_spec() == old(self).stream.capacity_spec(),
            quiet(old(self).control, final(self).control),
            quiet(old(self).stream, final(self).stream),
    {
        if self.senders == 0 && !self.control_receiver && !self.stream_receiver {
            self.control.clear();
            self.stream.clear();
            self.key = None;
            true
        } else {
            false
        }
    }

    /// Counts one sender less. The last sender closes both halves and unregisters the
    /// descriptor; the result tells whether this was its last handle of any kind.
    pub fn drop_sender(&mut self) -> (reclaimed: bool)
        requires
            old(self).wf(),
            old(self).sender_count() > 0,
        ensures
            final(self).wf(),
            drop_sender_spec(*old(self), *final(self), reclaimed),
    {
        self.senders = self.senders - 1;
        if self.senders == 0 {
            self.registered = false;
            self.control.close();
            self.stream.close();
        }
        self.reclaim_if_unused()
    }

    /// Gives up the receiver of `half`: that half closes, and the descriptor is
    /// unregistered once neither receiver is left. The result tells whether this was
    /// its last handle of any kind.
    pub fn drop_receiver(&mut self, half: Half) -> (reclaimed: bool)
        requires
            old(self).wf(),
            old(self).has_receiver(half),
        ensures
            final(self).wf(),
            drop_receiver_spec(*old(self), *final(self), half, reclaimed),
    {
        match half {
            Half::Control => {
                self.control_receiver = false;
                self.control.close();
            },
            Half::Stream => {
                self.stream_receiver = false;
                self.stream.close();
            },
        }
        if !self.control_receiver && !self.stream_receiver {
            self.registered = false;
        }
        self.reclaim_if_unused()
    }
}


/// Cloning a sender counts one more sender and changes nothing else.
pub open spec fn clone_sender_spec<T, Key>(pre: Descriptor<T, Key>, post: Descriptor<T, Key>) -> bool {
    &&& post.sender_count() == pre.sender_count() + 1
    &&& post.queue_id_spec() == pre.queue_id_spec()
    &&& post.generation_spec() == pre.generation_spec()
    &&& post.key_spec() == pre.key_spec()
    &&& post.is_registered() == pre.is_registered()
    &&& post.queue(Half::Control) == pre.queue(Half::Control)
    &&& post.queue(Half::Stream) == pre.queue(Half::Stream)
    &&& post.has_receiver(Half::Control) == pre.has_receiver(Half::Control)
    &&& post.has_receiver(Half::Stream) == pre.has_receiver(Half::Stream)
}

/// Dropping a sender counts one sender less. The last one closes both halves, with
/// their items kept, wakes their waiting consumers, and unregisters the descriptor. `reclaimed` tells whether no
/// handle of any kind is left, in which case the key and the items are released.
pub open spec fn drop_sender_spec<T, Key>(
    pre: Descriptor<T, Key>,
    post: Descriptor<T, Key>,
    reclaimed: bool,
) -> bool {
    &&& post.sender_count() == pre.sender_count() - 1
    &&& reclaimed == (post.handle_count() == 0)
    &&& post.queue_id_spec() == pre.queue_id_spec()
    &&& post.generation_spec() == pre.generation_spec()
    &&& post.has_receiver(Half::Control) == pre.has_receiver(Half::Control)
    &&& post.has_receiver(Half::Stream) == pre.has_receiver(Half::Stream)
    &&& post.is_registered() == (pre.is_registered() && post.sender_count() > 0)
    &&& post.sender_count() > 0 ==> {
        &&& post.queue(Half::Control) == pre.queue(Half::Control)
        &&& post.queue(Half::Stream) == pre.queue(Half::Stream)
    }
    &&& post.sender_count() == 0 ==> {
        &&& !post.queue(Half::Control).is_open_spec()
        &&& !post.queue(Half::Stream).is_open_spec()
        &&& !post.queue(Half::Control).has_waiter()
        &&& !post.queue(Half::Stream).has_waiter()
        &&& woken(pre.queue(Half::Control), post.queue(Half::Control))
        &&& woken(pre.queue(Half::Stream), post.queue(Half::Stream))
    }
    &&& post.queue(Half::Control).sent_count() == pre.queue(Half::Control).sent_count()
    &&& post.queue(Half::Control).received_count() == pre.queue(Half::Control).received_count()
    &&& post.queue(Half::Stream).sent_count() == pre.queue(Half::Stream).sent_count()
    &&& post.queue(Half::Stream).received_count() == pre.queue(Half::Stream).received_count()
    &&& !reclaimed ==> {
        &&& post.key_spec() == pre.key_spec()
        &&& post.queue(Half::Control)@ == pre.queue(Half::Control)@
        &&& post.queue(Half::Stream)@ == pre.queue(Half::Stream)@
    }
    &&& reclaimed ==> post.key_spec().is_none()
}

/// Dropping the receiver of `half` closes that half, with its items kept, wakes a
/// consumer waiting on it, and unregisters the descriptor once neither receiver is left. `reclaimed` tells
/// whether no handle of any kind is left.
pub open spec fn drop_receiver_spec<T, Key>(
    pre: Descriptor<T, Key>,
    post: Descriptor<T, Key>,
    half: Half,
    reclaimed: bool,
) -> bool {
    &&& !post.has_receiver(half)
    &&& post.has_receiver(half.other()) == pre.has_receiver(half.other())
    &&& post.sender_count() == pre.sender_count()
    &&& reclaimed == (post.handle_count() == 0)
    &&& post.queue_id_spec() == pre.queue_id_spec()
    &&& post.generation_spec() == pre.generation_spec()
    &&& post.is_registered() == (pre.is_registered() && post.has_receiver(half.other()))
    &&& !post.queue(half).is_open_spec()
    &&& !post.queue(half).has_waiter()
    &&& woken(pre.queue(half), post.queue(half))
    &&& post.queue(half).sent_count() == pre.queue(half).sent_count()
    &&& post.queue(half).received_count() == pre.queue(half).received_count()
    &&& quiet(pre.queue(half.other()), post.queue(half.other()))
    &&& !reclaimed ==> {
        &&& post.key_spec() == pre.key_spec()
        &&& post.queue(half)@ == pre.queue(half)@
        &&& post.queue(half.other()) == pre.queue(half.other())
    }
    &&& reclaimed ==> post.key_spec().is_none()
}


/// A descriptor just made: registered, with one sender, both receivers and two empty
/// open queues of `capacity`.
pub open spec fn fresh_spec<T, Key>(
    d: Descriptor<T, Key>,
    queue_id: u64,
    generation: u64,
    key: Key,
    capacity: usize,
) -> bool {
    &&& d.queue_id_spec() == queue_id
    &&& d.generation_spec() == generation
    &&& d.key_spec() == Some(key)
    &&& d.sender_count() == 1
    &&& d.has_receiver(Half::Control)
    &&& d.has_receiver(Half::Stream)
    &&& d.is_registered()
    &&& d.queue(Half::Control)@ == Seq::<T>::empty()
    &&& d.queue(Half::Stream)@ == Seq::<T>::empty()
    &&& d.queue(Half::Control).is_open_spec()
    &&& d.queue(Half::Stream).is_open_spec()
    &&& d.queue(Half::Control).capacity_spec() == capacity
    &&& d.queue(Half::Stream).capacity_spec() == capacity
    &&& !d.queue(Half::Control).has_waiter()
    &&& !d.queue(Half::Stream).has_waiter()
}


/// One handle operation on a descriptor, with what the operation requires: a sender
/// cloned or dropped while one is counted, or a live receiver dropped. `reclaimed` is
/// what the operation reports (a clone reports `false`).
pub open spec fn handle_step<T, Key>(
    pre: Descriptor<T, Key>,
    post: Descriptor<T, Key>,
    reclaimed: bool,
) -> bool {
    ||| pre.sender_count() > 0 && clone_sender_spec(pre, post) && !reclaimed
    ||| pre.sender_count() > 0 && drop_sender_spec(pre, post, reclaimed)
    ||| pre.has_receiver(Half::Control) && drop_receiver_spec(pre, post, Half::Control, reclaimed)
    ||| pre.has_receiver(Half::Stream) && drop_receiver_spec(pre, post, Half::Stream, reclaimed)
}

/// Over any sequence of handle operations on a descriptor, its state is released by
/// exactly the operation that leaves no handle of any kind, and by no other: at most
/// once, and only as the last operation.
pub proof fn lemma_reclaimed_exactly_once<T, Key>(
    states: Seq<Descriptor<T, Key>>,
    reclaimed: Seq<bool>,
)
    requires
        states.len() == reclaimed.len() + 1,
        states[0].is_live(),
        forall|i: int|
            0 <= i < reclaimed.len() ==> #[trigger] handle_step(states[i], states[i + 1], reclaimed[i]),
    ensures
        forall|i: int|
            0 <= i < reclaimed.len() ==> (#[trigger] reclaimed[i] <==> states[i + 1].handle_count()
                == 0),
        forall|i: int| 0 <= i < reclaimed.len() && #[trigger] reclaimed[i] ==> i == reclaimed.len() - 1,
        forall|i: int, j: int|
            0 <= i < j < reclaimed.len() ==> !(#[trigger] reclaimed[i] && #[trigger] reclaimed[j]),
{
    assert forall|i: int| 0 <= i < reclaimed.len() implies (#[trigger] reclaimed[i]
        <==> states[i + 1].handle_count() == 0) by {
        assert(handle_step(states[i], states[i + 1], reclaimed[i]));
    }
    assert forall|i: int| 0 <= i < reclaimed.len() && #[trigger] reclaimed[i] implies i
        == reclaimed.len() - 1 by {
        assert(handle_step(states[i], states[i + 1], reclaimed[i]));
        if i + 1 < reclaimed.len() {
            let k = i + 1;
            assert(handle_step(states[k], states[k + 1], reclaimed[k]));
        }
    }
}

/// Whatever is done to one half, one operation after another, the other half's
/// queue stays as it was.
pub proof fn lemma_other_half_unaffected<T, Key>(states: Seq<Descriptor<T, Key>>, half: Half)
    requires
        states.len() > 0,
        forall|i: int|
            0 <= i < states.len() - 1 ==> #[trigger] states[i + 1].same_except_queue(&states[i], half),
    ensures
        forall|i: int|
            0 <= i < states.len() ==> #[trigger] states[i].queue(half.other()) == states[0].queue(
                half.other(),
            ),
    decreases states.len(),
{
    if states.len() > 1 {
        let prev = states.drop_last();
        assert forall|i: int| 0 <= i < prev.len() - 1 implies #[trigger] prev[i + 1].same_except_queue(
            &prev[i],
            half,
        ) by {
            assert(states[i + 1].same_except_queue(&states[i], half));
        }
        lemma_other_half_unaffected(prev, half);
        let n = states.len() - 2;
        assert(states[n + 1].same_except_queue(&states[n], half));
        assert(prev[n] == states[n]);
        assert forall|i: int| 0 <= i < states.len() implies #[trigger] states[i].queue(half.other())
            == states[0].queue(half.other()) by {
            if i < states.len() - 1 {
                assert(prev[i] == states[i]);
            }
        }
    }
}

/// Once the last sender is dropped, both halves are closed and their waiting
/// consumers woken: each drains what is queued and then observes `Closed`, and no
/// push succeeds.
pub proof fn lemma_last_sender_closes_both_halves<T, Key>(
    pre: Descriptor<T, Key>,
    post: Descriptor<T, Key>,
    reclaimed: bool,
)
    requires
        drop_sender_spec(pre, post, reclaimed),
        pre.sender_count() == 1,
    ensures
        !post.queue(Half::Control).is_open_spec(),
        !post.queue(Half::Stream).is_open_spec(),
        !post.is_registered(),
        woken(pre.queue(Half::Control), post.queue(Half::Control)),
        woken(pre.queue(Half::Stream), post.queue(Half::Stream)),
        !reclaimed ==> post.queue(Half::Control)@ == pre.queue(Half::Control)@
            && post.queue(Half::Stream)@ == pre.queue(Half::Stream)@,
{
}

/// After the receiver of a half is dropped, a bounded push into that half is refused
/// with `Closed`.
pub proof fn lemma_push_after_receiver_dropped<T, Key>(
    pre: Descriptor<T, Key>,
    post: Descriptor<T, Key>,
    half: Half,
    reclaimed: bool,
    after: RingQueue<T>,
    item: T,
    r: Result<Option<T>, Error>,
)
    requires
        drop_receiver_spec(pre, post, half, reclaimed),
        push_spec(post.queue(half), after, item, r),
    ensures
        r == Err::<Option<T>, Error>(Error::Closed),
{
    lemma_closed_queue_refuses_pushes(post.queue(half), after, item, r);
}

} // verus!
