use vstd::prelude::*;

use std::collections::VecDeque;
use std::task::Waker;

use crate::descriptor::{
    clone_sender_spec, drop_receiver_spec, drop_sender_spec, fresh_spec, Descriptor, Half,
};
use crate::handle::{Control, Sender, Stream};
use crate::ring_deque::{
    force_push_spec, poll_pop_spec, poll_swap_spec, pop_spec, push_spec, Actor, Closed, Error,
    Poll,
};

verus! {

/// The descriptors of one process, each in the slot named by its routing identifier,
/// and the router that hands out senders for them.
pub struct Dispatch<T, Key> {
    slots: Vec<Descriptor<T, Key>>,
}

impl<T, Key> Dispatch<T, Key> {
    /// The slots, indexed by routing identifier.
    pub closed spec fn descriptors(&self) -> Seq<Descriptor<T, Key>> {
        self.slots@
    }

    pub closed spec fn wf(&self) -> bool {
        &&& self.slots@.len() <= u64::MAX
        &&& forall|i: int|
            0 <= i < self.slots@.len() ==> #[trigger] self.slots@[i].wf()
                && self.slots@[i].queue_id_spec() == i
    }

    pub open spec fn descriptor(&self, queue_id: u64) -> Descriptor<T, Key> {
        self.descriptors()[queue_id as int]
    }

    /// Whether a handle with this identifier and generation refers to a live
    /// descriptor.
    pub open spec fn holds(&self, queue_id: u64, generation: u64) -> bool {
        &&& (queue_id as int) < self.descriptors().len()
        &&& self.descriptor(queue_id).is_live()
        &&& self.descriptor(queue_id).generation_spec() == generation
    }

    /// Whether the router resolves `queue_id` to a descriptor.
    pub open spec fn is_routable(&self, queue_id: u64) -> bool {
        &&& (queue_id as int) < self.descriptors().len()
        &&& self.descriptor(queue_id).is_registered()
    }

    /// Every descriptor but the one at `queue_id` is as in `other`.
    pub open spec fn others_unchanged(&self, other: &Self, queue_id: u64) -> bool {
        &&& self.descriptors().len() == other.descriptors().len()
        &&& forall|j: int|
            0 <= j < self.descriptors().len() && j != queue_id ==> #[trigger] self.descriptors()[j]
                == other.descriptors()[j]
    }

    /// Only the queue of `half` in the descriptor at `queue_id` differs from `other`.
    pub open spec fn queue_changed_only(&self, other: &Self, queue_id: u64, half: Half) -> bool {
        &&& self.others_unchanged(other, queue_id)
        &&& self.descriptor(queue_id).same_except_queue(&other.descriptor(queue_id), half)
    }

    /// Every descriptor of a well-formed router is well-formed.
    pub proof fn lemma_descriptor_wf(&self, queue_id: u64)
        requires
            self.wf(),
            (queue_id as int) < self.descriptors().len(),
        ensures
            self.descriptor(queue_id).wf(),
            self.descriptor(queue_id).queue_id_spec() == queue_id,
    {
        assert(self.slots@[queue_id as int].wf());
    }

    /// A routable descriptor is live and has a sender.
    pub proof fn lemma_routable_has_sender(&self, queue_id: u64)
        requires
            self.wf(),
            self.is_routable(queue_id),
        ensures
            self.descriptor(queue_id).sender_count() > 0,
            self.descriptor(queue_id).is_live(),
    {
        assert(self.slots@[queue_id as int].wf());
        self.slots@[queue_id as int].lemma_wf();
    }

    /// An empty router.
    pub fn new() -> (r: Self)
        ensures
            r.wf(),
            r.descriptors() == Seq::<Descriptor<T, Key>>::empty(),
    {
        Dispatch { slots: Vec::new() }
    }

    pub fn len(&self) -> (r: usize)
        ensures
            r == self.descriptors().len(),
    {
        self.slots.len()
    }

    proof fn lemma_slot_replaced(&self, pre: Seq<Descriptor<T, Key>>, i: int)
        requires
            0 <= i < pre.len(),
            pre.len() <= u64::MAX,
            self.slots@ == pre.update(i, self.slots@[i]),
            forall|j: int| 0 <= j < pre.len() ==> #[trigger] pre[j].wf() && pre[j].queue_id_spec() == j,
            self.slots@[i].wf(),
            self.slots@[i].queue_id_spec() == i,
        ensures
            self.wf(),
    {
        assert forall|j: int| 0 <= j < self.slots@.len() implies #[trigger] self.slots@[j].wf()
            && self.slots@[j].queue_id_spec() == j by {
            if j != i {
                assert(self.slots@[j] == pre[j]);
            }
        }
    }

    /// The slot of a live descriptor with this identifier and generation.
    fn find(&self, queue_id: u64, generation: u64) -> (r: Option<usize>)
        requires
            self.wf(),
        ensures
            r.is_some() == self.holds(queue_id, generation),
            r.is_some() ==> r.unwrap() == queue_id,
    {
        if queue_id >= self.slots.len() as u64 {
            return None;
        }
        let i = queue_id as usize;
        if self.slots[i].is_live_exec() && self.slots[i].generation() == generation {
            Some(i)
        } else {
            None
        }
    }

    /// A bounded push into `half` of the descriptor a handle names.
    pub(crate) fn push(&mut self, queue_id: u64, generation: u64, half: Half, item: T) -> (r: Result<
        Option<T>,
        Error,
    >)
        requires
            old(self).wf(),
        ensures
            final(self).wf(),
            !old(self).holds(queue_id, generation) ==> r == Err::<Option<T>, Error>(Error::Closed)
                && *final(self) == *old(self),
            old(self).holds(queue_id, generation) ==> final(self).queue_changed_only(
                old(self),
                queue_id,
                half,
            ) && push_spec(
                old(self).descriptor(queue_id).queue(half),
                final(self).descriptor(queue_id).queue(half),
                item,
                r,
            ),
    {
        match self.find(queue_id, generation) {
            None => Err(Error::Closed),
            Some(i) => {
                let ghost pre = self.slots@;
                let r = self.slots[i].push(half, item);
                proof {
                    assert(pre[i as int].wf());
                    self.lemma_slot_replaced(pre, i as int);
                }
                r
            },
        }
    }

    /// A forced push into `half` of the descriptor a handle names; a handle whose
    /// descriptor has gone gets `item` back.
    pub(crate) fn force_push(&mut self, queue_id: u64, generation: u64, half: Half, item: T) -> (r:
        Option<T>)
        requires
            old(self).wf(),
        ensures
            final(self).wf(),
            !old(self).holds(queue_id, generation) ==> r == Some(item) && *final(self) == *old(self),
            old(self).holds(queue_id, generation) ==> final(self).queue_changed_only(
                old(self),
                queue_id,
                half,
            ) && force_push_spec(
                old(self).descriptor(queue_id).queue(half),
                final(self).descriptor(queue_id).queue(half),
                item,
                r,
            ),
    {
        match self.find(queue_id, generation) {
            None => Some(item),
            Some(i) => {
                let ghost pre = self.slots@;
                let r = self.slots[i].force_push(half, item);
                proof {
                    assert(pre[i as int].wf());
                    self.lemma_slot_replaced(pre, i as int);
                }
                r
            },
        }
    }

    /// A pop from `half` of the descriptor a handle names; a handle whose descriptor
    /// has gone observes `Closed`.
    pub(crate) fn pop(&mut self, queue_id: u64, generation: u64, half: Half) -> (r: Result<
        Option<T>,
        Closed,
    >)
        requires
            old(self).wf(),
        ensures
            final(self).wf(),
            !old(self).holds(queue_id, generation) ==> r == Err::<Option<T>, Closed>(Closed)
                && *final(self) == *old(self),
            old(self).holds(queue_id, generation) ==> final(self).queue_changed_only(
                old(self),
                queue_id,
                half,
            ) && pop_spec(
                old(self).descriptor(queue_id).queue(half),
                final(self).descriptor(queue_id).queue(half),
                r,
            ),
    {
        match self.find(queue_id, generation) {
            None => Err(Closed),
            Some(i) => {
                let ghost pre = self.slots@;
                let r = self.slots[i].pop(half);
                proof {
                    assert(pre[i as int].wf());
                    self.lemma_slot_replaced(pre, i as int);
                }
                r
            },
        }
    }

    /// A poll for one item of `half` of the descriptor a handle names.
    pub(crate) fn poll_pop(
        &mut self,
        queue_id: u64,
        generation: u64,
        half: Half,
        waker: &Waker,
        actor: Actor,
    ) -> (r: Poll<Result<T, Closed>>)
        requires
            old(self).wf(),
        ensures
            final(self).wf(),
            !old(self).holds(queue_id, generation) ==> r == Poll::Ready(Err::<T, Closed>(Closed))
                && *final(self) == *old(self),
            old(self).holds(queue_id, generation) ==> final(self).queue_changed_only(
                old(self),
                queue_id,
                half,
            ) && poll_pop_spec(
                old(self).descriptor(queue_id).queue(half),
                final(self).descriptor(queue_id).queue(half),
                r,
            ),
    {
        match self.find(queue_id, generation) {
            None => Poll::Ready(Err(Closed)),
            Some(i) => {
                let ghost pre = self.slots@;
                let r = self.slots[i].poll_pop(half, waker, actor);
                proof {
                    assert(pre[i as int].wf());
                    self.lemma_slot_replaced(pre, i as int);
                }
                r
            },
        }
    }

    /// A batched poll of `half` of the descriptor a handle names.
    pub(crate) fn poll_swap(
        &mut self,
        queue_id: u64,
        generation: u64,
        half: Half,
        waker: &Waker,
        actor: Actor,
        out: &mut VecDeque<T>,
    ) -> (r: Poll<Result<(), Closed>>)
        requires
            old(self).wf(),
        ensures
            final(self).wf(),
            !old(self).holds(queue_id, generation) ==> r == Poll::Ready(Err::<(), Closed>(Closed))
                && *final(self) == *old(self) && final(out)@ == old(out)@,
            old(self).holds(queue_id, generation) ==> final(self).queue_changed_only(
                old(self),
                queue_id,
                half,
            ) && poll_swap_spec(
                old(self).descriptor(queue_id).queue(half),
                final(self).descriptor(queue_id).queue(half),
                old(out)@,
                final(out)@,
                r,
            ),
    {
        match self.find(queue_id, generation) {
            None => Poll::Ready(Err(Closed)),
            Some(i) => {
                let ghost pre = self.slots@;
                let r = self.slots[i].poll_swap(half, waker, actor, out);
                proof {
                    assert(pre[i as int].wf());
                    self.lemma_slot_replaced(pre, i as int);
                }
                r
            },
        }
    }

    /// Makes a descriptor for `key` with two queues of `capacity`, in a free slot or
    /// a new one, and hands out its sender and its two receivers. A reused slot gets
    /// the next generation, so handles of its former descriptor stay refused.
    pub fn create(&mut self, key: Key, capacity: usize) -> (r: (Sender, Control, Stream))
        requires
            old(self).wf(),
            old(self).descriptors().len() < u64::MAX,
        ensures
            final(self).wf(),
            ({
                let (s, c, t) = r;
                let id = s.queue_id_spec();
                let g = s.generation_spec();
                &&& c.queue_id_spec() == id && t.queue_id_spec() == id
                &&& c.generation_spec() == g && t.generation_spec() == g
                &&& id <= old(self).descriptors().len()
                &&& final(self).descriptors().len() == if id == old(self).descriptors().len() {
                    old(self).descriptors().len() + 1
                } else {
                    old(self).descriptors().len()
                }
                &&& id < old(self).descriptors().len() ==> !old(self).descriptor(id).is_live()
                    && g == old(self).descriptor(id).generation_spec() + 1
                &&& id == old(self).descriptors().len() ==> g == 0
                &&& forall|j: int|
                    0 <= j < old(self).descriptors().len() && j != id ==> #[trigger] final(self).descriptors()[j] == old(self).descriptors()[j]
                &&& fresh_spec(final(self).descriptor(id), id, g, key, capacity)
                &&& final(self).holds(id, g)
            }),
    {
        let n = self.slots.len();
        let mut j: usize = 0;
        let mut free: Option<usize> = None;
        while j < n
            invariant
                self.wf(),
                n == self.slots@.len(),
                j <= n,
                free.is_some() ==> free.unwrap() < n && !self.slots@[free.unwrap() as int].is_live()
                    && self.slots@[free.unwrap() as int].generation_spec() < u64::MAX,
            decreases n - j,
        {
            if free.is_none() && !self.slots[j].is_live_exec() && self.slots[j].generation()
                < u64::MAX {
                free = Some(j);
            }
            j = j + 1;
        }
        let (i, generation): (usize, u64) = match free {
            Some(f) => (f, self.slots[f].generation() + 1),
            None => (n, 0),
        };
        let d = Descriptor::new(i as u64, generation, key, capacity);
        let ghost pre = self.slots@;
        if i < n {
            self.slots.set(i, d);
            proof {
                assert(pre[i as int].wf());
                self.lemma_slot_replaced(pre, i as int);
            }
        } else {
            self.slots.push(d);
            proof {
                assert forall|j: int| 0 <= j < self.slots@.len() implies #[trigger] self.slots@[j].wf()
                    && self.slots@[j].queue_id_spec() == j by {
                    if j < n {
                        assert(self.slots@[j] == pre[j]);
                    }
                }
            }
        }
        (Sender::new(i as u64, generation), Control::new(i as u64, generation), Stream::new(i as u64, generation))
    }

    /// Resolves a routing identifier to a new sender for its descriptor, or to nothing
    /// when no descriptor is registered under it.
    pub fn route(&mut self, queue_id: u64) -> (r: Option<Sender>)
        requires
            old(self).wf(),
        ensures
            final(self).wf(),
            r.is_some() == (old(self).is_routable(queue_id) && old(self).descriptor(queue_id).sender_count() < u64::MAX),
            r.is_none() ==> *final(self) == *old(self),
            r.is_some() ==> {
                let s = r.unwrap();
                &&& s.queue_id_spec() == queue_id
                &&& s.generation_spec() == old(self).descriptor(queue_id).generation_spec()
                &&& final(self).others_unchanged(old(self), queue_id)
                &&& clone_sender_spec(old(self).descriptor(queue_id), final(self).descriptor(queue_id))
                &&& final(self).holds(queue_id, s.generation_spec())
            },
    {
        if queue_id >= self.slots.len() as u64 {
            return None;
        }
        let i = queue_id as usize;
        proof {
            assert(self.slots@[i as int].wf());
            self.slots@[i as int].lemma_wf();
        }
        if !self.slots[i].is_registered_exec() || self.slots[i].senders() == u64::MAX {
            return None;
        }
        let generation = self.slots[i].generation();
        let ghost pre = self.slots@;
        self.slots[i].clone_for_sender();
        proof {
            self.lemma_slot_replaced(pre, i as int);
        }
        Some(Sender::new(queue_id, generation))
    }

    /// The key of the live descriptor under `queue_id`, if any.
    pub fn key(&self, queue_id: u64) -> (r: Option<&Key>)
        requires
            self.wf(),
        ensures
            match r {
                Some(k) => (queue_id as int) < self.descriptors().len() && self.descriptor(
                    queue_id,
                ).key_spec() == Some(*k),
                None => (queue_id as int) >= self.descriptors().len() || self.descriptor(
                    queue_id,
                ).key_spec().is_none(),
            },
    {
        if queue_id >= self.slots.len() as u64 {
            return None;
        }
        self.slots[queue_id as usize].key().as_ref()
    }

    /// Send events counted on `half` of the descriptor under `queue_id`.
    pub fn sent(&self, queue_id: u64, half: Half) -> (r: Option<u64>)
        ensures
            r is Some == ((queue_id as int) < self.descriptors().len()),
            r is Some ==> r.unwrap() == self.descriptor(queue_id).queue(half).sent_count(),
    {
        if queue_id >= self.slots.len() as u64 {
            return None;
        }
        Some(self.slots[queue_id as usize].sent(half))
    }

    /// Receive events counted on `half` of the descriptor under `queue_id`.
    pub fn received(&self, queue_id: u64, half: Half) -> (r: Option<u64>)
        ensures
            r is Some == ((queue_id as int) < self.descriptors().len()),
            r is Some ==> r.unwrap() == self.descriptor(queue_id).queue(half).received_count(),
    {
        if queue_id >= self.slots.len() as u64 {
            return None;
        }
        Some(self.slots[queue_id as usize].received(half))
    }

    /// Whether a handle with this identifier and generation has a sender count to
    /// give up.
    pub open spec fn holds_sender(&self, queue_id: u64, generation: u64) -> bool {
        self.holds(queue_id, generation) && self.descriptor(queue_id).sender_count() > 0
    }

    /// Whether a handle with this identifier and generation is the live receiver of
    /// `half`.
    pub open spec fn holds_receiver(&self, queue_id: u64, generation: u64, half: Half) -> bool {
        self.holds(queue_id, generation) && self.descriptor(queue_id).has_receiver(half)
    }

    pub(crate) fn clone_sender(&mut self, queue_id: u64, generation: u64)
        requires
            old(self).wf(),
            old(self).holds_sender(queue_id, generation),
            old(self).descriptor(queue_id).sender_count() < u64::MAX,
        ensures
            final(self).wf(),
            final(self).others_unchanged(old(self), queue_id),
            clone_sender_spec(old(self).descriptor(queue_id), final(self).descriptor(queue_id)),
    {
        let i = self.find(queue_id, generation).unwrap();
        let ghost pre = self.slots@;
        proof {
            assert(pre[i as int].wf());
        }
        self.slots[i].clone_for_sender();
        proof {
            self.lemma_slot_replaced(pre, i as int);
        }
    }

    pub(crate) fn drop_sender(&mut self, queue_id: u64, generation: u64) -> (reclaimed: bool)
        requires
            old(self).wf(),
            old(self).holds_sender(queue_id, generation),
        ensures
            final(self).wf(),
            final(self).others_unchanged(old(self), queue_id),
            drop_sender_spec(old(self).descriptor(queue_id), final(self).descriptor(queue_id), reclaimed),
    {
        let i = self.find(queue_id, generation).unwrap();
        let ghost pre = self.slots@;
        proof {
            assert(pre[i as int].wf());
        }
        let reclaimed = self.slots[i].drop_sender();
        proof {
            self.lemma_slot_replaced(pre, i as int);
        }
        reclaimed
    }

    pub(crate) fn drop_receiver(&mut self, queue_id: u64, generation: u64, half: Half) -> (reclaimed: bool)
        requires
            old(self).wf(),
            old(self).holds_receiver(queue_id, generation, half),
        ensures
            final(self).wf(),
            final(self).others_unchanged(old(self), queue_id),
            drop_receiver_spec(
                old(self).descriptor(queue_id),
                final(self).descriptor(queue_id),
                half,
                reclaimed,
            ),
    {
        let i = self.find(queue_id, generation).unwrap();
        let ghost pre = self.slots@;
        proof {
            assert(pre[i as int].wf());
        }
        let reclaimed = self.slots[i].drop_receiver(half);
        proof {
            self.lemma_slot_replaced(pre, i as int);
        }
        reclaimed
    }
}

} // verus!
