use std::collections::VecDeque;
use std::task::Waker;
use vstd::prelude::*;

verus! {

#[verifier::external_type_specification]
#[verifier::external_body]
pub struct ExWaker(Waker);

/// Relies on `Waker::wake`: it schedules the task and consumes the waker.
pub assume_specification[ Waker::wake ](w: Waker);

/// Relies on `Waker::clone`: it returns another handle to the same task.
pub assume_specification[ <Waker as Clone>::clone ](w: &Waker) -> (r: Waker);

/// The queue has been closed and holds nothing more.
#[derive(Clone, Copy, Debug, PartialEq, Eq, Structural)]
pub struct Closed;

/// Why a bounded push was refused.
#[derive(Clone, Copy, Debug, PartialEq, Eq, Structural)]
pub enum Error {
    /// The queue is at capacity.
    Full,
    /// The queue no longer accepts items.
    Closed,
}

/// The outcome of a poll: a value, or a registered wait.
#[derive(Debug, PartialEq, Eq)]
pub enum Poll<T> {
    Ready(T),
    Pending,
}

/// The logical role of the task that polls a queue.
#[derive(Clone, Copy, Debug, PartialEq, Eq, Structural)]
pub enum Actor {
    Application,
    Worker,
}

/// A bounded FIFO queue with a closed flag and a single waiting consumer.
pub struct RingQueue<T> {
    items: VecDeque<T>,
    capacity: usize,
    open: bool,
    waiter: Option<Waker>,
    waiter_actor: Option<Actor>,
    wakes: Ghost<nat>,
    sent: u64,
    received: u64,
}

/// `x + n`, held at `u64::MAX`.
pub open spec fn sat_add(x: nat, n: nat) -> nat {
    if x + n <= u64::MAX {
        x + n
    } else {
        u64::MAX as nat
    }
}

/// One more wake when a consumer was waiting.
pub open spec fn woken<T>(pre: RingQueue<T>, post: RingQueue<T>) -> bool {
    post.wakes() == pre.wakes() + if pre.has_waiter() {
        1nat
    } else {
        0nat
    }
}

/// No wake, and the event counts as they were.
pub open spec fn quiet<T>(pre: RingQueue<T>, post: RingQueue<T>) -> bool {
    &&& post.wakes() == pre.wakes()
    &&& post.sent_count() == pre.sent_count()
    &&& post.received_count() == pre.received_count()
}

impl<T> RingQueue<T> {
    /// The items in the queue, oldest first.
    pub closed spec fn view(&self) -> Seq<T> {
        self.items@
    }

    pub closed spec fn capacity_spec(&self) -> nat {
        self.capacity as nat
    }

    pub closed spec fn is_open_spec(&self) -> bool {
        self.open
    }

    /// How many times a registered consumer has been woken.
    pub closed spec fn wakes(&self) -> nat {
        self.wakes@
    }

    /// Send events: successful pushes of either kind, held at `u64::MAX`.
    pub closed spec fn sent_count(&self) -> nat {
        self.sent as nat
    }

    /// Receive events: items handed to the consumer, held at `u64::MAX`.
    pub closed spec fn received_count(&self) -> nat {
        self.received as nat
    }

    /// Whether a consumer is registered to be woken.
    pub closed spec fn has_waiter(&self) -> bool {
        self.waiter.is_some()
    }

    pub closed spec fn wf(&self) -> bool {
        &&& self.items@.len() <= self.capacity
        &&& self.waiter.is_some() ==> self.open && self.items@.len() == 0
        &&& self.waiter.is_some() == self.waiter_actor.is_some()
    }

    /// A new empty, open queue that holds at most `capacity` items.
    pub fn with_capacity(capacity: usize) -> (r: Self)
        ensures
            r.wf(),
            r@ == Seq::<T>::empty(),
            r.capacity_spec() == capacity,
            r.is_open_spec(),
            !r.has_waiter(),
            r.wakes() == 0,
            r.sent_count() == 0,
            r.received_count() == 0,
    {
        RingQueue {
            items: VecDeque::new(),
            capacity,
            open: true,
            waiter: None,
            waiter_actor: None,
            wakes: Ghost(0),
            sent: 0,
            received: 0,
        }
    }

    pub fn len(&self) -> (r: usize)
        ensures
            r == self@.len(),
    {
        self.items.len()
    }

    pub fn capacity(&self) -> (r: usize)
        ensures
            r == self.capacity_spec(),
    {
        self.capacity
    }

    pub fn sent(&self) -> (r: u64)
        ensures
            r == self.sent_count(),
    {
        self.sent
    }

    pub fn received(&self) -> (r: u64)
        ensures
            r == self.received_count(),
    {
        self.received
    }

    pub fn is_open(&self) -> (r: bool)
        ensures
            r == self.is_open_spec(),
    {
        self.open
    }

    /// The role of the consumer that is waiting, if any.
    pub fn waiting_actor(&self) -> (r: Option<Actor>)
        requires
            self.wf(),
        ensures
            r.is_some() == self.has_waiter(),
    {
        self.waiter_actor
    }

    fn wake_waiter(&mut self)
        ensures
            final(self).items == old(self).items,
            final(self).capacity == old(self).capacity,
            final(self).open == old(self).open,
            final(self).waiter.is_none(),
            final(self).waiter_actor.is_none(),
            final(self).sent == old(self).sent,
            final(self).received == old(self).received,
            woken(*old(self), *final(self)),
    {
        let w = self.waiter.take();
        self.waiter_actor = None;
        match w {
            Some(w) => {
                w.wake();
                self.wakes = Ghost(self.wakes@ + 1);
            },
            None => {},
        }
    }

    fn count_sent(&mut self)
        ensures
            final(self).items == old(self).items,
            final(self).capacity == old(self).capacity,
            final(self).open == old(self).open,
            final(self).waiter == old(self).waiter,
            final(self).waiter_actor == old(self).waiter_actor,
            final(self).wakes == old(self).wakes,
            final(self).received == old(self).received,
            final(self).sent_count() == sat_add(old(self).sent_count(), 1),
    {
        self.sent = self.sent.saturating_add(1);
    }

    fn count_received(&mut self, n: usize)
        ensures
            final(self).items == old(self).items,
            final(self).capacity == old(self).capacity,
            final(self).open == old(self).open,
            final(self).waiter == old(self).waiter,
            final(self).waiter_actor == old(self).waiter_actor,
            final(self).wakes == old(self).wakes,
            final(self).sent == old(self).sent,
            final(self).received_count() == sat_add(old(self).received_count(), n as nat),
    {
        self.received = self.received.saturating_add(n as u64);
    }

    /// Bounded push: appends `item` while the queue is open and below capacity.
    pub fn push(&mut self, item: T) -> (r: Result<Option<T>, Error>)
        requires
            old(self).wf(),
        ensures
            final(self).wf(),
            push_spec(*old(self), *final(self), item, r),
    {
        if !self.open {
            return Err(Error::Closed);
        }
        if self.items.len() >= self.capacity {
            return Err(Error::Full);
        }
        self.items.push_back(item);
        self.count_sent();
        self.wake_waiter();
        Ok(None)
    }

    /// Overwriting push: appends `item`, evicting and returning the oldest item when
    /// the queue is full. A closed queue hands `item` back unchanged.
    pub fn force_push(&mut self, item: T) -> (r: Option<T>)
        requires
            old(self).wf(),
        ensures
            final(self).wf(),
            force_push_spec(*old(self), *final(self), item, r),
    {
        if !self.open {
            return Some(item);
        }
        self.items.push_back(item);
        let prev = if self.items.len() > self.capacity {
            self.items.pop_front()
        } else {
            None
        };
        self.count_sent();
        self.wake_waiter();
        prev
    }

    /// Removes the oldest item. An empty open queue gives `Ok(None)`; an empty closed
    /// queue gives `Err(Closed)`.
    pub fn pop(&mut self) -> (r: Result<Option<T>, Closed>)
        requires
            old(self).wf(),
        ensures
            final(self).wf(),
            pop_spec(*old(self), *final(self), r),
    {
        match self.items.pop_front() {
            Some(v) => {
                self.count_received(1);
                Ok(Some(v))
            },
            None => if self.open {
                Ok(None)
            } else {
                Err(Closed)
            },
        }
    }

    /// Pops the oldest item, or registers `waker` to be woken by the next push or
    /// close when the queue is empty and open.
    pub fn poll_pop(&mut self, waker: &Waker, actor: Actor) -> (r: Poll<Result<T, Closed>>)
        requires
            old(self).wf(),
        ensures
            final(self).wf(),
            poll_pop_spec(*old(self), *final(self), r),
    {
        match self.items.pop_front() {
            Some(v) => {
                self.count_received(1);
                Poll::Ready(Ok(v))
            },
            None => if self.open {
                self.waiter = Some(waker.clone());
                self.waiter_actor = Some(actor);
                Poll::Pending
            } else {
                Poll::Ready(Err(Closed))
            },
        }
    }

    /// Moves every item, oldest first, to the back of `out`, or registers `waker`
    /// under the same rule as `poll_pop` when there is nothing to move.
    pub fn poll_swap(&mut self, waker: &Waker, actor: Actor, out: &mut VecDeque<T>) -> (r: Poll<
        Result<(), Closed>,
    >)
        requires
            old(self).wf(),
        ensures
            final(self).wf(),
            poll_swap_spec(*old(self), *final(self), old(out)@, final(out)@, r),
    {
        if self.items.len() > 0 {
            let n = self.items.len();
            out.append(&mut self.items);
            self.count_received(n);
            Poll::Ready(Ok(()))
        } else if self.open {
            self.waiter = Some(waker.clone());
            self.waiter_actor = Some(actor);
            Poll::Pending
        } else {
            Poll::Ready(Err(Closed))
        }
    }

    /// Closes the queue and wakes a waiting consumer. Items already queued stay
    /// poppable.
    pub fn close(&mut self)
        requires
            old(self).wf(),
        ensures
            final(self).wf(),
            final(self)@ == old(self)@,
            final(self).capacity_spec() == old(self).capacity_spec(),
            !final(self).is_open_spec(),
            !final(self).has_waiter(),
            woken(*old(self), *final(self)),
            final(self).sent_count() == old(self).sent_count(),
            final(self).received_count() == old(self).received_count(),
    {
        self.open = false;
        self.wake_waiter();
    }

    /// Drops every queued item; nothing else changes.
    pub fn clear(&mut self)
        requires
            old(self).wf(),
        ensures
            final(self).wf(),
            final(self)@ == Seq::<T>::empty(),
            final(self).capacity_spec() == old(self).capacity_spec(),
            final(self).is_open_spec() == old(self).is_open_spec(),
            final(self).has_waiter() == old(self).has_waiter(),
            quiet(*old(self), *final(self)),
    {
        self.items.clear();
    }
}

/// What a bounded push does: a closed queue refuses with `Closed`, a full one with
/// `Full`, both unchanged and with no event; otherwise `item` joins the back, nothing
/// is evicted, a send event is counted and a waiting consumer is woken.
pub open spec fn push_spec<T>(pre: RingQueue<T>, post: RingQueue<T>, item: T, r: Result<
    Option<T>,
    Error,
>) -> bool {
    &&& post.capacity_spec() == pre.capacity_spec()
    &&& post.is_open_spec() == pre.is_open_spec()
    &&& if !pre.is_open_spec() {
        &&& r == Err::<Option<T>, Error>(Error::Closed)
        &&& post@ == pre@
        &&& post.has_waiter() == pre.has_waiter()
        &&& quiet(pre, post)
    } else if pre@.len() >= pre.capacity_spec() {
        &&& r == Err::<Option<T>, Error>(Error::Full)
        &&& post@ == pre@
        &&& post.has_waiter() == pre.has_waiter()
        &&& quiet(pre, post)
    } else {
        &&& r == Ok::<Option<T>, Error>(None)
        &&& post@ == pre@.push(item)
        &&& !post.has_waiter()
        &&& woken(pre, post)
        &&& post.sent_count() == sat_add(pre.sent_count(), 1)
        &&& post.received_count() == pre.received_count()
    }
}

/// What a forced push does: a closed queue hands `item` back unchanged; otherwise
/// `item` joins the back and, past capacity, the front item leaves and is returned; a
/// send event is counted and a waiting consumer is woken.
pub open spec fn force_push_spec<T>(pre: RingQueue<T>, post: RingQueue<T>, item: T, r: Option<
    T,
>) -> bool {
    &&& post.capacity_spec() == pre.capacity_spec()
    &&& post.is_open_spec() == pre.is_open_spec()
    &&& if !pre.is_open_spec() {
        &&& r == Some(item)
        &&& post@ == pre@
        &&& post.has_waiter() == pre.has_waiter()
        &&& quiet(pre, post)
    } else {
        &&& pre@.len() < pre.capacity_spec() ==> r == None::<T> && post@ == pre@.push(item)
        &&& pre@.len() >= pre.capacity_spec() ==> r == Some(pre@.push(item)[0]) && post@
            == pre@.push(item).drop_first()
        &&& !post.has_waiter()
        &&& woken(pre, post)
        &&& post.sent_count() == sat_add(pre.sent_count(), 1)
        &&& post.received_count() == pre.received_count()
    }
}

/// What a pop does: the front item leaves; an empty queue gives `Ok(None)` while
/// open and `Err(Closed)` once closed. An item handed out counts a receive event.
pub open spec fn pop_spec<T>(pre: RingQueue<T>, post: RingQueue<T>, r: Result<Option<T>, Closed>) -> bool {
    &&& post.capacity_spec() == pre.capacity_spec()
    &&& post.is_open_spec() == pre.is_open_spec()
    &&& post.has_waiter() == pre.has_waiter()
    &&& post.wakes() == pre.wakes()
    &&& post.sent_count() == pre.sent_count()
    &&& if pre@.len() > 0 {
        &&& r == Ok::<Option<T>, Closed>(Some(pre@[0]))
        &&& post@ == pre@.drop_first()
        &&& post.received_count() == sat_add(pre.received_count(), 1)
    } else {
        &&& post@ == pre@
        &&& post.received_count() == pre.received_count()
        &&& pre.is_open_spec() ==> r == Ok::<Option<T>, Closed>(None)
        &&& !pre.is_open_spec() ==> r == Err::<Option<T>, Closed>(Closed)
    }
}

/// What a poll for one item does: the front item leaves; an empty open queue
/// registers the caller and is pending; an empty closed queue is ready with `Closed`.
/// An item handed out counts a receive event.
pub open spec fn poll_pop_spec<T>(pre: RingQueue<T>, post: RingQueue<T>, r: Poll<
    Result<T, Closed>,
>) -> bool {
    &&& post.capacity_spec() == pre.capacity_spec()
    &&& post.is_open_spec() == pre.is_open_spec()
    &&& post.wakes() == pre.wakes()
    &&& post.sent_count() == pre.sent_count()
    &&& if pre@.len() > 0 {
        &&& r == Poll::Ready(Ok::<T, Closed>(pre@[0]))
        &&& post@ == pre@.drop_first()
        &&& post.has_waiter() == pre.has_waiter()
        &&& post.received_count() == sat_add(pre.received_count(), 1)
    } else {
        &&& post@ == pre@
        &&& post.received_count() == pre.received_count()
        &&& pre.is_open_spec() ==> r == Poll::<Result<T, Closed>>::Pending && post.has_waiter()
        &&& !pre.is_open_spec() ==> r == Poll::Ready(Err::<T, Closed>(Closed))
            && !post.has_waiter()
    }
}

/// What a batched poll does: every item moves, in order, to the back of `out`; when
/// there is none, the same rule as a poll for one item. Each item moved counts a
/// receive event.
pub open spec fn poll_swap_spec<T>(
    pre: RingQueue<T>,
    post: RingQueue<T>,
    out_pre: Seq<T>,
    out_post: Seq<T>,
    r: Poll<Result<(), Closed>>,
) -> bool {
    &&& post.capacity_spec() == pre.capacity_spec()
    &&& post.is_open_spec() == pre.is_open_spec()
    &&& post.wakes() == pre.wakes()
    &&& post.sent_count() == pre.sent_count()
    &&& if pre@.len() > 0 {
        &&& r == Poll::Ready(Ok::<(), Closed>(()))
        &&& out_post == out_pre + pre@
        &&& post@ == Seq::<T>::empty()
        &&& post.has_waiter() == pre.has_waiter()
        &&& post.received_count() == sat_add(pre.received_count(), pre@.len())
    } else {
        &&& post@ == pre@
        &&& post.received_count() == pre.received_count()
        &&& out_post == out_pre
        &&& pre.is_open_spec() ==> r == Poll::<Result<(), Closed>>::Pending && post.has_waiter()
        &&& !pre.is_open_spec() ==> r == Poll::Ready(Err::<(), Closed>(Closed))
            && !post.has_waiter()
    }
}


/// However many bounded pushes are made, one after another, on a well-formed queue,
/// the queue never holds more than its capacity.
pub proof fn lemma_pushes_stay_within_capacity<T>(
    states: Seq<RingQueue<T>>,
    items: Seq<T>,
    results: Seq<Result<Option<T>, Error>>,
)
    requires
        states.len() == items.len() + 1,
        results.len() == items.len(),
        states[0].wf(),
        forall|i: int|
            0 <= i < items.len() ==> #[trigger] push_spec(states[i], states[i + 1], items[i], results[i]),
    ensures
        forall|i: int|
            0 <= i < states.len() ==> #[trigger] states[i]@.len() <= states[0].capacity_spec()
                && states[i].capacity_spec() == states[0].capacity_spec(),
    decreases items.len(),
{
    if items.len() > 0 {
        let n = items.len() - 1;
        let prev = states.drop_last();
        assert forall|i: int| 0 <= i < items.drop_last().len() implies #[trigger] push_spec(
            prev[i],
            prev[i + 1],
            items.drop_last()[i],
            results.drop_last()[i],
        ) by {
            assert(push_spec(states[i], states[i + 1], items[i], results[i]));
        }
        lemma_pushes_stay_within_capacity(prev, items.drop_last(), results.drop_last());
        assert(push_spec(states[n], states[n + 1], items[n], results[n]));
        assert(prev[n] == states[n]);
        assert(prev[n]@.len() <= states[0].capacity_spec());
        assert forall|i: int| 0 <= i < states.len() implies #[trigger] states[i]@.len()
            <= states[0].capacity_spec() && states[i].capacity_spec()
            == states[0].capacity_spec() by {
            if i < states.len() - 1 {
                assert(prev[i] == states[i]);
            }
        }
    }
}

/// A bounded push into a full open queue is refused with `Full` and leaves the
/// queue as it was.
pub proof fn lemma_push_into_full_is_refused<T>(
    pre: RingQueue<T>,
    post: RingQueue<T>,
    item: T,
    r: Result<Option<T>, Error>,
)
    requires
        pre.wf(),
        pre.is_open_spec(),
        pre@.len() == pre.capacity_spec(),
        push_spec(pre, post, item, r),
    ensures
        r == Err::<Option<T>, Error>(Error::Full),
        post@ == pre@,
{
}

/// A forced push into a full open queue evicts and returns the oldest item, puts
/// the new item at the back, and leaves the length at capacity.
pub proof fn lemma_force_push_evicts_oldest<T>(
    pre: RingQueue<T>,
    post: RingQueue<T>,
    item: T,
    r: Option<T>,
)
    requires
        pre.wf(),
        pre.is_open_spec(),
        pre@.len() == pre.capacity_spec(),
        pre.capacity_spec() > 0,
        force_push_spec(pre, post, item, r),
    ensures
        r == Some(pre@[0]),
        post@ == pre@.drop_first().push(item),
        post@.last() == item,
        post@.len() == pre.capacity_spec(),
{
    assert(pre@.push(item).drop_first() =~= pre@.drop_first().push(item));
}

/// Successful bounded pushes of `items` into an empty queue leave exactly `items`
/// in it, in push order.
pub proof fn lemma_pushes_keep_order<T>(
    states: Seq<RingQueue<T>>,
    items: Seq<T>,
    results: Seq<Result<Option<T>, Error>>,
)
    requires
        states.len() == items.len() + 1,
        results.len() == items.len(),
        states[0]@ == Seq::<T>::empty(),
        forall|i: int|
            0 <= i < items.len() ==> #[trigger] push_spec(states[i], states[i + 1], items[i], results[i]),
        forall|i: int| 0 <= i < items.len() ==> #[trigger] results[i].is_ok(),
    ensures
        states.last()@ == items,
    decreases items.len(),
{
    if items.len() > 0 {
        let n = items.len() - 1;
        assert forall|i: int| 0 <= i < items.drop_last().len() implies #[trigger] push_spec(
            states.drop_last()[i],
            states.drop_last()[i + 1],
            items.drop_last()[i],
            results.drop_last()[i],
        ) by {
            assert(push_spec(states[i], states[i + 1], items[i], results[i]));
        }
        assert forall|i: int| 0 <= i < items.drop_last().len() implies #[trigger] results.drop_last()[
            i
        ].is_ok() by {
            assert(results[i].is_ok());
        }
        lemma_pushes_keep_order(states.drop_last(), items.drop_last(), results.drop_last());
        assert(push_spec(states[n], states[n + 1], items[n], results[n]));
        assert(results[n].is_ok());
        assert(items.drop_last().push(items[n]) =~= items);
    }
}

/// Pops one after another from a queue holding `items` hand them out in order.
pub proof fn lemma_pops_keep_order<T>(
    states: Seq<RingQueue<T>>,
    items: Seq<T>,
    results: Seq<Result<Option<T>, Closed>>,
)
    requires
        states.len() == items.len() + 1,
        results.len() == items.len(),
        states[0]@ == items,
        forall|i: int| 0 <= i < items.len() ==> #[trigger] pop_spec(states[i], states[i + 1], results[i]),
    ensures
        forall|i: int|
            0 <= i < items.len() ==> #[trigger] results[i] == Ok::<Option<T>, Closed>(Some(items[i])),
        states.last()@ == Seq::<T>::empty(),
    decreases items.len(),
{
    if items.len() > 0 {
        let k: int = 0;
        assert(pop_spec(states[k], states[k + 1], results[k]));
        let rest_states = states.drop_first();
        let rest_items = items.drop_first();
        let rest_results = results.drop_first();
        assert forall|i: int| 0 <= i < rest_items.len() implies #[trigger] pop_spec(
            rest_states[i],
            rest_states[i + 1],
            rest_results[i],
        ) by {
            let k = i + 1;
            assert(pop_spec(states[k], states[k + 1], results[k]));
            assert(rest_states[i] == states[k] && rest_states[i + 1] == states[k + 1]);
        }
        lemma_pops_keep_order(rest_states, rest_items, rest_results);
        assert forall|i: int| 0 <= i < items.len() implies #[trigger] results[i] == Ok::<
            Option<T>,
            Closed,
        >(Some(items[i])) by {
            if i > 0 {
                assert(rest_results[i - 1] == results[i]);
            }
        }
    }
}

/// A batched drain into an empty output of a queue holding `items` yields exactly
/// `items`, in order, and empties the queue.
pub proof fn lemma_swap_keeps_order<T>(
    pre: RingQueue<T>,
    post: RingQueue<T>,
    items: Seq<T>,
    out: Seq<T>,
    r: Poll<Result<(), Closed>>,
)
    requires
        pre@ == items,
        items.len() > 0,
        poll_swap_spec(pre, post, Seq::<T>::empty(), out, r),
    ensures
        out == items,
        post@ == Seq::<T>::empty(),
        r == Poll::Ready(Ok::<(), Closed>(())),
{
    assert(Seq::<T>::empty() + items =~= items);
}

/// Once a queue is closed, polls still hand out what it holds, oldest first, and
/// report `Closed` only when nothing is left; it stays closed.
pub proof fn lemma_closed_queue_drains_then_reports<T>(
    pre: RingQueue<T>,
    post: RingQueue<T>,
    r: Poll<Result<T, Closed>>,
)
    requires
        !pre.is_open_spec(),
        poll_pop_spec(pre, post, r),
    ensures
        pre@.len() > 0 ==> r == Poll::Ready(Ok::<T, Closed>(pre@[0])),
        pre@.len() == 0 ==> r == Poll::Ready(Err::<T, Closed>(Closed)),
        !post.is_open_spec(),
{
}

/// A push of either kind into a closed queue is refused and changes nothing.
pub proof fn lemma_closed_queue_refuses_pushes<T>(
    pre: RingQueue<T>,
    post: RingQueue<T>,
    item: T,
    r: Result<Option<T>, Error>,
)
    requires
        !pre.is_open_spec(),
        push_spec(pre, post, item, r),
    ensures
        r == Err::<Option<T>, Error>(Error::Closed),
        post@ == pre@,
{
}

} // verus!
