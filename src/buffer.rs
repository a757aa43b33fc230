use std::collections::VecDeque;
use vstd::prelude::*;

use crate::descriptor::Half;
use crate::dispatch::Dispatch;
use crate::handle::Sender;
use crate::ring_deque::{push_spec, Error};
use crate::varint::{decode_at, decode_spec};

verus! {

/// Staged bytes that do not frame as datagrams.
#[derive(Clone, Copy, Debug, PartialEq, Eq, Structural)]
pub enum RecvError {
    Decode,
}

/// One decoded datagram: where it goes and what it carries.
#[derive(Debug)]
pub struct Datagram {
    pub queue_id: u64,
    pub half: Half,
    pub payload: Vec<u8>,
}

impl View for Datagram {
    type V = (u64, Half, Seq<u8>);

    open spec fn view(&self) -> (u64, Half, Seq<u8>) {
        (self.queue_id, self.half, self.payload@)
    }
}

pub open spec fn datagrams_view(v: Seq<Datagram>) -> Seq<(u64, Half, Seq<u8>)> {
    v.map_values(|d: Datagram| d@)
}

/// The half that a tag byte names.
pub open spec fn half_of(tag: u8) -> Option<Half> {
    if tag == 0 {
        Some(Half::Control)
    } else if tag == 1 {
        Some(Half::Stream)
    } else {
        None
    }
}

/// The record at the start of `s`, with the number of bytes it takes: a
/// variable-length routing identifier, a tag byte for the half, a variable-length
/// payload length, and the payload.
pub open spec fn parse_record(s: Seq<u8>) -> Option<(u64, Half, Seq<u8>, nat)> {
    match decode_spec(s) {
        None => None,
        Some((id, a)) => if s.len() <= a {
            None
        } else {
            match half_of(s[a as int]) {
                None => None,
                Some(h) => match decode_spec(s.subrange(a + 1 as int, s.len() as int)) {
                    None => None,
                    Some((len, b)) => {
                        let start: nat = a + 1 + b;
                        let end: nat = start + len as nat;
                        if s.len() < end {
                            None
                        } else {
                            Some((id, h, s.subrange(start as int, end as int), end))
                        }
                    },
                },
            }
        },
    }
}

/// The datagrams that `s` frames, in order, or `None` when it does not frame.
pub open spec fn parse_all(s: Seq<u8>) -> Option<Seq<(u64, Half, Seq<u8>)>>
    decreases s.len(),
{
    if s.len() == 0 {
        Some(Seq::empty())
    } else {
        match parse_record(s) {
            None => None,
            Some((id, h, p, n)) => if 0 < n <= s.len() {
                match parse_all(s.subrange(n as int, s.len() as int)) {
                    None => None,
                    Some(rest) => Some(seq![(id, h, p)] + rest),
                }
            } else {
                None
            },
        }
    }
}

fn copy_range(bytes: &Vec<u8>, start: usize, end: usize) -> (r: Vec<u8>)
    requires
        start <= end <= bytes@.len(),
    ensures
        r@ == bytes@.subrange(start as int, end as int),
{
    let mut r: Vec<u8> = Vec::new();
    let mut i: usize = start;
    while i < end
        invariant
            start <= i <= end <= bytes@.len(),
            r@ == bytes@.subrange(start as int, i as int),
        decreases end - i,
    {
        r.push(bytes[i]);
        proof {
            assert(bytes@.subrange(start as int, i + 1) =~= bytes@.subrange(start as int, i as int).push(
                bytes@[i as int],
            ));
        }
        i = i + 1;
    }
    r
}

/// Decodes the record that starts at `pos`.
fn decode_record_at(bytes: &Vec<u8>, pos: usize) -> (r: Option<(Datagram, usize)>)
    requires
        pos <= bytes@.len(),
    ensures
        match r {
            Some((d, n)) => parse_record(bytes@.subrange(pos as int, bytes@.len() as int)) == Some(
                (d.queue_id, d.half, d.payload@, n as nat),
            ),
            None => parse_record(bytes@.subrange(pos as int, bytes@.len() as int)).is_none(),
        },
{
    let ghost s = bytes@.subrange(pos as int, bytes@.len() as int);
    let (queue_id, a) = match decode_at(bytes, pos) {
        None => return None,
        Some(x) => x,
    };
    if bytes.len() - pos <= a {
        return None;
    }
    let tag = bytes[pos + a];
    let half = if tag == 0 {
        Half::Control
    } else if tag == 1 {
        Half::Stream
    } else {
        return None;
    };
    proof {
        assert(s.subrange(a + 1, s.len() as int) =~= bytes@.subrange(
            pos + a + 1,
            bytes@.len() as int,
        ));
    }
    let (len, b) = match decode_at(bytes, pos + a + 1) {
        None => return None,
        Some(x) => x,
    };
    let start = pos + a + 1 + b;
    if ((bytes.len() - start) as u64) < len {
        return None;
    }
    let end = start + len as usize;
    let payload = copy_range(bytes, start, end);
    proof {
        assert(s.subrange((a + 1 + b) as int, (a + 1 + b + len) as int) =~= bytes@.subrange(
            start as int,
            end as int,
        ));
    }
    Some((Datagram { queue_id, half, payload }, a + 1 + b + len as usize))
}

/// Decodes every datagram that `bytes` frames, in order.
pub fn decode_datagrams(bytes: &Vec<u8>) -> (r: Option<VecDeque<Datagram>>)
    ensures
        match r {
            Some(v) => parse_all(bytes@) == Some(datagrams_view(v@)),
            None => parse_all(bytes@).is_none(),
        },
{
    let mut out: VecDeque<Datagram> = VecDeque::new();
    let mut pos: usize = 0;
    proof {
        assert(bytes@.subrange(0, bytes@.len() as int) =~= bytes@);
    }
    while pos < bytes.len()
        invariant
            pos <= bytes@.len(),
            parse_all(bytes@) == match parse_all(bytes@.subrange(pos as int, bytes@.len() as int)) {
                Some(t) => Some(datagrams_view(out@) + t),
                None => None::<Seq<(u64, Half, Seq<u8>)>>,
            },
        decreases bytes@.len() - pos,
    {
        let ghost rest = bytes@.subrange(pos as int, bytes@.len() as int);
        match decode_record_at(bytes, pos) {
            None => {
                return None;
            },
            Some((d, n)) => {
                if n == 0 || n > bytes.len() - pos {
                    return None;
                }
                proof {
                    assert(rest.subrange(n as int, rest.len() as int) =~= bytes@.subrange(
                        pos + n,
                        bytes@.len() as int,
                    ));
                    assert(datagrams_view(out@.push(d)) =~= datagrams_view(out@).push(d@));
                    let tail = parse_all(rest.subrange(n as int, rest.len() as int));
                    if tail.is_some() {
                        assert(datagrams_view(out@).push(d@) + tail.unwrap() =~= datagrams_view(
                            out@,
                        ) + (seq![d@] + tail.unwrap()));
                    }
                }
                out.push_back(d);
                pos = pos + n;
            },
        }
    }
    proof {
        assert(datagrams_view(out@) + Seq::<(u64, Half, Seq<u8>)>::empty() =~= datagrams_view(
            out@,
        ));
    }
    Some(out)
}


/// Where a buffer sends the datagrams it decodes.
#[derive(Clone, Copy, Debug, PartialEq, Eq, Structural)]
pub enum Destination {
    /// To the descriptor each datagram's identifier routes to.
    Routed,
    /// To one descriptor, named by identifier and generation, whatever the datagram
    /// carries.
    Fixed { queue_id: u64, generation: u64 },
}

/// `post` is `pre` after a bounded push of `payload` into `half` of the descriptor
/// under `target`, and nothing else.
pub open spec fn pushed_into<Key>(
    pre: Dispatch<Vec<u8>, Key>,
    post: Dispatch<Vec<u8>, Key>,
    target: u64,
    half: Half,
    payload: Seq<u8>,
) -> bool {
    &&& post.queue_changed_only(&pre, target, half)
    &&& exists|v: Vec<u8>, r: Result<Option<Vec<u8>>, Error>|
        v@ == payload && (#[trigger] push_spec(
            pre.descriptor(target).queue(half),
            post.descriptor(target).queue(half),
            v,
            r,
        ))
}

/// What offering one datagram does to the router. Routed: when its identifier
/// routes, a bounded push of its payload into its half of that descriptor; otherwise
/// nothing. Fixed: the same push into the one descriptor while it is live; otherwise
/// nothing.
pub open spec fn delivery_step<Key>(
    dest: Destination,
    pre: Dispatch<Vec<u8>, Key>,
    item: (u64, Half, Seq<u8>),
    post: Dispatch<Vec<u8>, Key>,
) -> bool {
    match dest {
        Destination::Routed => if pre.is_routable(item.0) && pre.descriptor(item.0).sender_count()
            < u64::MAX {
            pushed_into(pre, post, item.0, item.1, item.2)
        } else {
            post == pre
        },
        Destination::Fixed { queue_id, generation } => if pre.holds(queue_id, generation) {
            pushed_into(pre, post, queue_id, item.1, item.2)
        } else {
            post == pre
        },
    }
}

/// `states` are the routers before, between and after offering `items`, one after
/// another in order, to `dest`.
pub open spec fn delivers_through<Key>(
    dest: Destination,
    states: Seq<Dispatch<Vec<u8>, Key>>,
    items: Seq<(u64, Half, Seq<u8>)>,
) -> bool {
    &&& states.len() == items.len() + 1
    &&& forall|i: int|
        0 <= i < items.len() ==> #[trigger] delivery_step(dest, states[i], items[i], states[i + 1])
}

/// `post` is the router `pre` after offering `items`, one after another in order, to
/// `dest`.
pub open spec fn delivers_all<Key>(
    dest: Destination,
    pre: Dispatch<Vec<u8>, Key>,
    items: Seq<(u64, Half, Seq<u8>)>,
    post: Dispatch<Vec<u8>, Key>,
) -> bool {
    exists|states: Seq<Dispatch<Vec<u8>, Key>>|
        #[trigger] delivers_through(dest, states, items) && states[0] == pre && states.last()
            == post
}

/// What became of one datagram offered to the router.
#[derive(Debug)]
pub enum Delivery {
    /// No descriptor is registered under its identifier; it was dropped.
    Unroutable,
    /// It was pushed into its half, with the push's outcome.
    Sent(Result<Option<Vec<u8>>, Error>),
}

/// Routes one datagram and makes a bounded push of its payload into its half. A
/// datagram whose identifier does not route changes nothing.
pub fn deliver<Key>(router: &mut Dispatch<Vec<u8>, Key>, queue_id: u64, half: Half, payload: Vec<
    u8,
>) -> (r: Delivery)
    requires
        old(router).wf(),
    ensures
        final(router).wf(),
        !(old(router).is_routable(queue_id) && old(router).descriptor(queue_id).sender_count()
            < u64::MAX) ==> r is Unroutable && *final(router) == *old(router),
        old(router).is_routable(queue_id) && old(router).descriptor(queue_id).sender_count()
            < u64::MAX ==> match r {
            Delivery::Sent(res) => final(router).queue_changed_only(old(router), queue_id, half)
                && push_spec(
                old(router).descriptor(queue_id).queue(half),
                final(router).descriptor(queue_id).queue(half),
                payload,
                res,
            ),
            Delivery::Unroutable => false,
        },
        delivery_step(Destination::Routed, *old(router), (queue_id, half, payload@), *final(router)),
{
    let ghost pl = payload;
    proof {
        if old(router).is_routable(queue_id) {
            old(router).lemma_routable_has_sender(queue_id);
        }
    }
    let sender = match router.route(queue_id) {
        None => return Delivery::Unroutable,
        Some(s) => s,
    };
    let ghost mid1 = *router;
    let res = match half {
        Half::Control => sender.send_control(router, payload),
        Half::Stream => sender.send_stream(router, payload),
    };
    let ghost mid2 = *router;
    proof {
        assert(router.descriptor(queue_id).sender_count() > 0);
    }
    let reclaimed = sender.drop(router);
    proof {
        let d0 = old(router).descriptor(queue_id);
        let d1 = mid1.descriptor(queue_id);
        let d2 = mid2.descriptor(queue_id);
        let d3 = router.descriptor(queue_id);
        assert(d3.sender_count() == d0.sender_count());
        assert(d3.sender_count() > 0);
        assert(!reclaimed);
        assert(d3.queue(half) == d2.queue(half));
        assert(d3.queue(half.other()) == d0.queue(half.other()));
        assert(d3.same_except_queue(&d0, half));
        assert(push_spec(d0.queue(half), d3.queue(half), pl, res));
        assert(exists|v: Vec<u8>, r: Result<Option<Vec<u8>>, Error>|
            v@ == pl@ && (#[trigger] push_spec(d0.queue(half), d3.queue(half), v, r)));
        assert(router.queue_changed_only(&old(router), queue_id, half));
        assert(pushed_into(*old(router), *router, queue_id, half, pl@));
        assert forall|j: int| 0 <= j < router.descriptors().len() && j != queue_id implies #[trigger] router.descriptors()[j]
            == old(router).descriptors()[j] by {
            assert(mid2.descriptors()[j] == mid1.descriptors()[j]);
            assert(mid1.descriptors()[j] == old(router).descriptors()[j]);
        }
    }
    Delivery::Sent(res)
}

/// Offers each datagram, in order, to the router. Registrations are left as they
/// were, and datagrams of which none routes change nothing.
pub fn dispatch_datagrams<Key>(router: &mut Dispatch<Vec<u8>, Key>, datagrams: VecDeque<Datagram>)
    requires
        old(router).wf(),
    ensures
        final(router).wf(),
        final(router).descriptors().len() == old(router).descriptors().len(),
        forall|id: u64| #[trigger] final(router).is_routable(id) == old(router).is_routable(id),
        (forall|k: int|
            0 <= k < datagrams@.len() ==> !old(router).is_routable(#[trigger] datagrams@[k].queue_id))
            ==> *final(router) == *old(router),
        delivers_all(Destination::Routed, *old(router), datagrams_view(datagrams@), *final(router)),
{
    let mut queue = datagrams;
    let ghost all = datagrams@;
    let ghost start = *router;
    let ghost mut k: int = 0;
    let ghost mut states = seq![start];
    while queue.len() > 0
        invariant
            router.wf(),
            0 <= k <= all.len(),
            queue@ == all.subrange(k, all.len() as int),
            router.descriptors().len() == start.descriptors().len(),
            forall|id: u64| #[trigger] router.is_routable(id) == start.is_routable(id),
            (forall|m: int| 0 <= m < k ==> !start.is_routable(#[trigger] all[m].queue_id)) ==> *router
                == start,
            delivers_through(Destination::Routed, states, datagrams_view(all).subrange(0, k)),
            states[0] == start,
            states.last() == *router,
        decreases queue@.len(),
    {
        let d = queue.pop_front().unwrap();
        let ghost before = *router;
        proof {
            assert(d == all[k]);
        }
        let ghost item = d@;
        let _ = deliver(router, d.queue_id, d.half, d.payload);
        proof {
            lemma_delivers_one_more(Destination::Routed, states, datagrams_view(all), k, *router);
            states = states.push(*router);
            assert forall|id: u64| #[trigger] router.is_routable(id) == start.is_routable(id) by {
                assert(before.is_routable(id) == start.is_routable(id));
                if (id as int) < router.descriptors().len() && id != d.queue_id && *router != before {
                    assert(router.descriptors()[id as int] == before.descriptors()[id as int]);
                }
            }
            assert(queue@ =~= all.subrange(k + 1, all.len() as int));
            k = k + 1;
        }
    }
    proof {
        assert(datagrams_view(all).subrange(0, k) =~= datagrams_view(all));
        assert(delivers_through(Destination::Routed, states, datagrams_view(all)));
    }
}

proof fn lemma_delivers_one_more<Key>(
    dest: Destination,
    states: Seq<Dispatch<Vec<u8>, Key>>,
    items: Seq<(u64, Half, Seq<u8>)>,
    k: int,
    after: Dispatch<Vec<u8>, Key>,
)
    requires
        0 <= k < items.len(),
        delivers_through(dest, states, items.subrange(0, k)),
        delivery_step(dest, states.last(), items[k], after),
    ensures
        delivers_through(dest, states.push(after), items.subrange(0, k + 1)),
{
    let next = states.push(after);
    let sub = items.subrange(0, k + 1);
    assert forall|i: int| 0 <= i < sub.len() implies #[trigger] delivery_step(
        dest,
        next[i],
        sub[i],
        next[i + 1],
    ) by {
        if i < k {
            assert(delivery_step(dest, states[i], items.subrange(0, k)[i], states[i + 1]));
        }
    }
}

/// Received bytes, staged until they are decoded and delivered. Data arrives
/// through `fill`; `process` takes it all.
pub trait Buffer: Sized {
    /// The bytes received and not yet processed.
    spec fn staged(&self) -> Seq<u8>;

    /// Where the decoded datagrams go.
    spec fn destination(&self) -> Destination;

    fn is_empty(&self) -> (r: bool)
        ensures
            r == (self.staged().len() == 0),
    ;

    /// Appends received bytes.
    fn fill(&mut self, data: &[u8])
        ensures
            final(self).staged() == old(self).staged() + data@,
            final(self).destination() == old(self).destination(),
    ;

    /// Decodes all staged bytes and offers the datagrams, in order, to the
    /// destination. Bytes that do not frame are dropped whole, before any delivery,
    /// with `Decode`. Registrations are left as they were.
    fn process<Key>(&mut self, router: &mut Dispatch<Vec<u8>, Key>) -> (r: Result<(), RecvError>)
        requires
            old(router).wf(),
        ensures
            final(router).wf(),
            final(self).staged().len() == 0,
            final(self).destination() == old(self).destination(),
            r.is_ok() == parse_all(old(self).staged()).is_some(),
            r.is_err() ==> *final(router) == *old(router),
            r.is_ok() ==> delivers_all(
                old(self).destination(),
                *old(router),
                parse_all(old(self).staged()).unwrap(),
                *final(router),
            ),
            forall|id: u64| #[trigger] final(router).is_routable(id) == old(router).is_routable(id),
    ;
}

fn append_bytes(bytes: &mut Vec<u8>, data: &[u8])
    ensures
        final(bytes)@ == old(bytes)@ + data@,
{
    let mut i: usize = 0;
    while i < data.len()
        invariant
            i <= data@.len(),
            bytes@ == old(bytes)@ + data@.subrange(0, i as int),
        decreases data@.len() - i,
    {
        bytes.push(data[i]);
        proof {
            assert(data@.subrange(0, i + 1) =~= data@.subrange(0, i as int).push(data@[i as int]));
        }
        i = i + 1;
    }
    proof {
        assert(data@.subrange(0, data@.len() as int) =~= data@);
    }
}

/// A buffer shared by many peers: each datagram names its descriptor.
pub struct Channel {
    bytes: Vec<u8>,
}

impl Channel {
    pub fn new() -> (r: Self)
        ensures
            r.staged().len() == 0,
    {
        Channel { bytes: Vec::new() }
    }
}

impl Buffer for Channel {
    closed spec fn staged(&self) -> Seq<u8> {
        self.bytes@
    }

    open spec fn destination(&self) -> Destination {
        Destination::Routed
    }

    fn is_empty(&self) -> (r: bool) {
        self.bytes.len() == 0
    }

    fn fill(&mut self, data: &[u8]) {
        append_bytes(&mut self.bytes, data);
    }

    fn process<Key>(&mut self, router: &mut Dispatch<Vec<u8>, Key>) -> (r: Result<(), RecvError>) {
        let decoded = decode_datagrams(&self.bytes);
        self.bytes = Vec::new();
        match decoded {
            None => Err(RecvError::Decode),
            Some(datagrams) => {
                dispatch_datagrams(router, datagrams);
                Ok(())
            },
        }
    }
}

/// A buffer with a single destination: every datagram goes to one descriptor,
/// whatever identifier it carries, without a routing lookup.
pub struct Local {
    bytes: Vec<u8>,
    queue_id: u64,
    generation: u64,
}

impl Local {
    /// A buffer that delivers to the descriptor `sender` feeds. It holds no count of
    /// its own: once that descriptor is gone, its pushes are refused.
    pub fn new(sender: &Sender) -> (r: Self)
        ensures
            r.staged().len() == 0,
            r.queue_id_spec() == sender.queue_id_spec(),
            r.generation_spec() == sender.generation_spec(),
    {
        Local { bytes: Vec::new(), queue_id: sender.queue_id(), generation: sender.generation() }
    }

    pub closed spec fn queue_id_spec(&self) -> u64 {
        self.queue_id
    }

    pub closed spec fn generation_spec(&self) -> u64 {
        self.generation
    }
}

impl Buffer for Local {
    closed spec fn staged(&self) -> Seq<u8> {
        self.bytes@
    }

    open spec fn destination(&self) -> Destination {
        Destination::Fixed { queue_id: self.queue_id_spec(), generation: self.generation_spec() }
    }

    fn is_empty(&self) -> (r: bool) {
        self.bytes.len() == 0
    }

    fn fill(&mut self, data: &[u8]) {
        append_bytes(&mut self.bytes, data);
    }

    fn process<Key>(&mut self, router: &mut Dispatch<Vec<u8>, Key>) -> (r: Result<(), RecvError>) {
        let decoded = decode_datagrams(&self.bytes);
        self.bytes = Vec::new();
        let mut queue = match decoded {
            None => return Err(RecvError::Decode),
            Some(datagrams) => datagrams,
        };
        let ghost all = queue@;
        let ghost start = *router;
        let ghost dest = self.destination();
        let ghost mut k: int = 0;
        let ghost mut states = seq![start];
        while queue.len() > 0
            invariant
                router.wf(),
                0 <= k <= all.len(),
                states[0] == start,
                states.last() == *router,
                queue@ == all.subrange(k, all.len() as int),
                dest == (Destination::Fixed { queue_id: self.queue_id, generation: self.generation }),
                router.descriptors().len() == start.descriptors().len(),
                forall|id: u64| #[trigger] router.is_routable(id) == start.is_routable(id),
                delivers_through(dest, states, datagrams_view(all).subrange(0, k)),
            decreases queue@.len(),
        {
            let d = queue.pop_front().unwrap();
            let ghost before = *router;
            let ghost pl = d.payload;
            proof {
                assert(d == all[k]);
            }
            let r = router.push(self.queue_id, self.generation, d.half, d.payload);
            proof {
                if before.holds(self.queue_id, self.generation) {
                    assert(push_spec(
                        before.descriptor(self.queue_id).queue(d.half),
                        router.descriptor(self.queue_id).queue(d.half),
                        pl,
                        r,
                    ));
                    assert(exists|v: Vec<u8>, r2: Result<Option<Vec<u8>>, Error>|
                        v@ == pl@ && (#[trigger] push_spec(
                            before.descriptor(self.queue_id).queue(d.half),
                            router.descriptor(self.queue_id).queue(d.half),
                            v,
                            r2,
                        )));
                    assert(pushed_into(before, *router, self.queue_id, d.half, pl@));
                }
                assert(datagrams_view(all)[k] == (d.queue_id, d.half, pl@));
                lemma_delivers_one_more(dest, states, datagrams_view(all), k, *router);
                states = states.push(*router);
                assert forall|id: u64| #[trigger] router.is_routable(id) == start.is_routable(id) by {
                    assert(before.is_routable(id) == start.is_routable(id));
                    if (id as int) < router.descriptors().len() && id != self.queue_id && *router
                        != before {
                        assert(router.descriptors()[id as int] == before.descriptors()[id as int]);
                    }
                }
                assert(queue@ =~= all.subrange(k + 1, all.len() as int));
                k = k + 1;
            }
        }
        proof {
            assert(datagrams_view(all).subrange(0, k) =~= datagrams_view(all));
            assert(delivers_through(dest, states, datagrams_view(all)));
        }
        Ok(())
    }
}

/// One of two kinds of buffer.
pub enum Either<A, B> {
    A(A),
    B(B),
}

impl<A: Buffer, B: Buffer> Buffer for Either<A, B> {
    open spec fn staged(&self) -> Seq<u8> {
        match self {
            Either::A(a) => a.staged(),
            Either::B(b) => b.staged(),
        }
    }

    open spec fn destination(&self) -> Destination {
        match self {
            Either::A(a) => a.destination(),
            Either::B(b) => b.destination(),
        }
    }

    fn is_empty(&self) -> (r: bool) {
        match self {
            Either::A(a) => a.is_empty(),
            Either::B(b) => b.is_empty(),
        }
    }

    fn fill(&mut self, data: &[u8]) {
        match self {
            Either::A(a) => a.fill(data),
            Either::B(b) => b.fill(data),
        }
    }

    fn process<Key>(&mut self, router: &mut Dispatch<Vec<u8>, Key>) -> (r: Result<(), RecvError>) {
        match self {
            Either::A(a) => a.process(router),
            Either::B(b) => b.process(router),
        }
    }
}

} // verus!
