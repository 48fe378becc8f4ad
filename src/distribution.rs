//! Fan-out of audio frames from the capture callback to independently paced
//! subscribers, over the `bus` crate's broadcast rings.
//!
//! Each subscriber has a ring of its own. Publishing never blocks: when a
//! subscriber has fallen a whole ring behind, the frame is dropped for that
//! subscriber alone, and every other subscriber still receives it. A stalled
//! sink can therefore neither stall capture nor starve the other sink.
use vstd::prelude::*;

verus! {

#[verifier::external_type_specification]
#[verifier::external_body]
#[verifier::reject_recursive_types(T)]
pub struct ExBus<T>(bus::Bus<T>);

#[verifier::external_type_specification]
#[verifier::external_body]
#[verifier::reject_recursive_types(T)]
pub struct ExBusReader<T>(bus::BusReader<T>);

/// Every value a ring has accepted, in order.
pub uninterp spec fn sent_of(b: bus::Bus<Vec<i16>>) -> Seq<Seq<i16>>;

/// Every value a reader has handed out, in order.
pub uninterp spec fn received_of(r: bus::BusReader<Vec<i16>>) -> Seq<Seq<i16>>;

/// Relies on `bus::Bus::new`: an empty ring that holds `len` values not yet
/// read by every reader.
#[verifier::external_body]
fn bus_new(len: usize) -> (r: bus::Bus<Vec<i16>>)
    requires
        len < usize::MAX,
    ensures
        sent_of(r) == Seq::<Seq<i16>>::empty(),
{
    bus::Bus::new(len)
}

/// Relies on `bus::Bus::add_rx`: a reader of every later broadcast, which has
/// handed out nothing yet.
#[verifier::external_body]
fn bus_add_rx(b: &mut bus::Bus<Vec<i16>>) -> (r: bus::BusReader<Vec<i16>>)
    ensures
        sent_of(*final(b)) == sent_of(*old(b)),
        received_of(r) == Seq::<Seq<i16>>::empty(),
{
    b.add_rx()
}

/// Relies on `bus::Bus::try_broadcast`: never blocks; the ring accepts the
/// value, or, when full, hands it back unchanged.
#[verifier::external_body]
fn bus_try_broadcast(b: &mut bus::Bus<Vec<i16>>, val: Vec<i16>) -> (r: Result<(), Vec<i16>>)
    ensures
        r is Ok ==> sent_of(*final(b)) == sent_of(*old(b)).push(val@),
        r matches Err(v) ==> v@ == val@ && sent_of(*final(b)) == sent_of(*old(b)),
{
    b.try_broadcast(val)
}

/// Relies on `bus::BusReader::recv`: blocks for the next value; `None` once
/// the bus is gone and every value sent before was read.
#[verifier::external_body]
fn bus_recv(r: &mut bus::BusReader<Vec<i16>>) -> (v: Option<Vec<i16>>)
    ensures
        match v {
            Some(f) => received_of(*final(r)) == received_of(*old(r)).push(f@),
            None => received_of(*final(r)) == received_of(*old(r)),
        },
{
    r.recv().ok()
}

/// Relies on `bus::BusReader::try_recv`: the next value if one is waiting,
/// without blocking.
#[verifier::external_body]
fn bus_try_recv(r: &mut bus::BusReader<Vec<i16>>) -> (v: Option<Vec<i16>>)
    ensures
        match v {
            Some(f) => received_of(*final(r)) == received_of(*old(r)).push(f@),
            None => received_of(*final(r)) == received_of(*old(r)),
        },
{
    r.try_recv().ok()
}

/// A copy of a frame.
fn copy_frame(frame: &Vec<i16>) -> (r: Vec<i16>)
    ensures
        r@ == frame@,
{
    let mut r: Vec<i16> = Vec::new();
    let mut i: usize = 0;
    while i < frame.len()
        invariant
            i <= frame@.len(),
            r@ == frame@.subrange(0, i as int),
        decreases frame@.len() - i,
    {
        r.push(frame[i]);
        assert(frame@.subrange(0, i + 1) =~= frame@.subrange(0, i as int).push(frame@[i as int]));
        i = i + 1;
    }
    assert(frame@.subrange(0, frame@.len() as int) =~= frame@);
    r
}

/// Single producer, many independently paced consumers of audio frames.
pub struct DistributionBus {
    rings: Vec<bus::Bus<Vec<i16>>>,
    capacity: usize,
}

/// One consumer's end of a `DistributionBus`.
pub struct Subscription {
    reader: bus::BusReader<Vec<i16>>,
}

impl DistributionBus {
    /// For each subscriber, in order of subscription, every frame its ring accepted.
    pub closed spec fn spec_sent(&self) -> Seq<Seq<Seq<i16>>> {
        Seq::new(self.rings@.len(), |i: int| sent_of(self.rings@[i]))
    }

    pub closed spec fn spec_capacity(&self) -> usize {
        self.capacity
    }

    /// A ring can still be made for a new subscriber.
    pub closed spec fn wf(&self) -> bool {
        self.capacity < usize::MAX
    }

    /// A bus with no subscribers, whose rings hold up to `capacity` frames each.
    pub fn new(capacity: usize) -> (r: DistributionBus)
        requires
            capacity < usize::MAX,
        ensures
            r.wf(),
            r.spec_capacity() == capacity,
            r.spec_sent() == Seq::<Seq<Seq<i16>>>::empty(),
    {
        let r = DistributionBus { rings: Vec::new(), capacity };
        assert(r.spec_sent() =~= Seq::<Seq<Seq<i16>>>::empty());
        r
    }

    /// How many frames each subscriber's ring holds.
    pub fn capacity(&self) -> (r: usize)
        ensures
            r == self.spec_capacity(),
    {
        self.capacity
    }

    /// A new subscriber, which receives every frame published from now on.
    pub fn subscribe(&mut self) -> (r: Subscription)
        requires
            old(self).wf(),
        ensures
            final(self).wf(),
            final(self).spec_capacity() == old(self).spec_capacity(),
            final(self).spec_sent() == old(self).spec_sent().push(Seq::<Seq<i16>>::empty()),
            r.spec_received() == Seq::<Seq<i16>>::empty(),
    {
        let mut ring = bus_new(self.capacity);
        let reader = bus_add_rx(&mut ring);
        self.rings.push(ring);
        assert(self.spec_sent() =~= old(self).spec_sent().push(Seq::<Seq<i16>>::empty()));
        Subscription { reader }
    }

    /// Publishes a frame to every subscriber without blocking. Entry `i` of
    /// the result says whether subscriber `i` got it; it misses the frame
    /// only when its ring is full, and then nothing else is affected.
    pub fn publish(&mut self, frame: Vec<i16>) -> (delivered: Vec<bool>)
        ensures
            final(self).wf() == old(self).wf(),
            final(self).spec_capacity() == old(self).spec_capacity(),
            delivered@.len() == old(self).spec_sent().len(),
            final(self).spec_sent().len() == old(self).spec_sent().len(),
            forall|i: int|
                0 <= i < delivered@.len() ==> #[trigger] final(self).spec_sent()[i] == if delivered@[i] {
                    old(self).spec_sent()[i].push(frame@)
                } else {
                    old(self).spec_sent()[i]
                },
    {
        let ghost before = self.spec_sent();
        let mut pending: Vec<bus::Bus<Vec<i16>>> = Vec::new();
        std::mem::swap(&mut self.rings, &mut pending);
        let ghost all = pending@;
        let mut delivered: Vec<bool> = Vec::new();
        let n = pending.len();
        let mut i: usize = 0;
        while i < n
            invariant
                n == all.len(),
                before == Seq::new(all.len(), |k: int| sent_of(all[k])),
                i <= n,
                pending@ == all.subrange(i as int, n as int),
                self.rings@.len() == i,
                delivered@.len() == i,
                self.capacity == old(self).capacity,
                forall|k: int|
                    0 <= k < i ==> #[trigger] sent_of(self.rings@[k]) == if delivered@[k] {
                        before[k].push(frame@)
                    } else {
                        before[k]
                    },
            decreases n - i,
        {
            let mut ring = pending.remove(0);
            assert(ring == all[i as int]);
            let accepted = bus_try_broadcast(&mut ring, copy_frame(&frame)).is_ok();
            delivered.push(accepted);
            self.rings.push(ring);
            assert(pending@ =~= all.subrange(i + 1, n as int));
            i = i + 1;
        }
        delivered
    }
}

impl Subscription {
    /// Every frame this subscription has handed out, in order.
    pub closed spec fn spec_received(&self) -> Seq<Seq<i16>> {
        received_of(self.reader)
    }

    /// The next frame, blocking until one is published; `None` once the bus
    /// is closed and every frame published before was received.
    pub fn recv(&mut self) -> (r: Option<Vec<i16>>)
        ensures
            match r {
                Some(f) => final(self).spec_received() == old(self).spec_received().push(f@),
                None => final(self).spec_received() == old(self).spec_received(),
            },
    {
        bus_recv(&mut self.reader)
    }

    /// The next frame if one is waiting, without blocking.
    pub fn try_recv(&mut self) -> (r: Option<Vec<i16>>)
        ensures
            match r {
                Some(f) => final(self).spec_received() == old(self).spec_received().push(f@),
                None => final(self).spec_received() == old(self).spec_received(),
            },
    {
        bus_try_recv(&mut self.reader)
    }
}

} // verus!
