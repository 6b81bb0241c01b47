//! The event broadcast bus: one writer, any number of independent
//! readers, each with a private cursor into the shared log.
//!
//! This is the ordering core of the fan-out primitive. Each receiver
//! created by `new_receiver` observes exactly the events published after
//! its creation, in publish order; receivers never disturb one another or
//! the writer. Waiting for a `Pending` poll to become `Ready` is the
//! runtime's concern, not modelled here.
use vstd::prelude::*;
use crate::event::Event;

verus! {

/// The shared side of the bus: the published log and the closed flag.
pub struct Bus {
    log: Vec<Event>,
    closed: bool,
}

impl View for Bus {
    type V = Seq<Event>;

    closed spec fn view(&self) -> Seq<Event> {
        self.log@
    }
}

/// One consumer's handle: its registration point, its private cursor,
/// and (as ghost state) everything it has observed so far.
pub struct BusReceiver {
    pub start: usize,
    pub cursor: usize,
    pub seen: Ghost<Seq<Event>>,
}

impl BusReceiver {
    /// A receiver is well-formed for a bus when its cursor lies between
    /// its registration point and the log's end, and what it has seen is
    /// exactly the log between those two points.
    pub open spec fn wf_for(&self, bus: &Bus) -> bool {
        &&& self.start <= self.cursor <= bus@.len()
        &&& self.seen@ == bus@.subrange(self.start as int, self.cursor as int)
    }
}

/// What one poll of a receiver yields.
pub enum RecvPoll<'a> {
    /// The next event in order.
    Ready(&'a Event),
    /// Nothing published yet beyond this receiver's cursor.
    Pending,
    /// The stream ended: nothing further will ever arrive.
    Ended,
}

impl Bus {
    /// Whether the writer has closed the bus.
    pub closed spec fn spec_closed(&self) -> bool {
        self.closed
    }

    /// An empty, open bus.
    pub fn new() -> (b: Bus)
        ensures
            b@ == Seq::<Event>::empty(),
            !b.spec_closed(),
    {
        Bus { log: Vec::new(), closed: false }
    }

    /// Executable twin of `spec_closed`.
    pub fn is_closed(&self) -> (c: bool)
        ensures
            c == self.spec_closed(),
    {
        self.closed
    }

    /// Appends one event to the log; every receiver's past is untouched.
    pub fn publish(&mut self, e: Event)
        ensures
            final(self)@ == old(self)@.push(e),
            final(self).spec_closed() == old(self).spec_closed(),
    {
        self.log.push(e);
    }

    /// Closes the bus: the log stops growing and polls past its end
    /// report `Ended`.
    pub fn close(&mut self)
        ensures
            final(self)@ == old(self)@,
            final(self).spec_closed(),
    {
        self.closed = true;
    }

    /// A new consumer, observing only events published from now on.
    pub fn new_receiver(&self) -> (rx: BusReceiver)
        ensures
            rx.start == self@.len(),
            rx.cursor == self@.len(),
            rx.seen@ == Seq::<Event>::empty(),
            rx.wf_for(self),
    {
        let n = self.log.len();
        let rx = BusReceiver { start: n, cursor: n, seen: Ghost(Seq::empty()) };
        proof {
            assert(self@.subrange(n as int, n as int) =~= Seq::<Event>::empty());
        }
        rx
    }

    /// One poll: hands out the next event in publish order and advances
    /// this receiver's cursor alone; at the end of the log, reports
    /// whether the stream is merely quiet or over.
    pub fn poll<'a>(&'a self, rx: &mut BusReceiver) -> (r: RecvPoll<'a>)
        ensures
            final(rx).start == old(rx).start,
            old(rx).cursor < self@.len() ==> {
                &&& r matches RecvPoll::Ready(e) && *e == self@[old(rx).cursor as int]
                &&& final(rx).cursor == old(rx).cursor + 1
                &&& final(rx).seen@ == old(rx).seen@.push(self@[old(rx).cursor as int])
            },
            old(rx).cursor >= self@.len() ==> {
                &&& final(rx).cursor == old(rx).cursor
                &&& final(rx).seen@ == old(rx).seen@
                &&& if self.spec_closed() {
                    r is Ended
                } else {
                    r is Pending
                }
            },
            old(rx).wf_for(self) ==> final(rx).wf_for(self),
    {
        if rx.cursor < self.log.len() {
            let e = &self.log[rx.cursor];
            proof {
                if rx.wf_for(self) {
                    assert(self@.subrange(rx.start as int, rx.cursor + 1) =~= self@.subrange(
                        rx.start as int,
                        rx.cursor as int,
                    ).push(self@[rx.cursor as int]));
                }
            }
            rx.seen = Ghost(rx.seen@.push(self@[rx.cursor as int]));
            rx.cursor = rx.cursor + 1;
            RecvPoll::Ready(e)
        } else if self.closed {
            RecvPoll::Ended
        } else {
            RecvPoll::Pending
        }
    }
}

/// No event is lost and none reordered: what a well-formed receiver has
/// observed is exactly the contiguous slice of the published log from its
/// registration point to its cursor.
pub proof fn lemma_broadcast_order(bus: &Bus, rx: &BusReceiver)
    requires
        rx.wf_for(bus),
    ensures
        rx.seen@ =~= bus@.subrange(rx.start as int, rx.cursor as int),
        rx.seen@.len() == rx.cursor - rx.start,
{
}

/// Fan-out agreement: two receivers registered at the same point observe
/// the same events in the same order, as far as both have read.
pub proof fn lemma_fanout_agree(bus: &Bus, a: &BusReceiver, b: &BusReceiver)
    requires
        a.wf_for(bus),
        b.wf_for(bus),
        a.start == b.start,
    ensures
        forall|i: int| 0 <= i < a.seen@.len() && i < b.seen@.len() ==> a.seen@[i] == b.seen@[i],
{
    assert forall|i: int|
        0 <= i < a.seen@.len() && i < b.seen@.len() implies a.seen@[i] == b.seen@[i] by {
        assert(a.seen@[i] == bus@[a.start + i]);
        assert(b.seen@[i] == bus@[b.start + i]);
    }
}

/// Publishing never disturbs a consumer: a receiver well-formed for the
/// bus before the log grew is well-formed after, with its observations
/// unchanged.
pub proof fn lemma_publish_preserves_wf(before: &Bus, after: &Bus, rx: &BusReceiver)
    requires
        rx.wf_for(before),
        after@.len() >= before@.len(),
        after@.subrange(0, before@.len() as int) == before@,
    ensures
        rx.wf_for(after),
{
    assert(after@.subrange(rx.start as int, rx.cursor as int) =~= before@.subrange(
        rx.start as int,
        rx.cursor as int,
    ));
}

} // verus!
