use crate::sniffer::DecodedRecord;
use vstd::prelude::*;

verus! {

/// The sink's answer to one publish.
#[derive(Clone, Copy, Debug, PartialEq, Eq, Structural)]
pub enum Publish {
    /// The record was queued.
    Accepted,
    /// The queue is full: the record was not taken, and the producer is to
    /// wait or drop it with a signal.
    Backpressure,
}

/// A bounded queue between the sessions and the downstream consumer. It
/// never holds more than `capacity` records, so a slow consumer throttles
/// producers instead of letting memory grow.
#[derive(Debug)]
pub struct BoundedSink {
    records: Vec<(u64, DecodedRecord)>,
    capacity: usize,
}

impl BoundedSink {
    /// The queued records, oldest first, each with the session it came from.
    pub closed spec fn queued(&self) -> Seq<(u64, DecodedRecord)> {
        self.records@
    }

    pub closed spec fn bound(&self) -> nat {
        self.capacity as nat
    }

    pub open spec fn wf(&self) -> bool {
        self.queued().len() <= self.bound()
    }

    /// An empty sink that holds at most `capacity` records.
    pub fn new(capacity: usize) -> (r: BoundedSink)
        ensures
            r.wf(),
            r.queued() == Seq::<(u64, DecodedRecord)>::empty(),
            r.bound() == capacity,
    {
        BoundedSink { records: Vec::new(), capacity }
    }

    pub fn capacity(&self) -> (r: usize)
        ensures
            r == self.bound(),
    {
        self.capacity
    }

    pub fn len(&self) -> (r: usize)
        ensures
            r == self.queued().len(),
    {
        self.records.len()
    }

    /// Queues `record` from session `session` when there is room, and
    /// signals backpressure, changing nothing, when the sink is full.
    pub fn publish(&mut self, session: u64, record: DecodedRecord) -> (r: Publish)
        requires
            old(self).wf(),
        ensures
            final(self).wf(),
            final(self).bound() == old(self).bound(),
            r == (if old(self).queued().len() < old(self).bound() {
                Publish::Accepted
            } else {
                Publish::Backpressure
            }),
            r == Publish::Accepted ==> final(self).queued() == old(self).queued().push(
                (session, record),
            ),
            r == Publish::Backpressure ==> final(self).queued() == old(self).queued(),
    {
        if self.records.len() < self.capacity {
            self.records.push((session, record));
            Publish::Accepted
        } else {
            Publish::Backpressure
        }
    }

    /// Hands every queued record to the consumer, oldest first, and empties
    /// the sink.
    pub fn drain(&mut self) -> (r: Vec<(u64, DecodedRecord)>)
        requires
            old(self).wf(),
        ensures
            final(self).wf(),
            final(self).bound() == old(self).bound(),
            r@ == old(self).queued(),
            final(self).queued() == Seq::<(u64, DecodedRecord)>::empty(),
    {
        let mut out: Vec<(u64, DecodedRecord)> = Vec::new();
        std::mem::swap(&mut self.records, &mut out);
        out
    }
}

} // verus!
