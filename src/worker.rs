//! The batching worker's decisions. The worker owns the batch; the loop that
//! waits on the channel and performs the requests drives it from outside,
//! handing in what happened and sending what comes back, in order.
use vstd::prelude::*;
use crate::batch::Batch;
use crate::buffers::{bytes_view, bytes_len};
use crate::model::{event_step, flush_of};

verus! {

/// The capacity a handler's batches are made with.
pub const BATCH_SIZE: usize = 65536;

/// How long, in milliseconds, the worker waits for an event before it
/// flushes a non-empty batch.
pub const IDLE_TIMEOUT_MS: u64 = 1000;

/// The byte contents of a sequence of buffers, one for each.
pub open spec fn batch_views(s: Seq<bytes::Bytes>) -> Seq<Seq<u8>> {
    s.map_values(|b: bytes::Bytes| bytes_view(b))
}

/// The state the worker keeps between events: the batch being accumulated.
pub struct Worker {
    batch: Batch,
}

impl Worker {
    /// The bytes accumulated and not yet flushed.
    pub closed spec fn pending(&self) -> Seq<u8> {
        self.batch.contents()
    }

    /// The capacity of the worker's batches.
    pub closed spec fn cap(&self) -> nat {
        self.batch.cap()
    }

    /// The worker's batch keeps its own invariant.
    pub closed spec fn wf(&self) -> bool {
        self.batch.wf()
    }

    /// A worker with nothing pending whose batches hold up to `capacity` bytes.
    pub fn new(capacity: usize) -> (r: Worker)
        requires
            capacity <= isize::MAX,
        ensures
            r.wf(),
            r.pending() == Seq::<u8>::empty(),
            r.cap() == capacity,
    {
        Worker { batch: Batch::new(capacity) }
    }

    /// An event arrived. Returns the batches to send now, in order: none when
    /// the event fits in the current batch; the current batch when it does
    /// not, the event then starting the next one; and the event on its own
    /// as well when it is larger than the capacity.
    pub fn on_event(&mut self, event: bytes::Bytes) -> (sent: Vec<bytes::Bytes>)
        requires
            old(self).wf(),
        ensures
            final(self).wf(),
            final(self).cap() == old(self).cap(),
            (batch_views(sent@), final(self).pending()) == event_step(
                old(self).pending(),
                bytes_view(event),
                old(self).cap(),
            ),
    {
        let mut sent: Vec<bytes::Bytes> = Vec::new();
        if self.batch.append(&event) {
            assert(batch_views(sent@) =~= Seq::<Seq<u8>>::empty());
            return sent;
        }
        if !self.batch.is_empty() {
            sent.push(self.batch.drain());
        }
        assert(batch_views(sent@) =~= flush_of(old(self).pending()));
        if bytes_len(&event) <= self.batch.capacity() {
            let fit = self.batch.append(&event);
            assert(fit);
            assert(self.batch.contents() =~= bytes_view(event));
        } else {
            sent.push(event);
            assert(batch_views(sent@) =~= flush_of(old(self).pending()).push(bytes_view(event)));
        }
        sent
    }

    /// Flushes the pending bytes: `Some` batch holding exactly them when
    /// there are any, `None` otherwise; nothing is pending afterwards.
    fn flush(&mut self) -> (r: Option<bytes::Bytes>)
        requires
            old(self).wf(),
        ensures
            final(self).wf(),
            final(self).cap() == old(self).cap(),
            r is Some <==> old(self).pending().len() > 0,
            r matches Some(b) ==> bytes_view(b) == old(self).pending(),
            final(self).pending() == Seq::<u8>::empty(),
    {
        if self.batch.is_empty() {
            None
        } else {
            let b = self.batch.drain();
            Some(b)
        }
    }

    /// The idle timeout elapsed with no event: the pending bytes, if any,
    /// are flushed so that a sparse producer's events are not held back.
    pub fn on_idle(&mut self) -> (r: Option<bytes::Bytes>)
        requires
            old(self).wf(),
        ensures
            final(self).wf(),
            final(self).cap() == old(self).cap(),
            r is Some <==> old(self).pending().len() > 0,
            r matches Some(b) ==> bytes_view(b) == old(self).pending(),
            final(self).pending() == Seq::<u8>::empty(),
    {
        self.flush()
    }

    /// The channel closed: the worker drains, flushing what is pending, and
    /// then stops.
    pub fn on_closed(&mut self) -> (r: Option<bytes::Bytes>)
        requires
            old(self).wf(),
        ensures
            final(self).wf(),
            final(self).cap() == old(self).cap(),
            r is Some <==> old(self).pending().len() > 0,
            r matches Some(b) ==> bytes_view(b) == old(self).pending(),
            final(self).pending() == Seq::<u8>::empty(),
    {
        self.flush()
    }

    /// The number of bytes pending.
    pub fn pending_len(&self) -> (r: usize)
        ensures
            r == self.pending().len(),
    {
        self.batch.len()
    }
}

} // verus!
