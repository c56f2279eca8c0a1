//! The batch buffer: event bytes accumulated up to a capacity.
use vstd::prelude::*;
use crate::buffers::{buf_view, bytes_view, bytes_len, buf_with_capacity, buf_len, buf_extend, buf_freeze};

verus! {

/// Concatenated event bytes waiting to be flushed, with the capacity that
/// decides when the batch is full.
pub struct Batch {
    buf: bytes::BytesMut,
    capacity: usize,
}

impl Batch {
    /// The bytes held, in the order they were appended.
    pub closed spec fn contents(&self) -> Seq<u8> {
        buf_view(self.buf)
    }

    /// The capacity the batch was made with.
    pub closed spec fn cap(&self) -> nat {
        self.capacity as nat
    }

    /// A batch never holds more than its capacity, and the capacity can be
    /// allocated.
    pub closed spec fn wf(&self) -> bool {
        self.contents().len() <= self.cap() && self.capacity <= isize::MAX
    }

    /// An empty batch of the given capacity.
    pub fn new(capacity: usize) -> (r: Batch)
        requires
            capacity <= isize::MAX,
        ensures
            r.wf(),
            r.contents() == Seq::<u8>::empty(),
            r.cap() == capacity,
    {
        Batch { buf: buf_with_capacity(capacity), capacity }
    }

    /// Appends `event` if the batch can take it without exceeding its
    /// capacity, and returns whether it did; otherwise the batch is unchanged
    /// and the caller decides whether to flush first.
    pub fn append(&mut self, event: &bytes::Bytes) -> (fit: bool)
        requires
            old(self).wf(),
        ensures
            final(self).wf(),
            final(self).cap() == old(self).cap(),
            fit == (old(self).contents().len() + bytes_view(*event).len() <= old(self).cap()),
            fit ==> final(self).contents() == old(self).contents() + bytes_view(*event),
            !fit ==> final(self).contents() == old(self).contents(),
    {
        let held = buf_len(&self.buf);
        let n = bytes_len(event);
        if n <= self.capacity - held {
            buf_extend(&mut self.buf, event);
            true
        } else {
            false
        }
    }

    /// Returns the bytes held and leaves the batch empty, with the same capacity.
    pub fn drain(&mut self) -> (r: bytes::Bytes)
        requires
            old(self).wf(),
        ensures
            final(self).wf(),
            final(self).cap() == old(self).cap(),
            bytes_view(r) == old(self).contents(),
            final(self).contents() == Seq::<u8>::empty(),
    {
        let mut full = buf_with_capacity(self.capacity);
        std::mem::swap(&mut full, &mut self.buf);
        buf_freeze(full)
    }

    /// Whether the batch holds no bytes.
    pub fn is_empty(&self) -> (r: bool)
        ensures
            r == (self.contents().len() == 0),
    {
        buf_len(&self.buf) == 0
    }

    /// The number of bytes held.
    pub fn len(&self) -> (r: usize)
        ensures
            r == self.contents().len(),
    {
        buf_len(&self.buf)
    }

    /// The capacity the batch was made with.
    pub fn capacity(&self) -> (r: usize)
        ensures
            r == self.cap(),
    {
        self.capacity
    }
}

} // verus!
