//! Fixed-capacity circular byte queue with read/write cursors and an explicit
//! empty/full disambiguator for the cursor-equality edge case.

use vstd::prelude::*;

verus! {

/// Capacity of a pipe's ring buffer, in bytes.
pub const RING_BUFFER_SIZE: usize = 1024;

/// Resolves the ambiguity of `head == tail`: such a buffer is either empty or
/// full, and any other transfer leaves it `Normal`.
#[derive(Clone, Copy, PartialEq, Eq, Structural, Debug)]
pub enum RingBufferStatus {
    Full,
    Empty,
    Normal,
}

/// Circular byte queue of capacity [`RING_BUFFER_SIZE`]. Its view is the
/// sequence of bytes currently readable, oldest first.
pub struct PipeRingBuffer {
    arr: Vec<u8>,
    head: usize,
    tail: usize,
    status: RingBufferStatus,
}

impl View for PipeRingBuffer {
    type V = Seq<u8>;

    /// The readable contents, in the order they were written.
    closed spec fn view(&self) -> Seq<u8> {
        if self.status == RingBufferStatus::Empty {
            Seq::empty()
        } else if self.tail > self.head {
            self.arr@.subrange(self.head as int, self.tail as int)
        } else {
            self.arr@.subrange(self.head as int, RING_BUFFER_SIZE as int) + self.arr@.subrange(
                0,
                self.tail as int,
            )
        }
    }
}

impl PipeRingBuffer {
    /// Structural well-formedness: cursors in range, storage at capacity, and
    /// the status consistent with the cursors.
    pub closed spec fn wf(&self) -> bool {
        &&& self.arr@.len() == RING_BUFFER_SIZE
        &&& self.head < RING_BUFFER_SIZE
        &&& self.tail < RING_BUFFER_SIZE
        &&& ((self.status == RingBufferStatus::Empty || self.status == RingBufferStatus::Full)
            <==> self.head == self.tail)
    }

    /// A well-formed buffer never holds more than its capacity.
    pub proof fn lemma_len_bounded(&self)
        requires
            self.wf(),
        ensures
            self@.len() <= RING_BUFFER_SIZE,
    {
    }

    /// An empty buffer.
    pub fn new() -> (r: Self)
        ensures
            r.wf(),
            r@ == Seq::<u8>::empty(),
    {
        let mut arr: Vec<u8> = Vec::new();
        let mut i: usize = 0;
        while i < RING_BUFFER_SIZE
            invariant
                i <= RING_BUFFER_SIZE,
                arr@.len() == i,
            decreases RING_BUFFER_SIZE - i,
        {
            arr.push(0);
            i = i + 1;
        }
        PipeRingBuffer { arr, head: 0, tail: 0, status: RingBufferStatus::Empty }
    }

    /// Appends one byte. The caller must have checked `available_write`.
    pub fn write_byte(&mut self, byte: u8)
        requires
            old(self).wf(),
            old(self)@.len() < RING_BUFFER_SIZE,
        ensures
            final(self).wf(),
            final(self)@ == old(self)@.push(byte),
    {
        self.status = RingBufferStatus::Normal;
        let t = self.tail;
        self.arr[t] = byte;
        self.tail = (t + 1) % RING_BUFFER_SIZE;
        if self.tail == self.head {
            self.status = RingBufferStatus::Full;
        }
        proof {
            assert(self@ =~= old(self)@.push(byte));
        }
    }

    /// Removes and returns the oldest byte. The caller must have checked
    /// `available_read`.
    pub fn read_byte(&mut self) -> (r: u8)
        requires
            old(self).wf(),
            old(self)@.len() > 0,
        ensures
            final(self).wf(),
            r == old(self)@[0],
            final(self)@ == old(self)@.skip(1),
    {
        self.status = RingBufferStatus::Normal;
        let c = self.arr[self.head];
        self.head = (self.head + 1) % RING_BUFFER_SIZE;
        if self.head == self.tail {
            self.status = RingBufferStatus::Empty;
        }
        proof {
            assert(self@ =~= old(self)@.skip(1));
        }
        c
    }

    /// How many bytes can be read right now: exactly the length of the
    /// readable contents.
    pub fn available_read(&self) -> (r: usize)
        requires
            self.wf(),
        ensures
            r == self@.len(),
    {
        if self.status == RingBufferStatus::Empty {
            0
        } else if self.tail > self.head {
            self.tail - self.head
        } else {
            self.tail + RING_BUFFER_SIZE - self.head
        }
    }

    /// How many bytes can be written right now: the capacity minus the
    /// readable contents.
    pub fn available_write(&self) -> (r: usize)
        requires
            self.wf(),
        ensures
            r == RING_BUFFER_SIZE - self@.len(),
    {
        if self.status == RingBufferStatus::Full {
            0
        } else {
            RING_BUFFER_SIZE - self.available_read()
        }
    }
}

/// Law: after any sequence of writes totalling `w` performed on an empty
/// buffer and before any read, the readable contents are exactly `w`, so
/// `available_read` reports `w.len()` and `available_write` reports the
/// remaining capacity. (Each write appends to the view, so the view after the
/// writes is `empty + w`; the availability counts are exactly the view's
/// length and its complement.)
pub proof fn lemma_fill_availability(w: Seq<u8>)
    requires
        w.len() <= RING_BUFFER_SIZE,
    ensures
        Seq::<u8>::empty() + w == w,
        (Seq::<u8>::empty() + w).len() == w.len(),
        RING_BUFFER_SIZE - (Seq::<u8>::empty() + w).len() == RING_BUFFER_SIZE - w.len(),
{
    assert(Seq::<u8>::empty() + w =~= w);
}

} // verus!
