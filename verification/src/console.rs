//! Receive-side ring buffer of the console driver: bytes arriving from the
//! interrupt handler are queued here until the reader drains them. Unlike the
//! pipe's buffer it never blocks a producer — a byte pushed into a full
//! buffer is dropped.

use vstd::prelude::*;

verus! {

/// Capacity of the receive buffer, in bytes.
pub const BUFFER_SIZE: usize = 128;

/// Fixed-capacity byte queue with an explicit emptiness flag. Its view is
/// the sequence of queued bytes, oldest first.
pub struct RxRingBuffer {
    buffer: Vec<u8>,
    head: usize,
    tail: usize,
    empty: bool,
}

impl View for RxRingBuffer {
    type V = Seq<u8>;

    /// The queued bytes, in arrival order.
    closed spec fn view(&self) -> Seq<u8> {
        if self.empty {
            Seq::empty()
        } else if self.tail > self.head {
            self.buffer@.subrange(self.head as int, self.tail as int)
        } else {
            self.buffer@.subrange(self.head as int, BUFFER_SIZE as int) + self.buffer@.subrange(
                0,
                self.tail as int,
            )
        }
    }
}

impl RxRingBuffer {
    /// Cursors in range, storage at capacity, and the emptiness flag only
    /// set with equal cursors.
    pub closed spec fn wf(&self) -> bool {
        &&& self.buffer@.len() == BUFFER_SIZE
        &&& self.head < BUFFER_SIZE
        &&& self.tail < BUFFER_SIZE
        &&& (self.empty ==> self.head == self.tail)
    }

    /// Create a new ring buffer.
    pub fn new() -> (r: Self)
        ensures
            r.wf(),
            r@ == Seq::<u8>::empty(),
    {
        let mut buffer: Vec<u8> = Vec::new();
        let mut i: usize = 0;
        while i < BUFFER_SIZE
            invariant
                i <= BUFFER_SIZE,
                buffer@.len() == i,
            decreases BUFFER_SIZE - i,
        {
            buffer.push(0);
            i = i + 1;
        }
        RxRingBuffer { buffer, head: 0, tail: 0, empty: true }
    }

    /// Push a byte into the buffer. A byte arriving at a full buffer is
    /// dropped.
    pub fn push(&mut self, n: u8)
        requires
            old(self).wf(),
        ensures
            final(self).wf(),
            old(self)@.len() < BUFFER_SIZE ==> final(self)@ == old(self)@.push(n),
            old(self)@.len() == BUFFER_SIZE ==> final(self)@ == old(self)@,
    {
        if self.tail != self.head || self.empty {
            let t = self.tail;
            self.buffer[t] = n;
            self.tail = (t + 1) % BUFFER_SIZE;
            self.empty = false;
            proof {
                assert(self@ =~= old(self)@.push(n));
            }
        }
    }

    /// Pop the oldest byte from the buffer, if any.
    pub fn pop(&mut self) -> (r: Option<u8>)
        requires
            old(self).wf(),
        ensures
            final(self).wf(),
            old(self)@.len() == 0 ==> r is None && final(self)@ == old(self)@,
            old(self)@.len() > 0 ==> r == Some(old(self)@[0]) && final(self)@ == old(self)@.skip(
                1,
            ),
    {
        if self.empty {
            None
        } else {
            let ret = self.buffer[self.head];
            self.head = (self.head + 1) % BUFFER_SIZE;
            if self.head == self.tail {
                self.empty = true;
            }
            proof {
                assert(self@ =~= old(self)@.skip(1));
            }
            Some(ret)
        }
    }
}

} // verus!
