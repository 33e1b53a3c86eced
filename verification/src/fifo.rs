//! Bounded byte pipe with reader/writer lifecycle tracking and
//! blocking-aware open, read, and write steps.
//!
//! In the running kernel the buffer sits under a lock, the two presence
//! counters are updated atomically, and a task that cannot make progress
//! sleeps on one of two wait queues. Here each operation is one step taken
//! with the lock held: a step either completes or returns a suspend outcome,
//! and the scheduler around this crate parks the task on the indicated wait
//! queue, wakes it when a peer signals, and retries the step. Every
//! suspension is therefore followed by a full re-check — a wake is never
//! trusted to imply the condition.

use vstd::prelude::*;

use crate::errno::Errno;
use crate::ring::PipeRingBuffer;
use crate::ring::RING_BUFFER_SIZE;

verus! {

/// A pipe: one ring buffer plus the counts of currently open reader and
/// writer endpoints.
pub struct Fifo {
    buffer: PipeRingBuffer,
    reader_count: usize,
    writer_count: usize,
}

/// A directional, mode-tagged handle onto a shared [`Fifo`].
#[derive(Clone, Copy, PartialEq, Eq, Structural, Debug)]
pub struct FifoEndpoint {
    is_reader: bool,
    non_blocking: bool,
}

/// Which wait queue the caller of a state-changing step must wake, so that
/// suspended peers re-evaluate their condition.
#[derive(Clone, Copy, PartialEq, Eq, Structural, Debug)]
pub enum WakeSignal {
    /// Wake every task suspended on the read-side queue.
    ReadSide,
    /// Wake every task suspended on the write-side queue.
    WriteSide,
    /// No queue needs waking.
    NoWake,
}

/// Outcome of one open step.
#[derive(Debug, PartialEq, Eq)]
pub enum OpenStep {
    /// The endpoint was opened and the direction's count incremented.
    Opened(FifoEndpoint),
    /// Non-blocking open with the peer absent: `ENXIO`, nothing changed.
    Refused(Errno),
    /// Blocking open with the peer absent: park on this direction's wait
    /// queue, then retry the open.
    Suspend,
}

/// Outcome of one read step.
#[derive(Debug, PartialEq, Eq)]
pub enum ReadStep {
    /// Bytes drained from the pipe, oldest first.
    Data(Vec<u8>),
    /// The pipe is empty and no writer remains: end of stream, not an error.
    EndOfStream,
    /// `EPERM` (not a reader) or `EAGAIN` (non-blocking and empty with a
    /// writer still present).
    Fail(Errno),
    /// Blocking read found no data but a writer remains: park on the
    /// read-side queue, then retry.
    Suspend,
}

/// Outcome of one write step. The count carried by `Done` and `Suspend` is
/// the total transferred so far in the current call, including earlier steps.
#[derive(Debug, PartialEq, Eq)]
pub enum WriteStep {
    /// The call is complete; this many bytes of the caller's data were
    /// transferred over the whole call.
    Done(usize),
    /// `EPERM` (not a writer) or `EPIPE` (no reader remains and nothing was
    /// transferred yet in this call).
    Fail(Errno),
    /// The buffer is full but a reader remains: park on the write-side
    /// queue, then retry the step with this updated progress count.
    Suspend(usize),
}

/// Spec-level classification of a read step on a pipe in a given state.
#[derive(PartialEq, Eq, Structural)]
pub enum ReadOutcome {
    /// Data is available: drain and return it.
    Transfer,
    /// Empty with no writer: end of stream.
    Eof,
    /// Empty, a writer remains, non-blocking: `EAGAIN`.
    Again,
    /// Empty, a writer remains, blocking: suspend.
    Suspend,
}

/// Spec-level classification of a write step.
#[derive(PartialEq, Eq, Structural)]
pub enum WriteOutcome {
    /// All remaining bytes fit: the call completes in this step.
    Complete,
    /// The call ends early with the progress made so far (broken peer after
    /// partial progress, or non-blocking backpressure).
    Partial,
    /// No reader remains and nothing was transferred: `EPIPE`.
    Broken,
    /// Backpressure on a blocking endpoint: suspend.
    Suspend,
}

/// Spec-level classification of an open step, given the count of opposite
/// direction endpoints.
#[derive(PartialEq, Eq, Structural)]
pub enum OpenOutcome {
    /// A peer exists: the endpoint opens at once.
    Grant,
    /// No peer and non-blocking: refuse with `ENXIO`.
    Refuse,
    /// No peer and blocking: suspend until a peer appears.
    Suspend,
}

/// How one read step is decided from the pipe's state: any data present is
/// returned at once; an empty pipe distinguishes end-of-stream, `EAGAIN`, and
/// suspension by writer presence and blocking mode.
pub open spec fn read_outcome(data_len: nat, writers: nat, non_blocking: bool) -> ReadOutcome {
    if data_len > 0 {
        ReadOutcome::Transfer
    } else if writers == 0 {
        ReadOutcome::Eof
    } else if non_blocking {
        ReadOutcome::Again
    } else {
        ReadOutcome::Suspend
    }
}

/// How one write step is decided: `avail` is the buffer's free space,
/// `remaining` the bytes not yet transferred, `written` the progress made by
/// earlier steps of the same call.
pub open spec fn write_outcome(
    avail: nat,
    remaining: nat,
    readers: nat,
    written: nat,
    non_blocking: bool,
) -> WriteOutcome {
    if remaining == 0 {
        WriteOutcome::Complete
    } else if avail == 0 {
        if readers == 0 {
            if written == 0 {
                WriteOutcome::Broken
            } else {
                WriteOutcome::Partial
            }
        } else if non_blocking {
            WriteOutcome::Partial
        } else {
            WriteOutcome::Suspend
        }
    } else if avail >= remaining {
        WriteOutcome::Complete
    } else if readers == 0 || non_blocking {
        WriteOutcome::Partial
    } else {
        WriteOutcome::Suspend
    }
}

/// How one open step is decided from the count of opposite-direction
/// endpoints.
pub open spec fn open_outcome(peers: nat, non_blocking: bool) -> OpenOutcome {
    if peers > 0 {
        OpenOutcome::Grant
    } else if non_blocking {
        OpenOutcome::Refuse
    } else {
        OpenOutcome::Suspend
    }
}

/// Which queue a close must wake, given the direction closed and the counts
/// after the decrement: the last reader wakes blocked writers, the last
/// writer wakes blocked readers.
pub open spec fn close_wake(was_reader: bool, readers_after: nat, writers_after: nat) -> WakeSignal {
    if was_reader && readers_after == 0 {
        WakeSignal::WriteSide
    } else if !was_reader && writers_after == 0 {
        WakeSignal::ReadSide
    } else {
        WakeSignal::NoWake
    }
}

impl FifoEndpoint {
    /// Whether this endpoint is the reading end.
    pub closed spec fn spec_is_reader(&self) -> bool {
        self.is_reader
    }

    /// Whether operations through this endpoint refuse to suspend.
    pub closed spec fn spec_non_blocking(&self) -> bool {
        self.non_blocking
    }

    /// Whether this endpoint is the reading end.
    pub fn is_reader(&self) -> (r: bool)
        ensures
            r == self.spec_is_reader(),
    {
        self.is_reader
    }

    /// Whether operations through this endpoint refuse to suspend.
    pub fn non_blocking(&self) -> (r: bool)
        ensures
            r == self.spec_non_blocking(),
    {
        self.non_blocking
    }

    /// Reads through this endpoint: `EPERM` on a writer endpoint, otherwise
    /// one read step on the shared pipe (see [`Fifo::read`]).
    pub fn read(&self, fifo: &mut Fifo, max_len: usize) -> (r: ReadStep)
        requires
            old(fifo).wf(),
        ensures
            final(fifo).wf(),
            final(fifo).readers() == old(fifo).readers(),
            final(fifo).writers() == old(fifo).writers(),
            !self.spec_is_reader() ==> r == ReadStep::Fail(Errno::EPERM) && final(fifo).data()
                == old(fifo).data(),
            self.spec_is_reader() ==> fifo_read_post(
                *old(fifo),
                *final(fifo),
                max_len,
                self.spec_non_blocking(),
                r,
            ),
    {
        if !self.is_reader {
            ReadStep::Fail(Errno::EPERM)
        } else {
            fifo.read(max_len, self.non_blocking)
        }
    }

    /// Writes through this endpoint: `EPERM` on a reader endpoint, otherwise
    /// one write step on the shared pipe (see [`Fifo::write`]).
    pub fn write(&self, fifo: &mut Fifo, data: &Vec<u8>, written: usize) -> (r: WriteStep)
        requires
            old(fifo).wf(),
            written <= data.len(),
        ensures
            final(fifo).wf(),
            final(fifo).readers() == old(fifo).readers(),
            final(fifo).writers() == old(fifo).writers(),
            self.spec_is_reader() ==> r == WriteStep::Fail(Errno::EPERM) && final(fifo).data()
                == old(fifo).data(),
            !self.spec_is_reader() ==> fifo_write_post(
                *old(fifo),
                *final(fifo),
                data@,
                written,
                self.spec_non_blocking(),
                r,
            ),
    {
        if self.is_reader {
            WriteStep::Fail(Errno::EPERM)
        } else {
            fifo.write(data, written, self.non_blocking)
        }
    }
}

/// Full postcondition of one read step on the pipe itself: data present is
/// drained up to `max_len` bytes in order; an empty pipe yields end-of-stream
/// without a writer, `EAGAIN` non-blocking, or a suspension, and is left
/// unchanged.
pub open spec fn fifo_read_post(
    pre: Fifo,
    post: Fifo,
    max_len: usize,
    non_blocking: bool,
    r: ReadStep,
) -> bool {
    let outcome = read_outcome(pre.data().len(), pre.writers(), non_blocking);
    let n = if pre.data().len() <= max_len as nat {
        pre.data().len() as int
    } else {
        max_len as int
    };
    &&& post.readers() == pre.readers()
    &&& post.writers() == pre.writers()
    &&& (outcome is Transfer ==> r is Data && r->Data_0@ == pre.data().take(n) && post.data()
        == pre.data().skip(n))
    &&& (outcome is Eof ==> r is EndOfStream && post.data() == pre.data())
    &&& (outcome is Again ==> r == ReadStep::Fail(Errno::EAGAIN) && post.data() == pre.data())
    &&& (outcome is Suspend ==> r is Suspend && post.data() == pre.data())
}

/// Full postcondition of one write step on the pipe itself: free space
/// receives the next bytes of `data` in order; a full buffer distinguishes
/// broken pipe, partial completion, and suspension by reader presence,
/// blocking mode, and prior progress.
pub open spec fn fifo_write_post(
    pre: Fifo,
    post: Fifo,
    data: Seq<u8>,
    written: usize,
    non_blocking: bool,
    r: WriteStep,
) -> bool {
    let avail = RING_BUFFER_SIZE - pre.data().len();
    let remaining = data.len() - written;
    let t = if avail <= remaining {
        avail
    } else {
        remaining
    };
    let outcome = write_outcome(
        avail as nat,
        remaining as nat,
        pre.readers(),
        written as nat,
        non_blocking,
    );
    &&& post.readers() == pre.readers()
    &&& post.writers() == pre.writers()
    &&& post.data() == pre.data() + data.subrange(written as int, written + t)
    &&& (outcome is Complete ==> r == WriteStep::Done(data.len() as usize))
    &&& (outcome is Partial ==> r == WriteStep::Done((written + t) as usize))
    &&& (outcome is Broken ==> r == WriteStep::Fail(Errno::EPIPE))
    &&& (outcome is Suspend ==> r == WriteStep::Suspend((written + t) as usize))
}

impl Fifo {
    /// The bytes currently buffered, oldest first.
    pub closed spec fn data(&self) -> Seq<u8> {
        self.buffer@
    }

    /// How many reader endpoints are open.
    pub closed spec fn readers(&self) -> nat {
        self.reader_count as nat
    }

    /// How many writer endpoints are open.
    pub closed spec fn writers(&self) -> nat {
        self.writer_count as nat
    }

    /// Well-formedness: the underlying ring buffer is well-formed.
    pub closed spec fn wf(&self) -> bool {
        self.buffer.wf()
    }

    /// The buffered data never exceeds the pipe's capacity.
    pub proof fn lemma_data_bounded(&self)
        requires
            self.wf(),
        ensures
            self.data().len() <= RING_BUFFER_SIZE,
    {
        self.buffer.lemma_len_bounded();
    }

    /// How many reader endpoints are open.
    pub fn reader_count(&self) -> (r: usize)
        ensures
            r == self.readers(),
    {
        self.reader_count
    }

    /// How many writer endpoints are open.
    pub fn writer_count(&self) -> (r: usize)
        ensures
            r == self.writers(),
    {
        self.writer_count
    }

    /// A fresh pipe: empty buffer, no endpoints.
    pub fn new() -> (r: Self)
        ensures
            r.wf(),
            r.data() == Seq::<u8>::empty(),
            r.readers() == 0,
            r.writers() == 0,
    {
        Fifo { buffer: PipeRingBuffer::new(), reader_count: 0, writer_count: 0 }
    }

    /// One step of opening the reading end: grants and increments the reader
    /// count when a writer exists, refuses with `ENXIO` non-blocking, and
    /// suspends (for a later retry) otherwise.
    pub fn open_read(&mut self, non_blocking: bool) -> (r: OpenStep)
        requires
            old(self).wf(),
            old(self).readers() < usize::MAX,
        ensures
            final(self).wf(),
            final(self).data() == old(self).data(),
            final(self).writers() == old(self).writers(),
            ({
                let outcome = open_outcome(old(self).writers(), non_blocking);
                &&& (outcome is Grant ==> final(self).readers() == old(self).readers() + 1
                    && r is Opened && r->Opened_0.spec_is_reader()
                    && r->Opened_0.spec_non_blocking() == non_blocking)
                &&& (outcome is Refuse ==> final(self).readers() == old(self).readers()
                    && r == OpenStep::Refused(Errno::ENXIO))
                &&& (outcome is Suspend ==> final(self).readers() == old(self).readers()
                    && r is Suspend)
            }),
    {
        if self.writer_count > 0 {
            self.reader_count = self.reader_count + 1;
            OpenStep::Opened(FifoEndpoint { is_reader: true, non_blocking })
        } else if non_blocking {
            OpenStep::Refused(Errno::ENXIO)
        } else {
            OpenStep::Suspend
        }
    }

    /// One step of opening the writing end, symmetric to [`Fifo::open_read`].
    pub fn open_write(&mut self, non_blocking: bool) -> (r: OpenStep)
        requires
            old(self).wf(),
            old(self).writers() < usize::MAX,
        ensures
            final(self).wf(),
            final(self).data() == old(self).data(),
            final(self).readers() == old(self).readers(),
            ({
                let outcome = open_outcome(old(self).readers(), non_blocking);
                &&& (outcome is Grant ==> final(self).writers() == old(self).writers() + 1
                    && r is Opened && !r->Opened_0.spec_is_reader()
                    && r->Opened_0.spec_non_blocking() == non_blocking)
                &&& (outcome is Refuse ==> final(self).writers() == old(self).writers()
                    && r == OpenStep::Refused(Errno::ENXIO))
                &&& (outcome is Suspend ==> final(self).writers() == old(self).writers()
                    && r is Suspend)
            }),
    {
        if self.reader_count > 0 {
            self.writer_count = self.writer_count + 1;
            OpenStep::Opened(FifoEndpoint { is_reader: false, non_blocking })
        } else if non_blocking {
            OpenStep::Refused(Errno::ENXIO)
        } else {
            OpenStep::Suspend
        }
    }

    /// Closes an endpoint: decrements its direction's count and reports which
    /// wait queue the caller must wake, so that suspended peers re-check peer
    /// presence. The buffered bytes persist.
    pub fn close(&mut self, endpoint: FifoEndpoint) -> (wake: WakeSignal)
        requires
            old(self).wf(),
            endpoint.spec_is_reader() ==> old(self).readers() > 0,
            !endpoint.spec_is_reader() ==> old(self).writers() > 0,
        ensures
            final(self).wf(),
            final(self).data() == old(self).data(),
            endpoint.spec_is_reader() ==> final(self).readers() == old(self).readers() - 1
                && final(self).writers() == old(self).writers(),
            !endpoint.spec_is_reader() ==> final(self).writers() == old(self).writers() - 1
                && final(self).readers() == old(self).readers(),
            wake == close_wake(
                endpoint.spec_is_reader(),
                final(self).readers(),
                final(self).writers(),
            ),
    {
        if endpoint.is_reader {
            self.reader_count = self.reader_count - 1;
            if self.reader_count == 0 {
                WakeSignal::WriteSide
            } else {
                WakeSignal::NoWake
            }
        } else {
            self.writer_count = self.writer_count - 1;
            if self.writer_count == 0 {
                WakeSignal::ReadSide
            } else {
                WakeSignal::NoWake
            }
        }
    }

    /// One read step with the buffer lock held: drains up to `max_len` of
    /// whatever is available (never blocking when any data is present), or
    /// decides between end-of-stream, `EAGAIN`, and suspension on an empty
    /// pipe. See [`fifo_read_post`] for the exact relation.
    pub fn read(&mut self, max_len: usize, non_blocking: bool) -> (r: ReadStep)
        requires
            old(self).wf(),
        ensures
            final(self).wf(),
            fifo_read_post(*old(self), *final(self), max_len, non_blocking, r),
    {
        let available = self.buffer.available_read();
        if available == 0 {
            if self.writer_count == 0 {
                ReadStep::EndOfStream
            } else if non_blocking {
                ReadStep::Fail(Errno::EAGAIN)
            } else {
                ReadStep::Suspend
            }
        } else {
            let n = if available <= max_len {
                available
            } else {
                max_len
            };
            let ghost orig = *self;
            let mut out: Vec<u8> = Vec::new();
            let mut i: usize = 0;
            while i < n
                invariant
                    i <= n,
                    n <= orig.data().len(),
                    orig.wf(),
                    self.wf(),
                    self.reader_count == orig.reader_count,
                    self.writer_count == orig.writer_count,
                    out@ == orig.data().take(i as int),
                    self.data() == orig.data().skip(i as int),
                decreases n - i,
            {
                proof {
                    assert(self.data()[0] == orig.data()[i as int]);
                }
                let b = self.buffer.read_byte();
                out.push(b);
                i = i + 1;
                proof {
                    assert(out@ =~= orig.data().take(i as int));
                    assert(self.data() =~= orig.data().skip(i as int));
                }
            }
            ReadStep::Data(out)
        }
    }

    /// One write step with the buffer lock held: transfers as many of the
    /// remaining bytes as the buffer can take, then decides between
    /// completion, broken pipe, partial completion, and suspension. `written`
    /// is the progress of earlier steps of the same call and is included in
    /// the reported counts. See [`fifo_write_post`] for the exact relation.
    pub fn write(&mut self, data: &Vec<u8>, written: usize, non_blocking: bool) -> (r: WriteStep)
        requires
            old(self).wf(),
            written <= data.len(),
        ensures
            final(self).wf(),
            fifo_write_post(*old(self), *final(self), data@, written, non_blocking, r),
    {
        proof {
            self.lemma_data_bounded();
        }
        let remaining = data.len() - written;
        if remaining == 0 {
            proof {
                assert(self.data() =~= self.data() + data@.subrange(
                    written as int,
                    written as int,
                ));
            }
            return WriteStep::Done(written);
        }
        let available = self.buffer.available_write();
        if available == 0 {
            proof {
                assert(self.data() =~= self.data() + data@.subrange(
                    written as int,
                    written as int,
                ));
            }
            if self.reader_count == 0 {
                if written == 0 {
                    WriteStep::Fail(Errno::EPIPE)
                } else {
                    WriteStep::Done(written)
                }
            } else if non_blocking {
                WriteStep::Done(written)
            } else {
                WriteStep::Suspend(written)
            }
        } else {
            let t = if available <= remaining {
                available
            } else {
                remaining
            };
            let ghost orig = *self;
            let mut i: usize = 0;
            while i < t
                invariant
                    i <= t,
                    written + t <= data.len(),
                    t <= RING_BUFFER_SIZE - orig.data().len(),
                    orig.wf(),
                    self.wf(),
                    self.reader_count == orig.reader_count,
                    self.writer_count == orig.writer_count,
                    self.data() == orig.data() + data@.subrange(written as int, written + i),
                decreases t - i,
            {
                self.buffer.write_byte(data[written + i]);
                i = i + 1;
                proof {
                    assert(self.data() =~= orig.data() + data@.subrange(
                        written as int,
                        written + i,
                    ));
                }
            }
            if written + t == data.len() {
                WriteStep::Done(data.len())
            } else if self.reader_count == 0 || non_blocking {
                WriteStep::Done(written + t)
            } else {
                WriteStep::Suspend(written + t)
            }
        }
    }
}

/// A FIFO node as the filesystem presents it: a pipe plus its inode number.
///
/// Its open variant differs from [`Fifo::open_read`]: a filesystem open
/// records the endpoint's presence at once and only then waits for the peer,
/// so two blocking opens that meet each unblock the other. The wait itself
/// happens outside this crate; `open_fifo` reports whether it is needed.
pub struct FifoNode {
    ino: u64,
    fifo: Fifo,
}

impl FifoNode {
    /// The pipe this node owns.
    pub closed spec fn spec_fifo(&self) -> Fifo {
        self.fifo
    }

    /// The node's inode number.
    pub closed spec fn spec_ino(&self) -> u64 {
        self.ino
    }

    /// Well-formedness of the owned pipe.
    pub open spec fn wf(&self) -> bool {
        self.spec_fifo().wf()
    }

    /// A fresh FIFO node with the given inode number.
    pub fn new(ino: u64) -> (r: Self)
        ensures
            r.wf(),
            r.spec_ino() == ino,
            r.spec_fifo().data() == Seq::<u8>::empty(),
            r.spec_fifo().readers() == 0,
            r.spec_fifo().writers() == 0,
    {
        FifoNode { ino, fifo: Fifo::new() }
    }

    /// Exclusive access to the owned pipe, as the surrounding layer takes it
    /// for an endpoint operation.
    pub fn fifo_mut(&mut self) -> (r: &mut Fifo)
        ensures
            *r == old(self).spec_fifo(),
            final(self).spec_fifo() == *final(r),
            final(self).spec_ino() == old(self).spec_ino(),
    {
        &mut self.fifo
    }

    /// The node's inode number.
    pub fn ino(&self) -> (r: u64)
        ensures
            r == self.spec_ino(),
    {
        self.ino
    }

    /// Whether any reader endpoint is currently open.
    pub fn fifo_has_readers(&self) -> (r: bool)
        ensures
            r == (self.spec_fifo().readers() > 0),
    {
        self.fifo.reader_count > 0
    }

    /// Opens the node in the requested directions: each direction's count is
    /// incremented at once. A blocking open must then wait until the opposite
    /// side is present; the result says whether such a wait is still needed
    /// (re-check with [`FifoNode::fifo_has_readers`] and the peer's opens
    /// after each wake).
    pub fn open_fifo(&mut self, read: bool, write: bool, non_blocking: bool) -> (wait: bool)
        requires
            old(self).wf(),
            read ==> old(self).spec_fifo().readers() < usize::MAX,
            write ==> old(self).spec_fifo().writers() < usize::MAX,
        ensures
            final(self).wf(),
            final(self).spec_ino() == old(self).spec_ino(),
            final(self).spec_fifo().data() == old(self).spec_fifo().data(),
            final(self).spec_fifo().readers() == old(self).spec_fifo().readers() + (if read {
                1int
            } else {
                0int
            }),
            final(self).spec_fifo().writers() == old(self).spec_fifo().writers() + (if write {
                1int
            } else {
                0int
            }),
            wait == (!non_blocking && ((read && final(self).spec_fifo().writers() == 0) || (write
                && final(self).spec_fifo().readers() == 0))),
    {
        if read {
            self.fifo.reader_count = self.fifo.reader_count + 1;
        }
        if write {
            self.fifo.writer_count = self.fifo.writer_count + 1;
        }
        !non_blocking && ((read && self.fifo.writer_count == 0) || (write
            && self.fifo.reader_count == 0))
    }

    /// Releases previously opened directions: each direction's count is
    /// decremented. The result says which wait queues must be woken so that
    /// blocked peers re-evaluate peer presence: `.0` the read-side queue
    /// (the last writer left), `.1` the write-side queue (the last reader
    /// left).
    pub fn release_fifo(&mut self, read: bool, write: bool) -> (wake: (bool, bool))
        requires
            old(self).wf(),
            read ==> old(self).spec_fifo().readers() > 0,
            write ==> old(self).spec_fifo().writers() > 0,
        ensures
            final(self).wf(),
            final(self).spec_ino() == old(self).spec_ino(),
            final(self).spec_fifo().data() == old(self).spec_fifo().data(),
            final(self).spec_fifo().readers() == old(self).spec_fifo().readers() - (if read {
                1int
            } else {
                0int
            }),
            final(self).spec_fifo().writers() == old(self).spec_fifo().writers() - (if write {
                1int
            } else {
                0int
            }),
            wake.0 == (write && final(self).spec_fifo().writers() == 0),
            wake.1 == (read && final(self).spec_fifo().readers() == 0),
    {
        if read {
            self.fifo.reader_count = self.fifo.reader_count - 1;
        }
        if write {
            self.fifo.writer_count = self.fifo.writer_count - 1;
        }
        (write && self.fifo.writer_count == 0, read && self.fifo.reader_count == 0)
    }

    /// One blocking read step at the node level (the byte stream has no
    /// offsets; the position argument is accepted and ignored).
    pub fn read_at(&mut self, _offset: u64, max_len: usize) -> (r: ReadStep)
        requires
            old(self).wf(),
        ensures
            final(self).wf(),
            final(self).spec_ino() == old(self).spec_ino(),
            fifo_read_post(old(self).spec_fifo(), final(self).spec_fifo(), max_len, false, r),
    {
        self.fifo.read(max_len, false)
    }

    /// One blocking write step at the node level (the position argument is
    /// accepted and ignored).
    pub fn write_at(&mut self, _offset: u64, data: &Vec<u8>, written: usize) -> (r: WriteStep)
        requires
            old(self).wf(),
            written <= data.len(),
        ensures
            final(self).wf(),
            final(self).spec_ino() == old(self).spec_ino(),
            fifo_write_post(
                old(self).spec_fifo(),
                final(self).spec_fifo(),
                data@,
                written,
                false,
                r,
            ),
    {
        self.fifo.write(data, written, false)
    }
}

/// Law: a non-blocking read never suspends; on an empty pipe it yields
/// `EAGAIN` exactly when a writer is present and end-of-stream exactly when
/// none remains.
pub proof fn lemma_nonblocking_read(data_len: nat, writers: nat)
    ensures
        read_outcome(data_len, writers, true) != ReadOutcome::Suspend,
        read_outcome(0, writers, true) == (if writers > 0 {
            ReadOutcome::Again
        } else {
            ReadOutcome::Eof
        }),
{
}

/// Law: a non-blocking write never suspends; on a full buffer it completes
/// early with the prior progress (possibly zero bytes) while a reader
/// remains, and reports a broken pipe exactly when no reader remains and
/// nothing was transferred yet.
pub proof fn lemma_nonblocking_write(avail: nat, remaining: nat, readers: nat, written: nat)
    requires
        remaining > 0,
    ensures
        write_outcome(avail, remaining, readers, written, true) != WriteOutcome::Suspend,
        readers > 0 ==> write_outcome(0, remaining, readers, written, true)
            == WriteOutcome::Partial,
        readers == 0 && written == 0 ==> write_outcome(0, remaining, readers, written, true)
            == WriteOutcome::Broken,
        readers == 0 && written > 0 ==> write_outcome(0, remaining, readers, written, true)
            == WriteOutcome::Partial,
{
}

/// Law: a non-blocking open never suspends, and refuses with `ENXIO` exactly
/// when no opposite-direction endpoint is present.
pub proof fn lemma_nonblocking_open(peers: nat)
    ensures
        open_outcome(peers, true) != OpenOutcome::Suspend,
        open_outcome(peers, true) == (if peers == 0 {
            OpenOutcome::Refuse
        } else {
            OpenOutcome::Grant
        }),
{
}

/// Law: round trip. Writing `w` into an empty pipe leaves exactly `w`
/// buffered (the write step appends to the view, and `w` fits), and a read
/// step that asks for at least `w.len()` bytes returns exactly `w` in the
/// written order and empties the pipe.
pub proof fn lemma_round_trip(w: Seq<u8>)
    requires
        w.len() <= RING_BUFFER_SIZE,
    ensures
        Seq::<u8>::empty() + w.subrange(0, w.len() as int) == w,
        (Seq::<u8>::empty() + w).take(w.len() as int) == w,
        (Seq::<u8>::empty() + w).skip(w.len() as int) == Seq::<u8>::empty(),
{
    assert(Seq::<u8>::empty() + w.subrange(0, w.len() as int) =~= w);
    assert((Seq::<u8>::empty() + w).take(w.len() as int) =~= w);
    assert((Seq::<u8>::empty() + w).skip(w.len() as int) =~= Seq::<u8>::empty());
}

/// Law: peer departure. Closing the last writer signals the read-side queue,
/// and a woken reader that still finds the pipe empty observes end-of-stream
/// rather than suspending again; closing the last reader signals the
/// write-side queue, and a woken writer with no partial progress observes
/// `EPIPE`. (A woken writer that had already transferred bytes completes
/// with that partial count instead — see [`write_outcome`].)
pub proof fn lemma_peer_departure(
    readers: nat,
    writers: nat,
    non_blocking: bool,
    remaining: nat,
)
    requires
        readers >= 1,
        writers >= 1,
        remaining > 0,
    ensures
        close_wake(false, readers, (writers - 1) as nat) == (if writers == 1 {
            WakeSignal::ReadSide
        } else {
            WakeSignal::NoWake
        }),
        writers == 1 ==> read_outcome(0, (writers - 1) as nat, non_blocking) == ReadOutcome::Eof,
        close_wake(true, (readers - 1) as nat, writers) == (if readers == 1 {
            WakeSignal::WriteSide
        } else {
            WakeSignal::NoWake
        }),
        readers == 1 ==> write_outcome(0, remaining, (readers - 1) as nat, 0, non_blocking)
            == WriteOutcome::Broken,
{
}

} // verus!
