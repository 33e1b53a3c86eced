//! Readiness multiplexer: an interest set mapping watched-resource
//! identifiers to requested event masks and opaque tokens, with control
//! operations, one level-triggered poll pass, and the decision step of the
//! wait loop.
//!
//! Resolving an identifier to a live resource and querying a resource's
//! readiness belong to the surrounding descriptor table and are performed
//! outside this crate: the caller resolves liveness before a control call and
//! hands one poll answer per watched entry to a poll pass. The wait loop
//! itself (deadline arithmetic and the cooperative yield between passes) runs
//! outside too and consults [`wait_step`] after every pass.

use vstd::prelude::*;

use crate::errno::Errno;

verus! {

/// Control operation: register a new interest.
pub const EPOLL_CTL_ADD: u32 = 1;

/// Control operation: remove an interest.
pub const EPOLL_CTL_DEL: u32 = 2;

/// Control operation: replace the event mask and token of an interest.
pub const EPOLL_CTL_MOD: u32 = 3;

/// Event bit: the resource is readable.
pub const EPOLLIN: u32 = 0x001;

/// Event bit: the resource is writable.
pub const EPOLLOUT: u32 = 0x004;

/// Event bit: the resource reported a query failure.
pub const EPOLLERR: u32 = 0x008;

/// Event bit: the resource hung up.
pub const EPOLLHUP: u32 = 0x010;

/// A requested or reported event: a condition mask and the caller's opaque
/// token, handed back verbatim with every report.
#[derive(Clone, Copy, PartialEq, Eq, Structural, Debug)]
pub struct EpollEvent {
    /// Condition bits (`EPOLLIN`, `EPOLLOUT`, `EPOLLERR`, `EPOLLHUP`).
    pub events: u32,
    /// Opaque user token.
    pub data: u64,
}

/// A resource's current readiness, as answered by its `poll` capability.
#[derive(Clone, Copy, PartialEq, Eq, Structural, Debug)]
pub struct PollState {
    /// Data can be read without blocking.
    pub readable: bool,
    /// Data can be written without blocking.
    pub writable: bool,
    /// The peer side hung up.
    pub pollhup: bool,
}

/// The interest set of one multiplexer. Its view is the sequence of
/// `(identifier, interest)` entries in insertion order; each identifier
/// appears at most once.
pub struct EpollInstance {
    entries: Vec<(u64, EpollEvent)>,
}

/// Whether some entry of `s` watches `id`.
pub open spec fn has_id(s: Seq<(u64, EpollEvent)>, id: u64) -> bool {
    exists|i: int| 0 <= i < s.len() && s[i].0 == id
}

/// The index of the entry watching `id` (unique when ids are distinct).
pub open spec fn index_of_id(s: Seq<(u64, EpollEvent)>, id: u64) -> int {
    choose|i: int| 0 <= i < s.len() && s[i].0 == id
}

/// Each identifier appears at most once.
pub open spec fn distinct_ids(s: Seq<(u64, EpollEvent)>) -> bool {
    forall|i: int, j: int| 0 <= i < j < s.len() ==> s[i].0 != s[j].0
}

/// Result of a control call on an interest set `s`: `EBADF` when the
/// identifier names no live resource, `EEXIST`/`ENOENT` on duplicate or
/// missing entries, `EINVAL` on an unknown operation, `Ok(0)` otherwise.
pub open spec fn control_outcome(
    s: Seq<(u64, EpollEvent)>,
    op: u32,
    id: u64,
    id_live: bool,
) -> Result<usize, Errno> {
    if !id_live {
        Err(Errno::EBADF)
    } else if op == EPOLL_CTL_ADD {
        if has_id(s, id) {
            Err(Errno::EEXIST)
        } else {
            Ok(0)
        }
    } else if op == EPOLL_CTL_MOD {
        if has_id(s, id) {
            Ok(0)
        } else {
            Err(Errno::ENOENT)
        }
    } else if op == EPOLL_CTL_DEL {
        if has_id(s, id) {
            Ok(0)
        } else {
            Err(Errno::ENOENT)
        }
    } else {
        Err(Errno::EINVAL)
    }
}

/// The interest set after a control call: unchanged on failure; insertion,
/// replacement, or removal of the entry for `id` on success.
pub open spec fn control_next(
    s: Seq<(u64, EpollEvent)>,
    op: u32,
    id: u64,
    ev: EpollEvent,
    id_live: bool,
) -> Seq<(u64, EpollEvent)> {
    if control_outcome(s, op, id, id_live) is Err {
        s
    } else if op == EPOLL_CTL_ADD {
        s.push((id, ev))
    } else if op == EPOLL_CTL_MOD {
        s.update(index_of_id(s, id), (id, ev))
    } else {
        s.remove(index_of_id(s, id))
    }
}

/// The records one entry contributes to a poll pass. A failed query (`None`)
/// contributes an `EPOLLERR` record if the entry asked for error
/// notification; a successful query contributes one record per condition
/// present in both the interest mask and the resource's state.
pub open spec fn records_of(entry: (u64, EpollEvent), poll: Option<PollState>) -> Seq<EpollEvent> {
    match poll {
        Option::None => {
            if entry.1.events & EPOLLERR != 0 {
                seq![EpollEvent { events: EPOLLERR, data: entry.1.data }]
            } else {
                Seq::empty()
            }
        },
        Option::Some(st) => {
            (if st.readable && entry.1.events & EPOLLIN != 0 {
                seq![EpollEvent { events: EPOLLIN, data: entry.1.data }]
            } else {
                Seq::empty()
            }) + (if st.writable && entry.1.events & EPOLLOUT != 0 {
                seq![EpollEvent { events: EPOLLOUT, data: entry.1.data }]
            } else {
                Seq::empty()
            }) + (if st.pollhup && entry.1.events & EPOLLHUP != 0 {
                seq![EpollEvent { events: EPOLLHUP, data: entry.1.data }]
            } else {
                Seq::empty()
            })
        },
    }
}

/// All records of a poll pass over the interest set, in set order.
pub open spec fn ready_records(
    s: Seq<(u64, EpollEvent)>,
    polls: Seq<Option<PollState>>,
) -> Seq<EpollEvent>
    decreases s.len(),
{
    if s.len() == 0 {
        Seq::empty()
    } else {
        ready_records(s.drop_last(), polls.drop_last()) + records_of(
            s.last(),
            polls.last(),
        )
    }
}

/// Entry `i` reported a query failure the caller did not ask to be notified
/// of: the resource is gone and the wait loop must prune.
pub open spec fn stale_at(
    s: Seq<(u64, EpollEvent)>,
    polls: Seq<Option<PollState>>,
    i: int,
) -> bool {
    polls[i] is None && s[i].1.events & EPOLLERR == 0
}

/// Some watched resource is gone without error notification requested.
pub open spec fn any_stale(s: Seq<(u64, EpollEvent)>, polls: Seq<Option<PollState>>) -> bool {
    exists|i: int| 0 <= i < s.len() && stale_at(s, polls, i)
}

/// `s` truncated to at most `max` elements.
pub open spec fn capped<A>(s: Seq<A>, max: int) -> Seq<A> {
    if s.len() <= max {
        s
    } else {
        s.take(max)
    }
}

/// The entries that survive pruning: those whose resource is still live.
pub open spec fn kept_live(
    s: Seq<(u64, EpollEvent)>,
    live: Seq<bool>,
) -> Seq<(u64, EpollEvent)>
    decreases s.len(),
{
    if s.len() == 0 {
        Seq::empty()
    } else {
        kept_live(s.drop_last(), live.drop_last()) + (if live.last() {
            seq![s.last()]
        } else {
            Seq::empty()
        })
    }
}

impl View for EpollInstance {
    type V = Seq<(u64, EpollEvent)>;

    /// The interest set as `(identifier, interest)` pairs in insertion order.
    closed spec fn view(&self) -> Seq<(u64, EpollEvent)> {
        self.entries@
    }
}

impl EpollInstance {
    /// Each watched identifier appears at most once.
    pub open spec fn wf(&self) -> bool {
        distinct_ids(self@)
    }

    /// An empty interest set. The flags argument is accepted for the creation
    /// request's sake; no flag is currently interpreted.
    pub fn new(_flags: usize) -> (r: Self)
        ensures
            r.wf(),
            r@ == Seq::<(u64, EpollEvent)>::empty(),
    {
        EpollInstance { entries: Vec::new() }
    }

    /// How many resources are watched.
    pub fn len(&self) -> (r: usize)
        ensures
            r == self@.len(),
    {
        self.entries.len()
    }

    /// The index of the entry watching `id`, if any.
    fn find(&self, id: u64) -> (r: Option<usize>)
        requires
            self.wf(),
        ensures
            r matches Some(i) ==> 0 <= i < self@.len() && self@[i as int].0 == id && i
                == index_of_id(self@, id),
            r is None ==> !has_id(self@, id),
    {
        let n = self.entries.len();
        let mut i: usize = 0;
        while i < n
            invariant
                self.wf(),
                n == self@.len(),
                i <= n,
                forall|j: int| 0 <= j < i ==> self@[j].0 != id,
            decreases n - i,
        {
            if self.entries[i].0 == id {
                proof {
                    let k = index_of_id(self@, id);
                    assert(0 <= k < self@.len() && self@[k].0 == id);
                    assert(k == i);
                }
                return Some(i);
            }
            i = i + 1;
        }
        None
    }

    /// One control call. The caller resolves `id` against the descriptor
    /// table first and passes the answer as `id_live`; everything else is
    /// decided here, exactly as [`control_outcome`] and [`control_next`]
    /// state.
    pub fn control(&mut self, op: u32, id: u64, event: &EpollEvent, id_live: bool) -> (r: Result<
        usize,
        Errno,
    >)
        requires
            old(self).wf(),
        ensures
            final(self).wf(),
            r == control_outcome(old(self)@, op, id, id_live),
            final(self)@ == control_next(old(self)@, op, id, *event, id_live),
    {
        if !id_live {
            return Err(Errno::EBADF);
        }
        if op == EPOLL_CTL_ADD {
            match self.find(id) {
                Some(_) => Err(Errno::EEXIST),
                None => {
                    self.entries.push((id, *event));
                    proof {
                        assert forall|i: int, j: int| 0 <= i < j < self@.len() implies self@[i].0
                            != self@[j].0 by {
                            if j == self@.len() - 1 {
                                assert(!has_id(old(self)@, id));
                                assert(old(self)@[i].0 != id);
                            }
                        }
                    }
                    Ok(0)
                },
            }
        } else if op == EPOLL_CTL_MOD {
            match self.find(id) {
                Some(i) => {
                    self.entries[i] = (id, *event);
                    proof {
                        assert forall|a: int, b: int| 0 <= a < b < self@.len() implies self@[a].0
                            != self@[b].0 by {
                            assert(old(self)@[a].0 != old(self)@[b].0);
                        }
                    }
                    Ok(0)
                },
                None => Err(Errno::ENOENT),
            }
        } else if op == EPOLL_CTL_DEL {
            match self.find(id) {
                Some(i) => {
                    self.entries.remove(i);
                    proof {
                        let s = old(self)@.remove(i as int);
                        assert forall|a: int, b: int| 0 <= a < b < s.len() implies s[a].0
                            != s[b].0 by {
                            let a0 = if a < i { a } else { a + 1 };
                            let b0 = if b < i { b } else { b + 1 };
                            assert(s[a] == old(self)@[a0]);
                            assert(s[b] == old(self)@[b0]);
                        }
                    }
                    Ok(0)
                },
                None => Err(Errno::ENOENT),
            }
        } else {
            Err(Errno::EINVAL)
        }
    }

    /// The watched identifiers in set order. The wait loop queries each
    /// resource's readiness (or liveness) outside this crate and hands the
    /// answers, in the same order, to [`EpollInstance::poll_all`] or
    /// [`EpollInstance::prune_stale`].
    pub fn watched_ids(&self) -> (r: Vec<u64>)
        ensures
            r@.len() == self@.len(),
            forall|i: int| 0 <= i < r@.len() ==> r@[i] == self@[i].0,
    {
        let n = self.entries.len();
        let mut out: Vec<u64> = Vec::new();
        let mut i: usize = 0;
        while i < n
            invariant
                n == self@.len(),
                i <= n,
                out@.len() == i,
                forall|j: int| 0 <= j < i ==> out@[j] == self@[j].0,
            decreases n - i,
        {
            out.push(self.entries[i].0);
            i = i + 1;
        }
        out
    }

    /// One poll pass: `polls` holds one readiness answer per watched entry
    /// (`None` for a resource whose query failed). Emits the records of
    /// [`ready_records`] in order, bounded by `max_events`; reports `EBADF`
    /// when any resource is gone without error notification requested, so
    /// that the wait loop can prune.
    pub fn poll_all(&self, polls: &Vec<Option<PollState>>, max_events: usize) -> (r: Result<
        Vec<EpollEvent>,
        Errno,
    >)
        requires
            polls@.len() == self@.len(),
        ensures
            any_stale(self@, polls@) ==> r == Err::<Vec<EpollEvent>, Errno>(Errno::EBADF),
            !any_stale(self@, polls@) ==> r is Ok && r->Ok_0@ == capped(
                ready_records(self@, polls@),
                max_events as int,
            ),
    {
        let n = self.entries.len();
        let mut out: Vec<EpollEvent> = Vec::new();
        let mut i: usize = 0;
        while i < n
            invariant
                n == self@.len(),
                polls@.len() == self@.len(),
                i <= n,
                forall|j: int| 0 <= j < i ==> !stale_at(self@, polls@, j),
                out@ == capped(
                    ready_records(self@.take(i as int), polls@.take(i as int)),
                    max_events as int,
                ),
            decreases n - i,
        {
            let entry = self.entries[i];
            let mut recs: Vec<EpollEvent> = Vec::new();
            match polls[i] {
                Option::None => {
                    if entry.1.events & EPOLLERR != 0 {
                        recs.push(EpollEvent { events: EPOLLERR, data: entry.1.data });
                    } else {
                        proof {
                            assert(stale_at(self@, polls@, i as int));
                        }
                        return Err(Errno::EBADF);
                    }
                },
                Option::Some(st) => {
                    if st.readable && entry.1.events & EPOLLIN != 0 {
                        recs.push(EpollEvent { events: EPOLLIN, data: entry.1.data });
                    }
                    if st.writable && entry.1.events & EPOLLOUT != 0 {
                        recs.push(EpollEvent { events: EPOLLOUT, data: entry.1.data });
                    }
                    if st.pollhup && entry.1.events & EPOLLHUP != 0 {
                        recs.push(EpollEvent { events: EPOLLHUP, data: entry.1.data });
                    }
                },
            }
            proof {
                assert(recs@ =~= records_of(self@[i as int], polls@[i as int]));
            }
            let m = recs.len();
            let ghost before = out@;
            let ghost prefix = ready_records(self@.take(i as int), polls@.take(i as int));
            let mut k: usize = 0;
            while k < m
                invariant
                    k <= m,
                    m == recs@.len(),
                    out@ == capped(prefix + recs@.take(k as int), max_events as int),
                decreases m - k,
            {
                proof {
                    assert(prefix + recs@.take(k as int + 1) =~= (prefix + recs@.take(
                        k as int,
                    )).push(recs@[k as int]));
                    lemma_capped_push(prefix + recs@.take(k as int), recs@[k as int], max_events as int);
                }
                if out.len() < max_events {
                    out.push(recs[k]);
                }
                k = k + 1;
            }
            proof {
                assert(recs@.take(m as int) =~= recs@);
                assert(self@.take(i as int + 1).drop_last() =~= self@.take(i as int));
                assert(polls@.take(i as int + 1).drop_last() =~= polls@.take(i as int));
                assert(self@.take(i as int + 1).last() == self@[i as int]);
                assert(ready_records(self@.take(i as int + 1), polls@.take(i as int + 1))
                    == prefix + recs@);
            }
            i = i + 1;
        }
        proof {
            assert(self@.take(n as int) =~= self@);
            assert(polls@.take(n as int) =~= polls@);
        }
        Ok(out)
    }

    /// Removes every entry whose resource no longer exists: `live` holds one
    /// liveness answer per watched entry, in set order. Called by the wait
    /// loop after a poll pass reported a gone resource.
    pub fn prune_stale(&mut self, live: &Vec<bool>)
        requires
            old(self).wf(),
            live@.len() == old(self)@.len(),
        ensures
            final(self).wf(),
            final(self)@ == kept_live(old(self)@, live@),
    {
        let n = self.entries.len();
        let mut out: Vec<(u64, EpollEvent)> = Vec::new();
        let mut i: usize = 0;
        while i < n
            invariant
                old(self).wf(),
                self == old(self),
                n == self@.len(),
                live@.len() == self@.len(),
                i <= n,
                out@ == kept_live(self@.take(i as int), live@.take(i as int)),
                forall|j: int, k: int| 0 <= j < k < out@.len() ==> out@[j].0 != out@[k].0,
                forall|j: int| 0 <= j < out@.len() ==> has_id(self@.take(i as int), out@[j].0),
            decreases n - i,
        {
            proof {
                assert(self@.take(i as int + 1).drop_last() =~= self@.take(i as int));
                assert(live@.take(i as int + 1).drop_last() =~= live@.take(i as int));
            }
            if live[i] {
                let entry = self.entries[i];
                proof {
                    assert forall|j: int| 0 <= j < out@.len() implies out@[j].0 != entry.0 by {
                        let w = choose|w: int| 0 <= w < self@.take(i as int).len() && self@.take(
                            i as int,
                        )[w].0 == out@[j].0;
                        assert(self@[w].0 == out@[j].0);
                        assert(self@[w].0 != self@[i as int].0);
                    }
                    assert forall|j: int| 0 <= j < out@.len() + 1 implies has_id(
                        self@.take(i as int + 1),
                        out@.push(entry)[j].0,
                    ) by {
                        if j < out@.len() {
                            let w = choose|w: int| 0 <= w < self@.take(i as int).len()
                                && self@.take(i as int)[w].0 == out@[j].0;
                            assert(self@.take(i as int + 1)[w].0 == out@[j].0);
                        } else {
                            assert(self@.take(i as int + 1)[i as int].0 == entry.0);
                        }
                    }
                }
                out.push(entry);
            } else {
                proof {
                    assert forall|j: int| 0 <= j < out@.len() implies has_id(
                        self@.take(i as int + 1),
                        out@[j].0,
                    ) by {
                        let w = choose|w: int| 0 <= w < self@.take(i as int).len() && self@.take(
                            i as int,
                        )[w].0 == out@[j].0;
                        assert(self@.take(i as int + 1)[w].0 == out@[j].0);
                    }
                }
            }
            i = i + 1;
        }
        proof {
            assert(self@.take(n as int) =~= self@);
            assert(live@.take(n as int) =~= live@);
        }
        self.entries = out;
    }
}

/// Appending one element to a sequence capped at `max` either appends it (if
/// there was room) or leaves the capped sequence unchanged.
proof fn lemma_capped_push<A>(s: Seq<A>, a: A, max: int)
    requires
        max >= 0,
    ensures
        capped(s, max).len() < max ==> capped(s.push(a), max) == capped(s, max).push(a),
        capped(s, max).len() >= max ==> capped(s.push(a), max) == capped(s, max),
{
    if s.len() < max {
        assert(capped(s.push(a), max) =~= capped(s, max).push(a));
    } else {
        assert(capped(s.push(a), max) =~= capped(s, max));
    }
}

/// Outcome of one pass of the readiness wait loop.
#[derive(Debug, PartialEq, Eq)]
pub enum WaitStep {
    /// Ready events were found: return them to the caller at once.
    Deliver(Vec<EpollEvent>),
    /// A watched resource is gone: prune every dead entry and return zero
    /// events, never a hard error for one bad descriptor among many.
    CleanupStale,
    /// Nothing ready and the deadline has passed: return zero events.
    TimedOut,
    /// Nothing ready and time remains: yield the processor and poll again.
    Retry,
}

/// The decision taken after one poll pass of the wait loop, from the pass's
/// result and whether the absolute deadline (none when waiting indefinitely)
/// has passed. A pass that found events delivers them unchanged; a pass that
/// reported a gone resource cleans up; otherwise the loop times out or
/// retries. When the deadline has passed the caller is never told to retry,
/// so a zero timeout performs exactly one immediate poll and returns either
/// nothing or currently-ready events.
pub fn wait_step(poll: Result<Vec<EpollEvent>, Errno>, deadline_passed: bool) -> (r: WaitStep)
    ensures
        poll is Err ==> r is CleanupStale,
        (poll matches Ok(v) && v@.len() > 0) ==> (r is Deliver && r->Deliver_0@
            == poll->Ok_0@),
        (poll matches Ok(v) && v@.len() == 0 && deadline_passed) ==> r is TimedOut,
        (poll matches Ok(v) && v@.len() == 0 && !deadline_passed) ==> r is Retry,
        deadline_passed ==> !(r is Retry),
{
    match poll {
        Result::Err(_) => WaitStep::CleanupStale,
        Result::Ok(v) => {
            if v.len() > 0 {
                WaitStep::Deliver(v)
            } else if deadline_passed {
                WaitStep::TimedOut
            } else {
                WaitStep::Retry
            }
        },
    }
}

/// Law: interest-set misuse. Adding an identifier twice fails with `EEXIST`
/// on the second call (the first call succeeds and makes the identifier
/// present), and deleting an identifier that was never added fails with
/// `ENOENT`.
pub proof fn lemma_control_misuse(s: Seq<(u64, EpollEvent)>, id: u64, ev: EpollEvent)
    requires
        !has_id(s, id),
    ensures
        control_outcome(s, EPOLL_CTL_ADD, id, true) == Ok::<usize, Errno>(0),
        control_outcome(
            control_next(s, EPOLL_CTL_ADD, id, ev, true),
            EPOLL_CTL_ADD,
            id,
            true,
        ) == Err::<usize, Errno>(Errno::EEXIST),
        control_outcome(s, EPOLL_CTL_DEL, id, true) == Err::<usize, Errno>(Errno::ENOENT),
{
    let s2 = s.push((id, ev));
    assert(s2[s.len() as int].0 == id);
    assert(has_id(s2, id));
}

} // verus!
