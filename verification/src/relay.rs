//! The relay state machine of one direction.
//!
//! Each direction (device to channel, channel to device) runs the same loop:
//! read a chunk from the source, then keep writing it to the destination,
//! advancing by however many bytes each write actually moved, until the chunk
//! is drained; only then read again. Timeouts and hard errors are reported
//! and retried, never allowed to drop bytes that were read but not yet
//! written.
//!
//! The machine is a pure function from state and event to next state. The
//! driving loop issues the operation that the state calls for (read while
//! `Reading`, write of the pending bytes while `Draining`), classifies the
//! OS report as a [`RelayEvent`], and steps the machine. The conservation
//! lemmas below state that across any such run, the bytes confirmed written
//! are exactly the bytes read, in order, with the still-pending remainder
//! accounting for the difference.

use vstd::prelude::*;

verus! {

/// The state of one relay direction.
#[derive(Debug)]
pub enum RelayState {
    /// Nothing is pending; the next operation is a read from the source.
    Reading,
    /// A chunk was read and `written` of its bytes are confirmed written;
    /// the next operation is a write of the rest to the destination.
    Draining { data: Vec<u8>, written: usize },
}

/// One classified report from the OS about the operation the state called
/// for. Byte counts are as the completion-wait classification produced them:
/// a successful read of a non-empty buffer moves at least one byte, and a
/// successful write moves between one byte and the number requested.
#[derive(Debug)]
pub enum RelayEvent {
    /// A read completed with these bytes (at least one).
    ReadDone(Vec<u8>),
    /// The read wait elapsed with no data: nothing to forward this cycle.
    ReadTimedOut,
    /// The read failed hard with this OS code; reported, then read again.
    ReadFailed(u32),
    /// A write completed, confirming this many bytes (at least one, at most
    /// the number pending).
    WroteSome(usize),
    /// The write wait elapsed with no data moved; the same bytes stay
    /// pending and are written again.
    WriteTimedOut,
    /// The write failed hard with this OS code; the same bytes stay pending
    /// and are written again.
    WriteFailed(u32),
}

impl RelayState {
    /// A `Draining` state always has at least one byte left to write; a
    /// fully drained chunk returns the machine to `Reading`.
    pub open spec fn wf(self) -> bool {
        match self {
            RelayState::Reading => true,
            RelayState::Draining { data, written } => written < data.len(),
        }
    }

    /// The bytes read from the source but not yet confirmed written.
    pub open spec fn pending(self) -> Seq<u8> {
        match self {
            RelayState::Reading => Seq::empty(),
            RelayState::Draining { data, written } => data@.subrange(
                written as int,
                data@.len() as int,
            ),
        }
    }

    /// True while bytes are pending, so the next operation must be a write,
    /// never a read that could interleave fresh bytes ahead of them.
    pub fn is_draining(&self) -> (b: bool)
        ensures
            b == (self is Draining),
    {
        match self {
            RelayState::Reading => false,
            RelayState::Draining { .. } => true,
        }
    }

    /// A copy of the pending bytes, in order: the exact slice the driving
    /// loop must pass to the next write while draining.
    pub fn pending_bytes(&self) -> (v: Vec<u8>)
        requires
            self.wf(),
        ensures
            v@ == self.pending(),
    {
        match self {
            RelayState::Reading => {
                let v: Vec<u8> = Vec::new();
                proof {
                    assert(v@ =~= self.pending());
                }
                v
            },
            RelayState::Draining { data, written } => {
                let mut v: Vec<u8> = Vec::new();
                let mut i: usize = *written;
                while i < data.len()
                    invariant
                        *written <= i <= data.len(),
                        v@ == data@.subrange(*written as int, i as int),
                    decreases data.len() - i,
                {
                    let b: u8 = data[i];
                    v.push(b);
                    i = i + 1;
                    proof {
                        assert(v@ =~= data@.subrange(*written as int, i as int));
                    }
                }
                proof {
                    assert(v@ =~= self.pending());
                }
                v
            },
        }
    }
}

/// Whether an event is one the OS can report in a state with these pending
/// bytes: reads happen only with nothing pending, writes only with something
/// pending, and counts stay within what was read or what remains.
pub open spec fn step_fits(p: Seq<u8>, ev: RelayEvent) -> bool {
    match ev {
        RelayEvent::ReadDone(b) => p.len() == 0 && b@.len() > 0,
        RelayEvent::ReadTimedOut => p.len() == 0,
        RelayEvent::ReadFailed(_) => p.len() == 0,
        RelayEvent::WroteSome(k) => 1 <= k <= p.len(),
        RelayEvent::WriteTimedOut => p.len() > 0,
        RelayEvent::WriteFailed(_) => p.len() > 0,
    }
}

/// The pending bytes after the event: a read replaces the (empty) pending
/// chunk, a confirmed write consumes a prefix, everything else changes
/// nothing.
pub open spec fn pending_after(p: Seq<u8>, ev: RelayEvent) -> Seq<u8> {
    match ev {
        RelayEvent::ReadDone(b) => b@,
        RelayEvent::ReadTimedOut => p,
        RelayEvent::ReadFailed(_) => p,
        RelayEvent::WroteSome(k) => p.skip(k as int),
        RelayEvent::WriteTimedOut => p,
        RelayEvent::WriteFailed(_) => p,
    }
}

/// The bytes this event confirms as written to the destination: the first
/// `k` pending bytes on a confirmed write, nothing otherwise.
pub open spec fn delivered_at(p: Seq<u8>, ev: RelayEvent) -> Seq<u8> {
    match ev {
        RelayEvent::WroteSome(k) => p.take(k as int),
        _ => Seq::empty(),
    }
}

/// The bytes this event reports as read from the source.
pub open spec fn arrived_at(ev: RelayEvent) -> Seq<u8> {
    match ev {
        RelayEvent::ReadDone(b) => b@,
        _ => Seq::empty(),
    }
}

/// Advances one relay direction by one classified OS report.
///
/// Bytes are never dropped or reordered: a confirmed write consumes exactly
/// its count from the front of the pending chunk, a write timeout or failure
/// leaves the whole chunk pending for retry, and the machine returns to
/// `Reading` only once the chunk is fully drained.
pub fn relay_step(s: RelayState, ev: RelayEvent) -> (t: RelayState)
    requires
        s.wf(),
        step_fits(s.pending(), ev),
    ensures
        t.wf(),
        t.pending() == pending_after(s.pending(), ev),
        ev matches RelayEvent::ReadDone(b) ==> t.pending() == b@,
        ev is WriteTimedOut || ev is WriteFailed || ev is ReadTimedOut || ev is ReadFailed
            ==> t.pending() == s.pending(),
        ev matches RelayEvent::WroteSome(k) ==> (k == s.pending().len() ==> t is Reading),
        ev matches RelayEvent::WroteSome(k) ==> (k < s.pending().len() ==> t is Draining),
{
    let ghost p0 = s.pending();
    let ghost ev0 = ev;
    let t = match ev {
        RelayEvent::ReadDone(data) => RelayState::Draining { data, written: 0 },
        RelayEvent::ReadTimedOut => s,
        RelayEvent::ReadFailed(_) => s,
        RelayEvent::WroteSome(k) => {
            match s {
                RelayState::Draining { data, written } => {
                    let advanced: usize = written + k;
                    if advanced == data.len() {
                        RelayState::Reading
                    } else {
                        RelayState::Draining { data, written: advanced }
                    }
                },
                RelayState::Reading => RelayState::Reading,
            }
        },
        RelayEvent::WriteTimedOut => s,
        RelayEvent::WriteFailed(_) => s,
    };
    proof {
        assert(t.pending() =~= pending_after(p0, ev0));
    }
    t
}

/// One step conserves bytes: what was pending plus what arrived equals what
/// was confirmed written plus what is still pending, as sequences — same
/// bytes, same order.
pub proof fn lemma_step_conserves(p: Seq<u8>, ev: RelayEvent)
    requires
        step_fits(p, ev),
    ensures
        p + arrived_at(ev) == delivered_at(p, ev) + pending_after(p, ev),
{
    assert(p + arrived_at(ev) =~= delivered_at(p, ev) + pending_after(p, ev));
}

/// A write confirmed as fully transferred delivers exactly the bytes that
/// were pending — no more, no fewer, in order — and leaves nothing pending,
/// so no partial-write retry follows.
pub proof fn lemma_full_write_delivers_all(p: Seq<u8>, k: usize)
    requires
        1 <= k,
        k == p.len(),
    ensures
        delivered_at(p, RelayEvent::WroteSome(k)) == p,
        pending_after(p, RelayEvent::WroteSome(k)).len() == 0,
{
    assert(delivered_at(p, RelayEvent::WroteSome(k)) =~= p);
}

/// Whether a whole run of events fits, step by step, starting from these
/// pending bytes.
pub open spec fn trace_fits(p: Seq<u8>, evs: Seq<RelayEvent>) -> bool
    decreases evs.len(),
{
    evs.len() == 0 || (step_fits(p, evs[0]) && trace_fits(
        pending_after(p, evs[0]),
        evs.drop_first(),
    ))
}

/// The pending bytes after a whole run.
pub open spec fn pending_after_trace(p: Seq<u8>, evs: Seq<RelayEvent>) -> Seq<u8>
    decreases evs.len(),
{
    if evs.len() == 0 {
        p
    } else {
        pending_after_trace(pending_after(p, evs[0]), evs.drop_first())
    }
}

/// All bytes the run reports as read from the source, in arrival order.
pub open spec fn arrived_in_trace(evs: Seq<RelayEvent>) -> Seq<u8>
    decreases evs.len(),
{
    if evs.len() == 0 {
        Seq::empty()
    } else {
        arrived_at(evs[0]) + arrived_in_trace(evs.drop_first())
    }
}

/// All bytes the run confirms as written to the destination, in the order
/// they were confirmed.
pub open spec fn delivered_in_trace(p: Seq<u8>, evs: Seq<RelayEvent>) -> Seq<u8>
    decreases evs.len(),
{
    if evs.len() == 0 {
        Seq::empty()
    } else {
        delivered_at(p, evs[0]) + delivered_in_trace(
            pending_after(p, evs[0]),
            evs.drop_first(),
        )
    }
}

/// Across any run of one relay direction, every byte read is either already
/// confirmed written or still pending, in order: the initial pending bytes
/// followed by everything read equal everything delivered followed by what
/// is still pending. In particular no byte is dropped, duplicated or
/// reordered, however the reads and writes are cut up by timeouts, partial
/// transfers and retried failures.
pub proof fn lemma_trace_conserves(p: Seq<u8>, evs: Seq<RelayEvent>)
    requires
        trace_fits(p, evs),
    ensures
        p + arrived_in_trace(evs) == delivered_in_trace(p, evs) + pending_after_trace(p, evs),
    decreases evs.len(),
{
    if evs.len() == 0 {
        assert(p + arrived_in_trace(evs) =~= delivered_in_trace(p, evs) + pending_after_trace(
            p,
            evs,
        ));
    } else {
        let ev = evs[0];
        let rest = evs.drop_first();
        let p1 = pending_after(p, ev);
        lemma_step_conserves(p, ev);
        lemma_trace_conserves(p1, rest);
        assert(p + arrived_in_trace(evs) =~= (p + arrived_at(ev)) + arrived_in_trace(rest));
        assert((delivered_at(p, ev) + p1) + arrived_in_trace(rest) =~= delivered_at(p, ev) + (p1
            + arrived_in_trace(rest)));
        assert(delivered_at(p, ev) + (delivered_in_trace(p1, rest) + pending_after_trace(p1, rest))
            =~= delivered_in_trace(p, evs) + pending_after_trace(p, evs));
    }
}

/// Runs one relay direction through a whole sequence of classified OS
/// reports, collecting the bytes confirmed written, exactly as the driving
/// loop delivers them to the destination.
///
/// The result is pinned to the trace functions: the final state's pending
/// bytes and the collected output are `pending_after_trace` and
/// `delivered_in_trace` of the run, so `lemma_trace_conserves` and
/// `lemma_round_trip` apply to what this executable run produces.
pub fn relay_run(start: RelayState, events: Vec<RelayEvent>) -> (r: (RelayState, Vec<u8>))
    requires
        start.wf(),
        trace_fits(start.pending(), events@),
    ensures
        r.0.wf(),
        r.0.pending() == pending_after_trace(start.pending(), events@),
        r.1@ == delivered_in_trace(start.pending(), events@),
{
    let ghost p0 = start.pending();
    let ghost evs0 = events@;
    let mut state = start;
    let mut events = events;
    let mut out: Vec<u8> = Vec::new();
    proof {
        assert(out@ + delivered_in_trace(state.pending(), events@) =~= delivered_in_trace(
            p0,
            evs0,
        ));
    }
    while events.len() > 0
        invariant
            state.wf(),
            trace_fits(state.pending(), events@),
            out@ + delivered_in_trace(state.pending(), events@) == delivered_in_trace(p0, evs0),
            pending_after_trace(state.pending(), events@) == pending_after_trace(p0, evs0),
        decreases events.len(),
    {
        let ghost p_before = state.pending();
        let ghost evs_before = events@;
        let ev = events.remove(0);
        proof {
            assert(events@ =~= evs_before.drop_first());
        }
        match &ev {
            RelayEvent::WroteSome(k) => {
                let pending = state.pending_bytes();
                let ghost out_before = out@;
                let mut j: usize = 0;
                while j < *k
                    invariant
                        j <= *k <= pending@.len(),
                        pending@ == p_before,
                        out@ == out_before + p_before.take(j as int),
                    decreases *k - j,
                {
                    let b: u8 = pending[j];
                    out.push(b);
                    j = j + 1;
                    proof {
                        assert(out@ =~= out_before + p_before.take(j as int));
                    }
                }
                proof {
                    assert(out@ =~= out_before + delivered_at(p_before, ev));
                }
            },
            _ => {
                proof {
                    assert(out@ =~= out@ + delivered_at(p_before, ev));
                }
            },
        }
        state = relay_step(state, ev);
        proof {
            assert(out@ + delivered_in_trace(state.pending(), events@) =~= delivered_in_trace(
                p0,
                evs0,
            ));
        }
    }
    proof {
        assert(out@ =~= delivered_in_trace(p0, evs0));
    }
    (state, out)
}

/// Round trip: a run that starts with nothing pending and ends with nothing
/// pending has delivered exactly the bytes that arrived, byte for byte and
/// in order, across all its read/write cycles.
pub proof fn lemma_round_trip(evs: Seq<RelayEvent>)
    requires
        trace_fits(Seq::empty(), evs),
        pending_after_trace(Seq::empty(), evs).len() == 0,
    ensures
        delivered_in_trace(Seq::empty(), evs) == arrived_in_trace(evs),
{
    lemma_trace_conserves(Seq::empty(), evs);
    assert(delivered_in_trace(Seq::empty(), evs) =~= arrived_in_trace(evs));
}

} // verus!
