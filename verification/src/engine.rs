//! The health engine: the verified core of the long-lived health loop.
//!
//! One iteration of the loop runs in two phases.  [`HealthEngine::begin_poll`]
//! takes the end-of-file position snapshotted before reading and answers
//! with the exact byte range to read, advancing the cursor.  The caller
//! reads that range (and only that range) from the log file and hands the
//! bytes to [`HealthEngine::finish_poll`] together with the current instant:
//! the engine reassembles complete lines, parses them, drops invalid lines,
//! feeds the events to the health state machine in order, and — when no new
//! bytes were observed at all — says whether the idle threshold calls for a
//! liveness probe.  The probe itself is network I/O and happens outside;
//! its verdict comes back through [`HealthEngine::record_probe`].
use crate::machine::{
    after_probe, init_model, run, wants_probe, HealthMachine, HealthState, MachineModel,
};
use crate::parser::{collect_events, events_of, EventModel};
use crate::tailer::{polled_len, polled_offset, split_chunk, LineBuffer, Tailer};
use vstd::prelude::*;

verus! {

/// The events one chunk completes, given the unfinished line the engine
/// already holds: the chunk's completed lines, parsed, invalid ones dropped.
pub open spec fn chunk_events(pending: Seq<u8>, chunk: Seq<u8>) -> Seq<EventModel> {
    events_of(split_chunk(pending, chunk).0)
}

/// Cursor, line reassembly and health state machine of one health loop.
pub struct HealthEngine {
    tailer: Tailer,
    lines: LineBuffer,
    machine: HealthMachine,
}

impl HealthEngine {
    /// Byte offset of the log already consumed.
    pub closed spec fn cursor(&self) -> int {
        self.tailer.offset as int
    }

    /// Bytes of the unfinished trailing line.
    pub closed spec fn pending_bytes(&self) -> Seq<u8> {
        self.lines.pending()
    }

    /// The health state machine's model.
    pub closed spec fn model(&self) -> MachineModel {
        self.machine@
    }

    /// The engine's internal consistency: no line feed hides in the
    /// unfinished line.
    pub closed spec fn wf(&self) -> bool {
        self.lines.wf()
    }

    /// A fresh engine: nothing consumed, nothing pending, the machine in
    /// its starting state.  `started_at` is the current instant in the
    /// timestamp encoding.
    pub fn new(started_at: u64) -> (e: HealthEngine)
        ensures
            e.cursor() == 0,
            e.pending_bytes() == Seq::<u8>::empty(),
            e.model() == init_model(started_at as int),
            e.wf(),
    {
        HealthEngine {
            tailer: Tailer::new(),
            lines: LineBuffer::new(),
            machine: HealthMachine::new(started_at),
        }
    }

    /// First phase of a poll: `eof` is the end-of-file position snapshotted
    /// before reading, and the result is the byte range `(start, len)` to
    /// read.  Pure: the cursor moves only when the bytes come back, in
    /// [`Self::finish_poll`], so a read that fails mid-poll skips nothing.
    pub fn poll_window(&self, eof: u64) -> (r: (u64, u64))
        ensures
            r.0 == self.cursor(),
            r.1 == polled_len(self.cursor(), eof as int),
    {
        self.tailer.window(eof)
    }

    /// Feeds the bytes read by a poll to the line reassembly and the state
    /// machine.  The cursor does not move.
    pub fn ingest(&mut self, chunk: &Vec<u8>)
        requires
            old(self).wf(),
        ensures
            final(self).wf(),
            final(self).model() == run(
                old(self).model(),
                chunk_events(old(self).pending_bytes(), chunk@),
            ),
            final(self).pending_bytes() == split_chunk(old(self).pending_bytes(), chunk@).1,
            final(self).cursor() == old(self).cursor(),
    {
        let lines = self.lines.push_chunk(chunk);
        let evs = collect_events(&lines);
        self.machine.apply_events(&evs);
    }

    /// Second phase of a poll: the bytes of the window are in hand, the
    /// cursor advances to the snapshot, and the bytes are consumed; when
    /// nothing at all was read, says whether the idle threshold calls for a
    /// liveness probe.
    pub fn finish_poll(&mut self, chunk: &Vec<u8>, eof: u64, now: u64, max_idle_seconds: u64) -> (probe:
        bool)
        requires
            old(self).wf(),
            chunk@.len() == polled_len(old(self).cursor(), eof as int),
        ensures
            final(self).wf(),
            final(self).model() == run(
                old(self).model(),
                chunk_events(old(self).pending_bytes(), chunk@),
            ),
            final(self).pending_bytes() == split_chunk(old(self).pending_bytes(), chunk@).1,
            final(self).cursor() == polled_offset(old(self).cursor(), eof as int),
            probe <==> chunk@.len() == 0 && wants_probe(
                final(self).model(),
                now as int,
                max_idle_seconds as int,
            ),
    {
        self.tailer.advance_to(eof);
        self.ingest(chunk);
        if chunk.len() == 0 {
            self.machine.should_probe(now, max_idle_seconds)
        } else {
            false
        }
    }

    /// Records the outcome of a probe attempt: the verdict becomes the
    /// probe's, and the idle clock restarts whatever the outcome.
    pub fn record_probe(&mut self, ok: bool, now: u64)
        ensures
            final(self).model() == after_probe(old(self).model(), ok, now as int),
            final(self).pending_bytes() == old(self).pending_bytes(),
            final(self).cursor() == old(self).cursor(),
            final(self).wf() == old(self).wf(),
    {
        self.machine.record_probe(ok, now)
    }

    /// Current verdict.
    pub fn healthy(&self) -> (r: bool)
        ensures
            r == self.model().healthy,
    {
        self.machine.healthy()
    }

    /// Copy of the shared health state, as the router and the notifier
    /// read it.
    pub fn health_state(&self) -> (r: HealthState)
        ensures
            r.healthy == self.model().healthy,
            r.last_response_at is None <==> self.model().last_response_at is None,
            r.last_response_at matches Some(t) ==> self.model().last_response_at == Some(t as int),
    {
        self.machine.health_state()
    }
}

} // verus!
