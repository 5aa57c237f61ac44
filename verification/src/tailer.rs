//! Cursor-tracked tailing of the append-only log file.
//!
//! The tailer owns the byte offset marking how much of the log has been
//! consumed.  The caller snapshots the end-of-file position *before* reading
//! and hands it in; the tailer answers with the exact byte range to read and
//! advances the cursor to that snapshot, so a write appended mid-read is
//! left for the next poll and no byte is consumed twice.  The bytes
//! themselves are read outside the library and fed to a [`LineBuffer`],
//! which reassembles complete lines across partial reads.
use vstd::prelude::*;

verus! {

/// Cursor position after a poll that observed `eof`.
pub open spec fn polled_offset(offset: int, eof: int) -> int {
    if eof >= offset {
        eof
    } else {
        offset
    }
}

/// Length of the byte range a poll that observed `eof` consumes.
pub open spec fn polled_len(offset: int, eof: int) -> int {
    if eof >= offset {
        eof - offset
    } else {
        0
    }
}

/// The remembered byte offset into the log file.  Monotonically
/// non-decreasing for the life of the process; never persisted.
pub struct Tailer {
    /// How many bytes of the log have been consumed.
    pub offset: u64,
}

impl Tailer {
    /// A tailer that has consumed nothing.
    pub fn new() -> (t: Tailer)
        ensures
            t.offset == 0,
    {
        Tailer { offset: 0 }
    }

    /// The byte range `(start, len)` one poll must read, `eof` being the
    /// end-of-file position snapshotted before the read.  Pure: the cursor
    /// moves only in [`Self::advance_to`], once the bytes are in hand, so a
    /// read that fails mid-poll skips nothing.  An `eof` below the cursor
    /// (the file is not append-only at that moment, e.g. mid-rotation)
    /// yields an empty range.
    pub fn window(&self, eof: u64) -> (r: (u64, u64))
        ensures
            r.0 == self.offset,
            r.1 == polled_len(self.offset as int, eof as int),
    {
        if eof >= self.offset {
            (self.offset, eof - self.offset)
        } else {
            (self.offset, 0)
        }
    }

    /// Moves the cursor to the end-of-file position whose window was just
    /// consumed.  The cursor advances exactly to the snapshot taken before
    /// the read — never past it, whatever was appended meanwhile — so each
    /// appended byte is consumed by exactly one poll; and it never moves
    /// backwards.
    pub fn advance_to(&mut self, eof: u64)
        ensures
            final(self).offset == polled_offset(old(self).offset as int, eof as int),
            final(self).offset >= old(self).offset,
    {
        if eof >= self.offset {
            self.offset = eof;
        }
    }
}

/// Law: polling twice with no intervening file growth yields an empty byte
/// range both times, and the cursor never moves, so already-consumed bytes
/// are never delivered again.
pub proof fn lemma_poll_idempotent_when_idle(offset: int, eof: int)
    requires
        eof == offset,
    ensures
        polled_len(offset, eof) == 0,
        polled_offset(offset, eof) == offset,
        polled_len(polled_offset(offset, eof), eof) == 0,
        polled_offset(polled_offset(offset, eof), eof) == offset,
{
}

/// Law: two successive polls of a growing file consume contiguous, disjoint
/// ranges — the second begins exactly where the first ended, so no byte is
/// delivered twice and none is skipped.
pub proof fn lemma_polls_contiguous(offset: int, eof1: int, eof2: int)
    requires
        offset <= eof1 <= eof2,
    ensures
        polled_offset(offset, eof1) == offset + polled_len(offset, eof1),
        polled_offset(offset, eof1) + polled_len(polled_offset(offset, eof1), eof2)
            == polled_offset(polled_offset(offset, eof1), eof2),
{
}

/// True when no byte of `l` is a line feed.
pub open spec fn no_newline(l: Seq<u8>) -> bool {
    forall|i: int| 0 <= i < l.len() ==> #[trigger] l[i] != 10
}

/// The raw bytes a sequence of lines came from: each line followed by the
/// line feed that ended it.
pub open spec fn joined(lines: Seq<Seq<u8>>) -> Seq<u8>
    decreases lines.len(),
{
    if lines.len() == 0 {
        Seq::empty()
    } else {
        joined(lines.drop_last()) + lines.last() + seq![10u8]
    }
}

/// One byte fed to the splitter: a line feed completes the gathering line,
/// any other byte extends it.
pub open spec fn split_step(state: (Seq<Seq<u8>>, Seq<u8>), b: u8) -> (Seq<Seq<u8>>, Seq<u8>) {
    if b == 10 {
        (state.0.push(state.1), Seq::empty())
    } else {
        (state.0, state.1.push(b))
    }
}

/// The lines completed and the remainder left after feeding `chunk` to a
/// buffer holding `buf`.
pub open spec fn split_chunk(buf: Seq<u8>, chunk: Seq<u8>) -> (Seq<Seq<u8>>, Seq<u8>)
    decreases chunk.len(),
{
    if chunk.len() == 0 {
        (Seq::empty(), buf)
    } else {
        split_step(split_chunk(buf, chunk.drop_last()), chunk.last())
    }
}

/// Reassembles complete lines from arbitrarily split byte chunks.  Bytes of
/// a line whose line feed has not arrived yet wait in the buffer.
pub struct LineBuffer {
    buf: Vec<u8>,
}

impl LineBuffer {
    /// The bytes of the unfinished trailing line.
    pub closed spec fn pending(&self) -> Seq<u8> {
        self.buf@
    }

    /// No line feed hides in the buffer.
    pub open spec fn wf(&self) -> bool {
        no_newline(self.pending())
    }

    /// An empty buffer.
    pub fn new() -> (b: LineBuffer)
        ensures
            b.pending() == Seq::<u8>::empty(),
            b.wf(),
    {
        LineBuffer { buf: Vec::new() }
    }

    /// Feeds one chunk of freshly read bytes and returns the lines completed
    /// by it, without their line feeds, oldest first.  Everything fed in is
    /// accounted for: the previous remainder plus the chunk equals the
    /// returned lines (with their line feeds restored) plus the new
    /// remainder.
    pub fn push_chunk(&mut self, chunk: &Vec<u8>) -> (lines: Vec<Vec<u8>>)
        requires
            old(self).wf(),
        ensures
            final(self).wf(),
            forall|i: int| 0 <= i < lines@.len() ==> no_newline(#[trigger] lines@[i]@),
            old(self).pending() + chunk@ == joined(lines@.map_values(|l: Vec<u8>| l@))
                + final(self).pending(),
            lines@.map_values(|l: Vec<u8>| l@) == split_chunk(old(self).pending(), chunk@).0,
            final(self).pending() == split_chunk(old(self).pending(), chunk@).1,
    {
        let mut lines: Vec<Vec<u8>> = Vec::new();
        let mut i: usize = 0;
        proof {
            assert(joined(lines@.map_values(|l: Vec<u8>| l@)) =~= Seq::<u8>::empty());
            assert(old(self).pending() + chunk@.take(0) =~= old(self).pending());
        }
        while i < chunk.len()
            invariant
                i <= chunk.len(),
                no_newline(self.buf@),
                forall|k: int| 0 <= k < lines@.len() ==> no_newline(#[trigger] lines@[k]@),
                old(self).pending() + chunk@.take(i as int) == joined(
                    lines@.map_values(|l: Vec<u8>| l@),
                ) + self.buf@,
                lines@.map_values(|l: Vec<u8>| l@) == split_chunk(
                    old(self).pending(),
                    chunk@.take(i as int),
                ).0,
                self.buf@ == split_chunk(old(self).pending(), chunk@.take(i as int)).1,
            decreases chunk.len() - i,
        {
            let ghost prev_lines = lines@.map_values(|l: Vec<u8>| l@);
            let ghost prev_buf = self.buf@;
            proof {
                assert(chunk@.take(i + 1) =~= chunk@.take(i as int) + seq![chunk@[i as int]]);
                assert(old(self).pending() + chunk@.take(i + 1) =~= (old(self).pending()
                    + chunk@.take(i as int)) + seq![chunk@[i as int]]);
                assert(chunk@.take(i + 1).drop_last() =~= chunk@.take(i as int));
                assert(chunk@.take(i + 1).last() == chunk@[i as int]);
            }
            let b = chunk[i];
            if b == 10 {
                let mut done: Vec<u8> = Vec::new();
                core::mem::swap(&mut done, &mut self.buf);
                lines.push(done);
                proof {
                    let now_lines = lines@.map_values(|l: Vec<u8>| l@);
                    assert(now_lines.drop_last() =~= prev_lines);
                    assert(now_lines.last() == prev_buf);
                    assert(joined(now_lines) == joined(prev_lines) + prev_buf + seq![10u8]);
                    assert((joined(prev_lines) + prev_buf) + seq![chunk@[i as int]] =~= joined(
                        now_lines,
                    ) + self.buf@);
                    assert(now_lines =~= prev_lines.push(prev_buf));
                }
            } else {
                self.buf.push(b);
                proof {
                    assert((joined(prev_lines) + prev_buf) + seq![chunk@[i as int]] =~= joined(
                        prev_lines,
                    ) + self.buf@);
                }
            }
            i = i + 1;
        }
        proof {
            assert(chunk@.take(chunk@.len() as int) =~= chunk@);
        }
        lines
    }
}

} // verus!
