use vstd::prelude::*;
use crate::store::has_known_state;
use crate::record::{fresh_record, completed_label, completed_text, failed_label, failed_text, CommandInfo, RecordView};

verus! {

/// The most bytes taken from a stream in one read.
pub const READ_CHUNK_BYTES: usize = 1024;

/// Which stream the capture task reads next.
#[derive(PartialEq, Eq, Structural, Clone, Copy, Debug)]
pub enum CapturePhase {
    /// Standard output, chunk by chunk, until it ends.
    Stdout,
    /// One read of standard error, once standard output has ended.
    Stderr,
    /// Nothing: the record is final.
    Done,
}

/// `rec` with `bytes` appended to its output.
pub open spec fn with_output(rec: RecordView, bytes: Seq<u8>) -> RecordView {
    RecordView {
        script: rec.script,
        output: rec.output + bytes,
        state: rec.state,
        time_stamp: rec.time_stamp,
        timed_out: rec.timed_out,
    }
}

/// `rec` with its state label replaced.
pub open spec fn with_state(rec: RecordView, state: Seq<char>) -> RecordView {
    RecordView {
        script: rec.script,
        output: rec.output,
        state,
        time_stamp: rec.time_stamp,
        timed_out: rec.timed_out,
    }
}

/// One step of the capture task. `read` is the outcome of a read of the stream
/// the phase names: `Some(bytes)` (empty at end of stream) or `None` for a read
/// error.
///
/// On standard output, bytes are appended and reading goes on; an error is
/// passed over; the end of the stream completes the record and turns to
/// standard error. There, bytes fail the record and are appended; either way
/// the capture is then done.
pub open spec fn capture_step(phase: CapturePhase, rec: RecordView, read: Option<Seq<u8>>) -> (
    CapturePhase,
    RecordView,
) {
    match phase {
        CapturePhase::Stdout => match read {
            Some(bytes) => if bytes.len() == 0 {
                (CapturePhase::Stderr, with_state(rec, completed_label()))
            } else {
                (CapturePhase::Stdout, with_output(rec, bytes))
            },
            None => (CapturePhase::Stdout, rec),
        },
        CapturePhase::Stderr => match read {
            Some(bytes) => if bytes.len() == 0 {
                (CapturePhase::Done, rec)
            } else {
                (CapturePhase::Done, with_output(with_state(rec, failed_label()), bytes))
            },
            None => (CapturePhase::Done, rec),
        },
        CapturePhase::Done => (CapturePhase::Done, rec),
    }
}

/// The capture task's phase and record after the reads in `reads`, in order.
pub open spec fn capture_run(phase: CapturePhase, rec: RecordView, reads: Seq<Option<Seq<u8>>>) -> (
    CapturePhase,
    RecordView,
)
    decreases reads.len(),
{
    if reads.len() == 0 {
        (phase, rec)
    } else {
        let (p, r) = capture_step(phase, rec, reads[0]);
        capture_run(p, r, reads.drop_first())
    }
}

/// A capture step leaves a record with one of the three state labels.
pub proof fn lemma_step_keeps_known_state(phase: CapturePhase, rec: RecordView, read: Option<Seq<u8>>)
    requires
        has_known_state(rec),
    ensures
        has_known_state(capture_step(phase, rec, read).1),
{
}

/// Each chunk as a successful read.
pub open spec fn as_reads(chunks: Seq<Seq<u8>>) -> Seq<Option<Seq<u8>>> {
    chunks.map_values(|c: Seq<u8>| Some(c))
}

/// Reading non-empty chunks from standard output appends them, in order, and
/// leaves the task reading standard output.
proof fn lemma_stdout_chunks(rec: RecordView, chunks: Seq<Seq<u8>>, rest: Seq<Option<Seq<u8>>>)
    requires
        forall|i: int| 0 <= i < chunks.len() ==> #[trigger] chunks[i].len() > 0,
    ensures
        capture_run(CapturePhase::Stdout, rec, as_reads(chunks) + rest) == capture_run(
            CapturePhase::Stdout,
            with_output(rec, chunks.flatten()),
            rest,
        ),
    decreases chunks.len(),
{
    if chunks.len() == 0 {
        assert(as_reads(chunks) + rest =~= rest);
        assert(rec.output + chunks.flatten() =~= rec.output);
        assert(with_output(rec, chunks.flatten()) == rec);
    } else {
        let reads = as_reads(chunks) + rest;
        let tail = chunks.drop_first();
        assert(chunks[0].len() > 0);
        assert(reads[0] == Some(chunks[0]));
        assert(reads.drop_first() =~= as_reads(tail) + rest);
        assert forall|i: int| 0 <= i < tail.len() implies #[trigger] tail[i].len() > 0 by {
            assert(tail[i] == chunks[i + 1]);
        }
        lemma_stdout_chunks(with_output(rec, chunks[0]), tail, rest);
        assert(rec.output + chunks[0] + tail.flatten() =~= rec.output + chunks.flatten());
    }
}

/// A command that writes non-empty chunks to standard output and nothing to
/// standard error ends completed, its output exactly those chunks in order.
pub proof fn lemma_clean_exit_completes(script: Seq<char>, time_stamp: u64, chunks: Seq<Seq<u8>>)
    requires
        forall|i: int| 0 <= i < chunks.len() ==> #[trigger] chunks[i].len() > 0,
    ensures
        ({
            let (phase, rec) = capture_run(
                CapturePhase::Stdout,
                fresh_record(script, time_stamp),
                as_reads(chunks) + seq![Some(Seq::<u8>::empty()), Some(Seq::<u8>::empty())],
            );
            &&& phase == CapturePhase::Done
            &&& rec.state == completed_label()
            &&& rec.output == chunks.flatten()
            &&& rec.script == script
            &&& rec.time_stamp == time_stamp
            &&& !rec.timed_out
        }),
{
    let start = fresh_record(script, time_stamp);
    let ends = seq![Some(Seq::<u8>::empty()), Some(Seq::<u8>::empty())];
    lemma_stdout_chunks(start, chunks, ends);
    assert(Seq::<u8>::empty() + chunks.flatten() =~= chunks.flatten());
    let chunks_rec = with_output(start, chunks.flatten());
    let (eof_phase, eof_rec) = capture_step(CapturePhase::Stdout, chunks_rec, ends[0]);
    let (end_phase, end_rec) = capture_step(eof_phase, eof_rec, ends.drop_first()[0]);
    assert(ends.drop_first().drop_first() =~= Seq::<Option<Seq<u8>>>::empty());
    assert(capture_run(end_phase, end_rec, ends.drop_first().drop_first()) == (end_phase, end_rec));
    assert(capture_run(eof_phase, eof_rec, ends.drop_first()) == (end_phase, end_rec));
    assert(capture_run(CapturePhase::Stdout, chunks_rec, ends) == (end_phase, end_rec));
}

/// A command that writes nothing to standard output and some bytes to
/// standard error ends failed, its output exactly those bytes.
pub proof fn lemma_error_exit_fails(script: Seq<char>, time_stamp: u64, err: Seq<u8>)
    requires
        err.len() > 0,
    ensures
        ({
            let (phase, rec) = capture_run(
                CapturePhase::Stdout,
                fresh_record(script, time_stamp),
                seq![Some(Seq::<u8>::empty()), Some(err)],
            );
            &&& phase == CapturePhase::Done
            &&& rec.state == failed_label()
            &&& rec.output == err
            &&& rec.script == script
            &&& rec.time_stamp == time_stamp
            &&& !rec.timed_out
        }),
{
    let start = fresh_record(script, time_stamp);
    let reads = seq![Some(Seq::<u8>::empty()), Some(err)];
    let (eof_phase, eof_rec) = capture_step(CapturePhase::Stdout, start, reads[0]);
    let (end_phase, end_rec) = capture_step(eof_phase, eof_rec, reads.drop_first()[0]);
    assert(reads.drop_first().drop_first() =~= Seq::<Option<Seq<u8>>>::empty());
    assert(capture_run(end_phase, end_rec, reads.drop_first().drop_first()) == (end_phase, end_rec));
    assert(capture_run(eof_phase, eof_rec, reads.drop_first()) == (end_phase, end_rec));
    assert(Seq::<u8>::empty() + err =~= err);
}

/// The capture task of one command: its identifier, its own copy of the
/// record, and the stream it reads next.
pub struct Capture {
    pub id: u64,
    pub info: CommandInfo,
    pub phase: CapturePhase,
}

impl Capture {
    /// A capture task that starts on standard output.
    pub fn new(id: u64, info: CommandInfo) -> (r: Self)
        ensures
            r.id == id,
            r.info@ == info@,
            r.phase == CapturePhase::Stdout,
    {
        Capture { id, info, phase: CapturePhase::Stdout }
    }

    /// Whether the record is final.
    pub fn is_done(&self) -> (r: bool)
        ensures
            r == (self.phase == CapturePhase::Done),
    {
        self.phase == CapturePhase::Done
    }

    /// Takes in the outcome of one read of the stream `self.phase` names.
    pub fn on_read(&mut self, read: Option<Vec<u8>>)
        ensures
            final(self).id == old(self).id,
            (final(self).phase, final(self).info@) == capture_step(
                old(self).phase,
                old(self).info@,
                match read {
                    Some(v) => Some(v@),
                    None => None,
                },
            ),
    {
        match self.phase {
            CapturePhase::Stdout => match read {
                Some(bytes) => {
                    if bytes.len() == 0 {
                        self.info.state = completed_text();
                        self.phase = CapturePhase::Stderr;
                    } else {
                        let mut bytes = bytes;
                        self.info.output.append(&mut bytes);
                    }
                },
                None => {},
            },
            CapturePhase::Stderr => {
                match read {
                    Some(bytes) => {
                        if bytes.len() != 0 {
                            self.info.state = failed_text();
                            let mut bytes = bytes;
                            self.info.output.append(&mut bytes);
                        }
                    },
                    None => {},
                }
                self.phase = CapturePhase::Done;
            },
            CapturePhase::Done => {},
        }
    }
}

} // verus!
