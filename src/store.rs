use std::collections::HashMap;
use vstd::prelude::*;
use vstd::std_specs::hash::group_hash_axioms;
use crate::record::{completed_label, failed_label, failed_text, in_progress_label, CommandInfo, RecordView};

verus! {

broadcast use group_hash_axioms;

/// The store after a capture task publishes `rec` under `id`: the record is
/// replaced, except that a timeout already noted on it is kept.
pub open spec fn published(m: Map<u64, RecordView>, id: u64, rec: RecordView) -> Map<u64, RecordView> {
    m.insert(
        id,
        RecordView {
            script: rec.script,
            output: rec.output,
            state: rec.state,
            time_stamp: rec.time_stamp,
            timed_out: (m.contains_key(id) && m[id].timed_out) || rec.timed_out,
        },
    )
}

/// The store after the watchdog notes that the command under `id` was killed.
pub open spec fn marked_timed_out(m: Map<u64, RecordView>, id: u64) -> Map<u64, RecordView> {
    if m.contains_key(id) {
        let r = m[id];
        m.insert(
            id,
            RecordView {
                script: r.script,
                output: r.output,
                state: r.state,
                time_stamp: r.time_stamp,
                timed_out: true,
            },
        )
    } else {
        m
    }
}

/// The store after the command under `id` could not be started: its record
/// fails, with `detail` appended to its output.
pub open spec fn marked_launch_failed(m: Map<u64, RecordView>, id: u64, detail: Seq<u8>) -> Map<u64, RecordView> {
    if m.contains_key(id) {
        let r = m[id];
        m.insert(
            id,
            RecordView {
                script: r.script,
                output: r.output + detail,
                state: failed_label(),
                time_stamp: r.time_stamp,
                timed_out: r.timed_out,
            },
        )
    } else {
        m
    }
}

/// What a status query reports: the state label and the output of the record,
/// or two empty values for an identifier that was never issued.
pub open spec fn status_of(m: Map<u64, RecordView>, id: u64) -> (Seq<char>, Seq<u8>) {
    if m.contains_key(id) {
        (m[id].state, m[id].output)
    } else {
        (Seq::empty(), Seq::empty())
    }
}

/// Whether a record's state is one of the three labels a record can carry.
pub open spec fn has_known_state(r: RecordView) -> bool {
    r.state == in_progress_label() || r.state == completed_label() || r.state == failed_label()
}

/// The store after the capture task publishes each of `recs` under `id`, in
/// order.
pub open spec fn published_all(m: Map<u64, RecordView>, id: u64, recs: Seq<RecordView>) -> Map<
    u64,
    RecordView,
>
    decreases recs.len(),
{
    if recs.len() == 0 {
        m
    } else {
        published_all(published(m, id, recs[0]), id, recs.drop_first())
    }
}

/// Once the watchdog has noted that a command was killed for running too long,
/// its record keeps showing it, whatever the capture task publishes after.
pub proof fn lemma_timeout_is_kept(m: Map<u64, RecordView>, id: u64, recs: Seq<RecordView>)
    requires
        m.contains_key(id),
    ensures
        published_all(marked_timed_out(m, id), id, recs).contains_key(id),
        published_all(marked_timed_out(m, id), id, recs)[id].timed_out,
{
    lemma_timed_out_survives(marked_timed_out(m, id), id, recs);
}

proof fn lemma_timed_out_survives(m: Map<u64, RecordView>, id: u64, recs: Seq<RecordView>)
    requires
        m.contains_key(id),
        m[id].timed_out,
    ensures
        published_all(m, id, recs).contains_key(id),
        published_all(m, id, recs)[id].timed_out,
    decreases recs.len(),
{
    if recs.len() > 0 {
        lemma_timed_out_survives(published(m, id, recs[0]), id, recs.drop_first());
    }
}

/// A record, once stored, stays in the store, with one of the three state
/// labels, through every update that carries a known label: a publication by
/// a capture task, a timeout note, a launch failure.
pub proof fn lemma_found_stays_found(
    m: Map<u64, RecordView>,
    id: u64,
    other: u64,
    rec: RecordView,
    detail: Seq<u8>,
)
    requires
        m.contains_key(id),
        has_known_state(m[id]),
        has_known_state(rec),
    ensures
        published(m, other, rec).contains_key(id),
        has_known_state(published(m, other, rec)[id]),
        marked_timed_out(m, other).contains_key(id),
        has_known_state(marked_timed_out(m, other)[id]),
        marked_launch_failed(m, other, detail).contains_key(id),
        has_known_state(marked_launch_failed(m, other, detail)[id]),
{
}

/// The answer to a status query.
pub struct StatusReport {
    pub state: String,
    pub output: Vec<u8>,
}

impl StatusReport {
    /// The report for an identifier that was never issued.
    pub fn empty() -> (r: Self)
        ensures
            r.state@ == Seq::<char>::empty(),
            r.output@ == Seq::<u8>::empty(),
    {
        StatusReport { state: String::new(), output: Vec::new() }
    }
}

/// Map from command identifier to command record. Records are never removed.
/// Identifiers are issued in increasing order, so an issued identifier never
/// names a record already stored.
pub struct CommandStore {
    records: HashMap<u64, CommandInfo>,
    next_id: u64,
}

impl View for CommandStore {
    type V = Map<u64, RecordView>;

    closed spec fn view(&self) -> Map<u64, RecordView> {
        Map::new(|k: u64| self.records@.contains_key(k), |k: u64| self.records@[k]@)
    }
}

impl CommandStore {
    /// Every stored identifier lies below the next one to issue, unless the
    /// identifiers are used up.
    pub closed spec fn wf(&self) -> bool {
        forall|k: u64| #[trigger]
            self.records@.contains_key(k) ==> k < self.next_id || self.next_id == u64::MAX
    }

    /// No identifier is left to issue.
    pub closed spec fn exhausted(&self) -> bool {
        self.next_id == u64::MAX
    }

    pub fn new() -> (r: Self)
        ensures
            r.wf(),
            r@ == Map::<u64, RecordView>::empty(),
            !r.exhausted(),
    {
        let r = CommandStore { records: HashMap::new(), next_id: 0 };
        assert(r@ =~= Map::<u64, RecordView>::empty());
        r
    }

    /// Issues a fresh identifier for a command submitted at `time_stamp` and
    /// stores a running record for it. Fails only when no identifier is left.
    pub fn register(&mut self, script: String, time_stamp: u64) -> (r: Option<u64>)
        requires
            old(self).wf(),
        ensures
            final(self).wf(),
            r is None <==> old(self).exhausted(),
            match r {
                Some(id) => !old(self)@.contains_key(id) && final(self)@ == old(self)@.insert(
                    id,
                    crate::record::fresh_record(script@, time_stamp),
                ),
                None => final(self)@ == old(self)@,
            },
    {
        if self.next_id == u64::MAX {
            return None;
        }
        let id = self.next_id;
        let info = CommandInfo::started(script, time_stamp);
        let ghost rec = info@;
        self.records.insert(id, info);
        self.next_id = id + 1;
        assert(self@ =~= old(self)@.insert(id, rec));
        Some(id)
    }

    /// Stores `info` under `id`, replacing any record there.
    pub fn put(&mut self, id: u64, info: CommandInfo)
        requires
            old(self).wf(),
        ensures
            final(self).wf(),
            final(self)@ == old(self)@.insert(id, info@),
    {
        let ghost rec = info@;
        self.records.insert(id, info);
        if id >= self.next_id {
            if id == u64::MAX {
                self.next_id = u64::MAX;
            } else {
                self.next_id = id + 1;
            }
        }
        assert(self@ =~= old(self)@.insert(id, rec));
    }

    /// A copy of the record under `id`, if there is one.
    pub fn get(&self, id: u64) -> (r: Option<CommandInfo>)
        ensures
            match r {
                Some(c) => self@.contains_key(id) && c@ == self@[id],
                None => !self@.contains_key(id),
            },
    {
        match self.records.get(&id) {
            Some(c) => Some(c.snapshot()),
            None => None,
        }
    }

    /// Whether a record is stored under `id`.
    pub fn contains(&self, id: u64) -> (r: bool)
        ensures
            r == self@.contains_key(id),
    {
        self.records.contains_key(&id)
    }

    /// The state label and output of the record under `id`; both empty for an
    /// identifier that was never issued.
    pub fn status(&self, id: u64) -> (r: StatusReport)
        ensures
            (r.state@, r.output@) == status_of(self@, id),
    {
        match self.records.get(&id) {
            Some(c) => StatusReport { state: c.state.clone(), output: c.output.clone() },
            None => StatusReport::empty(),
        }
    }

    /// Publishes the capture task's copy of the record under `id`. A timeout
    /// that the watchdog noted meanwhile is kept.
    pub fn publish(&mut self, id: u64, info: &CommandInfo)
        requires
            old(self).wf(),
        ensures
            final(self).wf(),
            final(self)@ == published(old(self)@, id, info@),
    {
        let was_timed_out = match self.records.get(&id) {
            Some(c) => c.timed_out,
            None => false,
        };
        let mut rec = info.snapshot();
        rec.timed_out = was_timed_out || info.timed_out;
        self.put(id, rec);
    }

    /// Notes that the command under `id` was killed for running too long.
    /// Returns whether a record was there.
    pub fn mark_timed_out(&mut self, id: u64) -> (r: bool)
        requires
            old(self).wf(),
        ensures
            final(self).wf(),
            r == old(self)@.contains_key(id),
            final(self)@ == marked_timed_out(old(self)@, id),
    {
        match self.records.remove(&id) {
            Some(c) => {
                let mut c = c;
                c.timed_out = true;
                self.records.insert(id, c);
                assert(self@ =~= marked_timed_out(old(self)@, id));
                true
            },
            None => {
                assert(self@ =~= old(self)@);
                false
            },
        }
    }

    /// Notes that the command under `id` could not be started, with `detail`
    /// saying why. Returns whether a record was there.
    pub fn mark_launch_failed(&mut self, id: u64, detail: &Vec<u8>) -> (r: bool)
        requires
            old(self).wf(),
        ensures
            final(self).wf(),
            r == old(self)@.contains_key(id),
            final(self)@ == marked_launch_failed(old(self)@, id, detail@),
    {
        match self.records.remove(&id) {
            Some(c) => {
                let mut c = c;
                let mut extra = detail.clone();
                c.output.append(&mut extra);
                c.state = failed_text();
                self.records.insert(id, c);
                assert(self@ =~= marked_launch_failed(old(self)@, id, detail@));
                true
            },
            None => {
                assert(self@ =~= old(self)@);
                false
            },
        }
    }
}

} // verus!
