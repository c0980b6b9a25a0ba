use vstd::prelude::*;

verus! {

/// The label of a record whose command is still running.
pub open spec fn in_progress_label() -> Seq<char> {
    "in-progress"@
}

/// The label of a record whose standard output ended with no error output.
pub open spec fn completed_label() -> Seq<char> {
    "Completed"@
}

/// The label of a record whose command wrote to standard error.
pub open spec fn failed_label() -> Seq<char> {
    "Failed"@
}

/// The label text of a running command.
pub fn in_progress_text() -> (r: String)
    ensures
        r@ == in_progress_label(),
{
    String::from_str("in-progress")
}

/// The label text of a completed command.
pub fn completed_text() -> (r: String)
    ensures
        r@ == completed_label(),
{
    String::from_str("Completed")
}

/// The label text of a failed command.
pub fn failed_text() -> (r: String)
    ensures
        r@ == failed_label(),
{
    String::from_str("Failed")
}

/// What a record holds, as mathematical values.
pub struct RecordView {
    pub script: Seq<char>,
    pub output: Seq<u8>,
    pub state: Seq<char>,
    pub time_stamp: u64,
    pub timed_out: bool,
}

/// The status record of one submitted command.
///
/// `time_stamp` is the submission instant in milliseconds since the Unix epoch.
pub struct CommandInfo {
    pub script: String,
    pub output: Vec<u8>,
    pub state: String,
    pub time_stamp: u64,
    pub timed_out: bool,
}

impl View for CommandInfo {
    type V = RecordView;

    open spec fn view(&self) -> RecordView {
        RecordView {
            script: self.script@,
            output: self.output@,
            state: self.state@,
            time_stamp: self.time_stamp,
            timed_out: self.timed_out,
        }
    }
}

impl CommandInfo {
    pub fn new(
        script: String,
        output: Vec<u8>,
        state: String,
        time_stamp: u64,
        timed_out: bool,
    ) -> (r: Self)
        ensures
            r@ == (RecordView {
                script: script@,
                output: output@,
                state: state@,
                time_stamp,
                timed_out,
            }),
    {
        Self { script, output, state, time_stamp, timed_out }
    }

    /// A fresh record for a command submitted at `time_stamp`: no output yet,
    /// still running, not timed out.
    pub fn started(script: String, time_stamp: u64) -> (r: Self)
        ensures
            r@ == fresh_record(script@, time_stamp),
    {
        Self::new(script, Vec::new(), in_progress_text(), time_stamp, false)
    }

    /// An independent copy of the record.
    pub fn snapshot(&self) -> (r: Self)
        ensures
            r@ == self@,
    {
        CommandInfo {
            script: self.script.clone(),
            output: self.output.clone(),
            state: self.state.clone(),
            time_stamp: self.time_stamp,
            timed_out: self.timed_out,
        }
    }
}

/// The record that a submission starts from.
pub open spec fn fresh_record(script: Seq<char>, time_stamp: u64) -> RecordView {
    RecordView {
        script,
        output: Seq::empty(),
        state: in_progress_label(),
        time_stamp,
        timed_out: false,
    }
}

} // verus!
