use vstd::prelude::*;
use crate::capture::{Capture, CapturePhase};
use crate::launch::{
    args_view, command_args, interpreter_named, interpreter_program, opt_view, plan_script, Cmd,
    LaunchError, LaunchPlan,
};
use crate::record::{fresh_record, in_progress_label, CommandInfo, RecordView};
use crate::store::{status_of, CommandStore};

verus! {

/// Why a submission was not accepted.
#[derive(PartialEq, Eq, Structural, Clone, Copy, Debug)]
pub enum SubmitError {
    /// The request names no way to start a command.
    Refused(LaunchError),
    /// No identifier is left to issue.
    Exhausted,
}

impl SubmitError {
    /// A message for the submitter.
    pub fn describe(&self) -> (r: String)
        ensures
            r@ == match self {
                SubmitError::Refused(_) => "unsupported interpreter"@,
                SubmitError::Exhausted => "no command identifier left"@,
            },
    {
        match self {
            SubmitError::Refused(e) => e.describe(),
            SubmitError::Exhausted => String::from_str("no command identifier left"),
        }
    }
}

/// An accepted submission: the identifier issued for it, what to start, and
/// the capture task that will fill its record.
pub struct Submitted {
    pub id: u64,
    pub plan: LaunchPlan,
    pub capture: Capture,
}

/// Whether `s` is the submission of a command recorded as `script` at
/// `time_stamp`, issued an identifier that `before` did not hold, and stored
/// in `after` as a running record.
pub open spec fn accepted(
    s: Submitted,
    before: Map<u64, RecordView>,
    after: Map<u64, RecordView>,
    script: Seq<char>,
    time_stamp: u64,
) -> bool {
    &&& !before.contains_key(s.id)
    &&& after == before.insert(s.id, fresh_record(script, time_stamp))
    &&& s.capture.id == s.id
    &&& s.capture.info@ == fresh_record(script, time_stamp)
    &&& s.capture.phase == CapturePhase::Stdout
}

/// A status query made right after a submission finds the submitted command,
/// running and with no output yet.
pub proof fn lemma_submitted_is_found(
    s: Submitted,
    before: Map<u64, RecordView>,
    after: Map<u64, RecordView>,
    script: Seq<char>,
    time_stamp: u64,
)
    requires
        accepted(s, before, after, script, time_stamp),
    ensures
        after.contains_key(s.id),
        status_of(after, s.id) == (in_progress_label(), Seq::<u8>::empty()),
{
}

/// Two submissions, one after the other, are issued different identifiers,
/// whatever their command text.
pub proof fn lemma_identifiers_distinct(
    first: Submitted,
    second: Submitted,
    start: Map<u64, RecordView>,
    middle: Map<u64, RecordView>,
    end: Map<u64, RecordView>,
    first_script: Seq<char>,
    second_script: Seq<char>,
    first_time: u64,
    second_time: u64,
)
    requires
        accepted(first, start, middle, first_script, first_time),
        accepted(second, middle, end, second_script, second_time),
    ensures
        first.id != second.id,
{
    assert(middle.contains_key(first.id));
}

/// Registers `plan` for `script` in `store`.
fn accept(store: &mut CommandStore, script: String, plan: LaunchPlan, time_stamp: u64) -> (r: Result<
    Submitted,
    SubmitError,
>)
    requires
        old(store).wf(),
    ensures
        final(store).wf(),
        r is Err <==> old(store).exhausted(),
        match r {
            Ok(s) => accepted(s, old(store)@, final(store)@, script@, time_stamp) && s.plan
                == plan,
            Err(e) => e == SubmitError::Exhausted && final(store)@ == old(store)@,
        },
{
    let record = CommandInfo::started(script.clone(), time_stamp);
    match store.register(script, time_stamp) {
        Some(id) => Ok(Submitted { id, plan, capture: Capture::new(id, record) }),
        None => Err(SubmitError::Exhausted),
    }
}

/// Accepts a command: the executable `cmd`, with the optional argument string
/// `args`, run through `cmd` as a shell where `is_shell` is set. The record is
/// stored, as running, before the identifier is handed out.
pub fn submit_command(
    store: &mut CommandStore,
    cmd: String,
    args: Option<String>,
    is_shell: bool,
    time_stamp: u64,
) -> (r: Result<Submitted, SubmitError>)
    requires
        old(store).wf(),
    ensures
        final(store).wf(),
        r is Err <==> old(store).exhausted(),
        match r {
            Ok(s) => accepted(s, old(store)@, final(store)@, cmd@, time_stamp) && s.plan.program@
                == cmd@ && args_view(s.plan.args@) == command_args(is_shell, opt_view(args)),
            Err(e) => e == SubmitError::Exhausted && final(store)@ == old(store)@,
        },
{
    let command = Cmd::new(cmd, is_shell);
    let plan = command.launch_plan(args);
    accept(store, command.cmd, plan, time_stamp)
}

/// Accepts a script to run through the interpreter named `interpreter`,
/// letters in either case. A name off the allow-list is refused before
/// anything is stored or started.
pub fn submit_script(store: &mut CommandStore, interpreter: &str, script: String, time_stamp: u64) -> (r:
    Result<Submitted, SubmitError>)
    requires
        old(store).wf(),
    ensures
        final(store).wf(),
        match interpreter_named(interpreter@) {
            None => r == Err::<Submitted, SubmitError>(SubmitError::Refused(LaunchError::UnknownInterpreter))
                && final(store)@ == old(store)@,
            Some(i) => {
                &&& r is Err <==> old(store).exhausted()
                &&& match r {
                    Ok(s) => accepted(s, old(store)@, final(store)@, script@, time_stamp)
                        && s.plan.program@ == interpreter_program(i) && args_view(s.plan.args@)
                        == seq!["-c"@, script@],
                    Err(e) => e == SubmitError::Exhausted && final(store)@ == old(store)@,
                }
            },
        },
{
    let recorded = script.clone();
    match plan_script(interpreter, script) {
        Ok(plan) => accept(store, recorded, plan, time_stamp),
        Err(e) => Err(SubmitError::Refused(e)),
    }
}

} // verus!
