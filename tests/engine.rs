use runit::capture::{Capture, CapturePhase};
use runit::record::CommandInfo;
use runit::store::CommandStore;
use runit::submit::{submit_command, submit_script, SubmitError};
use runit::launch::LaunchError;
use runit::watchdog::{watch_step, WatchAction};

fn run_to_end(capture: &mut Capture, store: &mut CommandStore, reads: Vec<Option<Vec<u8>>>) {
    for read in reads {
        capture.on_read(read);
        store.publish(capture.id, &capture.info);
    }
}

#[test]
fn echo_hello_completes_with_its_output() {
    let mut store = CommandStore::new();
    let s = submit_command(&mut store, "echo".to_string(), Some("hello".to_string()), false, 1_000)
        .unwrap();
    assert_eq!(s.plan.program, "echo");
    assert_eq!(s.plan.args, vec!["hello".to_string()]);
    let mut capture = s.capture;
    run_to_end(
        &mut capture,
        &mut store,
        vec![Some(b"hello\n".to_vec()), Some(Vec::new()), Some(Vec::new())],
    );
    assert!(capture.is_done());
    let report = store.status(s.id);
    assert_eq!(report.state, "Completed");
    assert_eq!(report.output, b"hello\n".to_vec());
}

#[test]
fn submitted_identifier_is_found_at_once() {
    let mut store = CommandStore::new();
    let s = submit_command(&mut store, "sleep".to_string(), Some("5".to_string()), false, 7).unwrap();
    let report = store.status(s.id);
    assert_eq!(report.state, "in-progress");
    assert!(report.output.is_empty());
    let info = store.get(s.id).unwrap();
    assert_eq!(info.script, "sleep");
    assert_eq!(info.time_stamp, 7);
    assert!(!info.timed_out);
}

#[test]
fn chunks_on_stdout_complete_in_order() {
    let mut store = CommandStore::new();
    let s = submit_command(&mut store, "cat".to_string(), None, false, 0).unwrap();
    let mut capture = s.capture;
    run_to_end(
        &mut capture,
        &mut store,
        vec![
            Some(b"ab".to_vec()),
            None,
            Some(b"cd".to_vec()),
            Some(Vec::new()),
            Some(Vec::new()),
        ],
    );
    let report = store.status(s.id);
    assert_eq!(report.state, "Completed");
    assert_eq!(report.output, b"abcd".to_vec());
}

#[test]
fn stderr_only_fails_with_error_bytes() {
    let mut store = CommandStore::new();
    let s = submit_command(&mut store, "ls".to_string(), Some("/nowhere".to_string()), false, 0)
        .unwrap();
    let mut capture = s.capture;
    assert_eq!(capture.phase, CapturePhase::Stdout);
    capture.on_read(Some(Vec::new()));
    assert_eq!(capture.phase, CapturePhase::Stderr);
    assert_eq!(capture.info.state, "Completed");
    capture.on_read(Some(b"no such file\n".to_vec()));
    assert_eq!(capture.phase, CapturePhase::Done);
    store.publish(capture.id, &capture.info);
    let report = store.status(s.id);
    assert_eq!(report.state, "Failed");
    assert_eq!(report.output, b"no such file\n".to_vec());
}

#[test]
fn stderr_read_error_keeps_completed() {
    let mut capture = Capture::new(3, CommandInfo::started("true".to_string(), 0));
    capture.on_read(Some(Vec::new()));
    capture.on_read(None);
    assert!(capture.is_done());
    assert_eq!(capture.info.state, "Completed");
    assert!(capture.info.output.is_empty());
}

#[test]
fn done_capture_ignores_reads() {
    let mut capture = Capture::new(3, CommandInfo::started("true".to_string(), 0));
    capture.on_read(Some(Vec::new()));
    capture.on_read(Some(Vec::new()));
    capture.on_read(Some(b"late".to_vec()));
    assert_eq!(capture.info.state, "Completed");
    assert!(capture.info.output.is_empty());
}

#[test]
fn long_sleep_is_killed_and_flagged() {
    let mut store = CommandStore::new();
    let start: u64 = 1_700_000_000_000;
    let s = submit_command(&mut store, "sleep".to_string(), Some("120".to_string()), false, start)
        .unwrap();
    assert_eq!(watch_step(false, start, start + 60_000, 50), WatchAction::Kill);
    assert!(store.mark_timed_out(s.id));
    let mut capture = s.capture;
    run_to_end(&mut capture, &mut store, vec![Some(Vec::new()), Some(Vec::new())]);
    let info = store.get(s.id).unwrap();
    assert!(info.timed_out);
    assert_eq!(info.state, "Completed");
}

#[test]
fn watchdog_waits_within_timeout() {
    assert_eq!(watch_step(false, 0, 50_000, 50), WatchAction::Wait);
    assert_eq!(watch_step(false, 0, 50_001, 50), WatchAction::Kill);
    assert_eq!(watch_step(true, 0, 90_000, 50), WatchAction::Stop);
    assert_eq!(watch_step(false, 10_000, 5_000, 0), WatchAction::Wait);
    assert_eq!(watch_step(false, 0, u64::MAX, u64::MAX), WatchAction::Wait);
}

#[test]
fn identical_submissions_get_distinct_identifiers() {
    let mut store = CommandStore::new();
    let a = submit_command(&mut store, "date".to_string(), None, false, 5).unwrap();
    let b = submit_command(&mut store, "date".to_string(), None, false, 5).unwrap();
    assert_ne!(a.id, b.id);
    assert_eq!(store.status(a.id).state, "in-progress");
    assert_eq!(store.status(b.id).state, "in-progress");
}

#[test]
fn unknown_identifier_reports_empty() {
    let store = CommandStore::new();
    let report = store.status(424242);
    assert!(report.state.is_empty());
    assert!(report.output.is_empty());
    assert!(store.get(424242).is_none());
    assert!(!store.contains(424242));
}

#[test]
fn timeout_mark_on_unknown_identifier_changes_nothing() {
    let mut store = CommandStore::new();
    assert!(!store.mark_timed_out(9));
    assert!(!store.contains(9));
}

#[test]
fn identifiers_run_out_after_the_largest() {
    let mut store = CommandStore::new();
    store.put(u64::MAX, CommandInfo::started("x".to_string(), 0));
    let r = submit_command(&mut store, "echo".to_string(), None, false, 0);
    assert!(matches!(r, Err(SubmitError::Exhausted)));
    assert_eq!(SubmitError::Exhausted.describe(), "no command identifier left");
}

#[test]
fn put_then_register_skips_the_taken_identifier() {
    let mut store = CommandStore::new();
    store.put(5, CommandInfo::started("x".to_string(), 0));
    let s = submit_command(&mut store, "echo".to_string(), None, false, 0).unwrap();
    assert_ne!(s.id, 5);
    assert_eq!(store.get(5).unwrap().script, "x");
}

#[test]
fn launch_failure_is_recorded() {
    let mut store = CommandStore::new();
    let s = submit_command(&mut store, "no-such-program".to_string(), None, false, 0).unwrap();
    assert!(store.mark_launch_failed(s.id, &b"not found".to_vec()));
    let report = store.status(s.id);
    assert_eq!(report.state, "Failed");
    assert_eq!(report.output, b"not found".to_vec());
}

#[test]
fn shell_flag_passes_dash_c() {
    let mut store = CommandStore::new();
    let s = submit_command(&mut store, "sh".to_string(), Some("echo hi | wc -c".to_string()), true, 0)
        .unwrap();
    assert_eq!(s.plan.program, "sh");
    assert_eq!(s.plan.args, vec!["-c".to_string(), "echo hi | wc -c".to_string()]);
}

#[test]
fn shell_flag_without_args_passes_nothing() {
    let mut store = CommandStore::new();
    let s = submit_command(&mut store, "bash".to_string(), None, true, 0).unwrap();
    assert!(s.plan.args.is_empty());
}

#[test]
fn interpreter_names_match_in_any_case() {
    let mut store = CommandStore::new();
    let s = submit_script(&mut store, "BaSh", "echo ok".to_string(), 3).unwrap();
    assert_eq!(s.plan.program, "bash");
    assert_eq!(s.plan.args, vec!["-c".to_string(), "echo ok".to_string()]);
    assert_eq!(store.get(s.id).unwrap().script, "echo ok");
    let t = submit_script(&mut store, "SH", "ls".to_string(), 3).unwrap();
    assert_eq!(t.plan.program, "sh");
}

#[test]
fn unknown_interpreter_is_refused_before_anything_is_stored() {
    let mut store = CommandStore::new();
    let r = submit_script(&mut store, "zsh", "echo".to_string(), 0);
    assert!(matches!(r, Err(SubmitError::Refused(LaunchError::UnknownInterpreter))));
    assert!(!store.contains(0));
    let r = submit_script(&mut store, "bashh", "echo".to_string(), 0);
    assert!(r.is_err());
    assert_eq!(
        SubmitError::Refused(LaunchError::UnknownInterpreter).describe(),
        "unsupported interpreter"
    );
}
