use runit::launch::{eq_ignoring_case, Cmd, Interpreter};
use runit::record::CommandInfo;
use runit::settings::{parse_u64, port_from_setting, timeout_from_setting};
use runit::suggest::{command_from_words, suggestion_for, Suggestion};

#[test]
fn command_info_new_keeps_fields() {
    let c = CommandInfo::new("ls".to_string(), vec![1, 2], "Failed".to_string(), 99, true);
    assert_eq!(c.script, "ls");
    assert_eq!(c.output, vec![1, 2]);
    assert_eq!(c.state, "Failed");
    assert_eq!(c.time_stamp, 99);
    assert!(c.timed_out);
    let d = c.snapshot();
    assert_eq!(d.output, vec![1, 2]);
    assert_eq!(d.state, "Failed");
}

#[test]
fn started_record_is_in_progress() {
    let c = CommandInfo::started("ls".to_string(), 12);
    assert_eq!(c.state, "in-progress");
    assert!(c.output.is_empty());
    assert!(!c.timed_out);
}

#[test]
fn cmd_plans_each_mode() {
    let c = Cmd::new("echo".to_string(), false);
    let p = c.launch_plan(Some("a b".to_string()));
    assert_eq!(p.program, "echo");
    assert_eq!(p.args, vec!["a b".to_string()]);
    let p = c.launch_plan(None);
    assert!(p.args.is_empty());
}

#[test]
fn parse_reads_decimal_numbers() {
    assert_eq!(parse_u64("42"), Some(42));
    assert_eq!(parse_u64("+7"), Some(7));
    assert_eq!(parse_u64("007"), Some(7));
    assert_eq!(parse_u64("18446744073709551615"), Some(u64::MAX));
    assert_eq!(parse_u64("18446744073709551616"), None);
    assert_eq!(parse_u64("99999999999999999999x"), None);
    assert_eq!(parse_u64(""), None);
    assert_eq!(parse_u64("+"), None);
    assert_eq!(parse_u64("-1"), None);
    assert_eq!(parse_u64("1 2"), None);
    assert_eq!(parse_u64("12a"), None);
}

#[test]
fn timeout_setting_falls_back_to_default() {
    assert_eq!(timeout_from_setting(None), 50);
    assert_eq!(timeout_from_setting(Some("120")), 120);
    assert_eq!(timeout_from_setting(Some("soon")), 50);
    assert_eq!(timeout_from_setting(Some("")), 50);
}

#[test]
fn port_setting_must_fit_sixteen_bits() {
    assert_eq!(port_from_setting(None), 48786);
    assert_eq!(port_from_setting(Some("8080")), 8080);
    assert_eq!(port_from_setting(Some("65535")), 65535);
    assert_eq!(port_from_setting(Some("65536")), 48786);
    assert_eq!(port_from_setting(Some("http")), 48786);
}

#[test]
fn case_insensitive_comparison() {
    assert!(eq_ignoring_case("BASH", "bash"));
    assert!(eq_ignoring_case("bash", "BaSh"));
    assert!(!eq_ignoring_case("bash", "bas"));
    assert!(!eq_ignoring_case("[", "{"));
    assert!(eq_ignoring_case("", ""));
    assert!(Interpreter::from_name("Sh").is_ok());
    assert!(Interpreter::from_name("fish").is_err());
}

#[test]
fn suggestion_splits_program_and_arguments() {
    match suggestion_for("  ls   -la\t/tmp \n", true) {
        Suggestion::Run { cmd, args } => {
            assert_eq!(cmd, "ls");
            assert_eq!(args, Some("-la /tmp".to_string()));
        }
        _ => panic!("expected a command"),
    }
    match suggestion_for("uptime", true) {
        Suggestion::Run { cmd, args } => {
            assert_eq!(cmd, "uptime");
            assert_eq!(args, None);
        }
        _ => panic!("expected a command"),
    }
}

#[test]
fn suggestion_without_words_is_empty() {
    assert!(matches!(suggestion_for(" \t ", true), Suggestion::Empty));
    assert!(matches!(suggestion_for("", true), Suggestion::Empty));
}

#[test]
fn suggestion_not_runnable_is_refused() {
    assert!(matches!(suggestion_for("ls", false), Suggestion::NotRunnable));
}

#[test]
fn words_join_with_single_spaces() {
    let words = vec!["git".to_string(), "log".to_string(), "-n".to_string(), "3".to_string()];
    match command_from_words(&words) {
        Suggestion::Run { cmd, args } => {
            assert_eq!(cmd, "git");
            assert_eq!(args, Some("log -n 3".to_string()));
        }
        _ => panic!("expected a command"),
    }
    assert!(matches!(command_from_words(&Vec::new()), Suggestion::Empty));
}
