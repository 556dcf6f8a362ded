//! Tests for the library: the command value and its display form, the
//! run-mode and watch-mode decisions, the pattern matcher with real
//! regular expressions, and the error-to-exit-code mapping.

use alert::cmd_run::run_decision;
use alert::cmd_watch::{deadline_ms, watch_notification, watch_result, watch_step, RunResult,
                       WatchConfig};
use alert::command::Command;
use alert::errors::Error;
use alert::notify::console::{console_color, console_label};
use alert::notify::notifyapp::NotifyAppNotifier;
use alert::notify::pushover::{pushover_sound, PushoverNotifier};
use alert::notify::{choose_notifier, Notification, NotifierKind, Outcome};
use alert::output::collect_output_lines;
use alert::pattern::classify;
use alert::util::parse_u64;

fn echo(args: &[&str]) -> Command {
    Command {
        cmd: "echo".to_owned(),
        args: args.iter().map(|a| a.to_string()).collect(),
    }
}

#[test]
fn commands_are_escaped_for_display() {
    let cmd = Command {
        cmd: "echo".to_owned(),
        args: vec!["Hello world".to_owned()],
    };
    assert_eq!(cmd.display(), "echo \'Hello world\'");
}

#[test]
fn from_arguments_splits_program_and_args() {
    let cmd = Command::from_arguments(vec![
        "echo".to_owned(),
        "Hello world".to_owned(),
        "-n".to_owned(),
    ])
    .expect("a non-empty argument list makes a command");
    assert_eq!(cmd.cmd, "echo");
    assert_eq!(cmd.args, vec!["Hello world".to_owned(), "-n".to_owned()]);
    assert_eq!(cmd.display(), "echo 'Hello world' -n");
}

#[test]
fn from_arguments_rejects_an_empty_list() {
    let r = Command::from_arguments(vec![]);
    assert!(matches!(r, Err(Error::NoCommandSpecified)));
}

#[test]
fn display_keeps_safe_words_unquoted() {
    let cmd = echo(&["--features=default", "a,b.c+d/e"]);
    assert_eq!(cmd.display(), "echo --features=default a,b.c+d/e");
}

#[test]
fn display_escapes_quotes_and_bangs() {
    let cmd = echo(&["it's here!"]);
    assert_eq!(cmd.display(), "echo 'it'\\''s here'\\!''");
}

#[test]
fn run_mode_success_notifies_success_and_exits_zero() {
    let (notification, result) = run_decision(
        Command {
            cmd: "true".to_owned(),
            args: vec![],
        },
        true,
        Some(0),
    );
    assert_eq!(notification.outcome(), Outcome::Success);
    assert_eq!(notification.title(), "Command succeeded");
    assert_eq!(notification.message(), "true");
    assert!(result.is_ok());
}

#[test]
fn run_mode_failure_notifies_failure_and_keeps_the_exit_code() {
    let (notification, result) = run_decision(
        Command {
            cmd: "false".to_owned(),
            args: vec![],
        },
        false,
        Some(42),
    );
    assert_eq!(notification.outcome(), Outcome::Failure);
    assert_eq!(notification.title(), "Command failed");
    assert_eq!(notification.message(), "false");
    let err = result.expect_err("a failed run must report an error");
    assert!(err.already_notified());
    assert_eq!(err.exit_code(), 42);
}

#[test]
fn run_mode_failure_without_a_status_exits_one() {
    let (_, result) = run_decision(
        Command {
            cmd: "false".to_owned(),
            args: vec![],
        },
        false,
        None,
    );
    assert_eq!(result.expect_err("must fail").exit_code(), 1);
}

#[test]
fn run_mode_classification_is_idempotent() {
    let first = run_decision(echo(&[]), true, Some(0));
    let second = run_decision(echo(&[]), true, Some(0));
    assert_eq!(first.0.outcome(), second.0.outcome());
    assert_eq!(first.1.is_ok(), second.1.is_ok());
}

fn watch_config(success: Option<&str>, failure: Option<&str>, command: Command) -> WatchConfig {
    WatchConfig::new(
        success.map(|s| s.to_string()),
        failure.map(|f| f.to_string()),
        None,
        None,
        command,
    )
    .expect("patterns must compile")
}

fn completed(stdout: &[u8], stderr: &[u8]) -> Option<RunResult> {
    Some(RunResult {
        success: true,
        exit_status: Some(0),
        stdout: stdout.to_vec(),
        stderr: stderr.to_vec(),
    })
}

#[test]
fn watch_matches_success_pattern() {
    let cfg = watch_config(Some("good"), None, echo(&["good"]));
    let step = watch_step(&cfg, &completed(b"good\n", b""), 0, None);
    assert_eq!(step, Some(Outcome::Success));
    let notification = watch_notification(Outcome::Success, cfg.command.clone());
    assert_eq!(notification.title(), "Command succeeded");
    assert_eq!(notification.message(), "echo good");
    assert!(watch_result(Outcome::Success).is_ok());
}

#[test]
fn watch_matches_failure_pattern() {
    let cfg = watch_config(None, Some("bad"), echo(&["bad"]));
    let step = watch_step(&cfg, &completed(b"bad\n", b""), 0, None);
    assert_eq!(step, Some(Outcome::Failure));
    let notification = watch_notification(Outcome::Failure, cfg.command.clone());
    assert_eq!(notification.title(), "Command failed");
    assert_eq!(notification.message(), "echo bad");
    let err = watch_result(Outcome::Failure).expect_err("failure ends the loop with an error");
    assert!(err.already_notified());
    assert_eq!(err.exit_code(), 1);
}

#[test]
fn watch_times_out_after_the_deadline_and_not_before() {
    let cfg = watch_config(Some("never"), None, echo(&["quiet"]));
    let deadline = deadline_ms(0, Some(1));
    assert_eq!(deadline, Some(1000));
    let before = watch_step(&cfg, &completed(b"quiet\n", b""), 999, deadline);
    assert_eq!(before, None);
    let after = watch_step(&cfg, &completed(b"quiet\n", b""), 1000, deadline);
    assert_eq!(after, Some(Outcome::Timeout));
    let notification = watch_notification(Outcome::Timeout, cfg.command.clone());
    assert_eq!(notification.title(), "Command timed out");
    assert_eq!(watch_result(Outcome::Timeout).expect_err("timeout fails").exit_code(), 1);
}

#[test]
fn watch_failure_beats_success_in_the_same_batch() {
    let cfg = watch_config(Some("deployed"), Some("error"), echo(&[]));
    let step = watch_step(&cfg, &completed(b"deployed with error\n", b""), 0, None);
    assert_eq!(step, Some(Outcome::Failure));
}

#[test]
fn watch_failure_is_found_in_stderr_too() {
    let cfg = watch_config(None, Some("panic"), echo(&[]));
    let step = watch_step(&cfg, &completed(b"all fine\n", b"thread panicked\n"), 0, None);
    assert_eq!(step, Some(Outcome::Failure));
}

#[test]
fn watch_without_patterns_only_times_out() {
    let cfg = watch_config(None, None, echo(&["anything"]));
    assert_eq!(watch_step(&cfg, &completed(b"anything\n", b""), 5, None), None);
    assert_eq!(
        watch_step(&cfg, &completed(b"anything\n", b""), 5, Some(5)),
        Some(Outcome::Timeout)
    );
}

#[test]
fn watch_tolerates_a_failed_launch() {
    let cfg = watch_config(Some("good"), None, echo(&["good"]));
    assert_eq!(watch_step(&cfg, &None, 0, Some(1000)), None);
    // A failed launch skips even the deadline check; the loop just waits
    // for the next interval.
    assert_eq!(watch_step(&cfg, &None, 5000, Some(1000)), None);
}

#[test]
fn watch_config_applies_the_default_interval() {
    let cfg = watch_config(None, None, echo(&[]));
    assert_eq!(cfg.interval, 2);
    let cfg = WatchConfig::new(None, None, Some(7), Some(5), echo(&[])).unwrap();
    assert_eq!(cfg.interval, 5);
    assert_eq!(cfg.timeout, Some(7));
}

#[test]
fn watch_config_rejects_a_malformed_pattern() {
    let r = WatchConfig::new(Some("(".to_string()), None, None, None, echo(&[]));
    assert!(matches!(r, Err(Error::Regex { .. })));
    let r = WatchConfig::new(None, Some("[z-a]".to_string()), None, None, echo(&[]));
    assert!(matches!(r, Err(Error::Regex { .. })));
}

#[test]
fn classification_uses_real_regular_expressions() {
    let cfg = watch_config(Some("go+d"), None, echo(&[]));
    let lines = collect_output_lines(&b"gd\n".to_vec(), &b"".to_vec());
    assert_eq!(classify(&cfg.failure_pattern, &cfg.success_pattern, &lines), None);
    let lines = collect_output_lines(&b"goood\n".to_vec(), &b"".to_vec());
    assert_eq!(
        classify(&cfg.failure_pattern, &cfg.success_pattern, &lines),
        Some(Outcome::Success)
    );
}

#[test]
fn output_lines_split_and_order_stdout_before_stderr() {
    let lines = collect_output_lines(&b"one\ntwo\r\n".to_vec(), &b"three".to_vec());
    assert_eq!(lines, vec!["one".to_string(), "two".to_string(), "three".to_string()]);
    let empty = collect_output_lines(&b"".to_vec(), &b"".to_vec());
    assert!(empty.is_empty());
}

#[test]
fn notifications_carry_their_outcome_and_command() {
    let n = Notification::new(Outcome::Timeout);
    assert_eq!(n.outcome(), Outcome::Timeout);
    assert_eq!(n.message(), "");
    let n = n.command(echo(&["x"]));
    assert_eq!(n.outcome(), Outcome::Timeout);
    assert_eq!(n.title(), "Command timed out");
    assert_eq!(n.message(), "echo x");
}

#[test]
fn console_lines_are_labeled_and_colored_by_outcome() {
    let success = Notification::new(Outcome::Success).command(echo(&["good"]));
    assert_eq!(console_label(&success), "Command succeeded:");
    assert_eq!(console_color(success.outcome()), "green");
    let failure = Notification::new(Outcome::Failure);
    assert_eq!(console_label(&failure), "Command failed:");
    assert_eq!(console_color(failure.outcome()), "red");
    let timeout = Notification::new(Outcome::Timeout);
    assert_eq!(console_label(&timeout), "Command timed out:");
    assert_eq!(console_color(timeout.outcome()), "red");
}

#[test]
fn pushover_messages_carry_the_full_form() {
    let notifier = PushoverNotifier::new("app-token".to_string(), "user-key".to_string());
    let notification = Notification::new(Outcome::Failure).command(echo(&["bad"]));
    let params = notifier.pushover_params(&notification);
    assert_eq!(
        params,
        vec![
            ("token".to_string(), "app-token".to_string()),
            ("user".to_string(), "user-key".to_string()),
            ("title".to_string(), "Command failed".to_string()),
            ("sound".to_string(), "tugboat".to_string()),
            ("message".to_string(), "echo bad".to_string()),
        ]
    );
    assert_eq!(pushover_sound(Outcome::Success), "classical");
    assert_eq!(pushover_sound(Outcome::Failure), "tugboat");
    assert_eq!(pushover_sound(Outcome::Timeout), "tugboat");
}

#[test]
fn notify_app_messages_carry_the_full_query() {
    let notifier = NotifyAppNotifier::new("registration".to_string());
    let notification = Notification::new(Outcome::Success).command(echo(&["good"]));
    let params = notifier.notify_params(&notification);
    assert_eq!(
        params,
        vec![
            ("to".to_string(), "registration".to_string()),
            ("title".to_string(), "Command succeeded".to_string()),
            ("text".to_string(), "echo good".to_string()),
        ]
    );
}

#[test]
fn outcome_from_bool_maps_both_ways() {
    assert_eq!(Outcome::from_bool(true), Outcome::Success);
    assert_eq!(Outcome::from_bool(false), Outcome::Failure);
}

#[test]
fn choose_notifier_knows_every_backend_and_its_default() {
    assert_eq!(choose_notifier(None).unwrap(), NotifierKind::Pushover);
    assert_eq!(choose_notifier(Some("console".to_string())).unwrap(), NotifierKind::Console);
    assert_eq!(choose_notifier(Some("desktop".to_string())).unwrap(), NotifierKind::Desktop);
    assert_eq!(choose_notifier(Some("notifyapp".to_string())).unwrap(), NotifierKind::NotifyApp);
    assert_eq!(choose_notifier(Some("pushover".to_string())).unwrap(), NotifierKind::Pushover);
    let r = choose_notifier(Some("carrier-pigeon".to_string()));
    match r {
        Err(Error::UnknownNotifier { name }) => assert_eq!(name, "carrier-pigeon"),
        other => panic!("expected an unknown-notifier error, got {:?}", other),
    }
}

#[test]
fn parse_u64_accepts_numerals_and_rejects_the_rest() {
    assert_eq!(parse_u64("2").unwrap(), 2);
    assert_eq!(parse_u64("+10").unwrap(), 10);
    assert_eq!(parse_u64("0").unwrap(), 0);
    assert_eq!(parse_u64("18446744073709551615").unwrap(), u64::MAX);
    assert!(matches!(parse_u64(""), Err(Error::ParseInt { .. })));
    assert!(matches!(parse_u64("+"), Err(Error::ParseInt { .. })));
    assert!(matches!(parse_u64("2s"), Err(Error::ParseInt { .. })));
    assert!(matches!(parse_u64("-1"), Err(Error::ParseInt { .. })));
    assert!(matches!(parse_u64("18446744073709551616"), Err(Error::ParseInt { .. })));
}

#[test]
fn errors_describe_themselves() {
    assert_eq!(Error::NoCommandSpecified.describe(), "No command to run was specified");
    assert_eq!(
        Error::UnknownNotifier { name: "smoke".to_string() }.describe(),
        "Unknown notifier: smoke"
    );
    assert_eq!(
        Error::CouldNotRun {
            cmd: echo(&["Hello world"]),
            message: "boom".to_string(),
        }
        .describe(),
        "Could not run echo 'Hello world' (boom)"
    );
    assert_eq!(
        Error::CouldNotSendNotification { service: "pushover.net".to_string() }.describe(),
        "Could not send notification using pushover.net"
    );
    assert_eq!(
        Error::Env {
            name: "PUSHOVER_TOKEN".to_string(),
            message: "environment variable not found".to_string(),
        }
        .describe(),
        "Could not read environment variable PUSHOVER_TOKEN (environment variable not found)"
    );
    assert_eq!(
        Error::CouldNotWriteToStdio {
            dest: "stdout".to_string(),
            message: "broken pipe".to_string(),
        }
        .describe(),
        "Could not write to stdout (broken pipe)"
    );
    assert_eq!(
        Error::CommandFailedOrTimedOut { status: Some(2) }.describe(),
        "Command failed or timed out"
    );
    // Wrapped collaborator messages pass through as they stand.
    assert_eq!(Error::Desktop { message: "no bus".to_string() }.describe(), "no bus");
    assert_eq!(Error::Reqwest { message: "connection refused".to_string() }.describe(),
               "connection refused");
    assert_eq!(Error::Url { message: "relative URL".to_string() }.describe(), "relative URL");
    assert_eq!(Error::Regex { message: "unclosed group".to_string() }.describe(),
               "unclosed group");
    assert_eq!(Error::ParseInt { message: "invalid digit found in string".to_string() }
                   .describe(),
               "invalid digit found in string");
}

#[test]
fn exit_codes_follow_the_outcome() {
    assert_eq!(Error::CommandFailedOrTimedOut { status: Some(3) }.exit_code(), 3);
    assert_eq!(Error::CommandFailedOrTimedOut { status: None }.exit_code(), 1);
    assert_eq!(Error::NoCommandSpecified.exit_code(), 1);
    assert!(Error::CommandFailedOrTimedOut { status: Some(3) }.already_notified());
    assert!(!Error::NoCommandSpecified.already_notified());
}
