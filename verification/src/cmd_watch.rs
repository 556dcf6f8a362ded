//! The watch mode: the polling state machine that repeatedly runs a
//! command, classifies its output, tracks a deadline, and converts the
//! terminal condition into exactly one notification and one result.
//!
//! The functions here make every decision of the loop; the thin binary
//! around the library supplies what they cannot do themselves — spawning
//! the subprocess, echoing its output, sleeping between runs and reading
//! the clock — and feeds the results back in as plain values.

use vstd::prelude::*;
use crate::command::Command;
use crate::errors::{exit_code_spec, Error};
use crate::notify::{Notification, Outcome};
use crate::output::{collect_output_lines, output_lines_spec};
use crate::pattern::{classify, classify_spec, opt_matches, regex_valid, Pattern};

verus! {

/// Seconds to wait between runs when the user gives no interval.
pub const DEFAULT_INTERVAL_SECS: u64 = 2;

/// What one execution of the watched command produced.
pub struct RunResult {
    /// Whether the platform reported the process as successful.
    pub success: bool,
    /// The exit code, when the platform reports one (absent when the
    /// process was terminated by a signal or no code is available).
    pub exit_status: Option<i32>,
    /// Everything the process wrote to its standard output.
    pub stdout: Vec<u8>,
    /// Everything the process wrote to its standard error.
    pub stderr: Vec<u8>,
}

/// The read-only configuration of one watch session.
pub struct WatchConfig {
    /// Report success when a line matches this pattern.
    pub success_pattern: Option<Pattern>,
    /// Report failure when a line matches this pattern.
    pub failure_pattern: Option<Pattern>,
    /// Give up after this many seconds, when configured.
    pub timeout: Option<u64>,
    /// Seconds to wait between runs.
    pub interval: u64,
    /// The command to run and watch.
    pub command: Command,
}

impl WatchConfig {
    /// Build the configuration for one watch session, compiling the
    /// optional success and failure patterns once, up front: a malformed
    /// pattern is a configuration-time fatal error, never a per-iteration
    /// one.  An absent interval falls back to the default.
    pub fn new(
        success: Option<String>,
        failure: Option<String>,
        timeout: Option<u64>,
        interval: Option<u64>,
        command: Command,
    ) -> (r: Result<WatchConfig, Error>)
        ensures
            r is Ok <==> ((success matches Some(s) ==> regex_valid(s@)) && (failure matches Some(
                f,
            ) ==> regex_valid(f@))),
            r matches Err(e) ==> e is Regex,
            r matches Ok(cfg) ==> {
                &&& (success is None ==> cfg.success_pattern is None)
                &&& (success matches Some(s) ==> cfg.success_pattern matches Some(p) && p.src()
                    == s@)
                &&& (failure is None ==> cfg.failure_pattern is None)
                &&& (failure matches Some(f) ==> cfg.failure_pattern matches Some(p) && p.src()
                    == f@)
                &&& cfg.timeout == timeout
                &&& cfg.interval == (match interval {
                    Some(n) => n,
                    None => DEFAULT_INTERVAL_SECS,
                })
                &&& cfg.command == command
            },
    {
        let success_pattern = match success {
            Some(s) => match Pattern::new(s) {
                Ok(p) => Some(p),
                Err(message) => {
                    return Err(Error::Regex { message });
                },
            },
            None => None,
        };
        let failure_pattern = match failure {
            Some(f) => match Pattern::new(f) {
                Ok(p) => Some(p),
                Err(message) => {
                    return Err(Error::Regex { message });
                },
            },
            None => None,
        };
        let interval_secs = match interval {
            Some(n) => n,
            None => DEFAULT_INTERVAL_SECS,
        };
        Ok(
            WatchConfig {
                success_pattern,
                failure_pattern,
                timeout,
                interval: interval_secs,
                command,
            },
        )
    }
}

/// The absolute deadline of a session: the start instant plus the
/// timeout, fixed once before the loop's first run; no deadline when no
/// timeout was configured.
pub fn deadline_ms(start_ms: u64, timeout_secs: Option<u64>) -> (r: Option<u64>)
    requires
        timeout_secs matches Some(t) ==> start_ms + t * 1000 <= u64::MAX,
    ensures
        timeout_secs is None ==> r is None,
        timeout_secs matches Some(t) ==> r matches Some(d) && d == start_ms + t * 1000,
{
    match timeout_secs {
        Some(t) => Some(start_ms + t * 1000),
        None => None,
    }
}

/// One turn of the watch loop's state machine, after the command was run
/// once (or failed to launch): the terminal outcome it decides, if any.
///
/// A failure-pattern match anywhere in the output beats a success-pattern
/// match; the deadline is consulted only after a completed run matched
/// neither pattern, so a long-running invocation is never cut short; a
/// failed launch decides nothing and is simply retried on the next
/// interval.
pub open spec fn watch_step_spec(
    config: WatchConfig,
    run: Option<RunResult>,
    now_ms: u64,
    deadline: Option<u64>,
) -> Option<Outcome> {
    match run {
        None => None,
        Some(result) => match classify_spec(
            config.failure_pattern,
            config.success_pattern,
            output_lines_spec(result.stdout@, result.stderr@),
        ) {
            Some(outcome) => Some(outcome),
            None => if deadline matches Some(d) && now_ms >= d {
                Some(Outcome::Timeout)
            } else {
                None
            },
        },
    }
}

/// Decide one iteration of the watch loop.  `run` is what the subprocess
/// runner produced, or nothing when the process could not be started;
/// `now_ms` is the clock reading after the run; `deadline` is the
/// session's fixed deadline, if any.  Returns the terminal outcome when
/// one fired, or nothing when the loop must sleep and run again.
pub fn watch_step(
    config: &WatchConfig,
    run: &Option<RunResult>,
    now_ms: u64,
    deadline: Option<u64>,
) -> (r: Option<Outcome>)
    ensures
        r == watch_step_spec(*config, *run, now_ms, deadline),
{
    match run {
        None => None,
        Some(result) => {
            let lines = collect_output_lines(&result.stdout, &result.stderr);
            match classify(&config.failure_pattern, &config.success_pattern, &lines) {
                Some(outcome) => Some(outcome),
                None => match deadline {
                    Some(d) => if now_ms >= d {
                        Some(Outcome::Timeout)
                    } else {
                        None
                    },
                    None => None,
                },
            }
        },
    }
}

/// A run whose output matches the failure pattern ends the watch at that
/// very iteration, as a failure — whatever the clock says and whether or
/// not the success pattern matches too.
pub proof fn lemma_failure_ends_the_watch(
    config: WatchConfig,
    result: RunResult,
    now_ms: u64,
    deadline: Option<u64>,
)
    requires
        opt_matches(config.failure_pattern, output_lines_spec(result.stdout@, result.stderr@)),
    ensures
        watch_step_spec(config, Some(result), now_ms, deadline) == Some(Outcome::Failure),
{
}

/// A run whose output matches the success pattern, and nowhere the
/// failure pattern, ends the watch at that very iteration, as a success —
/// even when the deadline has already passed.
pub proof fn lemma_success_ends_the_watch(
    config: WatchConfig,
    result: RunResult,
    now_ms: u64,
    deadline: Option<u64>,
)
    requires
        opt_matches(config.success_pattern, output_lines_spec(result.stdout@, result.stderr@)),
        !opt_matches(config.failure_pattern, output_lines_spec(result.stdout@, result.stderr@)),
    ensures
        watch_step_spec(config, Some(result), now_ms, deadline) == Some(Outcome::Success),
{
}

/// The watch never times out early: a timeout decision means a deadline
/// was configured and the clock had reached it.
pub proof fn lemma_no_early_timeout(
    config: WatchConfig,
    run: Option<RunResult>,
    now_ms: u64,
    deadline: Option<u64>,
)
    requires
        watch_step_spec(config, run, now_ms, deadline) == Some(Outcome::Timeout),
    ensures
        deadline matches Some(d) && now_ms >= d,
{
}

/// The one notification owed when the loop leaves its running state:
/// it reports the terminal outcome and names the watched command.
pub fn watch_notification(outcome: Outcome, command: Command) -> (r: Notification)
    ensures
        r.spec_outcome() == outcome,
        r.spec_command() == Some(command),
{
    Notification::new(outcome).command(command)
}

/// The result the watch loop returns for a terminal outcome: success
/// reports `Ok`; failure and timeout report the already-notified error,
/// which preserves no exit status (there is no single representative
/// status across iterations) and so maps to exit code 1.
pub fn watch_result(outcome: Outcome) -> (r: Result<(), Error>)
    ensures
        outcome == Outcome::Success ==> r is Ok,
        outcome != Outcome::Success ==> (r matches Err(e) && e matches
            Error::CommandFailedOrTimedOut { status } && status is None && exit_code_spec(&e)
            == 1),
{
    match outcome {
        Outcome::Success => Ok(()),
        Outcome::Failure | Outcome::Timeout => Err(
            Error::CommandFailedOrTimedOut { status: None },
        ),
    }
}

} // verus!
