//! The run mode: execute the command once, report how it went, and let
//! the entry point exit with the child's own code.

use vstd::prelude::*;
use crate::command::Command;
use crate::errors::{exit_code_spec, Error};
use crate::notify::{Notification, Outcome};

verus! {

/// The run-mode decision, taken after the one execution completed:
/// exactly one notification is owed, reporting success when the platform
/// did and failure otherwise; on failure the result carries the child's
/// exit status, so the process exits with that same code (or 1 when the
/// child left none).
pub fn run_decision(command: Command, success: bool, exit_status: Option<i32>) -> (r: (
    Notification,
    Result<(), Error>,
))
    ensures
        r.0.spec_outcome() == (if success { Outcome::Success } else { Outcome::Failure }),
        r.0.spec_command() == Some(command),
        success ==> r.1 is Ok,
        !success ==> (r.1 matches Err(e) && e matches Error::CommandFailedOrTimedOut { status }
            && status == exit_status && exit_code_spec(&e) == (match exit_status {
            Some(code) => code as int,
            None => 1,
        })),
{
    let notification = Notification::new(Outcome::from_bool(success)).command(command);
    let result: Result<(), Error> = if success {
        Ok(())
    } else {
        Err(Error::CommandFailedOrTimedOut { status: exit_status })
    };
    (notification, result)
}

/// Idempotence of the classification: the decision is a function of the
/// reported status alone, so repeating a run that reports the same
/// status always yields the same outcome.
pub proof fn lemma_run_classification_deterministic(first: bool, second: bool)
    requires
        first == second,
    ensures
        (if first { Outcome::Success } else { Outcome::Failure }) == (if second {
            Outcome::Success
        } else {
            Outcome::Failure
        }),
{
}

} // verus!
