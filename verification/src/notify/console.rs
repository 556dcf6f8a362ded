//! A mostly-useless notifier which prints to standard error.  This largely
//! defeats the purpose of this tool, but it's handy for integration testing
//! the CLI.

use vstd::prelude::*;
use vstd::string::StringExecFns;
use colored::Colorize;
use std::io::Write;
use crate::errors::Error;
use super::{title_spec, Notification, Notifier, Outcome};

verus! {

/// Notify the user of an event using the console.
pub struct ConsoleNotifier;

/// The label of the console line: the notification's title with a colon
/// appended.
pub fn console_label(notification: &Notification) -> (r: String)
    ensures
        r@ == title_spec(notification.spec_outcome()) + ":"@,
{
    let mut label = notification.title();
    label.append(":");
    label
}

/// The color of the console label: green for a success, red for a
/// failure or a timeout.
pub fn console_color(outcome: Outcome) -> (r: &'static str)
    ensures
        outcome == Outcome::Success ==> r@ == "green"@,
        outcome != Outcome::Success ==> r@ == "red"@,
{
    match outcome {
        Outcome::Success => "green",
        Outcome::Failure | Outcome::Timeout => "red",
    }
}

/// Relies on `colored::Colorize` and the standard error stream: prints
/// one line of the given label (in the given color, bold) and message
/// (bold) to the diagnostic stream.
#[verifier::external_body]
fn print_colored(label: &str, message: &str, color: &str) -> (r: Result<(), String>)
{
    writeln!(std::io::stderr(), "{} {}", label.color(color).bold(), message.bold()).map_err(
        |e| format!("{}", e),
    )
}

impl Notifier for ConsoleNotifier {
    fn send(&self, notification: &Notification) -> (r: Result<(), Error>)
        ensures
            r matches Err(e) ==> (e matches Error::CouldNotWriteToStdio { dest, .. } && dest@
                == "stderr"@),
    {
        let label = console_label(notification);
        let color = console_color(notification.outcome());
        let message = notification.message();
        match print_colored(label.as_str(), message.as_str(), color) {
            Ok(()) => Ok(()),
            Err(message) => Err(
                Error::CouldNotWriteToStdio { dest: String::from_str("stderr"), message },
            ),
        }
    }
}

} // verus!
