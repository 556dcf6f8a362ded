//! The error taxonomy, and how the entry point turns an error into a
//! process exit code.

use vstd::prelude::*;
use vstd::string::StringExecFns;
use crate::command::{display_spec, Command};

verus! {

/// An error that occurs while running the tool.
///
/// Errors that originate in an outside collaborator (the regex engine, the
/// HTTP client, the desktop notification service) carry the collaborator's
/// message as plain text.
#[derive(Clone, Debug)]
pub enum Error {
    /// The desktop notification service failed.
    Desktop { message: String },
    /// A numeric command-line option could not be parsed.
    ParseInt { message: String },
    /// A success or failure pattern was not a valid regular expression.
    Regex { message: String },
    /// The HTTP client failed before a response arrived.
    Reqwest { message: String },
    /// A notification URL could not be built.
    Url { message: String },
    /// The user was already notified of a failure, so we don't need to
    /// print a visible message, but we do need to preserve our exit
    /// status.
    CommandFailedOrTimedOut { status: Option<i32> },
    /// An external command could not be started or waited on.
    CouldNotRun { cmd: Command, message: String },
    /// A notification backend reported that delivery failed.
    CouldNotSendNotification { service: String },
    /// We could not write to either stdout or stderr.
    CouldNotWriteToStdio { dest: String, message: String },
    /// We could not read an environment variable.
    Env { name: String, message: String },
    /// No command to run was specified.
    NoCommandSpecified,
    /// The user requested an unknown notification backend.
    UnknownNotifier { name: String },
}

/// The exit code the process owes for an error: the child's own exit code
/// when the failure stems from the monitored command and that code is
/// known, and `1` in every other case.
pub open spec fn exit_code_spec(e: &Error) -> int {
    match e {
        Error::CommandFailedOrTimedOut { status: Some(code) } => *code as int,
        _ => 1,
    }
}

impl Error {
    /// Map this error to the process exit code the entry point must use.
    pub fn exit_code(&self) -> (c: i32)
        ensures
            c as int == exit_code_spec(self),
    {
        match self {
            Error::CommandFailedOrTimedOut { status: Some(code) } => *code,
            _ => 1,
        }
    }

    /// True when the user has already seen a notification for this error,
    /// so the entry point must not print a duplicate message and only owes
    /// the exit code.
    pub fn already_notified(&self) -> (b: bool)
        ensures
            b == (self is CommandFailedOrTimedOut),
    {
        match self {
            Error::CommandFailedOrTimedOut { .. } => true,
            _ => false,
        }
    }

    /// The human-readable description of this error, as the entry point
    /// prints it.  Errors that wrap a collaborator's message show that
    /// message as it stands.
    pub fn describe(&self) -> (r: String)
        ensures
            r@ == describe_spec(self),
    {
        match self {
            Error::Desktop { message } => message.clone(),
            Error::ParseInt { message } => message.clone(),
            Error::Regex { message } => message.clone(),
            Error::Reqwest { message } => message.clone(),
            Error::Url { message } => message.clone(),
            Error::CommandFailedOrTimedOut { .. } => String::from_str(
                "Command failed or timed out",
            ),
            Error::CouldNotRun { cmd, message } => {
                let mut r = String::from_str("Could not run ");
                let rendered = cmd.display();
                r.append(rendered.as_str());
                r.append(" (");
                r.append(message.as_str());
                r.append(")");
                r
            },
            Error::CouldNotSendNotification { service } => {
                let mut r = String::from_str("Could not send notification using ");
                r.append(service.as_str());
                r
            },
            Error::CouldNotWriteToStdio { dest, message } => {
                let mut r = String::from_str("Could not write to ");
                r.append(dest.as_str());
                r.append(" (");
                r.append(message.as_str());
                r.append(")");
                r
            },
            Error::Env { name, message } => {
                let mut r = String::from_str("Could not read environment variable ");
                r.append(name.as_str());
                r.append(" (");
                r.append(message.as_str());
                r.append(")");
                r
            },
            Error::NoCommandSpecified => String::from_str("No command to run was specified"),
            Error::UnknownNotifier { name } => {
                let mut r = String::from_str("Unknown notifier: ");
                r.append(name.as_str());
                r
            },
        }
    }
}

/// What each error describes itself as: the collaborator's own message
/// where one was wrapped, and the fixed phrasing of the tool's own
/// errors otherwise.
pub open spec fn describe_spec(e: &Error) -> Seq<char> {
    match e {
        Error::Desktop { message } => message@,
        Error::ParseInt { message } => message@,
        Error::Regex { message } => message@,
        Error::Reqwest { message } => message@,
        Error::Url { message } => message@,
        Error::CommandFailedOrTimedOut { .. } => "Command failed or timed out"@,
        Error::CouldNotRun { cmd, message } => "Could not run "@ + display_spec(
            cmd.cmd@,
            cmd.args.deep_view(),
        ) + " ("@ + message@ + ")"@,
        Error::CouldNotSendNotification { service } => "Could not send notification using "@
            + service@,
        Error::CouldNotWriteToStdio { dest, message } => "Could not write to "@ + dest@ + " ("@
            + message@ + ")"@,
        Error::Env { name, message } => "Could not read environment variable "@ + name@ + " ("@
            + message@ + ")"@,
        Error::NoCommandSpecified => "No command to run was specified"@,
        Error::UnknownNotifier { name } => "Unknown notifier: "@ + name@,
    }
}

} // verus!
