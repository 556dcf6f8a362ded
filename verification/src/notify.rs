//! Various tools for notifying the user.

use vstd::prelude::*;
use vstd::string::StringExecFns;
use crate::command::{display_spec, Command};
use crate::errors::Error;
use crate::util::str_eq;

pub mod console;
pub mod desktop;
pub mod notifyapp;
pub mod pushover;

verus! {

/// What happened to the process we were running?
#[derive(Clone, Copy, Debug, PartialEq, Eq, Structural)]
pub enum Outcome {
    /// The process succeeded.
    Success,
    /// The process failed.
    Failure,
    /// We timed out waiting for something to happen.
    Timeout,
}

impl Outcome {
    /// Create an `Outcome` from a boolean value indicating whether our
    /// process succeeded.
    pub fn from_bool(success: bool) -> (r: Outcome)
        ensures
            r == (if success { Outcome::Success } else { Outcome::Failure }),
    {
        if success {
            Outcome::Success
        } else {
            Outcome::Failure
        }
    }
}

/// The title a notification carries for each outcome.
pub open spec fn title_spec(o: Outcome) -> Seq<char> {
    match o {
        Outcome::Success => "Command succeeded"@,
        Outcome::Failure => "Command failed"@,
        Outcome::Timeout => "Command timed out"@,
    }
}

/// The message body: the command's shell-safe rendering, or nothing when
/// no command was attached.
pub open spec fn message_spec(c: Option<Command>) -> Seq<char> {
    match c {
        Some(cmd) => display_spec(cmd.cmd@, cmd.args.deep_view()),
        None => Seq::empty(),
    }
}

/// A notification we want to send to the user.  Built once per terminal
/// event and consumed by exactly one `Notifier::send` call.
#[derive(Clone, Debug)]
pub struct Notification {
    outcome: Outcome,
    command: Option<Command>,
}

impl Notification {
    /// The outcome this notification reports.
    pub closed spec fn spec_outcome(&self) -> Outcome {
        self.outcome
    }

    /// The command this notification is about, if one was attached.
    pub closed spec fn spec_command(&self) -> Option<Command> {
        self.command
    }

    /// Create a new notification.
    pub fn new(outcome: Outcome) -> (r: Notification)
        ensures
            r.spec_outcome() == outcome,
            r.spec_command() is None,
    {
        Notification { outcome, command: None }
    }

    /// Specify the command for a newly-created notification, using
    /// the builder pattern.
    pub fn command(self, command: Command) -> (r: Notification)
        ensures
            r.spec_outcome() == self.spec_outcome(),
            r.spec_command() == Some(command),
    {
        Notification { command: Some(command), ..self }
    }

    /// Get the outcome associated with this notification, in case a
    /// particular notifier wishes to further customize message options
    /// like sounds or colors.
    pub fn outcome(&self) -> (r: Outcome)
        ensures
            r == self.spec_outcome(),
    {
        self.outcome
    }

    /// Generate a title for this notification.
    pub fn title(&self) -> (r: String)
        ensures
            r@ == title_spec(self.spec_outcome()),
    {
        match self.outcome {
            Outcome::Success => String::from_str("Command succeeded"),
            Outcome::Failure => String::from_str("Command failed"),
            Outcome::Timeout => String::from_str("Command timed out"),
        }
    }

    /// Generate a message body for this notification.
    pub fn message(&self) -> (r: String)
        ensures
            r@ == message_spec(self.spec_command()),
    {
        match &self.command {
            Some(command) => command.display(),
            None => String::new(),
        }
    }
}

/// Interface for notifying the user.
pub trait Notifier {
    /// Let the user know what happened to their process.
    fn send(&self, notification: &Notification) -> Result<(), Error>;
}

/// The closed set of notification backends a user can select.
#[derive(Clone, Copy, Debug, PartialEq, Eq, Structural)]
pub enum NotifierKind {
    /// Print to the diagnostic stream, color-coded by outcome.
    Console,
    /// Show an OS-native popup on the local machine.
    Desktop,
    /// Push through the Notify app's HTTP service.
    NotifyApp,
    /// Push through the pushover.net HTTP service.
    Pushover,
}

/// Choose a notification backend from the user's configuration value:
/// an absent value selects the default backend, a present one must name
/// a known backend.
pub fn choose_notifier(name: Option<String>) -> (r: Result<NotifierKind, Error>)
    ensures
        name is None ==> r == Ok::<NotifierKind, Error>(NotifierKind::Pushover),
        name matches Some(n) ==> (if n@ == "console"@ {
            r == Ok::<NotifierKind, Error>(NotifierKind::Console)
        } else if n@ == "desktop"@ {
            r == Ok::<NotifierKind, Error>(NotifierKind::Desktop)
        } else if n@ == "notifyapp"@ {
            r == Ok::<NotifierKind, Error>(NotifierKind::NotifyApp)
        } else if n@ == "pushover"@ {
            r == Ok::<NotifierKind, Error>(NotifierKind::Pushover)
        } else {
            r matches Err(e) && e matches Error::UnknownNotifier { name: m } && m@ == n@
        }),
{
    match name {
        None => Ok(NotifierKind::Pushover),
        Some(n) => {
            if str_eq(n.as_str(), "console") {
                Ok(NotifierKind::Console)
            } else if str_eq(n.as_str(), "desktop") {
                Ok(NotifierKind::Desktop)
            } else if str_eq(n.as_str(), "notifyapp") {
                Ok(NotifierKind::NotifyApp)
            } else if str_eq(n.as_str(), "pushover") {
                Ok(NotifierKind::Pushover)
            } else {
                Err(Error::UnknownNotifier { name: n })
            }
        },
    }
}

/// The HTTP delivery policy shared by the push backends: a delivery
/// counts as sent exactly when the response status is in the success
/// class (200 to 299); any other status is a delivery failure naming the
/// service that refused it.
pub fn delivery_result(status: u16, service: &str) -> (r: Result<(), Error>)
    ensures
        200 <= status < 300 ==> r is Ok,
        !(200 <= status < 300) ==> (r matches Err(e) && e matches Error::CouldNotSendNotification {
            service: s,
        } && s@ == service@),
{
    if 200 <= status && status < 300 {
        Ok(())
    } else {
        Err(Error::CouldNotSendNotification { service: String::from_str(service) })
    }
}

} // verus!
