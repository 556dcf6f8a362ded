//! Display ordinary desktop notifications using standard OS features.

use vstd::prelude::*;
use crate::errors::Error;
use super::{Notification, Notifier};

verus! {

/// Display notifications on the local machine using its GUI.
pub struct DesktopNotifier;

/// Relies on `notify_rust::Notification::show`: hands the title and body
/// to the desktop notification service.
#[verifier::external_body]
fn desktop_show(title: &str, body: &str) -> (r: Result<(), String>)
{
    match notify_rust::Notification::new().summary(title).body(body).show() {
        Ok(_) => Ok(()),
        Err(e) => Err(format!("{}", e)),
    }
}

impl Notifier for DesktopNotifier {
    fn send(&self, notification: &Notification) -> (r: Result<(), Error>)
        ensures
            r matches Err(e) ==> e is Desktop,
    {
        let title = notification.title();
        let body = notification.message();
        match desktop_show(title.as_str(), body.as_str()) {
            Ok(()) => Ok(()),
            Err(message) => Err(Error::Desktop { message }),
        }
    }
}

} // verus!
