//! Notifier implementation for pushover.net. This is a commercial service
//! with excellent support for mobile notifications on iOS, Android and the
//! desktop, with the option of aggressively annoying sounds.
//!
//! Pushover is a trademark of Superblock, LLC. This library is not associated
//! with Superblock, LLC in any way.

use vstd::prelude::*;
use vstd::string::StringExecFns;
use crate::errors::Error;
use super::{delivery_result, message_spec, title_spec, Notification, Notifier, Outcome};

verus! {

/// The service address every pushover.net message goes to.
pub const PUSHOVER_URL: &'static str = "https://api.pushover.net/1/messages.json";

/// Notify the user of an event using the pushover.net service from
/// Superblock, LLC.
pub struct PushoverNotifier {
    /// Per-application notification token.
    token: String,
    /// Per-user key to specify who should be notified.
    user: String,
}

/// The sound a notification plays: classical for a success, a tugboat
/// horn for a failure or a timeout.
pub fn pushover_sound(outcome: Outcome) -> (r: &'static str)
    ensures
        outcome == Outcome::Success ==> r@ == "classical"@,
        outcome != Outcome::Success ==> r@ == "tugboat"@,
{
    match outcome {
        Outcome::Success => "classical",
        Outcome::Failure | Outcome::Timeout => "tugboat",
    }
}

impl PushoverNotifier {
    /// The per-application token this notifier sends with.
    pub closed spec fn spec_token(&self) -> Seq<char> {
        self.token@
    }

    /// The per-user key this notifier sends to.
    pub closed spec fn spec_user(&self) -> Seq<char> {
        self.user@
    }

    /// Create a new notifier for the given application token and user key.
    pub fn new(token: String, user: String) -> (r: PushoverNotifier)
        ensures
            r.spec_token() == token@,
            r.spec_user() == user@,
    {
        PushoverNotifier { token, user }
    }

    /// The form pairs of one message: the application token, the user
    /// key, the notification's title, the sound for its outcome, and its
    /// message text.
    pub fn pushover_params(&self, notification: &Notification) -> (r: Vec<(String, String)>)
        ensures
            r@.len() == 5,
            r@[0].0@ == "token"@ && r@[0].1@ == self.spec_token(),
            r@[1].0@ == "user"@ && r@[1].1@ == self.spec_user(),
            r@[2].0@ == "title"@ && r@[2].1@ == title_spec(notification.spec_outcome()),
            r@[3].0@ == "sound"@ && r@[3].1@ == (if notification.spec_outcome()
                == Outcome::Success { "classical"@ } else { "tugboat"@ }),
            r@[4].0@ == "message"@ && r@[4].1@ == message_spec(notification.spec_command()),
    {
        let sound = pushover_sound(notification.outcome());
        let mut params: Vec<(String, String)> = Vec::new();
        params.push((String::from_str("token"), self.token.clone()));
        params.push((String::from_str("user"), self.user.clone()));
        params.push((String::from_str("title"), notification.title()));
        params.push((String::from_str("sound"), String::from_str(sound)));
        params.push((String::from_str("message"), notification.message()));
        params
    }
}

/// Relies on `reqwest::blocking::Client`: performs the HTTP POST with the
/// pairs form-encoded into the body, and hands back the response's status
/// code.
#[verifier::external_body]
fn http_post_form(url: &str, params: &Vec<(String, String)>) -> (r: Result<u16, String>)
{
    let client = reqwest::blocking::Client::new();
    match client.post(url).form(params).send() {
        Ok(response) => Ok(response.status().as_u16()),
        Err(e) => Err(format!("{}", e)),
    }
}

impl Notifier for PushoverNotifier {
    fn send(&self, notification: &Notification) -> (r: Result<(), Error>)
        ensures
            r matches Err(e) ==> (e is Reqwest || (e matches Error::CouldNotSendNotification {
                service,
            } && service@ == "pushover.net"@)),
    {
        let params = self.pushover_params(notification);
        match http_post_form(PUSHOVER_URL, &params) {
            Ok(status) => delivery_result(status, "pushover.net"),
            Err(message) => Err(Error::Reqwest { message }),
        }
    }
}

} // verus!
