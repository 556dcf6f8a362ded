//! Send notifications using the open source [Notify][] app.
//!
//! [Notify]: https://github.com/mashlol/notify

use vstd::prelude::*;
use vstd::string::StringExecFns;
use crate::errors::Error;
use super::{delivery_result, message_spec, title_spec, Notification, Notifier};

verus! {

/// The service address every Notify-app push goes to.
pub const NOTIFY_APP_URL: &'static str = "https://appnotify.herokuapp.com/notify";

/// Notify the user of an event using the open source Notify app.
pub struct NotifyAppNotifier {
    /// Registration key.
    key: String,
}

impl NotifyAppNotifier {
    /// The registration key this notifier pushes to.
    pub closed spec fn spec_key(&self) -> Seq<char> {
        self.key@
    }

    /// Create a new notifier pushing to the given registration key.
    pub fn new(key: String) -> (r: NotifyAppNotifier)
        ensures
            r.spec_key() == key@,
    {
        NotifyAppNotifier { key }
    }

    /// The query pairs of one push: the registration key to push to, the
    /// notification's title, and its message text.
    pub fn notify_params(&self, notification: &Notification) -> (r: Vec<(String, String)>)
        ensures
            r@.len() == 3,
            r@[0].0@ == "to"@ && r@[0].1@ == self.spec_key(),
            r@[1].0@ == "title"@ && r@[1].1@ == title_spec(notification.spec_outcome()),
            r@[2].0@ == "text"@ && r@[2].1@ == message_spec(notification.spec_command()),
    {
        let mut params: Vec<(String, String)> = Vec::new();
        params.push((String::from_str("to"), self.key.clone()));
        params.push((String::from_str("title"), notification.title()));
        params.push((String::from_str("text"), notification.message()));
        params
    }
}

/// Relies on `reqwest::Url::parse_with_params`: builds the given base
/// address with the given query pairs percent-encoded onto it.
#[verifier::external_body]
fn url_with_params(base: &str, params: &Vec<(String, String)>) -> (r: Result<String, String>)
{
    match reqwest::Url::parse_with_params(base, params) {
        Ok(url) => Ok(url.as_str().to_owned()),
        Err(e) => Err(format!("{}", e)),
    }
}

/// Relies on `reqwest::blocking::Client`: performs the HTTP GET and hands
/// back the response's status code.
#[verifier::external_body]
fn http_get_status(url: &str) -> (r: Result<u16, String>)
{
    let client = reqwest::blocking::Client::new();
    match client.get(url).send() {
        Ok(response) => Ok(response.status().as_u16()),
        Err(e) => Err(format!("{}", e)),
    }
}

impl Notifier for NotifyAppNotifier {
    fn send(&self, notification: &Notification) -> (r: Result<(), Error>)
        ensures
            r matches Err(e) ==> (e is Url || e is Reqwest || (e matches
                Error::CouldNotSendNotification { service } && service@ == "Notify app"@)),
    {
        let params = self.notify_params(notification);
        let url = match url_with_params(NOTIFY_APP_URL, &params) {
            Ok(url) => url,
            Err(message) => {
                return Err(Error::Url { message });
            },
        };
        match http_get_status(url.as_str()) {
            Ok(status) => delivery_result(status, "Notify app"),
            Err(message) => Err(Error::Reqwest { message }),
        }
    }
}

} // verus!
