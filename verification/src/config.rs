//! Configuration support.

use vstd::prelude::*;
use std::collections::HashMap;

verus! {

/// A parsed version of our configuration file.
#[derive(Clone, Debug)]
pub struct Config {
    /// Configuration for each notifier.
    notifiers: HashMap<String, NotifierConfig>,
}

/// Per-backend configuration.
#[derive(Clone, Debug)]
pub struct NotifierConfig {
    enabled: bool,
    backend: Option<String>,
    options: HashMap<String, String>,
}

} // verus!
