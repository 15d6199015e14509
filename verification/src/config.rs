//! Deployment configuration, loaded once at process start by the surrounding
//! application and passed in explicitly.

use vstd::prelude::*;

verus! {

/// Process-wide configuration.  `tournament_director` is the provider-assigned
/// subject id of the one administrator; `register_open_at` and
/// `register_close_at` bound the registration window in seconds since the
/// Unix epoch.
pub struct Config {
    pub oauth_client_id: String,
    pub oauth_client_secret: String,
    pub tournament_director: String,
    pub server_url: String,
    pub postgres_options: String,
    pub register_open_at: i64,
    pub register_close_at: i64,
}

impl Config {
    /// A usable configuration has a non-degenerate registration window.
    pub open spec fn wf(&self) -> bool {
        self.register_open_at < self.register_close_at
    }
}

} // verus!
