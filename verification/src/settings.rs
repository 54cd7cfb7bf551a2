//! What the service is configured with.

use vstd::prelude::*;

verus! {

/// The settings of the service, as its configuration files and environment
/// give them.
#[derive(Debug, Clone)]
pub struct Settings {
    pub max_sessions: u64,
    pub time_of_cookies_s: u64,
    pub time_of_polling_items: u64,
    pub db_name: String,
    pub secure: bool,
}

} // verus!
