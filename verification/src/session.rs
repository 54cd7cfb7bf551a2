//! A login session.

use vstd::prelude::*;
use crate::utils::now;

verus! {

/// The session of a user who has logged in: who, and since when.
#[derive(Debug, Clone)]
pub struct Session {
    user_id: String,
    date: std::time::SystemTime,
}

impl Session {
    /// The user of the session, as text.
    pub closed spec fn user(self) -> Seq<char> {
        self.user_id@
    }

    /// The clock reading at which the session began.
    pub closed spec fn since(self) -> std::time::SystemTime {
        self.date
    }

    /// A session for the user, beginning now.
    pub fn new(user_id: String) -> (r: Self)
        ensures
            r.user() == user_id@,
    {
        Self { user_id, date: now() }
    }

    /// Get a reference to the session's user id.
    pub fn user_id(&self) -> (r: &String)
        ensures
            r@ == self.user(),
    {
        &self.user_id
    }

    /// Get a reference to the session's date.
    pub fn date(&self) -> (r: &std::time::SystemTime)
        ensures
            *r == self.since(),
    {
        &self.date
    }
}

} // verus!
