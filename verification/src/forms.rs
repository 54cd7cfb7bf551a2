//! What the other forms of the service post, and who posts.

use vstd::prelude::*;

verus! {

/// The user on whose behalf a request is served.
#[derive(Debug, Clone)]
pub struct UserIdPart(pub i64);

/// The login form.
#[derive(Clone)]
pub struct LoginForm {
    pub username: String,
}

/// The form by which a feed is subscribed to.
#[derive(Debug, Clone)]
pub struct SubscriptionForm {
    pub category: String,
    pub title: String,
    pub url: String,
}

} // verus!
