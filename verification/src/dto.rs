//! The rows of the store as the service passes them around.

use vstd::prelude::*;
use crate::digest::{login_digest, login_password, salted_digest, salted_password};
use crate::errors::{ErrorView, MyError};

verus! {

/// The id of a user.
#[derive(Debug, Clone)]
pub struct UserId(pub i64);

/// What the store holds of a user for a login.
#[derive(Debug, Clone)]
pub struct Credentials {
    pub id: UserId,
    pub salt: String,
    pub salted_password: String,
}

impl UserId {
    /// The id of the user who logs in with `password`, given what the store
    /// holds for the user's name (`None`: nothing). Refused, as an internal
    /// error, where the store holds nothing or the digest of the password
    /// with the stored salt is not the stored one.
    pub fn fetch(record: Option<Credentials>, password: &str) -> (r: Result<UserId, MyError>)
        ensures
            match record {
                Some(found) => if found.salted_password@ == login_digest(found.salt@, password@) {
                    r == Ok::<UserId, MyError>(found.id)
                } else {
                    r is Err && r->Err_0@ == ErrorView::Internal("Invalid password"@)
                },
                None => r is Err && r->Err_0@ == ErrorView::Internal("No such user"@),
            },
    {
        match record {
            Some(found) => {
                let calculated = login_password(found.salt.as_str(), password);
                if calculated != found.salted_password {
                    Err(MyError::internal("Invalid password"))
                } else {
                    Ok(found.id)
                }
            },
            None => Err(MyError::internal("No such user")),
        }
    }
}

/// An item of a feed, as stored.
#[derive(Debug, Clone)]
pub struct Item {
    pub id: i64,
    pub subscription_id: i64,
    pub title: String,
    pub link: String,
    pub pub_date: i64,
    pub author: Option<String>,
    pub description: Option<String>,
    pub contents: Option<String>,
    pub comments: Option<String>,
}

/// An item of a feed, to be stored.
#[derive(Debug, Clone)]
pub struct ItemInsert {
    pub subscription_id: i64,
    pub title: String,
    pub link: String,
    pub pub_date: i64,
    pub author: Option<String>,
    pub description: Option<String>,
    pub contents: Option<String>,
    pub comments: Option<String>,
}

/// A feed that someone subscribes to.
#[derive(Debug, Clone)]
pub struct Subscription {
    pub id: i64,
    pub rss_feed: String,
}

/// A feed as one user subscribes to it.
#[derive(Debug, Clone)]
pub struct UserSubscription {
    pub id: i64,
    pub title: String,
    pub category: String,
    pub rss_feed: String,
}

/// A user, with what is stored of the password.
#[derive(Debug, Clone)]
pub struct User {
    id: UserId,
    salt: String,
    username: String,
    salted_password: String,
}

/// A user as plain values.
pub struct UserView {
    pub id: i64,
    pub salt: Seq<char>,
    pub username: Seq<char>,
    pub salted_password: Seq<char>,
}

impl View for User {
    type V = UserView;

    closed spec fn view(&self) -> UserView {
        UserView {
            id: self.id.0,
            salt: self.salt@,
            username: self.username@,
            salted_password: self.salted_password@,
        }
    }
}

impl User {
    /// A user as the store holds one.
    pub fn new(id: UserId, salt: String, username: String, salted_password: String) -> (r: User)
        ensures
            r@ == (UserView {
                id: id.0,
                salt: salt@,
                username: username@,
                salted_password: salted_password@,
            }),
    {
        User { id, salt, username, salted_password }
    }

    /// The id of the user.
    pub fn id(&self) -> (r: &UserId)
        ensures
            r.0 == self@.id,
    {
        &self.id
    }

    /// The name of the user.
    pub fn username(&self) -> (r: &str)
        ensures
            r@ == self@.username,
    {
        self.username.as_str()
    }

    /// Whether `password` is the user's: its digest with the user's salt is
    /// the one that is stored.
    pub fn passwords_match(&self, password: &str) -> (r: bool)
        ensures
            r == (self@.salted_password == salted_digest(self@.salt, password@)),
    {
        let digest = salted_password(self.salt.as_str(), password);
        self.salted_password == digest
    }
}

} // verus!
