//! The rows of the store as the store holds them.

use vstd::prelude::*;

verus! {

/// A row of the items table; the id is missing until the row is stored.
#[derive(Debug, Clone)]
pub struct DbItem {
    pub id: Option<i64>,
    pub subscription_id: i64,
    pub title: String,
    pub link: String,
    pub pub_date: i64,
    pub author: Option<String>,
    pub description: Option<String>,
    pub comments: Option<String>,
}

/// A row of the subscriptions table, with the number of unread items where
/// it was counted.
#[derive(Debug, Clone)]
pub struct DbSubscription {
    pub id: Option<i64>,
    pub unreads: Option<i64>,
    pub title: String,
    pub category: String,
    pub rss_feed: String,
}

} // verus!
