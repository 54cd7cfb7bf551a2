//! Feeds: reading the items of a channel and settling what is stored of
//! each. A feed may leave out any field of an item, and may write its date
//! in more than one way or not at all.

use vstd::prelude::*;
use crate::dates::{
    feed_date, http_seconds, parse_date, parse_http_date, settle_date, signed_seconds,
    stored_date, to_signed,
};
use crate::dto::{ItemInsert, Subscription};
use crate::errors::{ErrorView, MyError};
use crate::models::{DbItem, DbSubscription};

verus! {

/// `rss::Error`, why a channel could not be read. Opaque to the verifier.
#[verifier::external_type_specification]
#[verifier::external_body]
pub struct ExRssError(rss::Error);

/// What the library reads of one item of a channel.
#[derive(Debug, Clone)]
pub struct FeedItem {
    pub title: Option<String>,
    pub link: Option<String>,
    pub pub_date: Option<String>,
    pub author: Option<String>,
    pub description: Option<String>,
    pub comments: Option<String>,
    pub content: Option<String>,
}

/// An item of a channel as plain text.
pub struct FeedItemView {
    pub title: Option<Seq<char>>,
    pub link: Option<Seq<char>>,
    pub pub_date: Option<Seq<char>>,
    pub author: Option<Seq<char>>,
    pub description: Option<Seq<char>>,
    pub comments: Option<Seq<char>>,
    pub content: Option<Seq<char>>,
}

/// The text of an optional string.
pub open spec fn opt_text(value: Option<String>) -> Option<Seq<char>> {
    match value {
        Some(text) => Some(text@),
        None => None,
    }
}

/// The text of an optional string, empty where there is none.
pub open spec fn text_or_empty(value: Option<Seq<char>>) -> Seq<char> {
    match value {
        Some(text) => text,
        None => Seq::empty(),
    }
}

impl View for FeedItem {
    type V = FeedItemView;

    open spec fn view(&self) -> FeedItemView {
        FeedItemView {
            title: opt_text(self.title),
            link: opt_text(self.link),
            pub_date: opt_text(self.pub_date),
            author: opt_text(self.author),
            description: opt_text(self.description),
            comments: opt_text(self.comments),
            content: opt_text(self.content),
        }
    }
}

/// The items of a list, each as plain text.
pub open spec fn feed_item_views(items: Seq<FeedItem>) -> Seq<FeedItemView> {
    items.map_values(|item: FeedItem| item@)
}

/// The items of the channel that `rss::Channel::read_from` reads from the
/// bytes of a feed, in the feed's order; none where it reads no channel.
pub uninterp spec fn channel_items(content: Seq<u8>) -> Option<Seq<FeedItemView>>;

/// Calls `rss::Channel::read_from` and hands out the items of the channel,
/// each with the fields that the library reads.
#[verifier::external_body]
fn read_channel(content: &[u8]) -> (r: Result<Vec<FeedItem>, rss::Error>)
    ensures
        r is Ok <==> channel_items(content@) is Some,
        r matches Ok(items) ==> channel_items(content@) == Some(feed_item_views(items@)),
{
    let channel = rss::Channel::read_from(content)?;
    Ok(channel.items.into_iter().map(|item| FeedItem {
        title: item.title,
        link: item.link,
        pub_date: item.pub_date,
        author: item.author,
        description: item.description,
        comments: item.comments,
        content: item.content,
    }).collect())
}

/// Writes an `rss::Error` out, for a message.
#[verifier::external_body]
fn channel_error_text(error: &rss::Error) -> String {
    error.to_string()
}

/// An item to be stored, as plain values.
pub struct ItemInsertView {
    pub subscription_id: i64,
    pub title: Seq<char>,
    pub link: Seq<char>,
    pub pub_date: i64,
    pub author: Option<Seq<char>>,
    pub description: Option<Seq<char>>,
    pub contents: Option<Seq<char>>,
    pub comments: Option<Seq<char>>,
}

impl View for ItemInsert {
    type V = ItemInsertView;

    open spec fn view(&self) -> ItemInsertView {
        ItemInsertView {
            subscription_id: self.subscription_id,
            title: self.title@,
            link: self.link@,
            pub_date: self.pub_date,
            author: opt_text(self.author),
            description: opt_text(self.description),
            contents: opt_text(self.contents),
            comments: opt_text(self.comments),
        }
    }
}

/// The items of a list, each as plain values.
pub open spec fn insert_views(items: Seq<ItemInsert>) -> Seq<ItemInsertView> {
    items.map_values(|item: ItemInsert| item@)
}

/// The date that a feed item gives, read as a feed writes dates; none
/// where it gives no date or one that cannot be read.
pub open spec fn given_date(pub_date: Option<Seq<char>>) -> Option<i64> {
    match pub_date {
        Some(text) => feed_date(text),
        None => None,
    }
}

/// What is stored of a feed item that was read at time `now`: a missing
/// title or link is stored empty, a missing or unreadable date as the time
/// of reading, and the other fields as they are.
pub open spec fn stored_item(subscription_id: i64, item: FeedItemView, now: u64) -> ItemInsertView {
    ItemInsertView {
        subscription_id,
        title: text_or_empty(item.title),
        link: text_or_empty(item.link),
        pub_date: stored_date(given_date(item.pub_date), now),
        author: item.author,
        description: item.description,
        contents: item.content,
        comments: item.comments,
    }
}

/// What is stored of the items of a feed, in the feed's order.
pub open spec fn stored_items(subscription_id: i64, items: Seq<FeedItemView>, now: u64) -> Seq<
    ItemInsertView,
> {
    items.map_values(|item: FeedItemView| stored_item(subscription_id, item, now))
}

/// An optional string, or the empty one.
fn unwrap_or_empty(value: Option<String>) -> (r: String)
    ensures
        r@ == text_or_empty(opt_text(value)),
{
    match value {
        Some(text) => text,
        None => String::new(),
    }
}

impl ItemInsert {
    /// Settles what is stored of one feed item, read at time `now`.
    pub fn from_feed(subscription_id: i64, item: FeedItem, now: u64) -> (r: ItemInsert)
        ensures
            r@ == stored_item(subscription_id, item@, now),
    {
        let given = match &item.pub_date {
            Some(text) => parse_date(text.as_str()),
            None => None,
        };
        ItemInsert {
            subscription_id,
            title: unwrap_or_empty(item.title),
            link: unwrap_or_empty(item.link),
            pub_date: settle_date(given, now),
            author: item.author,
            description: item.description,
            contents: item.content,
            comments: item.comments,
        }
    }
}

/// Settles what is stored of the items of a feed, read at time `now`.
pub fn items_from_feed(subscription_id: i64, items: Vec<FeedItem>, now: u64) -> (r: Vec<ItemInsert>)
    ensures
        insert_views(r@) == stored_items(subscription_id, feed_item_views(items@), now),
{
    let mut stored: Vec<ItemInsert> = Vec::new();
    let ghost all = items@;
    for item in it: items
        invariant
            it.seq() == all,
            insert_views(stored@) =~= stored_items(
                subscription_id,
                feed_item_views(all.subrange(0, it.index() as int)),
                now,
            ),
    {
        let ghost before = stored@;
        stored.push(ItemInsert::from_feed(subscription_id, item, now));
        assert(all.subrange(0, it.index() + 1) =~= all.subrange(0, it.index() as int).push(item));
        assert(insert_views(stored@) =~= insert_views(before).push(stored@.last()@));
    }
    assert(all.subrange(0, all.len() as int) =~= all);
    stored
}

impl Subscription {
    /// The items of the subscription's feed, as they are stored. `content`
    /// is what was fetched from the feed's address, and `now` the time of
    /// reading. Content that holds no channel is refused as an invalid
    /// subscription, named by the feed's address.
    pub fn get_items(&self, content: &[u8], now: u64) -> (r: Result<Vec<ItemInsert>, MyError>)
        ensures
            match channel_items(content@) {
                Some(items) => r is Ok && insert_views(r->Ok_0@) == stored_items(
                    self.id,
                    items,
                    now,
                ),
                None => r is Err && r->Err_0@ is InvalidSubscription
                    && r->Err_0@->InvalidSubscription_0 == self.rss_feed@,
            },
    {
        match read_channel(content) {
            Ok(items) => Ok(items_from_feed(self.id, items, now)),
            Err(error) => Err(
                MyError::InvalidSubscription(self.rss_feed.clone(), channel_error_text(&error)),
            ),
        }
    }
}

/// A row of the items table, as plain values.
pub struct DbItemView {
    pub id: Option<i64>,
    pub subscription_id: i64,
    pub title: Seq<char>,
    pub link: Seq<char>,
    pub pub_date: i64,
    pub author: Option<Seq<char>>,
    pub description: Option<Seq<char>>,
    pub comments: Option<Seq<char>>,
}

impl View for DbItem {
    type V = DbItemView;

    open spec fn view(&self) -> DbItemView {
        DbItemView {
            id: self.id,
            subscription_id: self.subscription_id,
            title: self.title@,
            link: self.link@,
            pub_date: self.pub_date,
            author: opt_text(self.author),
            description: opt_text(self.description),
            comments: opt_text(self.comments),
        }
    }
}

/// The rows of a list, each as plain values.
pub open spec fn row_views(rows: Seq<DbItem>) -> Seq<DbItemView> {
    rows.map_values(|row: DbItem| row@)
}

/// The date that a feed item gives, read as an HTTP header writes dates;
/// none where it gives no date or one that cannot be read.
pub open spec fn given_http_date(pub_date: Option<Seq<char>>) -> Option<i64> {
    match pub_date {
        Some(text) => match http_seconds(text) {
            Some(seconds) => Some(signed_seconds(seconds)),
            None => None,
        },
        None => None,
    }
}

/// The row for a feed item that was read at time `now`: it has no id yet,
/// a missing title or link is empty, and a missing or unreadable date is
/// the time of reading.
pub open spec fn row_of_item(subscription_id: i64, item: FeedItemView, now: u64) -> DbItemView {
    DbItemView {
        id: None,
        subscription_id,
        title: text_or_empty(item.title),
        link: text_or_empty(item.link),
        pub_date: stored_date(given_http_date(item.pub_date), now),
        author: item.author,
        description: item.description,
        comments: item.comments,
    }
}

/// The rows for the items of a feed, in the feed's order.
pub open spec fn rows_of_items(subscription_id: i64, items: Seq<FeedItemView>, now: u64) -> Seq<
    DbItemView,
> {
    items.map_values(|item: FeedItemView| row_of_item(subscription_id, item, now))
}

impl DbItem {
    /// Makes the row for one feed item, read at time `now`.
    pub fn from_feed(subscription_id: i64, item: FeedItem, now: u64) -> (r: DbItem)
        ensures
            r@ == row_of_item(subscription_id, item@, now),
    {
        let given = match &item.pub_date {
            Some(text) => match parse_http_date(text.as_str()) {
                Some(seconds) => Some(to_signed(seconds)),
                None => None,
            },
            None => None,
        };
        DbItem {
            id: None,
            subscription_id,
            title: unwrap_or_empty(item.title),
            link: unwrap_or_empty(item.link),
            pub_date: settle_date(given, now),
            author: item.author,
            description: item.description,
            comments: item.comments,
        }
    }
}

/// Makes the rows for the items of a feed, read at time `now`.
pub fn rows_from_feed(subscription_id: i64, items: Vec<FeedItem>, now: u64) -> (r: Vec<DbItem>)
    ensures
        row_views(r@) == rows_of_items(subscription_id, feed_item_views(items@), now),
{
    let mut rows: Vec<DbItem> = Vec::new();
    let ghost all = items@;
    for item in it: items
        invariant
            it.seq() == all,
            row_views(rows@) =~= rows_of_items(
                subscription_id,
                feed_item_views(all.subrange(0, it.index() as int)),
                now,
            ),
    {
        let ghost before = rows@;
        rows.push(DbItem::from_feed(subscription_id, item, now));
        assert(all.subrange(0, it.index() + 1) =~= all.subrange(0, it.index() as int).push(item));
        assert(row_views(rows@) =~= row_views(before).push(rows@.last()@));
    }
    assert(all.subrange(0, all.len() as int) =~= all);
    rows
}

impl DbSubscription {
    /// The rows for the items of the subscription's feed. `content` is what
    /// was fetched from the feed's address, and `now` the time of reading.
    /// A subscription that is not stored yet has no id to give its items
    /// and is refused as an internal error, whatever the content; content
    /// that holds no channel is refused as an invalid subscription.
    pub fn get_items(&self, content: &[u8], now: u64) -> (r: Result<Vec<DbItem>, MyError>)
        ensures
            match (self.id, channel_items(content@)) {
                (None, _) => r is Err && r->Err_0@ == ErrorView::Internal(
                    "Expecting that the id is there"@,
                ),
                (Some(id), Some(items)) => r is Ok && row_views(r->Ok_0@) == rows_of_items(
                    id,
                    items,
                    now,
                ),
                (Some(_), None) => r is Err && r->Err_0@ is InvalidSubscription
                    && r->Err_0@->InvalidSubscription_0 == self.rss_feed@,
            },
    {
        let subscription_id = match self.id {
            None => { return Err(MyError::internal("Expecting that the id is there")); },
            Some(id) => id,
        };
        match read_channel(content) {
            Ok(items) => Ok(rows_from_feed(subscription_id, items, now)),
            Err(error) => Err(
                MyError::InvalidSubscription(self.rss_feed.clone(), channel_error_text(&error)),
            ),
        }
    }
}

/// Whether what was fetched from an address is a feed that can be
/// subscribed to: it is where it holds a channel, and is refused as an
/// invalid subscription, named by the address, where it holds none.
pub fn check_feed(url: &str, content: &[u8]) -> (r: Result<(), MyError>)
    ensures
        r is Ok <==> channel_items(content@) is Some,
        r matches Err(error) ==> error@ is InvalidSubscription
            && error@->InvalidSubscription_0 == url@,
{
    match read_channel(content) {
        Ok(_) => Ok(()),
        Err(error) => Err(
            MyError::InvalidSubscription(url.to_owned(), channel_error_text(&error)),
        ),
    }
}

} // verus!
