use rss_aggregator::dates::{
    format_ago, format_date, parse_date, parse_http_date, settle_date, to_signed,
};
use rss_aggregator::dto::{ItemInsert, Subscription};
use rss_aggregator::errors::MyError;
use rss_aggregator::feed::{items_from_feed, rows_from_feed, FeedItem};
use rss_aggregator::models::{DbItem, DbSubscription};

const FEED: &str = r#"<?xml version="1.0" encoding="UTF-8"?>
<rss version="2.0" xmlns:content="http://purl.org/rss/1.0/modules/content/">
<channel>
<title>Swords</title>
<link>https://swordscomic.com/</link>
<description>A comic</description>
<item>
<title>DXIII - Battlefruit</title>
<link>https://swordscomic.com/comic/DXIII/</link>
<author>Matthew Wills</author>
<description>Draw your weapon!</description>
<comments>https://swordscomic.com/comic/DXIII/#comments</comments>
<pubDate>Thu, 15 Jul 2021 00:42:25 +0000</pubDate>
</item>
<item>
<pubDate>2021-07-15T00:42:26Z</pubDate>
<content:encoded>Full text</content:encoded>
</item>
<item>
<title>No date</title>
</item>
<item>
<title>Odd date</title>
<pubDate>the day after tomorrow</pubDate>
</item>
</channel>
</rss>"#;

fn item(pub_date: Option<&str>) -> FeedItem {
    FeedItem {
        title: Some("T".to_string()),
        link: None,
        pub_date: pub_date.map(|d| d.to_string()),
        author: Some("A".to_string()),
        description: None,
        comments: Some("C".to_string()),
        content: Some("Body".to_string()),
    }
}

#[test]
fn feed_items_are_normalized() {
    let subscription = Subscription { id: 3, rss_feed: "http://feed.example/".to_string() };
    let items = subscription.get_items(FEED.as_bytes(), 1_700_000_000).unwrap();
    assert_eq!(items.len(), 4);
    assert_eq!(items[0].subscription_id, 3);
    assert_eq!(items[0].title, "DXIII - Battlefruit");
    assert_eq!(items[0].link, "https://swordscomic.com/comic/DXIII/");
    assert_eq!(items[0].pub_date, 1_626_309_745);
    assert_eq!(items[0].author.as_deref(), Some("Matthew Wills"));
    assert_eq!(items[0].description.as_deref(), Some("Draw your weapon!"));
    assert_eq!(items[0].comments.as_deref(), Some("https://swordscomic.com/comic/DXIII/#comments"));
    assert_eq!(items[0].contents, None);
    assert_eq!(items[1].title, "");
    assert_eq!(items[1].link, "");
    assert_eq!(items[1].pub_date, 1_626_309_746);
    assert_eq!(items[1].contents.as_deref(), Some("Full text"));
    assert_eq!(items[1].author, None);
    assert_eq!(items[2].title, "No date");
    assert_eq!(items[2].pub_date, 1_700_000_000);
    assert_eq!(items[3].pub_date, 1_700_000_000);
}

#[test]
fn content_without_channel_is_an_invalid_subscription() {
    let subscription = Subscription { id: 3, rss_feed: "http://feed.example/".to_string() };
    match subscription.get_items(b"<html><body>no feed</body></html>", 5) {
        Err(MyError::InvalidSubscription(url, reason)) => {
            assert_eq!(url, "http://feed.example/");
            assert!(!reason.is_empty());
        }
        other => panic!("expected an invalid subscription, got {:?}", other),
    }
    assert!(subscription.get_items(b"", 5).is_err());
}

#[test]
fn rows_need_a_stored_subscription() {
    let mut subscription = DbSubscription {
        id: None,
        unreads: None,
        title: "t".to_string(),
        category: "c".to_string(),
        rss_feed: "http://feed.example/".to_string(),
    };
    match subscription.get_items(FEED.as_bytes(), 5) {
        Err(MyError::Internal(cause)) => assert_eq!(cause, "Expecting that the id is there"),
        other => panic!("expected an internal error, got {:?}", other),
    }
    assert!(matches!(subscription.get_items(b"junk", 5), Err(MyError::Internal(_))));
    subscription.id = Some(12);
    let rows = subscription.get_items(FEED.as_bytes(), 77).unwrap();
    assert_eq!(rows.len(), 4);
    assert_eq!(rows[0].id, None);
    assert_eq!(rows[0].subscription_id, 12);
    assert_eq!(rows[0].title, "DXIII - Battlefruit");
    // The feed writes its dates with a numeric zone, which is no HTTP date.
    assert_eq!(rows[0].pub_date, 77);
    assert_eq!(rows[2].pub_date, 77);
    assert!(matches!(subscription.get_items(b"junk", 5), Err(MyError::InvalidSubscription(_, _))));
}

#[test]
fn row_takes_http_date() {
    let row = DbItem::from_feed(1, item(Some("Sun, 06 Nov 1994 08:49:37 GMT")), 5);
    assert_eq!(row.pub_date, 784_111_777);
    assert_eq!(row.id, None);
    assert_eq!(row.title, "T");
    assert_eq!(row.link, "");
    assert_eq!(row.author.as_deref(), Some("A"));
    assert_eq!(row.comments.as_deref(), Some("C"));
    let rows = rows_from_feed(1, vec![item(None), item(Some("Sun, 06 Nov 1994 08:49:37 GMT"))], 9);
    assert_eq!(rows[0].pub_date, 9);
    assert_eq!(rows[1].pub_date, 784_111_777);
}

#[test]
fn item_before_epoch_is_stored_at_epoch() {
    let stored = ItemInsert::from_feed(1, item(Some("1969-12-31T23:59:00Z")), 5);
    assert_eq!(stored.pub_date, 0);
    let stored = items_from_feed(2, vec![item(Some("1970-01-01T00:01:00+00:00"))], 5);
    assert_eq!(stored[0].pub_date, 60);
    assert_eq!(stored[0].subscription_id, 2);
    assert_eq!(stored[0].contents.as_deref(), Some("Body"));
}

#[test]
fn feed_dates_are_read_in_two_formats() {
    assert_eq!(parse_date("Thu, 15 Jul 2021 00:42:25 +0000"), Some(1_626_309_745));
    assert_eq!(parse_date("Thu, 15 Jul 2021 02:42:25 +0200"), Some(1_626_309_745));
    assert_eq!(parse_date("2021-07-15T00:42:25Z"), Some(1_626_309_745));
    assert_eq!(parse_date("1969-12-31T23:59:59Z"), Some(-1));
    assert_eq!(parse_date("yesterday"), None);
    assert_eq!(parse_date(""), None);
}

#[test]
fn http_dates_are_read() {
    assert_eq!(parse_http_date("Sun, 06 Nov 1994 08:49:37 GMT"), Some(784_111_777));
    assert_eq!(parse_http_date("Thu, 01 Jan 1970 00:00:00 GMT"), Some(0));
    assert_eq!(parse_http_date("2021-07-15T00:42:25Z"), None);
}

#[test]
fn stored_date_falls_back_to_now() {
    assert_eq!(settle_date(Some(12), 99), 12);
    assert_eq!(settle_date(Some(0), 99), 0);
    assert_eq!(settle_date(Some(-12), 99), 0);
    assert_eq!(settle_date(None, 99), 99);
    assert_eq!(settle_date(None, u64::MAX), i64::MAX);
    assert_eq!(to_signed(5), 5);
    assert_eq!(to_signed(i64::MAX as u64), i64::MAX);
    assert_eq!(to_signed(i64::MAX as u64 + 1), i64::MAX);
}

#[test]
fn dates_are_shown_in_utc() {
    assert_eq!(format_date(1_626_309_745), "2021-07-15 00:42:25");
    assert_eq!(format_date(0), "1970-01-01 00:00:00");
    assert_eq!(format_date(u32::MAX), "2106-02-07 06:28:15");
}

#[test]
fn age_is_shown_in_words() {
    assert_eq!(format_ago(1_000_000, 1_000_000), "now");
    assert_eq!(format_ago(1_000_000, 1_003_600), "an hour ago");
    assert_eq!(format_ago(1_000_000, 1_000_030), "30 seconds ago");
    assert_eq!(format_ago(1_000_000, 1_000_000 + 3 * 86_400), "3 days ago");
    assert_eq!(format_ago(1_003_600, 1_000_000), "in an hour");
}
