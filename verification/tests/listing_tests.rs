use rss_aggregator::digest::login_password;
use rss_aggregator::dto::{Credentials, Item, UserId};
use rss_aggregator::errors::MyError;
use rss_aggregator::feed::check_feed;
use rss_aggregator::listing::{items_of_subscription, latest_read, listing_title};
use rss_aggregator::preferences::{FilterItems, ShowUnreads, UserPreferences};
use rss_aggregator::site::SiteConfig;
use rss_aggregator::sites::ScrapingSite;

fn item(subscription_id: i64, pub_date: i64) -> Item {
    Item {
        id: pub_date,
        subscription_id,
        title: "t".to_string(),
        link: "l".to_string(),
        pub_date,
        author: None,
        description: None,
        contents: None,
        comments: None,
    }
}

#[test]
fn latest_read_is_the_greatest_date() {
    assert_eq!(latest_read(&Vec::new()), 0);
    assert_eq!(latest_read(&vec![item(1, 5)]), 5);
    assert_eq!(latest_read(&vec![item(1, -5)]), -5);
    assert_eq!(latest_read(&vec![item(1, 5), item(2, 9), item(1, 7)]), 9);
    assert_eq!(latest_read(&vec![item(1, 9), item(2, 5)]), 9);
    assert_eq!(latest_read(&vec![item(1, -3), item(2, -2)]), -2);
}

#[test]
fn items_are_counted_by_subscription() {
    let items = vec![item(1, 5), item(2, 9), item(1, 7), item(3, 1)];
    assert_eq!(items_of_subscription(&items, 1), 2);
    assert_eq!(items_of_subscription(&items, 2), 1);
    assert_eq!(items_of_subscription(&items, 4), 0);
    assert_eq!(items_of_subscription(&Vec::new(), 1), 0);
}

#[test]
fn heading_names_the_tags() {
    assert_eq!(listing_title(None), "All Articles");
    assert_eq!(listing_title(Some("news tech")), "Articles with tag: news tech");
}

#[test]
fn preferences_change_one_choice_at_a_time() {
    let preferences = UserPreferences::default().with_filter(FilterItems::Id(3));
    assert!(matches!(preferences.filter_items, FilterItems::Id(3)));
    assert!(!preferences.sidebar_collapsed);
    let preferences = preferences.with_sidebar(true);
    assert!(preferences.sidebar_collapsed);
    assert!(matches!(preferences.filter_items, FilterItems::Id(3)));
    let preferences = preferences.with_unreads(ShowUnreads::ShowEverything);
    assert!(matches!(preferences.show_unreads, ShowUnreads::ShowEverything));
    assert!(preferences.sidebar_collapsed);
    let preferences = preferences.with_filter(FilterItems::Title("x".to_string()));
    assert!(matches!(preferences.filter_items, FilterItems::Title(ref t) if t == "x"));
    assert!(matches!(preferences.show_unreads, ShowUnreads::ShowEverything));
}

#[test]
fn login_checks_the_digest() {
    assert_eq!(
        login_password("ab", "c"),
        "3a985da74fe225b2045c172d6bd390bd855f086e3e9d525b46bfe24511431532"
    );
    assert_eq!(login_password("", "abc"), login_password("abc", ""));
    let record = || Credentials {
        id: UserId(6),
        salt: "ab".to_string(),
        salted_password: "3a985da74fe225b2045c172d6bd390bd855f086e3e9d525b46bfe24511431532"
            .to_string(),
    };
    assert_eq!(UserId::fetch(Some(record()), "c").unwrap().0, 6);
    match UserId::fetch(Some(record()), "x") {
        Err(MyError::Internal(cause)) => assert_eq!(cause, "Invalid password"),
        other => panic!("expected a refusal, got {:?}", other),
    }
    match UserId::fetch(None, "c") {
        Err(MyError::Internal(cause)) => assert_eq!(cause, "No such user"),
        other => panic!("expected a refusal, got {:?}", other),
    }
}

#[test]
fn feed_is_checked_before_it_is_subscribed_to() {
    let feed = b"<rss version=\"2.0\"><channel><title>t</title></channel></rss>";
    assert!(check_feed("http://f", feed).is_ok());
    match check_feed("http://f", b"<html></html>") {
        Err(MyError::InvalidSubscription(url, _)) => assert_eq!(url, "http://f"),
        other => panic!("expected an invalid subscription, got {:?}", other),
    }
}

#[test]
fn stored_site_fills_the_form() {
    let site = SiteConfig {
        id: 12,
        user_id: 1,
        site_title: "News".to_string(),
        url: "https://example.com".to_string(),
        every_seconds: 300,
        articles_sel: "article".to_string(),
        link_sel: "a".to_string(),
        title_sel: "h2".to_string(),
        description_sel: Some("p".to_string()),
        image_sel: None,
        comments_sel: None,
    };
    let form = ScrapingSite::from_site(&site, Some("a b".to_string()));
    assert_eq!(form.id.as_deref(), Some("12"));
    assert_eq!(form.every_seconds, "300");
    assert_eq!(form.url, "https://example.com");
    assert_eq!(form.articles_sel, "article");
    assert_eq!(form.title_sel, "h2");
    assert_eq!(form.link_sel, "a");
    assert_eq!(form.site_title, "News");
    assert_eq!(form.tags, "a b");
    assert_eq!(form.description_sel.as_deref(), Some("p"));
    assert_eq!(form.image_sel, None);
    assert_eq!(form.site_id(), Some(12));
    let form = ScrapingSite::from_site(&site, None);
    assert_eq!(form.tags, "");
    let mut negative = site.clone();
    negative.id = -4;
    assert_eq!(ScrapingSite::from_site(&negative, None).id.as_deref(), Some("-4"));
    negative.id = 0;
    negative.every_seconds = i64::MAX;
    let form = ScrapingSite::from_site(&negative, None);
    assert_eq!(form.id.as_deref(), Some("0"));
    assert_eq!(form.every_seconds, "9223372036854775807");
    negative.id = i64::MIN;
    negative.every_seconds = 10;
    let form = ScrapingSite::from_site(&negative, None);
    assert_eq!(form.id.as_deref(), Some("-9223372036854775808"));
    assert_eq!(form.every_seconds, "10");
}
