use rss_aggregator::digest::salted_password;
use rss_aggregator::dto::{User, UserId};
use rss_aggregator::preferences::{FilterItems, ShowUnreads, UserPreferences, USER_PREFERENCE};
use rss_aggregator::session::Session;
use rss_aggregator::template_utils::{ammonia, TAG_PREFERENCE};
use rss_aggregator::utils::unix_time;
use std::time::SystemTime;

#[test]
fn digest_is_sha3_256_in_lower_case_hex() {
    assert_eq!(
        salted_password("", ""),
        "a7ffc6f8bf1ed76651c14756a061d662f580ff4de43b49fa82d80a4b80f8434a"
    );
    assert_eq!(
        salted_password("abc", ""),
        "3a985da74fe225b2045c172d6bd390bd855f086e3e9d525b46bfe24511431532"
    );
    assert_eq!(salted_password("a", "bc"), salted_password("ab", "c"));
    assert_ne!(salted_password("a", "bc"), salted_password("a", "bd"));
}

#[test]
fn password_matches_its_digest_only() {
    let user = User::new(
        UserId(4),
        "ab".to_string(),
        "june".to_string(),
        "3a985da74fe225b2045c172d6bd390bd855f086e3e9d525b46bfe24511431532".to_string(),
    );
    assert_eq!(user.username(), "june");
    assert_eq!(user.id().0, 4);
    assert!(user.passwords_match("c"));
    assert!(!user.passwords_match("d"));
    assert!(!user.passwords_match(""));
    let upper = User::new(
        UserId(4),
        "ab".to_string(),
        "june".to_string(),
        "3A985DA74FE225B2045C172D6BD390BD855F086E3E9D525B46BFE24511431532".to_string(),
    );
    assert!(!upper.passwords_match("c"));
}

#[test]
fn filter_gives_at_most_one_parameter() {
    assert_eq!(FilterItems::All.as_items(), (None, None));
    assert_eq!(FilterItems::Id(7).as_items(), (Some(7), None));
    assert_eq!(
        FilterItems::Title("news".to_string()).as_items(),
        (None, Some("news".to_string()))
    );
}

#[test]
fn unread_parameter() {
    assert_eq!(ShowUnreads::ShowEverything.query_value(), None);
    assert_eq!(ShowUnreads::ShowUnreads.query_value(), Some(true));
}

#[test]
fn default_preferences() {
    let preferences = UserPreferences::default();
    assert!(matches!(preferences.filter_items, FilterItems::All));
    assert!(!preferences.sidebar_collapsed);
    assert!(matches!(preferences.show_unreads, ShowUnreads::ShowUnreads));
    assert_eq!(USER_PREFERENCE, "user_preferences");
    assert_eq!(TAG_PREFERENCE, "tags");
}

#[test]
fn session_keeps_user_and_start() {
    let before = SystemTime::now();
    let session = Session::new("42".to_string());
    let after = SystemTime::now();
    assert_eq!(session.user_id(), "42");
    assert!(*session.date() >= before);
    assert!(*session.date() <= after);
    let copy = session.clone();
    assert_eq!(copy.date(), session.date());
}

#[test]
fn clock_is_past_2021() {
    let first = unix_time();
    let second = unix_time();
    assert!(first > 1_626_309_745);
    assert!(second >= first);
}

#[test]
fn feed_html_is_cleaned() {
    let clean = ammonia("<p>Hi<script>alert(1)</script><img src=\"https://e.com/a.png\"></p>");
    assert!(!clean.contains("script"));
    assert!(clean.contains("<p>Hi"));
    assert!(clean.contains("loading=\"lazy\""));
    assert!(clean.contains("src=\"https://e.com/a.png\""));
    assert_eq!(ammonia("plain"), "plain");
}
