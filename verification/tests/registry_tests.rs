use rss_aggregator::registry::{Scraper, StartError};
use rss_aggregator::site::{SelectorField, SiteConfig};
use rss_aggregator::worker::{WorkerState, WARM_UP_MILLIS};

fn site(id: i64, user_id: i64) -> SiteConfig {
    SiteConfig {
        id,
        user_id,
        site_title: format!("Site {}", id),
        url: format!("https://example.com/{}", id),
        every_seconds: 5,
        articles_sel: "div.post".to_string(),
        link_sel: "a".to_string(),
        title_sel: "h2".to_string(),
        description_sel: None,
        image_sel: Some(String::new()),
        comments_sel: Some("a.comments".to_string()),
    }
}

#[test]
fn start_both_then_stop_both_leaves_registry_empty() {
    let mut registry = Scraper::empty();
    let a = registry.scrape_site(1, 7, Some(site(1, 7))).unwrap();
    let b = registry.scrape_site(2, 7, Some(site(2, 7))).unwrap();
    assert_eq!(registry.len(), 2);
    assert!(registry.is_running(1));
    assert!(registry.is_running(2));
    assert_ne!(a.handle(), b.handle());
    assert_eq!(registry.remove_scraper(1), Some(a.handle()));
    assert_eq!(registry.remove_scraper(2), Some(b.handle()));
    assert_eq!(registry.len(), 0);
    assert!(!registry.is_running(1));
    assert!(!registry.is_running(2));
}

#[test]
fn start_of_unknown_site_is_not_found() {
    let mut registry = Scraper::empty();
    assert_eq!(registry.scrape_site(9, 7, None).err(), Some(StartError::NotFound));
    assert_eq!(registry.len(), 0);
    assert!(!registry.is_running(9));
}

#[test]
fn start_of_someone_elses_site_is_not_found() {
    let mut registry = Scraper::empty();
    assert_eq!(registry.scrape_site(1, 8, Some(site(1, 7))).err(), Some(StartError::NotFound));
    assert_eq!(registry.scrape_site(2, 7, Some(site(1, 7))).err(), Some(StartError::NotFound));
    assert_eq!(registry.len(), 0);
}

#[test]
fn second_start_is_already_running() {
    let mut registry = Scraper::empty();
    let first = registry.scrape_site(1, 7, Some(site(1, 7))).unwrap();
    assert_eq!(
        registry.scrape_site(1, 7, Some(site(1, 7))).err(),
        Some(StartError::AlreadyRunning)
    );
    assert_eq!(registry.len(), 1);
    assert_eq!(registry.remove_scraper(1), Some(first.handle()));
    let again = registry.scrape_site(1, 7, Some(site(1, 7))).unwrap();
    assert_ne!(again.handle(), first.handle());
}

#[test]
fn unknown_site_wins_over_running_worker() {
    let mut registry = Scraper::empty();
    registry.scrape_site(1, 7, Some(site(1, 7))).unwrap();
    assert_eq!(registry.scrape_site(1, 7, None).err(), Some(StartError::NotFound));
}

#[test]
fn invalid_selector_is_reported_with_its_field() {
    let mut registry = Scraper::empty();
    let mut bad = site(1, 7);
    bad.title_sel = "h2[".to_string();
    assert_eq!(
        registry.scrape_site(1, 7, Some(bad)).err(),
        Some(StartError::InvalidSelector(SelectorField::Title))
    );
    let mut bad = site(1, 7);
    bad.articles_sel = "".to_string();
    bad.link_sel = "a[".to_string();
    assert_eq!(
        registry.scrape_site(1, 7, Some(bad)).err(),
        Some(StartError::InvalidSelector(SelectorField::Articles))
    );
    let mut bad = site(1, 7);
    bad.comments_sel = Some(":::".to_string());
    assert_eq!(
        registry.scrape_site(1, 7, Some(bad)).err(),
        Some(StartError::InvalidSelector(SelectorField::Comments))
    );
    assert_eq!(registry.len(), 0);
}

#[test]
fn invalid_url_is_reported() {
    let mut registry = Scraper::empty();
    let mut bad = site(1, 7);
    bad.url = "not an address".to_string();
    assert_eq!(registry.scrape_site(1, 7, Some(bad)).err(), Some(StartError::InvalidUrl));
    assert!(!registry.is_running(1));
}

#[test]
fn stop_without_worker_is_no_error() {
    let mut registry = Scraper::empty();
    assert_eq!(registry.remove_scraper(5), None);
    registry.scrape_site(1, 7, Some(site(1, 7))).unwrap();
    assert_eq!(registry.remove_scraper(5), None);
    assert_eq!(registry.len(), 1);
}

#[test]
fn started_worker_is_asleep_for_warm_up() {
    let mut registry = Scraper::empty();
    assert!(registry.has_capacity());
    let worker = registry.scrape_site(3, 7, Some(site(3, 7))).unwrap();
    assert_eq!(worker.site_id(), 3);
    assert_eq!(worker.site_title(), "Site 3");
    assert_eq!(worker.url().as_str(), "https://example.com/3");
    assert_eq!(worker.interval(), 5000);
    assert_eq!(worker.state(), WorkerState::Sleeping(WARM_UP_MILLIS));
    assert_eq!(worker.handle(), 0);
}

#[test]
fn bootstrap_starts_every_site() {
    let (mut registry, workers) = Scraper::new(vec![site(4, 1), site(2, 1), site(9, 2)]).unwrap();
    assert_eq!(registry.len(), 3);
    assert_eq!(workers.len(), 3);
    assert_eq!(workers[0].site_id(), 4);
    assert_eq!(workers[1].site_id(), 2);
    assert_eq!(workers[2].site_id(), 9);
    assert_eq!(workers[0].handle(), 0);
    assert_eq!(workers[1].handle(), 1);
    assert_eq!(workers[2].handle(), 2);
    assert_eq!(registry.remove_scraper(2), Some(1));
    assert_eq!(registry.len(), 2);
}

#[test]
fn bootstrap_of_nothing_is_empty() {
    let (registry, workers) = Scraper::new(Vec::new()).unwrap();
    assert_eq!(registry.len(), 0);
    assert!(workers.is_empty());
}

#[test]
fn bootstrap_ends_at_first_refusal() {
    let mut bad = site(2, 1);
    bad.link_sel = "a[".to_string();
    let refused = Scraper::new(vec![site(1, 1), bad, site(3, 1)]);
    assert_eq!(refused.err(), Some(StartError::InvalidSelector(SelectorField::Link)));
    let twice = Scraper::new(vec![site(1, 1), site(1, 1)]);
    assert_eq!(twice.err(), Some(StartError::AlreadyRunning));
}
