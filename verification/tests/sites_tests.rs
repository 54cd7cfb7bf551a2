use rss_aggregator::errors::MyError;
use rss_aggregator::site::{
    assemble_selectors, compile_optional, compile_required, Compiled, SelectorField, SiteConfig,
};
use rss_aggregator::sites::{check_articles, FormPostSites, ScrapingSite, SiteAction};
use rss_aggregator::text::same_text;
use scraper::Selector;

fn form() -> ScrapingSite {
    ScrapingSite {
        id: Some("31".to_string()),
        every_seconds: "60".to_string(),
        url: "https://example.com/news".to_string(),
        articles_sel: "article".to_string(),
        title_sel: "h2".to_string(),
        link_sel: "a".to_string(),
        site_title: "Example".to_string(),
        tags: "news tech".to_string(),
        image_sel: Some("".to_string()),
        description_sel: Some("p".to_string()),
        comments_sel: None,
    }
}

fn posted(action: &str) -> FormPostSites {
    FormPostSites { action: action.to_string(), scraping_site: form() }
}

fn bad_param(result: Result<(url::Url, rss_aggregator::site::SelectorSet), MyError>) -> (String, String) {
    match result {
        Err(MyError::BadParam(name, value)) => (name, value),
        Err(other) => panic!("expected a bad parameter, got {:?}", other),
        Ok(_) => panic!("expected a bad parameter, got a compiled form"),
    }
}

#[test]
fn actions_of_the_form() {
    assert_eq!(posted("delete").requested().unwrap(), SiteAction::Delete);
    assert_eq!(posted("check").requested().unwrap(), SiteAction::Check);
    assert_eq!(posted("create").requested().unwrap(), SiteAction::Save);
    assert_eq!(posted("update").requested().unwrap(), SiteAction::Save);
    match posted("explode").requested() {
        Err(MyError::BadParam(name, value)) => {
            assert_eq!(name, "action");
            assert_eq!(value, "explode");
        }
        other => panic!("expected a bad parameter, got {:?}", other),
    }
    assert!(posted("").requested().is_err());
    assert!(posted("Delete").requested().is_err());
}

#[test]
fn form_compiles_for_a_check() {
    let (url, selectors) = form().compile().unwrap();
    assert_eq!(url.as_str(), "https://example.com/news");
    assert!(selectors.description.is_some());
    assert!(selectors.image.is_none());
    assert!(selectors.comments.is_none());
    let page = "<article><a href='/a'>x</a><h2>A</h2><p>About</p></article>";
    let found = check_articles(Some(page), &url, &selectors);
    assert_eq!(found.len(), 1);
    assert_eq!(found[0].href, "https://example.com/a");
    assert_eq!(found[0].title, "A");
    assert_eq!(found[0].description.as_deref(), Some("About"));
    assert!(check_articles(None, &url, &selectors).is_empty());
}

#[test]
fn form_is_refused_for_its_first_bad_field() {
    let mut bad = form();
    bad.url = "nowhere".to_string();
    bad.articles_sel = "[".to_string();
    assert_eq!(bad_param(bad.compile()), ("url".to_string(), "nowhere".to_string()));
    let mut bad = form();
    bad.articles_sel = "[".to_string();
    bad.link_sel = "[[".to_string();
    assert_eq!(bad_param(bad.compile()), ("articles_sel".to_string(), "[".to_string()));
    let mut bad = form();
    bad.link_sel = "[[".to_string();
    bad.title_sel = "".to_string();
    assert_eq!(bad_param(bad.compile()), ("link_sel".to_string(), "[[".to_string()));
    let mut bad = form();
    bad.title_sel = "".to_string();
    assert_eq!(bad_param(bad.compile()), ("title_sel".to_string(), "".to_string()));
    let mut bad = form();
    bad.description_sel = Some("p[".to_string());
    bad.comments_sel = Some("]".to_string());
    assert_eq!(bad_param(bad.compile()), ("description_sel".to_string(), "p[".to_string()));
    let mut bad = form();
    bad.image_sel = Some("img[".to_string());
    assert_eq!(bad_param(bad.compile()), ("image_sel".to_string(), "img[".to_string()));
    let mut bad = form();
    bad.comments_sel = Some("]".to_string());
    assert_eq!(bad_param(bad.compile()), ("comments_sel".to_string(), "]".to_string()));
}

#[test]
fn id_of_the_form() {
    assert_eq!(form().site_id(), Some(31));
    let mut other = form();
    other.id = None;
    assert_eq!(other.site_id(), None);
    other.id = Some("x1".to_string());
    assert_eq!(other.site_id(), None);
    other.id = Some("-5".to_string());
    assert_eq!(other.site_id(), Some(-5));
    other.id = Some("9223372036854775808".to_string());
    assert_eq!(other.site_id(), None);
    other.id = Some("9223372036854775807".to_string());
    assert_eq!(other.site_id(), Some(i64::MAX));
    other.id = Some("-9223372036854775808".to_string());
    assert_eq!(other.site_id(), Some(i64::MIN));
    other.id = Some("-9223372036854775809".to_string());
    assert_eq!(other.site_id(), None);
    other.id = Some("+7".to_string());
    assert_eq!(other.site_id(), Some(7));
    other.id = Some("007".to_string());
    assert_eq!(other.site_id(), Some(7));
    other.id = Some("-0".to_string());
    assert_eq!(other.site_id(), Some(0));
    for bad in ["", "-", "+", " 5", "5 ", "--5", "+-5", "5a", "1_000", "\u{663}"] {
        other.id = Some(bad.to_string());
        assert_eq!(other.site_id(), None);
    }
}

#[test]
fn tags_of_the_form() {
    assert_eq!(form().tag_list(), vec!["news".to_string(), "tech".to_string()]);
    let mut other = form();
    other.tags = "one".to_string();
    assert_eq!(other.tag_list(), vec!["one".to_string()]);
    other.tags = "".to_string();
    assert_eq!(other.tag_list(), vec!["".to_string()]);
    other.tags = " a  b ".to_string();
    assert_eq!(other.tag_list(), vec!["", "a", "", "b", ""]);
}

#[test]
fn new_form_is_filled_with_examples() {
    let empty = ScrapingSite::default();
    assert_eq!(empty.id, None);
    assert_eq!(empty.every_seconds, "1");
    assert_eq!(empty.url, "htttps://url.to.fetch");
    assert_eq!(empty.articles_sel, "#selector.for .articles");
    assert_eq!(empty.title_sel, "#selector.for .titles");
    assert_eq!(empty.link_sel, "#selector.for .link");
    assert_eq!(empty.site_title, "Site Title");
    assert_eq!(empty.tags, "unknown");
    assert_eq!(empty.image_sel, None);
    assert_eq!(empty.description_sel, None);
    assert_eq!(empty.comments_sel, None);
}

#[test]
fn selector_outcomes() {
    assert!(matches!(compile_required("div > a.x"), Compiled::Valid(_)));
    assert!(matches!(compile_required(""), Compiled::Invalid));
    assert!(matches!(compile_required("a["), Compiled::Invalid));
    assert!(matches!(compile_optional(None), Compiled::Unset));
    assert!(matches!(compile_optional(Some(&String::new())), Compiled::Unset));
    assert!(matches!(compile_optional(Some(&"img".to_string())), Compiled::Valid(_)));
    assert!(matches!(compile_optional(Some(&"img[".to_string())), Compiled::Invalid));
}

#[test]
fn selector_set_needs_the_first_three() {
    let valid = || Compiled::Valid(Selector::parse("a").unwrap());
    let set = assemble_selectors(valid(), valid(), valid(), Compiled::Unset, valid(), Compiled::Unset);
    let set = set.ok().unwrap();
    assert!(set.description.is_none());
    assert!(set.image.is_some());
    assert!(set.comments.is_none());
    let field = |r: Result<_, SelectorField>| r.err().unwrap();
    assert_eq!(
        field(assemble_selectors(Compiled::Unset, valid(), valid(), valid(), valid(), valid())),
        SelectorField::Articles
    );
    assert_eq!(
        field(assemble_selectors(valid(), Compiled::Invalid, Compiled::Invalid, valid(), valid(), valid())),
        SelectorField::Link
    );
    assert_eq!(
        field(assemble_selectors(valid(), valid(), Compiled::Unset, Compiled::Invalid, valid(), valid())),
        SelectorField::Title
    );
    assert_eq!(
        field(assemble_selectors(valid(), valid(), valid(), Compiled::Invalid, Compiled::Invalid, valid())),
        SelectorField::Description
    );
    assert_eq!(
        field(assemble_selectors(valid(), valid(), valid(), Compiled::Unset, Compiled::Invalid, Compiled::Invalid)),
        SelectorField::Image
    );
    assert_eq!(
        field(assemble_selectors(valid(), valid(), valid(), valid(), valid(), Compiled::Invalid)),
        SelectorField::Comments
    );
}

#[test]
fn site_compiles_its_selectors() {
    let site = SiteConfig {
        id: 1,
        user_id: 1,
        site_title: "s".to_string(),
        url: "https://example.com".to_string(),
        every_seconds: 5,
        articles_sel: "article".to_string(),
        link_sel: "a".to_string(),
        title_sel: "h2".to_string(),
        description_sel: Some("p.lead".to_string()),
        image_sel: None,
        comments_sel: Some("".to_string()),
    };
    let set = site.compile().ok().unwrap();
    assert!(set.description.is_some());
    assert!(set.image.is_none());
    assert!(set.comments.is_none());
    let mut bad = site.clone();
    bad.image_sel = Some("img[".to_string());
    assert_eq!(bad.compile().err(), Some(SelectorField::Image));
}

#[test]
fn field_names() {
    assert_eq!(SelectorField::Articles.name(), "articles_sel");
    assert_eq!(SelectorField::Link.name(), "link_sel");
    assert_eq!(SelectorField::Title.name(), "title_sel");
    assert_eq!(SelectorField::Description.name(), "description_sel");
    assert_eq!(SelectorField::Image.name(), "image_sel");
    assert_eq!(SelectorField::Comments.name(), "comments_sel");
}

#[test]
fn texts_are_compared_by_their_characters() {
    assert!(same_text("", ""));
    assert!(same_text("delete", "delete"));
    assert!(!same_text("delete", "delet"));
    assert!(!same_text("a", "b"));
}
