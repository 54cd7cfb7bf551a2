//! From a fetched page to the articles on it: one article for each element
//! that the site's container selector matches and that carries a link and a
//! title, in the order of the page.

use vstd::prelude::*;
use crate::dom::{
    attribute_value, document_matches, element_attr, element_first_text, first_match, first_text,
    parse_document, parsed_document, select_all, select_first,
};
use crate::links::{resolve_link, resolved_link};

verus! {

/// One article as it was found on a page.
#[derive(Debug)]
pub struct ArticlePulled {
    pub href: String,
    pub title: String,
    pub description: Option<String>,
    pub image: Option<String>,
    pub comments: Option<String>,
}

/// An article as plain text.
pub struct ArticleView {
    pub href: Seq<char>,
    pub title: Seq<char>,
    pub description: Option<Seq<char>>,
    pub image: Option<Seq<char>>,
    pub comments: Option<Seq<char>>,
}

/// The text of an optional string.
pub open spec fn text_of(value: Option<String>) -> Option<Seq<char>> {
    match value {
        Some(text) => Some(text@),
        None => None,
    }
}

impl View for ArticlePulled {
    type V = ArticleView;

    open spec fn view(&self) -> ArticleView {
        ArticleView {
            href: self.href@,
            title: self.title@,
            description: text_of(self.description),
            image: text_of(self.image),
            comments: text_of(self.comments),
        }
    }
}

/// The articles of a list, each as plain text.
pub open spec fn article_views(articles: Seq<ArticlePulled>) -> Seq<ArticleView> {
    articles.map_values(|a: ArticlePulled| a@)
}

/// An optional article as plain text.
pub open spec fn optional_article_view(article: Option<ArticlePulled>) -> Option<ArticleView> {
    match article {
        Some(a) => Some(a@),
        None => None,
    }
}

/// What one container element yields, given the link that was read from it
/// (already resolved) and the texts that the other selectors found: nothing
/// where the title is missing or empty, else the article made of them.
pub open spec fn article_of_parts(
    href: Seq<char>,
    title: Option<Seq<char>>,
    description: Option<Seq<char>>,
    image: Option<Seq<char>>,
    comments: Option<Seq<char>>,
) -> Option<ArticleView> {
    match title {
        Some(title) if title.len() > 0 => Some(
            ArticleView { href, title, description, image, comments },
        ),
        _ => None,
    }
}

/// Builds the article of one container element from what was read in it.
/// An element without a title, or with an empty one, yields no article.
pub fn article_from_parts(
    href: String,
    title: Option<String>,
    description: Option<String>,
    image: Option<String>,
    comments: Option<String>,
) -> (r: Option<ArticlePulled>)
    ensures
        optional_article_view(r) == article_of_parts(
            href@,
            text_of(title),
            text_of(description),
            text_of(image),
            text_of(comments),
        ),
        r is Some <==> (title matches Some(t) && t@.len() > 0),
{
    match title {
        Some(title) => {
            if title.as_str().is_empty() {
                None
            } else {
                Some(ArticlePulled { href, title, description, image, comments })
            }
        },
        None => None,
    }
}

/// The value of attribute `name` on the first descendant of `element` that
/// matches `selector`; none where nothing matches or the attribute is not
/// set.
pub open spec fn matched_attribute(
    element: scraper::ElementRef<'static>,
    selector: scraper::Selector,
    name: Seq<char>,
) -> Option<Seq<char>> {
    match first_match(element, selector) {
        Some(found) => attribute_value(found, name),
        None => None,
    }
}

/// The first text below the first descendant of `element` that matches
/// `selector`; none where nothing matches or the match holds no text.
pub open spec fn matched_text(
    element: scraper::ElementRef<'static>,
    selector: scraper::Selector,
) -> Option<Seq<char>> {
    match first_match(element, selector) {
        Some(found) => first_text(found),
        None => None,
    }
}

/// As `matched_attribute`, for a selector that a site may leave out.
pub open spec fn optional_attribute(
    element: scraper::ElementRef<'static>,
    selector: Option<scraper::Selector>,
    name: Seq<char>,
) -> Option<Seq<char>> {
    match selector {
        Some(selector) => matched_attribute(element, selector, name),
        None => None,
    }
}

/// As `matched_text`, for a selector that a site may leave out.
pub open spec fn optional_text(
    element: scraper::ElementRef<'static>,
    selector: Option<scraper::Selector>,
) -> Option<Seq<char>> {
    match selector {
        Some(selector) => matched_text(element, selector),
        None => None,
    }
}

/// The selectors of one site, as plain values for specifications.
pub struct SelectorsView {
    pub link: scraper::Selector,
    pub title: scraper::Selector,
    pub description: Option<scraper::Selector>,
    pub image: Option<scraper::Selector>,
    pub comments: Option<scraper::Selector>,
}

/// The article that one container element yields: none where the element
/// holds no link with an `href`, where the link cannot be resolved, or
/// where the element holds no title; else the resolved link, the title, and
/// what the optional selectors find (the description's text, the image's
/// `src`, the comments' `href`).
pub open spec fn article_of_element(
    element: scraper::ElementRef<'static>,
    base: url::Url,
    selectors: SelectorsView,
) -> Option<ArticleView> {
    match matched_attribute(element, selectors.link, "href"@) {
        Some(href) => match resolved_link(href, base) {
            Some(link) => article_of_parts(
                link,
                matched_text(element, selectors.title),
                optional_text(element, selectors.description),
                optional_attribute(element, selectors.image, "src"@),
                optional_attribute(element, selectors.comments, "href"@),
            ),
            None => None,
        },
        None => None,
    }
}

/// The articles that a run of container elements yields: those of the
/// elements that yield one, in the order of the elements.
pub open spec fn articles_of_elements(
    elements: Seq<scraper::ElementRef<'static>>,
    base: url::Url,
    selectors: SelectorsView,
) -> Seq<ArticleView>
    decreases elements.len(),
{
    if elements.len() == 0 {
        Seq::empty()
    } else {
        let before = articles_of_elements(elements.drop_last(), base, selectors);
        match article_of_element(elements.last(), base, selectors) {
            Some(article) => before.push(article),
            None => before,
        }
    }
}

/// The articles of a page: those of the elements that the container
/// selector matches in the parsed page, in document order.
pub open spec fn articles_of_page(
    page: Seq<char>,
    base: url::Url,
    articles: scraper::Selector,
    selectors: SelectorsView,
) -> Seq<ArticleView> {
    articles_of_elements(document_matches(parsed_document(page), articles), base, selectors)
}

/// The value of attribute `name` on the first match of an optional
/// selector below `element`.
fn read_optional_attribute(
    element: &scraper::ElementRef<'_>,
    selector: Option<&scraper::Selector>,
    name: &str,
) -> (r: Option<String>)
    ensures
        text_of(r) == optional_attribute(
            *element,
            match selector {
                Some(s) => Some(*s),
                None => None,
            },
            name@,
        ),
{
    match selector {
        Some(selector) => match select_first(element, selector) {
            Some(found) => element_attr(&found, name),
            None => None,
        },
        None => None,
    }
}

/// The first text below the first match of an optional selector below
/// `element`.
fn read_optional_text(
    element: &scraper::ElementRef<'_>,
    selector: Option<&scraper::Selector>,
) -> (r: Option<String>)
    ensures
        text_of(r) == optional_text(
            *element,
            match selector {
                Some(s) => Some(*s),
                None => None,
            },
        ),
{
    match selector {
        Some(selector) => match select_first(element, selector) {
            Some(found) => element_first_text(&found),
            None => None,
        },
        None => None,
    }
}

/// The selectors that are applied inside a container element, as a value
/// for specifications.
pub open spec fn selectors_view(
    link_sel: &scraper::Selector,
    title_sel: &scraper::Selector,
    description_sel: Option<&scraper::Selector>,
    image_sel: Option<&scraper::Selector>,
    comments_sel: Option<&scraper::Selector>,
) -> SelectorsView {
    SelectorsView {
        link: *link_sel,
        title: *title_sel,
        description: match description_sel {
            Some(s) => Some(*s),
            None => None,
        },
        image: match image_sel {
            Some(s) => Some(*s),
            None => None,
        },
        comments: match comments_sel {
            Some(s) => Some(*s),
            None => None,
        },
    }
}

/// Reads one container element. The element is passed over, and no error
/// is raised, where it holds no match of the link selector, where that
/// match has no `href` or one that cannot be resolved, or where it holds no
/// title.
pub fn extract_element(
    element: &scraper::ElementRef<'_>,
    url: &url::Url,
    link_sel: &scraper::Selector,
    title_sel: &scraper::Selector,
    description_sel: Option<&scraper::Selector>,
    image_sel: Option<&scraper::Selector>,
    comments_sel: Option<&scraper::Selector>,
) -> (r: Option<ArticlePulled>)
    ensures
        optional_article_view(r) == article_of_element(
            *element,
            *url,
            selectors_view(link_sel, title_sel, description_sel, image_sel, comments_sel),
        ),
        first_match(*element, *link_sel) is None ==> r is None,
{
    let href = match read_optional_attribute(element, Some(link_sel), "href") {
        Some(href) => href,
        None => { return None; },
    };
    let href = match resolve_link(href, url) {
        Some(href) => href,
        None => { return None; },
    };
    let title = read_optional_text(element, Some(title_sel));
    let description = read_optional_text(element, description_sel);
    let image = read_optional_attribute(element, image_sel, "src");
    let comments = read_optional_attribute(element, comments_sel, "href");
    article_from_parts(href, title, description, image, comments)
}

/// The articles of a fetched page, in document order. `page` is what the
/// fetch returned: `None` where it failed, and then there is no result.
pub fn get_collections(
    page: Option<&str>,
    url: &url::Url,
    articles_sel: &scraper::Selector,
    link_sel: &scraper::Selector,
    title_sel: &scraper::Selector,
    description_sel: Option<&scraper::Selector>,
    image_sel: Option<&scraper::Selector>,
    comments_sel: Option<&scraper::Selector>,
) -> (r: Option<Vec<ArticlePulled>>)
    ensures
        r is None <==> page is None,
        page matches Some(text) ==> article_views(r->0@) == articles_of_page(
            text@,
            *url,
            *articles_sel,
            selectors_view(link_sel, title_sel, description_sel, image_sel, comments_sel),
        ),
{
    let text = match page {
        Some(text) => text,
        None => { return None; },
    };
    let html = parse_document(text);
    let elements = select_all(&html, articles_sel);
    let ghost selectors = selectors_view(
        link_sel,
        title_sel,
        description_sel,
        image_sel,
        comments_sel,
    );
    let mut collections: Vec<ArticlePulled> = Vec::new();
    let mut i: usize = 0;
    assert(elements@.subrange(0, 0) =~= Seq::empty());
    while i < elements.len()
        invariant
            i <= elements.len(),
            selectors == selectors_view(
                link_sel,
                title_sel,
                description_sel,
                image_sel,
                comments_sel,
            ),
            article_views(collections@) =~= articles_of_elements(
                elements@.subrange(0, i as int),
                *url,
                selectors,
            ),
        decreases elements.len() - i,
    {
        let ghost before = collections@;
        let found = extract_element(
            &elements[i],
            url,
            link_sel,
            title_sel,
            description_sel,
            image_sel,
            comments_sel,
        );
        proof {
            let upto = elements@.subrange(0, i as int + 1);
            assert(upto.drop_last() =~= elements@.subrange(0, i as int));
            assert(upto.last() == elements@[i as int]);
        }
        match found {
            Some(article) => {
                collections.push(article);
                assert(article_views(collections@) =~= article_views(before).push(article@));
            },
            None => {},
        }
        i = i + 1;
    }
    assert(elements@.subrange(0, i as int) =~= elements@);
    Some(collections)
}

/// Extraction has no hidden state: two results for the same page, address
/// and selectors are the same sequence of articles.
pub proof fn lemma_extraction_is_repeatable(
    first: Seq<ArticlePulled>,
    second: Seq<ArticlePulled>,
    page: Seq<char>,
    base: url::Url,
    articles: scraper::Selector,
    selectors: SelectorsView,
)
    requires
        article_views(first) == articles_of_page(page, base, articles, selectors),
        article_views(second) == articles_of_page(page, base, articles, selectors),
    ensures
        article_views(first) == article_views(second),
        first.len() == second.len(),
{
    assert(article_views(first).len() == first.len());
    assert(article_views(second).len() == second.len());
}

/// A container element in which the link selector matches nothing yields
/// no article, whatever else it holds.
pub proof fn lemma_element_without_link_yields_nothing(
    element: scraper::ElementRef<'static>,
    base: url::Url,
    selectors: SelectorsView,
)
    requires
        first_match(element, selectors.link) is None,
    ensures
        article_of_element(element, base, selectors) is None,
{
}

/// A container element that yields no article is absent from the output:
/// the articles of the page are those of the page without that element.
pub proof fn lemma_skipped_element_is_absent(
    elements: Seq<scraper::ElementRef<'static>>,
    i: int,
    base: url::Url,
    selectors: SelectorsView,
)
    requires
        0 <= i < elements.len(),
        article_of_element(elements[i], base, selectors) is None,
    ensures
        articles_of_elements(elements, base, selectors) == articles_of_elements(
            elements.remove(i),
            base,
            selectors,
        ),
    decreases elements.len(),
{
    if i == elements.len() - 1 {
        assert(elements.remove(i) =~= elements.drop_last());
    } else {
        lemma_skipped_element_is_absent(elements.drop_last(), i, base, selectors);
        assert(elements.remove(i).drop_last() =~= elements.drop_last().remove(i));
        assert(elements.remove(i).last() == elements.last());
    }
}

/// The output keeps the order of the page: the articles of two runs of
/// elements, one after the other, are the articles of the first run
/// followed by those of the second.
pub proof fn lemma_articles_follow_document_order(
    front: Seq<scraper::ElementRef<'static>>,
    back: Seq<scraper::ElementRef<'static>>,
    base: url::Url,
    selectors: SelectorsView,
)
    ensures
        articles_of_elements(front + back, base, selectors) == articles_of_elements(
            front,
            base,
            selectors,
        ) + articles_of_elements(back, base, selectors),
    decreases back.len(),
{
    if back.len() == 0 {
        assert(front + back =~= front);
        assert(articles_of_elements(front, base, selectors) + Seq::<ArticleView>::empty()
            =~= articles_of_elements(front, base, selectors));
    } else {
        lemma_articles_follow_document_order(front, back.drop_last(), base, selectors);
        assert((front + back).drop_last() =~= front + back.drop_last());
        assert((front + back).last() == back.last());
        let before = articles_of_elements(front, base, selectors) + articles_of_elements(
            back.drop_last(),
            base,
            selectors,
        );
        match article_of_element(back.last(), base, selectors) {
            Some(article) => {
                assert(before.push(article) =~= articles_of_elements(front, base, selectors)
                    + articles_of_elements(back.drop_last(), base, selectors).push(article));
            },
            None => {},
        }
    }
}

/// Every article of the output has a title that is not empty.
pub proof fn lemma_titles_are_not_empty(
    elements: Seq<scraper::ElementRef<'static>>,
    base: url::Url,
    selectors: SelectorsView,
    k: int,
)
    requires
        0 <= k < articles_of_elements(elements, base, selectors).len(),
    ensures
        articles_of_elements(elements, base, selectors)[k].title.len() > 0,
    decreases elements.len(),
{
    if elements.len() > 0 {
        let before = articles_of_elements(elements.drop_last(), base, selectors);
        if k < before.len() {
            lemma_titles_are_not_empty(elements.drop_last(), base, selectors, k);
        }
    }
}

} // verus!
