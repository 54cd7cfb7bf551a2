//! The HTML side of extraction: parsing a page, compiling selectors and
//! reading what they match. Everything here is done by the `scraper` crate;
//! this module declares its types and states, for each call, what the rest
//! of the library relies on.

use vstd::prelude::*;

verus! {

/// `scraper::Selector`, a compiled selector group. Opaque to the verifier.
#[verifier::external_type_specification]
#[verifier::external_body]
pub struct ExSelector(scraper::Selector);

/// `scraper::Html`, a parsed document. Opaque to the verifier.
#[verifier::external_type_specification]
#[verifier::external_body]
pub struct ExHtml(scraper::Html);

/// `scraper::ElementRef`, one element of a parsed document. Opaque to the
/// verifier.
#[verifier::external_type_specification]
#[verifier::external_body]
pub struct ExElementRef<'a>(scraper::ElementRef<'a>);

/// What `scraper::Selector::parse` makes of a selector text: the compiled
/// selector, or `None` where the text is no selector group.
pub uninterp spec fn compiled_selector(text: Seq<char>) -> Option<scraper::Selector>;

/// The document that `scraper::Html::parse_document` builds from a page.
pub uninterp spec fn parsed_document(page: Seq<char>) -> scraper::Html;

/// The elements of a document that match a selector, in the order in which
/// `scraper::Html::select` yields them: that of the document's nodes.
pub uninterp spec fn document_matches(
    doc: scraper::Html,
    selector: scraper::Selector,
) -> Seq<scraper::ElementRef<'static>>;

/// The first descendant of an element that matches a selector, as
/// `scraper::ElementRef::select` yields it first.
pub uninterp spec fn first_match(
    element: scraper::ElementRef<'static>,
    selector: scraper::Selector,
) -> Option<scraper::ElementRef<'static>>;

/// The value of an element's attribute, as `scraper::ElementRef::attr`
/// returns it.
pub uninterp spec fn attribute_value(
    element: scraper::ElementRef<'static>,
    name: Seq<char>,
) -> Option<Seq<char>>;

/// The first text node below an element, as `scraper::ElementRef::text`
/// yields it first.
pub uninterp spec fn first_text(element: scraper::ElementRef<'static>) -> Option<Seq<char>>;

/// Calls `scraper::Selector::parse`. The result is the compiled selector
/// for the text, and there is none exactly where parsing fails.
#[verifier::external_body]
pub(crate) fn parse_selector(text: &str) -> (r: Option<scraper::Selector>)
    ensures
        r == compiled_selector(text@),
{
    scraper::Selector::parse(text).ok()
}

/// Calls `scraper::Html::parse_document`, which accepts every text.
#[verifier::external_body]
pub(crate) fn parse_document(page: &str) -> (r: scraper::Html)
    ensures
        r == parsed_document(page@),
{
    scraper::Html::parse_document(page)
}

/// Calls `scraper::Html::select` and collects what it yields, in order.
#[verifier::external_body]
pub(crate) fn select_all<'a>(doc: &'a scraper::Html, selector: &scraper::Selector) -> (r: Vec<
    scraper::ElementRef<'a>,
>)
    ensures
        r@ == document_matches(*doc, *selector),
{
    doc.select(selector).collect()
}

/// Calls `scraper::ElementRef::select` and takes the first element that it
/// yields.
#[verifier::external_body]
pub(crate) fn select_first<'a>(
    element: &scraper::ElementRef<'a>,
    selector: &scraper::Selector,
) -> (r: Option<scraper::ElementRef<'a>>)
    ensures
        r == first_match(*element, *selector),
{
    element.select(selector).next()
}

/// Calls `scraper::ElementRef::attr` and copies the value out.
#[verifier::external_body]
pub(crate) fn element_attr(element: &scraper::ElementRef<'_>, name: &str) -> (r: Option<String>)
    ensures
        r.is_some() == attribute_value(*element, name@).is_some(),
        r matches Some(v) ==> attribute_value(*element, name@) == Some(v@),
{
    element.attr(name).map(|v| v.to_string())
}

/// Calls `scraper::ElementRef::text` and copies out the first text node
/// that it yields.
#[verifier::external_body]
pub(crate) fn element_first_text(element: &scraper::ElementRef<'_>) -> (r: Option<String>)
    ensures
        r.is_some() == first_text(*element).is_some(),
        r matches Some(v) ==> first_text(*element) == Some(v@),
{
    element.text().next().map(|v| v.to_string())
}

} // verus!
