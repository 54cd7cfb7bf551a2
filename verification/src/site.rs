//! A site as it is configured, and the compiled form of its selectors.

use vstd::prelude::*;
use crate::dom::{compiled_selector, parse_selector};
use crate::extract::SelectorsView;

verus! {

/// One configured site: where to fetch, how often, and how to find the
/// articles on the page.
#[derive(Debug, Clone)]
pub struct SiteConfig {
    pub id: i64,
    pub user_id: i64,
    pub site_title: String,
    pub url: String,
    pub every_seconds: i64,
    pub articles_sel: String,
    pub link_sel: String,
    pub title_sel: String,
    pub description_sel: Option<String>,
    pub image_sel: Option<String>,
    pub comments_sel: Option<String>,
}

/// The selector of a site that an error is about.
#[derive(Debug, Clone, Copy, PartialEq, Eq, Structural)]
pub enum SelectorField {
    Articles,
    Link,
    Title,
    Description,
    Image,
    Comments,
}

impl SelectorField {
    /// The name of the field in a site's form.
    pub fn name(&self) -> (r: &'static str)
        ensures
            r@ == (match *self {
                SelectorField::Articles => "articles_sel"@,
                SelectorField::Link => "link_sel"@,
                SelectorField::Title => "title_sel"@,
                SelectorField::Description => "description_sel"@,
                SelectorField::Image => "image_sel"@,
                SelectorField::Comments => "comments_sel"@,
            }),
    {
        match self {
            SelectorField::Articles => "articles_sel",
            SelectorField::Link => "link_sel",
            SelectorField::Title => "title_sel",
            SelectorField::Description => "description_sel",
            SelectorField::Image => "image_sel",
            SelectorField::Comments => "comments_sel",
        }
    }
}

/// The compiled selectors of one site. The three that every site has are
/// always there; each of the others only where the site configures it.
pub struct SelectorSet {
    pub articles: scraper::Selector,
    pub link: scraper::Selector,
    pub title: scraper::Selector,
    pub description: Option<scraper::Selector>,
    pub image: Option<scraper::Selector>,
    pub comments: Option<scraper::Selector>,
}

impl SelectorSet {
    /// The selectors that are applied inside a container element.
    pub open spec fn inner(self) -> SelectorsView {
        SelectorsView {
            link: self.link,
            title: self.title,
            description: self.description,
            image: self.image,
            comments: self.comments,
        }
    }
}

/// How one selector of a site came out of compilation.
pub enum Compiled {
    /// The site does not configure this selector, or leaves it empty.
    Unset,
    /// The text is no selector.
    Invalid,
    /// The compiled selector.
    Valid(scraper::Selector),
}

/// The selector set that the six outcomes make, or the first field, in the
/// order articles, link, title, description, image, comments, whose text is
/// no selector. The first three must be set: for them, unset counts as
/// invalid.
pub open spec fn assembled(
    articles: Compiled,
    link: Compiled,
    title: Compiled,
    description: Compiled,
    image: Compiled,
    comments: Compiled,
) -> Result<SelectorSet, SelectorField> {
    if !(articles is Valid) {
        Err(SelectorField::Articles)
    } else if !(link is Valid) {
        Err(SelectorField::Link)
    } else if !(title is Valid) {
        Err(SelectorField::Title)
    } else if description is Invalid {
        Err(SelectorField::Description)
    } else if image is Invalid {
        Err(SelectorField::Image)
    } else if comments is Invalid {
        Err(SelectorField::Comments)
    } else {
        Ok(
            SelectorSet {
                articles: articles->Valid_0,
                link: link->Valid_0,
                title: title->Valid_0,
                description: optional_selector(description),
                image: optional_selector(image),
                comments: optional_selector(comments),
            },
        )
    }
}

/// The selector of an outcome, if it holds one.
pub open spec fn optional_selector(outcome: Compiled) -> Option<scraper::Selector> {
    match outcome {
        Compiled::Valid(selector) => Some(selector),
        _ => None,
    }
}

/// Puts six compilation outcomes together: the selector set, or the first
/// field that is invalid.
pub fn assemble_selectors(
    articles: Compiled,
    link: Compiled,
    title: Compiled,
    description: Compiled,
    image: Compiled,
    comments: Compiled,
) -> (r: Result<SelectorSet, SelectorField>)
    ensures
        r == assembled(articles, link, title, description, image, comments),
{
    let articles = match articles {
        Compiled::Valid(s) => s,
        _ => { return Err(SelectorField::Articles); },
    };
    let link = match link {
        Compiled::Valid(s) => s,
        _ => { return Err(SelectorField::Link); },
    };
    let title = match title {
        Compiled::Valid(s) => s,
        _ => { return Err(SelectorField::Title); },
    };
    let description = match description {
        Compiled::Valid(s) => Some(s),
        Compiled::Unset => None,
        Compiled::Invalid => { return Err(SelectorField::Description); },
    };
    let image = match image {
        Compiled::Valid(s) => Some(s),
        Compiled::Unset => None,
        Compiled::Invalid => { return Err(SelectorField::Image); },
    };
    let comments = match comments {
        Compiled::Valid(s) => Some(s),
        Compiled::Unset => None,
        Compiled::Invalid => { return Err(SelectorField::Comments); },
    };
    Ok(SelectorSet { articles, link, title, description, image, comments })
}

/// The outcome of compiling a selector that every site has.
pub open spec fn compiled_required(text: Seq<char>) -> Compiled {
    match compiled_selector(text) {
        Some(selector) => Compiled::Valid(selector),
        None => Compiled::Invalid,
    }
}

/// The outcome of compiling a selector that a site may leave out: unset
/// where there is no text or the text is empty.
pub open spec fn compiled_optional(text: Option<Seq<char>>) -> Compiled {
    match text {
        Some(text) if text.len() > 0 => compiled_required(text),
        _ => Compiled::Unset,
    }
}

/// Compiles a selector that every site has.
pub fn compile_required(text: &str) -> (r: Compiled)
    ensures
        r == compiled_required(text@),
{
    match parse_selector(text) {
        Some(selector) => Compiled::Valid(selector),
        None => Compiled::Invalid,
    }
}

/// Compiles a selector that a site may leave out.
pub fn compile_optional(text: Option<&String>) -> (r: Compiled)
    ensures
        r == compiled_optional(
            match text {
                Some(t) => Some(t@),
                None => None,
            },
        ),
{
    match text {
        Some(text) => {
            if text.as_str().is_empty() {
                Compiled::Unset
            } else {
                compile_required(text.as_str())
            }
        },
        None => Compiled::Unset,
    }
}

/// The text of an optional selector.
pub open spec fn selector_text(text: Option<String>) -> Option<Seq<char>> {
    match text {
        Some(t) => Some(t@),
        None => None,
    }
}

impl SiteConfig {
    /// What compiling the site's selectors gives: the selector set, or the
    /// first field whose text is no selector.
    pub open spec fn compiled(self) -> Result<SelectorSet, SelectorField> {
        assembled(
            compiled_required(self.articles_sel@),
            compiled_required(self.link_sel@),
            compiled_required(self.title_sel@),
            compiled_optional(selector_text(self.description_sel)),
            compiled_optional(selector_text(self.image_sel)),
            compiled_optional(selector_text(self.comments_sel)),
        )
    }

    /// Compiles the site's selectors, once, before any page is fetched.
    pub fn compile(&self) -> (r: Result<SelectorSet, SelectorField>)
        ensures
            r == self.compiled(),
    {
        assemble_selectors(
            compile_required(self.articles_sel.as_str()),
            compile_required(self.link_sel.as_str()),
            compile_required(self.title_sel.as_str()),
            compile_optional(self.description_sel.as_ref()),
            compile_optional(self.image_sel.as_ref()),
            compile_optional(self.comments_sel.as_ref()),
        )
    }
}

} // verus!
