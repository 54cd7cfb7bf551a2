//! The form by which a site is created, changed, checked and deleted.

use vstd::prelude::*;
use crate::errors::{ErrorView, MyError};
use crate::extract::{article_views, articles_of_page, get_collections, ArticlePulled};
use crate::links::{parse_url, parsed_url};
use crate::text::{
    decimal, decimal_text, is_split, parse_i64, parsed_i64, same_text, split_on, texts,
};
use crate::site::SiteConfig;
use crate::site::{
    assemble_selectors, assembled, compile_optional, compile_required, compiled_optional,
    compiled_required, selector_text, SelectorField, SelectorSet,
};

verus! {

/// A site as the form holds it: every field as text.
#[derive(Debug, Clone)]
pub struct ScrapingSite {
    pub id: Option<String>,
    pub every_seconds: String,
    pub url: String,
    pub articles_sel: String,
    pub title_sel: String,
    pub link_sel: String,
    pub site_title: String,
    pub tags: String,
    pub image_sel: Option<String>,
    pub description_sel: Option<String>,
    pub comments_sel: Option<String>,
}

impl Default for ScrapingSite {
    /// The form for a new site, filled with examples.
    fn default() -> (r: Self)
        ensures
            r.id is None,
            r.every_seconds@ == "1"@,
            r.url@ == "htttps://url.to.fetch"@,
            r.articles_sel@ == "#selector.for .articles"@,
            r.title_sel@ == "#selector.for .titles"@,
            r.link_sel@ == "#selector.for .link"@,
            r.site_title@ == "Site Title"@,
            r.tags@ == "unknown"@,
            r.image_sel is None,
            r.description_sel is None,
            r.comments_sel is None,
    {
        Self {
            id: None,
            every_seconds: "1".to_owned(),
            url: "htttps://url.to.fetch".to_owned(),
            articles_sel: "#selector.for .articles".to_owned(),
            title_sel: "#selector.for .titles".to_owned(),
            link_sel: "#selector.for .link".to_owned(),
            site_title: "Site Title".to_owned(),
            tags: "unknown".to_owned(),
            image_sel: None,
            description_sel: None,
            comments_sel: None,
        }
    }
}

/// The form as it is posted: a site and what to do with it.
#[derive(Debug, Clone)]
pub struct FormPostSites {
    pub action: String,
    pub scraping_site: ScrapingSite,
}

/// What a posted form asks for.
#[derive(Debug, Clone, Copy, PartialEq, Eq, Structural)]
pub enum SiteAction {
    /// Delete the site and stop its worker.
    Delete,
    /// Fetch the site once and show what its selectors find.
    Check,
    /// Store the site, then stop its worker, if any, and start one.
    Save,
}

/// The action that a form's `action` field names: `delete`, `check`, and
/// `create` or `update`, which are one. Any other text names none.
pub open spec fn action_named(action: Seq<char>) -> Option<SiteAction> {
    if action == "delete"@ {
        Some(SiteAction::Delete)
    } else if action == "check"@ {
        Some(SiteAction::Check)
    } else if action == "create"@ || action == "update"@ {
        Some(SiteAction::Save)
    } else {
        None
    }
}

impl FormPostSites {
    /// What the form asks for; a form whose action is unknown is refused as
    /// a bad parameter `action`, with the text that it gave.
    pub fn requested(&self) -> (r: Result<SiteAction, MyError>)
        ensures
            match action_named(self.action@) {
                Some(action) => r == Ok::<SiteAction, MyError>(action),
                None => r is Err && r->Err_0@ == ErrorView::BadParam("action"@, self.action@),
            },
    {
        let action = self.action.as_str();
        if same_text(action, "delete") {
            Ok(SiteAction::Delete)
        } else if same_text(action, "check") {
            Ok(SiteAction::Check)
        } else if same_text(action, "create") || same_text(action, "update") {
            Ok(SiteAction::Save)
        } else {
            Err(MyError::bad_param("action", action))
        }
    }
}

/// The name of a selector's field in the form.
pub open spec fn field_name(field: SelectorField) -> Seq<char> {
    match field {
        SelectorField::Articles => "articles_sel"@,
        SelectorField::Link => "link_sel"@,
        SelectorField::Title => "title_sel"@,
        SelectorField::Description => "description_sel"@,
        SelectorField::Image => "image_sel"@,
        SelectorField::Comments => "comments_sel"@,
    }
}

impl ScrapingSite {
    /// The form for a site that is stored, with its tags: numbers are
    /// written in decimal, and a site without tags has the empty text for
    /// them.
    pub fn from_site(site: &SiteConfig, tags: Option<String>) -> (r: ScrapingSite)
        ensures
            r.id is Some && r.id->0@ == decimal_text(site.id),
            r.every_seconds@ == decimal_text(site.every_seconds),
            r.url@ == site.url@,
            r.articles_sel@ == site.articles_sel@,
            r.title_sel@ == site.title_sel@,
            r.link_sel@ == site.link_sel@,
            r.site_title@ == site.site_title@,
            r.tags@ == optional_text(tags),
            r.image_sel == site.image_sel,
            r.description_sel == site.description_sel,
            r.comments_sel == site.comments_sel,
    {
        ScrapingSite {
            id: Some(decimal(site.id)),
            every_seconds: decimal(site.every_seconds),
            url: site.url.clone(),
            articles_sel: site.articles_sel.clone(),
            title_sel: site.title_sel.clone(),
            link_sel: site.link_sel.clone(),
            site_title: site.site_title.clone(),
            tags: match tags {
                Some(tags) => tags,
                None => String::new(),
            },
            image_sel: site.image_sel.clone(),
            description_sel: site.description_sel.clone(),
            comments_sel: site.comments_sel.clone(),
        }
    }

    /// What compiling the form's selectors gives: the selector set, or the
    /// first field whose text is no selector.
    pub open spec fn compiled(self) -> Result<SelectorSet, SelectorField> {
        assembled(
            compiled_required(self.articles_sel@),
            compiled_required(self.link_sel@),
            compiled_required(self.title_sel@),
            compiled_optional(selector_text(self.description_sel)),
            compiled_optional(selector_text(self.image_sel)),
            compiled_optional(selector_text(self.comments_sel)),
        )
    }

    /// The text that the form holds for a selector; empty where it holds
    /// none.
    pub open spec fn field_text(self, field: SelectorField) -> Seq<char> {
        match field {
            SelectorField::Articles => self.articles_sel@,
            SelectorField::Link => self.link_sel@,
            SelectorField::Title => self.title_sel@,
            SelectorField::Description => optional_text(self.description_sel),
            SelectorField::Image => optional_text(self.image_sel),
            SelectorField::Comments => optional_text(self.comments_sel),
        }
    }

    /// Why the form cannot be checked: its address is no address, or, with
    /// a valid address, one of its selectors is no selector. Either is a
    /// bad parameter, named after the field, with the field's text.
    pub open spec fn refusal(self) -> Option<ErrorView> {
        if parsed_url(self.url@) is None {
            Some(ErrorView::BadParam("url"@, self.url@))
        } else {
            match self.compiled() {
                Err(field) => Some(ErrorView::BadParam(field_name(field), self.field_text(field))),
                Ok(_) => None,
            }
        }
    }

    /// The text of a selector's field.
    fn text_of_field(&self, field: SelectorField) -> (r: &str)
        ensures
            r@ == self.field_text(field),
    {
        match field {
            SelectorField::Articles => self.articles_sel.as_str(),
            SelectorField::Link => self.link_sel.as_str(),
            SelectorField::Title => self.title_sel.as_str(),
            SelectorField::Description => text_or_empty(&self.description_sel),
            SelectorField::Image => text_or_empty(&self.image_sel),
            SelectorField::Comments => text_or_empty(&self.comments_sel),
        }
    }

    /// Compiles the form's address and selectors, for a check of the site.
    pub fn compile(&self) -> (r: Result<(url::Url, SelectorSet), MyError>)
        ensures
            match self.refusal() {
                Some(error) => r is Err && r->Err_0@ == error,
                None => r == Ok::<(url::Url, SelectorSet), MyError>(
                    (parsed_url(self.url@)->0, self.compiled()->Ok_0),
                ),
            },
    {
        let url = match parse_url(self.url.as_str()) {
            Some(url) => url,
            None => { return Err(MyError::bad_param("url", self.url.as_str())); },
        };
        let selectors = assemble_selectors(
            compile_required(self.articles_sel.as_str()),
            compile_required(self.link_sel.as_str()),
            compile_required(self.title_sel.as_str()),
            compile_optional(self.description_sel.as_ref()),
            compile_optional(self.image_sel.as_ref()),
            compile_optional(self.comments_sel.as_ref()),
        );
        match selectors {
            Ok(selectors) => Ok((url, selectors)),
            Err(field) => Err(MyError::bad_param(field.name(), self.text_of_field(field))),
        }
    }

    /// The id of the site that the form is about: the number that its `id`
    /// field writes, none where the field is missing or writes no number.
    pub fn site_id(&self) -> (r: Option<i64>)
        ensures
            r == (match self.id {
                Some(text) => parsed_i64(text@),
                None => None,
            }),
    {
        match &self.id {
            Some(text) => parse_i64(text.as_str()),
            None => None,
        }
    }

    /// The tags of the site: the pieces of the `tags` field between its
    /// spaces.
    pub fn tag_list(&self) -> (r: Vec<String>)
        ensures
            is_split(texts(r@), self.tags@, ' '),
    {
        split_on(self.tags.as_str(), ' ')
    }
}

/// The text of an optional field; empty where there is none.
pub open spec fn optional_text(text: Option<String>) -> Seq<char> {
    match text {
        Some(text) => text@,
        None => Seq::empty(),
    }
}

/// The text of an optional field.
fn text_or_empty(text: &Option<String>) -> (r: &str)
    ensures
        r@ == optional_text(*text),
{
    match text {
        Some(text) => text.as_str(),
        None => {
            proof {
                reveal_strlit("");
            }
            ""
        },
    }
}

/// What a check of a site shows: the articles of the fetched page, and
/// none where the fetch failed.
pub fn check_articles(page: Option<&str>, url: &url::Url, selectors: &SelectorSet) -> (r: Vec<
    ArticlePulled,
>)
    ensures
        page is None ==> r@.len() == 0,
        page matches Some(text) ==> article_views(r@) == articles_of_page(
            text@,
            *url,
            selectors.articles,
            selectors.inner(),
        ),
{
    let found = get_collections(
        page,
        url,
        &selectors.articles,
        &selectors.link,
        &selectors.title,
        selectors.description.as_ref(),
        selectors.image.as_ref(),
        selectors.comments.as_ref(),
    );
    match found {
        Some(articles) => articles,
        None => Vec::new(),
    }
}

} // verus!
