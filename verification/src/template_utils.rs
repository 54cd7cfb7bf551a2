//! Helpers for the pages.

use vstd::prelude::*;

verus! {

/// The name under which a user's choice of tags is stored.
pub const TAG_PREFERENCE: &'static str = "tags";

/// The HTML that `ammonia` leaves of a fragment when it cleans it with its
/// default rules and sets one attribute to one value on every element with
/// one tag.
pub uninterp spec fn sanitized(
    html: Seq<char>,
    tag: Seq<char>,
    attribute: Seq<char>,
    value: Seq<char>,
) -> Seq<char>;

/// Calls `ammonia::Builder::clean` on a default builder on which
/// `set_tag_attribute_value` was called with the tag, the attribute and the
/// value, and writes the cleaned document out.
#[verifier::external_body]
fn clean_html(html: &str, tag: &str, attribute: &str, value: &str) -> (r: String)
    ensures
        r@ == sanitized(html@, tag@, attribute@, value@),
{
    ammonia::Builder::default().set_tag_attribute_value(tag, attribute, value).clean(
        html,
    ).to_string()
}

/// Makes HTML from a feed safe to show, with images that load lazily.
pub fn ammonia(s: &str) -> (r: String)
    ensures
        r@ == sanitized(s@, "img"@, "loading"@, "lazy"@),
{
    clean_html(s, "img", "loading", "lazy")
}

} // verus!
