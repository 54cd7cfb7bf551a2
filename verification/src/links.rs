//! Links found in a page: telling an absolute link from a relative one, and
//! resolving a relative one against the site's address.

use vstd::prelude::*;

verus! {

broadcast use vstd::string::group_string_axioms;

/// The four characters `http` stand in `text` from position `i` on.
pub open spec fn http_at(text: Seq<char>, i: int) -> bool {
    &&& 0 <= i
    &&& i + 4 <= text.len()
    &&& text[i] == 'h'
    &&& text[i + 1] == 't'
    &&& text[i + 2] == 't'
    &&& text[i + 3] == 'p'
}

/// The text holds `http` somewhere. A link that does is taken to be
/// absolute, wherever in the link the four characters stand.
pub open spec fn mentions_http(text: Seq<char>) -> bool {
    exists|i: int| http_at(text, i)
}

/// How much of `http` the `n` characters read so far end in: 3 for `htt`,
/// 2 for `ht`, 1 for `h`, else 0.
pub open spec fn pending_prefix(text: Seq<char>, n: int) -> int {
    if n >= 3 && text[n - 3] == 'h' && text[n - 2] == 't' && text[n - 1] == 't' {
        3
    } else if n >= 2 && text[n - 2] == 'h' && text[n - 1] == 't' {
        2
    } else if n >= 1 && text[n - 1] == 'h' {
        1
    } else {
        0
    }
}

/// Whether a link is taken to be absolute.
pub fn is_absolute_link(href: &str) -> (r: bool)
    ensures
        r == mentions_http(href@),
{
    let mut found = false;
    let mut pending: u8 = 0;
    for c in it: href.chars()
        invariant
            it.seq() == href@,
            pending as int == pending_prefix(href@, it.index() as int),
            found <==> exists|i: int| http_at(href@, i) && i + 4 <= it.index(),
    {
        let ghost n = it.index() as int;
        let ghost was_found = found;
        let ghost was_pending = pending;
        if pending == 3 && c == 'p' {
            found = true;
            assert(http_at(href@, n - 3));
        }
        pending = if c == 'h' {
            1
        } else if c == 't' && (pending == 1 || pending == 2) {
            pending + 1
        } else {
            0
        };
        proof {
            if !found {
                assert forall|i: int| http_at(href@, i) implies !(i + 4 <= n + 1) by {
                    if http_at(href@, i) && i + 4 <= n + 1 {
                        if i + 4 <= n {
                            assert(was_found);
                        } else {
                            assert(i == n - 3);
                            assert(was_pending == 3);
                        }
                    }
                }
            }
        }
    }
    found
}

/// `url::Url`, a parsed address. Opaque to the verifier.
#[verifier::external_type_specification]
#[verifier::external_body]
pub struct ExUrl(url::Url);

/// What `url::Url::parse` makes of a text: the address, or `None` where the
/// text is no absolute address.
pub uninterp spec fn parsed_url(text: Seq<char>) -> Option<url::Url>;

/// The text of the address that `url::Url::set_path` leaves when the path of
/// `base` is replaced by `path`.
pub uninterp spec fn url_with_path(base: url::Url, path: Seq<char>) -> Seq<char>;

/// The length in bytes of the text of an address, as `url::Url::as_str`
/// gives it.
pub uninterp spec fn url_length(base: url::Url) -> nat;

/// The longest address, and the longest relative link, in bytes, that is
/// resolved. With both within this limit the resolved address, in which a
/// byte of the link may take three, stays within what `url` can hold.
pub const MAX_LINK_BYTES: usize = 1_000_000_000;

/// Calls `url::Url::parse`. The result is the address that the text names,
/// and there is none exactly where parsing fails.
#[verifier::external_body]
pub(crate) fn parse_url(text: &str) -> (r: Option<url::Url>)
    ensures
        r == parsed_url(text@),
{
    url::Url::parse(text).ok()
}

/// Calls `url::Url::as_str` and takes the length of the text.
#[verifier::external_body]
pub(crate) fn url_len(base: &url::Url) -> (r: usize)
    ensures
        r == url_length(*base),
{
    base.as_str().len()
}

/// Calls `url::Url::set_path` on a copy of `base` and returns the text of
/// the address that results. `set_path` keeps the address's positions in
/// 32 bits; the text that it builds is no longer than the old one and three
/// bytes for each byte of the path put together, but for a few separators.
#[verifier::external_body]
pub(crate) fn replace_path(base: &url::Url, path: &str) -> (r: String)
    requires
        url_length(*base) + 3 * vstd::utf8::encode_utf8(path@).len() + 16 <= u32::MAX,
    ensures
        r@ == url_with_path(*base, path@),
{
    let mut url = base.clone();
    url.set_path(path);
    url.as_str().to_string()
}

/// A relative link can be resolved where neither it nor the site's address
/// is longer than `MAX_LINK_BYTES`.
pub open spec fn resolvable(href: Seq<char>, base: url::Url) -> bool {
    &&& vstd::utf8::encode_utf8(href).len() <= MAX_LINK_BYTES
    &&& url_length(base) <= MAX_LINK_BYTES
}

/// The link that an article carries: `href` itself where it is taken to be
/// absolute, else the site's address with its path replaced by `href`; and
/// none where that address cannot be made.
pub open spec fn resolved_link(href: Seq<char>, base: url::Url) -> Option<Seq<char>> {
    if mentions_http(href) {
        Some(href)
    } else if resolvable(href, base) {
        Some(url_with_path(base, href))
    } else {
        None
    }
}

/// Resolves a link found in a page against the site's address.
pub fn resolve_link(href: String, base: &url::Url) -> (r: Option<String>)
    ensures
        r is Some <==> resolved_link(href@, *base) is Some,
        r matches Some(link) ==> resolved_link(href@, *base) == Some(link@),
        mentions_http(href@) ==> r is Some && r->0@ == href@,
{
    if is_absolute_link(href.as_str()) {
        Some(href)
    } else if href.as_str().as_bytes().len() <= MAX_LINK_BYTES && url_len(base)
        <= MAX_LINK_BYTES {
        Some(replace_path(base, href.as_str()))
    } else {
        None
    }
}

} // verus!
