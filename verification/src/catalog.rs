//! Catalog discovery: turning the anchors enumerated on the catalog page
//! into the ordered chapter list.

use vstd::prelude::*;
use crate::error::ComicError;

verus! {

/// One chapter as discovered on the catalog page, in anchor document
/// order: its display name and its absolute URL.
#[derive(Debug)]
pub struct ChapterInfo {
    pub chapter_name: String,
    pub chapter_url: String,
}

/// What one chapter anchor on the catalog page carries: its `href` and
/// `title` attributes, either of which the page may lack.
#[derive(Debug)]
pub struct ChapterAnchor {
    pub href: Option<String>,
    pub title: Option<String>,
}

/// The serialization of the catalog URL with its path replaced by `href`
/// (scheme and host preserved), or nothing when the base is not a
/// parseable absolute URL.
pub uninterp spec fn resolved_url(base: Seq<char>, href: Seq<char>) -> Option<Seq<char>>;

/// Inputs small enough that the rebuilt URL serialization stays far below
/// the url crate's internal `u32` offset limit: a char is at most 4 UTF-8
/// bytes, each byte percent-encodes to at most 3 bytes, so the
/// serialization built from both strings stays well under that limit.
pub open spec fn url_input_within_limit(base: Seq<char>, href: Seq<char>) -> bool {
    base.len() <= 0x100_0000 && href.len() <= 0x100_0000
}

/// Relies on `url::Url::parse`, `url::Url::set_path` and the `Display`
/// serialization of `url::Url`: parses the base as an absolute URL,
/// replaces its path with `href` keeping scheme and host, and serializes
/// the result, which depends on the two strings alone. `set_path` aborts
/// if the rebuilt serialization outgrows the crate's `u32` offsets, so
/// inputs that could reach that length are excluded.
#[verifier::external_body]
fn resolve_href(base: &str, href: &str) -> (r: Option<String>)
    requires
        url_input_within_limit(base@, href@),
    ensures
        (r is Some) == (resolved_url(base@, href@) is Some),
        r matches Some(u) ==> Some(u@) == resolved_url(base@, href@),
{
    match url::Url::parse(base) {
        Ok(mut u) => {
            u.set_path(href);
            Some(u.to_string())
        },
        Err(_) => None,
    }
}

/// Builds the ordered chapter list from the catalog page: anchor `i`'s
/// `title` attribute becomes chapter `i`'s name, and its `href`, resolved
/// against the catalog URL's origin, becomes chapter `i`'s URL. An anchor
/// without `href` or `title`, one whose `href` together with the catalog
/// URL is too long to resolve, or a catalog URL against which nothing
/// resolves, is an extraction failure.
pub fn build_chapter_list(catalog_url: &str, anchors: Vec<ChapterAnchor>) -> (r: Result<
    Vec<ChapterInfo>,
    ComicError,
>)
    ensures
        r is Ok <==> (forall|i: int|
            0 <= i < anchors@.len() ==> ((#[trigger] anchors@[i]).href matches Some(h)
                && anchors@[i].title is Some && url_input_within_limit(catalog_url@, h@)
                && resolved_url(catalog_url@, h@) is Some)),
        r matches Ok(items) ==> items@.len() == anchors@.len() && (forall|i: int|
            0 <= i < anchors@.len() ==> ((#[trigger] anchors@[i]).href matches Some(h)
                && anchors@[i].title matches Some(t) && Some(items@[i].chapter_url@)
                == resolved_url(catalog_url@, h@) && items@[i].chapter_name@ == t@)),
        r matches Err(e) ==> e == ComicError::Extraction,
{
    let n = anchors.len();
    let base_len = catalog_url.unicode_len();
    let mut items: Vec<ChapterInfo> = Vec::new();
    let mut idx: usize = 0;
    while idx < n
        invariant
            idx <= n,
            n == anchors@.len(),
            base_len == catalog_url@.len(),
            items@.len() == idx,
            forall|i: int|
                0 <= i < idx ==> ((#[trigger] anchors@[i]).href matches Some(h)
                    && anchors@[i].title matches Some(t) && url_input_within_limit(
                    catalog_url@,
                    h@,
                ) && Some(items@[i].chapter_url@) == resolved_url(catalog_url@, h@)
                    && items@[i].chapter_name@ == t@),
        decreases n - idx,
    {
        let href = match &anchors[idx].href {
            Some(h) => h.clone(),
            None => {
                return Err(ComicError::Extraction);
            },
        };
        let title = match &anchors[idx].title {
            Some(t) => t.clone(),
            None => {
                return Err(ComicError::Extraction);
            },
        };
        if base_len > 0x100_0000 || href.as_str().unicode_len() > 0x100_0000 {
            return Err(ComicError::Extraction);
        }
        let chapter_url = match resolve_href(catalog_url, href.as_str()) {
            Some(u) => u,
            None => {
                return Err(ComicError::Extraction);
            },
        };
        items.push(ChapterInfo { chapter_name: title, chapter_url });
        idx = idx + 1;
    }
    Ok(items)
}

} // verus!
