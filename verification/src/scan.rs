//! Chapter scanning: parsing the page readouts, driving the
//! pagination-forcing loop, checking the realized image list against the
//! declared page count, and the scan stage's batch-per-chapter laws.

use vstd::prelude::*;
use crate::error::ComicError;
use crate::flatten::Messages;
use crate::flatten::MessagesView;
use crate::paths::chapter_dir;
use crate::paths::chapter_dir_spec;
use crate::text::all_digits;
use crate::text::dec_val;
use crate::text::parse_u32;

verus! {

/// The value a page readout text denotes: its decimal value when the text
/// is a non-empty digit string fitting a `u32`, nothing otherwise.
pub open spec fn readout_value(s: Seq<char>) -> Option<int> {
    if s.len() > 0 && all_digits(s) && dec_val(s) <= u32::MAX {
        Some(dec_val(s))
    } else {
        None
    }
}

/// Parses the page-count readout, the ground truth for how many images a
/// chapter has. An unreadable readout is an extraction failure.
pub fn parse_page_count(text: &str) -> (r: Result<u32, ComicError>)
    ensures
        r is Ok <==> readout_value(text@) is Some,
        r matches Ok(n) ==> readout_value(text@) == Some(n as int),
        r matches Err(e) ==> e == ComicError::Extraction,
{
    match parse_u32(text) {
        Some(n) => Ok(n),
        None => Err(ComicError::Extraction),
    }
}

/// The pagination loop's next move: keep scrolling, or stop and extract
/// the image list.
#[derive(Clone, Copy, Debug, PartialEq, Eq, Structural)]
pub enum PageStep {
    Scroll,
    Extract,
}

/// Decides the pagination-forcing loop's next move from the declared page
/// count and the current page-index readout: extract once the index equals
/// the count, scroll further otherwise; an unreadable index readout is an
/// extraction failure.
pub fn next_page_step(page_count: u32, index_text: &str) -> (r: Result<PageStep, ComicError>)
    ensures
        r matches Ok(s) ==> (s == PageStep::Extract <==> readout_value(index_text@) == Some(
            page_count as int,
        )),
        r is Err <==> readout_value(index_text@) is None,
        r matches Err(e) ==> e == ComicError::Extraction,
{
    match parse_u32(index_text) {
        Some(idx) => if idx == page_count {
            Ok(PageStep::Extract)
        } else {
            Ok(PageStep::Scroll)
        },
        None => Err(ComicError::Extraction),
    }
}

/// Gathers the realized image URLs from the lazy-load source attributes
/// read off the image elements, in document order. Every image element
/// must carry the attribute; one absent attribute fails the chapter's
/// extraction.
pub fn collect_image_urls(attrs: Vec<Option<String>>) -> (r: Result<Vec<String>, ComicError>)
    ensures
        r is Ok <==> (forall|i: int| 0 <= i < attrs@.len() ==> (#[trigger] attrs@[i]) is Some),
        r matches Ok(urls) ==> urls@.len() == attrs@.len() && (forall|i: int|
            0 <= i < attrs@.len() ==> ((#[trigger] attrs@[i]) matches Some(u) && urls@[i]@ == u@)),
        r matches Err(e) ==> e == ComicError::Extraction,
{
    let n = attrs.len();
    let mut urls: Vec<String> = Vec::new();
    let mut idx: usize = 0;
    while idx < n
        invariant
            idx <= n,
            n == attrs@.len(),
            urls@.len() == idx,
            forall|i: int|
                0 <= i < idx ==> ((#[trigger] attrs@[i]) matches Some(u) && urls@[i]@ == u@),
        decreases n - idx,
    {
        match &attrs[idx] {
            Some(u) => {
                urls.push(u.clone());
            },
            None => {
                return Err(ComicError::Extraction);
            },
        }
        idx = idx + 1;
    }
    Ok(urls)
}

/// The batch a consistent chapter scan hands on: the target directory
/// `root/comic/chapter` and the image URLs in extraction order.
pub open spec fn batch_view(
    root: Seq<char>,
    comic: Seq<char>,
    chapter: Seq<char>,
    urls: Seq<Seq<char>>,
) -> MessagesView {
    MessagesView { images_url: urls, save_path: chapter_dir_spec(root, comic, chapter) }
}

/// Checks a scanned chapter against its declared page count and builds its
/// batch: succeeds exactly when the realized image count equals the
/// declared count, and otherwise fails the chapter with the consistency
/// error carrying both counts.
pub fn make_batch(
    root: &str,
    comic_name: &str,
    chapter_name: &str,
    declared_count: u32,
    images_url: Vec<String>,
) -> (r: Result<Messages, ComicError>)
    ensures
        r is Ok <==> declared_count == images_url@.len(),
        r matches Ok(m) ==> m@ == batch_view(
            root@,
            comic_name@,
            chapter_name@,
            images_url@.map_values(|s: String| s@),
        ),
        r matches Err(e) ==> e == (ComicError::Consistency {
            declared: declared_count as usize,
            found: images_url@.len() as usize,
        }),
{
    let found = images_url.len();
    if declared_count as usize != found {
        return Err(ComicError::Consistency { declared: declared_count as usize, found });
    }
    let dir = chapter_dir(root, comic_name, chapter_name);
    Ok(Messages::new(dir, images_url))
}

/// The batches the scan stage hands on for a catalog scanned in order: one
/// per chapter up to the first chapter whose realized image count differs
/// from its declared page count, none from that chapter on.
pub open spec fn scan_batches(
    root: Seq<char>,
    comic: Seq<char>,
    names: Seq<Seq<char>>,
    counts: Seq<int>,
    url_lists: Seq<Seq<Seq<char>>>,
) -> Seq<MessagesView>
    decreases names.len(),
{
    if names.len() == 0 || counts.len() == 0 || url_lists.len() == 0 {
        Seq::empty()
    } else if counts[0] != url_lists[0].len() {
        Seq::empty()
    } else {
        seq![batch_view(root, comic, names[0], url_lists[0])] + scan_batches(
            root,
            comic,
            names.skip(1),
            counts.skip(1),
            url_lists.skip(1),
        )
    }
}

/// Whether scanning the catalog aborts on a consistency failure.
pub open spec fn scan_aborts(counts: Seq<int>, url_lists: Seq<Seq<Seq<char>>>) -> bool
    decreases counts.len(),
{
    if counts.len() == 0 || url_lists.len() == 0 {
        false
    } else if counts[0] != url_lists[0].len() {
        true
    } else {
        scan_aborts(counts.skip(1), url_lists.skip(1))
    }
}

/// One batch per chapter: when every scanned chapter is consistent, a
/// catalog of K chapters yields exactly K batches, in catalog order, the
/// i-th aimed at the i-th chapter's own target directory and carrying the
/// i-th chapter's URLs.
pub proof fn lemma_batch_per_chapter(
    root: Seq<char>,
    comic: Seq<char>,
    names: Seq<Seq<char>>,
    counts: Seq<int>,
    url_lists: Seq<Seq<Seq<char>>>,
)
    requires
        counts.len() == names.len(),
        url_lists.len() == names.len(),
        forall|i: int| 0 <= i < names.len() ==> #[trigger] counts[i] == url_lists[i].len(),
    ensures
        !scan_aborts(counts, url_lists),
        scan_batches(root, comic, names, counts, url_lists).len() == names.len(),
        forall|i: int|
            0 <= i < names.len() ==> #[trigger] scan_batches(root, comic, names, counts, url_lists)[i]
                == batch_view(root, comic, names[i], url_lists[i]),
    decreases names.len(),
{
    if names.len() > 0 {
        assert(counts[0] == url_lists[0].len());
        assert forall|i: int| 0 <= i < names.skip(1).len() implies #[trigger] counts.skip(1)[i]
            == url_lists.skip(1)[i].len() by {
            assert(counts.skip(1)[i] == counts[i + 1]);
            assert(url_lists.skip(1)[i] == url_lists[i + 1]);
        }
        lemma_batch_per_chapter(root, comic, names.skip(1), counts.skip(1), url_lists.skip(1));
        let whole = scan_batches(root, comic, names, counts, url_lists);
        let rest = scan_batches(root, comic, names.skip(1), counts.skip(1), url_lists.skip(1));
        assert forall|i: int| 0 <= i < names.len() implies #[trigger] whole[i] == batch_view(
            root,
            comic,
            names[i],
            url_lists[i],
        ) by {
            if i > 0 {
                assert(whole[i] == rest[i - 1]);
                assert(names.skip(1)[i - 1] == names[i]);
                assert(url_lists.skip(1)[i - 1] == url_lists[i]);
            }
        }
    }
}

/// A count mismatch is fatal to the run: with the first inconsistent
/// chapter at position `bad`, scanning aborts, exactly the chapters before
/// `bad` get batches, and no batch exists for chapter `bad` or for any
/// chapter after it.
pub proof fn lemma_mismatch_aborts(
    root: Seq<char>,
    comic: Seq<char>,
    names: Seq<Seq<char>>,
    counts: Seq<int>,
    url_lists: Seq<Seq<Seq<char>>>,
    bad: int,
)
    requires
        counts.len() == names.len(),
        url_lists.len() == names.len(),
        0 <= bad < names.len(),
        counts[bad] != url_lists[bad].len(),
        forall|i: int| 0 <= i < bad ==> #[trigger] counts[i] == url_lists[i].len(),
    ensures
        scan_aborts(counts, url_lists),
        scan_batches(root, comic, names, counts, url_lists).len() == bad,
        forall|i: int|
            0 <= i < bad ==> #[trigger] scan_batches(root, comic, names, counts, url_lists)[i]
                == batch_view(root, comic, names[i], url_lists[i]),
    decreases bad,
{
    if bad == 0 {
        assert(scan_batches(root, comic, names, counts, url_lists) =~= Seq::empty());
    } else {
        assert(counts[0] == url_lists[0].len());
        assert forall|i: int| 0 <= i < bad - 1 implies #[trigger] counts.skip(1)[i]
            == url_lists.skip(1)[i].len() by {
            assert(counts.skip(1)[i] == counts[i + 1]);
            assert(url_lists.skip(1)[i] == url_lists[i + 1]);
        }
        assert(counts.skip(1)[bad - 1] == counts[bad]);
        assert(url_lists.skip(1)[bad - 1] == url_lists[bad]);
        lemma_mismatch_aborts(
            root,
            comic,
            names.skip(1),
            counts.skip(1),
            url_lists.skip(1),
            bad - 1,
        );
        let whole = scan_batches(root, comic, names, counts, url_lists);
        let rest = scan_batches(root, comic, names.skip(1), counts.skip(1), url_lists.skip(1));
        assert forall|i: int| 0 <= i < bad implies #[trigger] whole[i] == batch_view(
            root,
            comic,
            names[i],
            url_lists[i],
        ) by {
            if i > 0 {
                assert(whole[i] == rest[i - 1]);
                assert(names.skip(1)[i - 1] == names[i]);
                assert(url_lists.skip(1)[i - 1] == url_lists[i]);
            }
        }
    }
}

} // verus!
