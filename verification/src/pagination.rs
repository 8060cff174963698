//! The pagination engine: page windows, previews, navigation state.
//!
//! A page is a pure function of the stored posts, the requested page
//! number and the window size: `offset = window_size * (page - 1)` rows
//! into the public projection, each row mapped to a preview (title
//! verbatim, a human-readable date from the published or else the created
//! time, and the content truncated at a fixed character threshold).  An
//! out-of-range page yields an empty list, never an error.
use vstd::prelude::*;

verus! {

use crate::datefmt::{render_date, shown_date};
use crate::dto::BlogPostPreview;
use crate::posts::{lemma_pubs_len, pubs, window, BlogPost, PostStore};
use crate::token::{uuid_text, uuid_to_string};

/// The character threshold beyond which content is truncated.
pub const PREVIEW_THRESHOLD: usize = 300;

/// The preview body of a post: content verbatim (empty when absent), or
/// its 300-character prefix followed by the ellipsis marker when longer.
pub open spec fn preview_text(markdown: Option<String>) -> Seq<char> {
    match markdown {
        None => Seq::empty(),
        Some(md) => if md@.len() > PREVIEW_THRESHOLD as int {
            md@.take(PREVIEW_THRESHOLD as int) + "..."@
        } else {
            md@
        },
    }
}

/// The timestamp a listing dates a post by: published if present, else
/// created.
pub open spec fn shown_ms(p: BlogPost) -> i64 {
    match p.published_at {
        Some(t) => t,
        None => p.created_at,
    }
}

/// `v` is exactly what the listing shows for row `p`.
pub open spec fn preview_of(p: BlogPost, v: BlogPostPreview) -> bool {
    &&& v.uuid_repr@ == uuid_text(p.uuid)
    &&& v.title@ == p.title@
    &&& v.date_repr@ == shown_date(shown_ms(p))
    &&& v.preview@ == preview_text(p.markdown)
}

/// Renders the preview of one stored row.
pub fn make_preview(p: &BlogPost) -> (r: BlogPostPreview)
    ensures
        preview_of(*p, r),
{
    let ms = match p.published_at {
        Some(t) => t,
        None => p.created_at,
    };
    let preview = match &p.markdown {
        None => String::new(),
        Some(md) => {
            let len = md.as_str().unicode_len();
            if len > PREVIEW_THRESHOLD {
                let mut s = String::from_str(md.as_str().substring_char(0, PREVIEW_THRESHOLD));
                s.append("...");
                s
            } else {
                md.clone()
            }
        },
    };
    BlogPostPreview {
        uuid_repr: uuid_to_string(p.uuid),
        title: p.title.clone(),
        date_repr: render_date(ms),
        preview,
    }
}

/// Renders the previews of one page window: up to `count` public posts
/// starting `offset` rows in, most recent first.
pub fn aggregate_blog_posts(store: &PostStore, count: usize, offset: usize) -> (r: Vec<
    BlogPostPreview,
>)
    ensures
        ({
            let w = window(store@, count as int, offset as int);
            &&& r@.len() == w.len()
            &&& forall|i: int| 0 <= i < w.len() ==> preview_of(w[i], #[trigger] r@[i])
        }),
{
    let posts = store.retrieve_with_offset(count, offset);
    let n = posts.len();
    let mut r: Vec<BlogPostPreview> = Vec::new();
    let mut i: usize = 0;
    while i < n
        invariant
            i <= n,
            n == posts@.len(),
            posts@ =~= window(store@, count as int, offset as int),
            r@.len() == i,
            forall|j: int| 0 <= j < i ==> preview_of(posts@[j], #[trigger] r@[j]),
        decreases n - i,
    {
        let v = make_preview(&posts[i]);
        r.push(v);
        i += 1;
    }
    r
}

/// One rendered page with its navigation state.
pub struct Pagination {
    pub posts: Vec<BlogPostPreview>,
    pub has_prev: bool,
    pub has_next: bool,
    pub current: usize,
    pub total_pages: usize,
}

/// The page count a listing reports: `floor(total / window_size)`, clamped
/// to at least one so an empty blog still shows page 1 of 1.
pub open spec fn total_pages_of(s: Seq<BlogPost>, window_size: int) -> int {
    let t = pubs(s).len() as int / window_size;
    if t > 0 {
        t
    } else {
        1
    }
}

/// Computes one page of the listing.
///
/// `offset = window_size * (page - 1)`; the previews are the window of
/// public posts there, most recent first; `has_prev` exactly on pages
/// after the first, `has_next` exactly when pages remain beyond this one.
/// A page beyond the stored posts yields an empty list, never an error.
pub fn paginate(store: &PostStore, page: usize, window_size: usize) -> (r: Pagination)
    requires
        page >= 1,
        window_size >= 1,
    ensures
        r.current == page,
        r.total_pages == total_pages_of(store@, window_size as int),
        r.has_prev == (page > 1),
        r.has_next == (r.total_pages > page),
        ({
            let w = window(store@, window_size as int, window_size as int * (page - 1));
            &&& r.posts@.len() == w.len()
            &&& forall|i: int| 0 <= i < w.len() ==> preview_of(w[i], #[trigger] r.posts@[i])
        }),
{
    let posts = match window_size.checked_mul(page - 1) {
        Some(offset) => aggregate_blog_posts(store, window_size, offset),
        None => {
            // The exact offset exceeds usize::MAX, so it lies beyond every
            // possible row count: the window is empty.
            proof {
                lemma_pubs_len(store@);
            }
            Vec::new()
        },
    };
    let total = store.get_post_count();
    let t = total / window_size;
    let total_pages = if t > 0 {
        t
    } else {
        1
    };
    Pagination {
        posts,
        has_prev: page > 1,
        has_next: total_pages > page,
        current: page,
        total_pages,
    }
}

/// Law: a long content body is previewed as a strict prefix of itself
/// followed by the ellipsis marker — the shown portion is the content's
/// 300-character prefix, and the marker closes the preview.
pub proof fn lemma_long_preview_shape(md: String)
    requires
        md@.len() > PREVIEW_THRESHOLD as int,
    ensures
        ({
            let p = preview_text(Some(md));
            &&& p.len() == PREVIEW_THRESHOLD as int + 3
            &&& p.take(PREVIEW_THRESHOLD as int) == md@.take(PREVIEW_THRESHOLD as int)
            &&& p.skip(PREVIEW_THRESHOLD as int) == "..."@
        }),
{
    reveal_strlit("...");
    let p = preview_text(Some(md));
    assert(p.take(PREVIEW_THRESHOLD as int) =~= md@.take(PREVIEW_THRESHOLD as int));
    assert(p.skip(PREVIEW_THRESHOLD as int) =~= "..."@);
}

} // verus!
