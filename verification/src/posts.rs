//! Blog posts: the post store and its windowed retrieval.
//!
//! The store models the `blog_posts` table.  Rows are kept ordered by
//! creation time, most recent first, with ties broken by insertion order,
//! so a window fetch is a contiguous slice of the public rows — exactly
//! the `ORDER BY created_at DESC ... LIMIT ... OFFSET ...` read of a
//! relational table.  Drafts (`is_public == false`) are invisible to every
//! read path here.
use vstd::prelude::*;

verus! {

use crate::dto::CreatePostArgs;
use crate::errors::PostError;

/// A stored blog post row.
pub struct BlogPost {
    pub uuid: u128,
    pub created_at: i64,
    pub updated_at: Option<i64>,
    pub published_at: Option<i64>,
    pub is_public: bool,
    /// Opaque serialized editor payload, never interpreted here.
    pub delta: Option<String>,
    pub title: String,
    /// Raw content body; a fresh draft may have none yet.
    pub markdown: Option<String>,
}

impl BlogPost {
    /// A field-for-field copy of the row.
    pub fn duplicate(&self) -> (r: BlogPost)
        ensures
            r == *self,
    {
        BlogPost {
            uuid: self.uuid,
            created_at: self.created_at,
            updated_at: self.updated_at,
            published_at: self.published_at,
            is_public: self.is_public,
            delta: match &self.delta {
                Some(d) => Some(d.clone()),
                None => None,
            },
            title: self.title.clone(),
            markdown: match &self.markdown {
                Some(m) => Some(m.clone()),
                None => None,
            },
        }
    }
}

/// `a` sorts strictly before `b`: more recent first; of two rows with one
/// creation time, the earlier inserted (smaller id) first.
pub open spec fn before(a: BlogPost, b: BlogPost) -> bool {
    a.created_at > b.created_at || (a.created_at == b.created_at && a.uuid < b.uuid)
}

/// The rows are in retrieval order, most recent first.
pub open spec fn ordered(s: Seq<BlogPost>) -> bool {
    forall|i: int, j: int| 0 <= i < j < s.len() ==> #[trigger] before(s[i], s[j])
}

/// Well-formedness of the post store: retrieval order, and ids both fresh
/// (below the row count) and unique.
pub open spec fn posts_wf(s: Seq<BlogPost>) -> bool {
    &&& ordered(s)
    &&& forall|i: int| 0 <= i < s.len() ==> (#[trigger] s[i]).uuid < s.len() as u128
    &&& forall|i: int, j: int| 0 <= i < j < s.len() ==> s[i].uuid != s[j].uuid
}

/// The public rows of `s`, in order: what anonymous readers may see.
pub open spec fn pubs(s: Seq<BlogPost>) -> Seq<BlogPost>
    decreases s.len(),
{
    if s.len() == 0 {
        Seq::empty()
    } else if s.last().is_public {
        pubs(s.drop_last()).push(s.last())
    } else {
        pubs(s.drop_last())
    }
}

/// There are no more public rows than rows.
pub proof fn lemma_pubs_len(s: Seq<BlogPost>)
    ensures
        pubs(s).len() <= s.len(),
    decreases s.len(),
{
    if s.len() > 0 {
        lemma_pubs_len(s.drop_last());
    }
}

/// Law: a draft never appears in the public projection — every row of
/// `pubs(s)` is public, and is one of the rows of `s`.  Every window fetch
/// and the by-id lookup are stated over this projection.
pub proof fn lemma_pubs_public(s: Seq<BlogPost>, k: int)
    requires
        0 <= k < pubs(s).len(),
    ensures
        pubs(s)[k].is_public,
        exists|i: int| 0 <= i < s.len() && s[i] == pubs(s)[k],
    decreases s.len(),
{
    let rest = s.drop_last();
    if s.last().is_public && k == pubs(rest).len() {
        assert(s[s.len() - 1] == pubs(s)[k]);
    } else {
        lemma_pubs_public(rest, k);
        let i = choose|i: int| 0 <= i < rest.len() && rest[i] == pubs(rest)[k];
        assert(s[i] == pubs(s)[k]);
    }
}

/// Where a row created at `t` lands: the position of the first stored row
/// strictly older than `t`.
pub open spec fn insert_pos(s: Seq<BlogPost>, t: i64) -> int
    decreases s.len(),
{
    if s.len() == 0 {
        0
    } else if s[0].created_at < t {
        0
    } else {
        1 + insert_pos(s.drop_first(), t)
    }
}

/// `insert_pos` is the first index whose row is older than `t`.
pub proof fn lemma_insert_pos_char(s: Seq<BlogPost>, t: i64)
    ensures
        0 <= insert_pos(s, t) <= s.len(),
        forall|j: int| 0 <= j < insert_pos(s, t) ==> #[trigger] s[j].created_at >= t,
        insert_pos(s, t) < s.len() ==> s[insert_pos(s, t)].created_at < t,
    decreases s.len(),
{
    if s.len() > 0 && s[0].created_at >= t {
        lemma_insert_pos_char(s.drop_first(), t);
        assert forall|j: int| 0 <= j < insert_pos(s, t) implies #[trigger] s[j].created_at
            >= t by {
            if j > 0 {
                assert(s.drop_first()[j - 1].created_at >= t);
                assert(s.drop_first()[j - 1] == s[j]);
            }
        }
        if insert_pos(s, t) < s.len() {
            assert(s.drop_first()[insert_pos(s.drop_first(), t)] == s[insert_pos(s, t)]);
        }
    }
}

/// The window of public rows a page shows: `limit` rows starting `offset`
/// rows into the public projection, clipped to what exists.  An offset
/// beyond the projection yields the empty window, never an error.
pub open spec fn window(s: Seq<BlogPost>, limit: int, offset: int) -> Seq<BlogPost> {
    let p = pubs(s);
    let start = if offset <= p.len() {
        offset
    } else {
        p.len() as int
    };
    let end = if offset + limit <= p.len() {
        offset + limit
    } else {
        p.len() as int
    };
    p.subrange(start, end)
}

/// Law: a draft never appears in a fetched window.  Whatever the page and
/// size, every row of a window is public.
pub proof fn lemma_window_only_public(s: Seq<BlogPost>, limit: int, offset: int, k: int)
    requires
        0 <= limit,
        0 <= offset,
        0 <= k < window(s, limit, offset).len(),
    ensures
        window(s, limit, offset)[k].is_public,
{
    let p = pubs(s);
    let start = if offset <= p.len() {
        offset
    } else {
        p.len() as int
    };
    lemma_pubs_public(s, start + k);
}

/// The persistent post rows, kept in retrieval order.
pub struct PostStore {
    posts: Vec<BlogPost>,
}

impl View for PostStore {
    type V = Seq<BlogPost>;

    closed spec fn view(&self) -> Seq<BlogPost> {
        self.posts@
    }
}

impl PostStore {
    pub open spec fn wf(&self) -> bool {
        posts_wf(self@)
    }

    pub fn new() -> (r: PostStore)
        ensures
            r@ == Seq::<BlogPost>::empty(),
            r.wf(),
    {
        PostStore { posts: Vec::new() }
    }

    /// Files a fresh row at its retrieval position; the single atomic
    /// insert under every creation path.
    fn place_row(&mut self, row: BlogPost) -> (pos: usize)
        requires
            old(self).wf(),
            row.uuid == old(self)@.len() as u128,
        ensures
            final(self).wf(),
            pos == insert_pos(old(self)@, row.created_at),
            final(self)@ =~= old(self)@.insert(insert_pos(old(self)@, row.created_at), row),
    {
        let ghost s = self@;
        let created_at = row.created_at;
        proof {
            lemma_insert_pos_char(s, created_at);
        }
        let n = self.posts.len();
        let mut k: usize = 0;
        while k < n && self.posts[k].created_at >= created_at
            invariant
                k <= n,
                n == self@.len(),
                self@ == s,
                forall|j: int| 0 <= j < k ==> #[trigger] self@[j].created_at >= created_at,
            decreases n - k,
        {
            k += 1;
        }
        proof {
            let kk = insert_pos(s, created_at);
            if kk < k as int {
                assert(s[kk].created_at >= created_at);
            }
            if (k as int) < kk {
                assert(s[k as int].created_at >= created_at);
            }
            assert(k as int == kk);
        }
        self.posts.insert(k, row);
        proof {
            let k = k as int;
            let s2 = self@;
            s.insert_ensures(k, row);
            assert forall|i: int, j: int| 0 <= i < j < s2.len() implies #[trigger] before(
                s2[i],
                s2[j],
            ) by {
                if i < k && j < k {
                    assert(s2[i] == s[i] && s2[j] == s[j]);
                } else if i < k && j == k {
                    assert(s2[i] == s[i]);
                    assert(s[i].created_at >= created_at);
                    assert(s[i].uuid < s.len() as u128);
                } else if i < k && j > k {
                    assert(s2[i] == s[i] && s2[j] == s[j - 1]);
                } else if i == k {
                    assert(s2[j] == s[j - 1]);
                    assert(s[k].created_at < created_at);
                    if j - 1 > k {
                        assert(before(s[k], s[j - 1]));
                    }
                    assert(s[j - 1].created_at < created_at);
                } else {
                    assert(s2[i] == s[i - 1] && s2[j] == s[j - 1]);
                }
            }
            assert forall|i: int| 0 <= i < s2.len() implies (#[trigger] s2[i]).uuid < s2.len()
                as u128 by {
                if i < k {
                    assert(s2[i] == s[i]);
                } else if i > k {
                    assert(s2[i] == s[i - 1]);
                }
            }
            assert forall|i: int, j: int| 0 <= i < j < s2.len() implies s2[i].uuid != s2[j].uuid by {
                if i < k {
                    assert(s2[i] == s[i]);
                } else if i > k {
                    assert(s2[i] == s[i - 1]);
                }
                if j < k {
                    assert(s2[j] == s[j]);
                } else if j > k {
                    assert(s2[j] == s[j - 1]);
                }
            }
        }
        k
    }

    /// One atomic row insert.  Assigns the next fresh id, stamps the row
    /// with `created_at`, and files it at its retrieval position; returns
    /// the id.
    pub fn insert_row(
        &mut self,
        title: String,
        markdown: Option<String>,
        delta: Option<String>,
        is_public: bool,
        created_at: i64,
        published_at: Option<i64>,
    ) -> (r: u128)
        requires
            old(self).wf(),
        ensures
            final(self).wf(),
            r == old(self)@.len() as u128,
            ({
                let k = insert_pos(old(self)@, created_at);
                &&& 0 <= k <= old(self)@.len()
                &&& final(self)@ =~= old(self)@.insert(k, final(self)@[k])
                &&& final(self)@[k].uuid == r
                &&& final(self)@[k].title == title
                &&& final(self)@[k].markdown == markdown
                &&& final(self)@[k].delta == delta
                &&& final(self)@[k].is_public == is_public
                &&& final(self)@[k].created_at == created_at
                &&& final(self)@[k].published_at == published_at
                &&& final(self)@[k].updated_at is None
            }),
    {
        let row = BlogPost {
            uuid: self.posts.len() as u128,
            created_at,
            updated_at: None,
            published_at,
            is_public,
            delta,
            title,
            markdown,
        };
        let id = row.uuid;
        let ghost k = insert_pos(self@, created_at);
        proof {
            lemma_insert_pos_char(self@, created_at);
        }
        let _pos = self.place_row(row);
        proof {
            old(self)@.insert_ensures(k, row);
        }
        id
    }

    /// Persists a post from the HTTP arguments: a draft unless the request
    /// says otherwise, stamped with `now`, with no content body yet.
    /// Returns the stored row.
    pub fn create(&mut self, args: CreatePostArgs, now: i64) -> (r: BlogPost)
        requires
            old(self).wf(),
        ensures
            final(self).wf(),
            ({
                let k = insert_pos(old(self)@, now);
                &&& final(self)@ =~= old(self)@.insert(k, r)
                &&& r.uuid == old(self)@.len() as u128
                &&& r.title@ == args.title@
                &&& r.delta == args.delta
                &&& r.is_public == (args.is_public matches Some(true))
                &&& r.created_at == now
                &&& r.markdown is None
                &&& r.published_at is None
                &&& r.updated_at is None
            }),
    {
        let is_public = match args.is_public {
            Some(v) => v,
            None => false,
        };
        let row = BlogPost {
            uuid: self.posts.len() as u128,
            created_at: now,
            updated_at: None,
            published_at: None,
            is_public,
            delta: args.delta,
            title: args.title,
            markdown: None,
        };
        let r = row.duplicate();
        let _pos = self.place_row(row);
        r
    }

    /// Persists a draft: never public, stamped with `now`.  Returns the
    /// stored row.
    pub fn create_draft(&mut self, title: String, delta: Option<String>, now: i64) -> (r: BlogPost)
        requires
            old(self).wf(),
        ensures
            final(self).wf(),
            ({
                let k = insert_pos(old(self)@, now);
                &&& final(self)@ =~= old(self)@.insert(k, r)
                &&& r.uuid == old(self)@.len() as u128
                &&& r.title@ == title@
                &&& r.delta == delta
                &&& !r.is_public
                &&& r.created_at == now
                &&& r.markdown is None
                &&& r.published_at is None
                &&& r.updated_at is None
            }),
    {
        let row = BlogPost {
            uuid: self.posts.len() as u128,
            created_at: now,
            updated_at: None,
            published_at: None,
            is_public: false,
            delta,
            title,
            markdown: None,
        };
        let r = row.duplicate();
        let _pos = self.place_row(row);
        r
    }

    /// The number of public posts.
    pub fn get_post_count(&self) -> (r: usize)
        ensures
            r == pubs(self@).len(),
    {
        let n = self.posts.len();
        let mut count: usize = 0;
        let mut i: usize = 0;
        while i < n
            invariant
                i <= n,
                n == self@.len(),
                count == pubs(self@.take(i as int)).len(),
                count <= i,
            decreases n - i,
        {
            proof {
                assert(self@.take(i as int + 1).drop_last() =~= self@.take(i as int));
                assert(self@.take(i as int + 1).last() == self@[i as int]);
            }
            if self.posts[i].is_public {
                count += 1;
            }
            i += 1;
        }
        proof {
            assert(self@.take(n as int) =~= self@);
        }
        count
    }

    /// Copies of all public rows, in retrieval order.
    fn all_public(&self) -> (r: Vec<BlogPost>)
        ensures
            r@ == pubs(self@),
    {
        let n = self.posts.len();
        let mut r: Vec<BlogPost> = Vec::new();
        let mut i: usize = 0;
        while i < n
            invariant
                i <= n,
                n == self@.len(),
                r@ == pubs(self@.take(i as int)),
            decreases n - i,
        {
            proof {
                assert(self@.take(i as int + 1).drop_last() =~= self@.take(i as int));
                assert(self@.take(i as int + 1).last() == self@[i as int]);
            }
            if self.posts[i].is_public {
                let copy = self.posts[i].duplicate();
                r.push(copy);
            }
            i += 1;
        }
        proof {
            assert(self@.take(n as int) =~= self@);
        }
        r
    }

    /// The page window: up to `count` public rows starting `offset` rows
    /// into the public projection, most recent first.  An offset beyond
    /// the available rows yields the empty vector, never an error.
    pub fn retrieve_with_offset(&self, count: usize, offset: usize) -> (r: Vec<BlogPost>)
        ensures
            r@ =~= window(self@, count as int, offset as int),
    {
        let all = self.all_public();
        let len = all.len();
        let start = if offset <= len {
            offset
        } else {
            len
        };
        let end = if count <= len - start {
            start + count
        } else {
            len
        };
        let mut r: Vec<BlogPost> = Vec::new();
        let mut j: usize = start;
        while j < end
            invariant
                start <= j <= end <= len,
                len == all@.len(),
                all@ == pubs(self@),
                r@ == all@.subrange(start as int, j as int),
            decreases end - j,
        {
            let copy = all[j].duplicate();
            r.push(copy);
            proof {
                assert(r@ =~= all@.subrange(start as int, j + 1 as int));
            }
            j += 1;
        }
        r
    }

    /// The `num` most recent public posts.
    pub fn retrieve_recent(&self, num: usize) -> (r: Vec<BlogPost>)
        ensures
            r@ =~= window(self@, num as int, 0),
    {
        self.retrieve_with_offset(num, 0)
    }

    /// Looks a single post up by id.  Only a public row is found: a draft
    /// is invisible to this read path, and a missing or draft id yields
    /// `NotFound`.
    pub fn retrieve_by_uuid(&self, uuid: u128) -> (r: Result<BlogPost, PostError>)
        ensures
            r matches Ok(p) ==> exists|i: int|
                0 <= i < self@.len() && self@[i] == p && p.uuid == uuid && p.is_public,
            r is Err <==> !(exists|i: int|
                0 <= i < self@.len() && (#[trigger] self@[i]).uuid == uuid && self@[i].is_public),
            r matches Err(e) ==> e == PostError::NotFound,
    {
        let n = self.posts.len();
        let mut i: usize = 0;
        while i < n
            invariant
                i <= n,
                n == self@.len(),
                forall|j: int| 0 <= j < i ==> !((#[trigger] self@[j]).uuid == uuid
                    && self@[j].is_public),
            decreases n - i,
        {
            if self.posts[i].uuid == uuid && self.posts[i].is_public {
                return Ok(self.posts[i].duplicate());
            }
            i += 1;
        }
        Err(PostError::NotFound)
    }
}

} // verus!
