//! A stretch of the platform's stream held in memory, and the day's walk
//! over it.
//!
//! The walk of a [`Tally`] is only as good as the answers it is given. Here
//! the answers come from a list of posts that is known in full, so what the
//! walk finds, and how many requests it takes, can be said exactly.

use vstd::prelude::*;
use vstd::slice::slice_subrange;
use crate::post::Post;
use crate::scanner::{lemma_page_authors_concat, page_authors, Tally};

verus! {

/// Whether `posts` run from the newest to the oldest with no two written in
/// the same second.
pub open spec fn newest_first(posts: Seq<Post>) -> bool {
    forall|i: int, j: int|
        0 <= i < j < posts.len() ==> (#[trigger] posts[i]).created_at
            > (#[trigger] posts[j]).created_at
}

/// Whether the posts at `lo..hi` are those written from `start` up to, and
/// not including, `end`: the ones before them are newer, the ones behind
/// them older.
pub open spec fn is_window(posts: Seq<Post>, start: int, end: int, lo: int, hi: int) -> bool {
    &&& 0 <= lo <= hi <= posts.len()
    &&& forall|i: int| 0 <= i < lo ==> (#[trigger] posts[i]).created_at >= end
    &&& forall|i: int| lo <= i < hi ==> start <= (#[trigger] posts[i]).created_at < end
    &&& forall|i: int| hi <= i < posts.len() ==> (#[trigger] posts[i]).created_at < start
}

/// The posts at `lo..hi`, cut down to the first `max` of them.
pub open spec fn capped(posts: Seq<Post>, lo: int, hi: int, max: int) -> Seq<Post> {
    if hi - lo > max {
        posts.subrange(lo, lo + max)
    } else {
        posts.subrange(lo, hi)
    }
}

/// Whether a walk over the window at `lo..hi` ends with a request that is
/// answered with nothing: it does unless there is nothing to ask for, or the
/// oldest post of the window leaves nothing of the window behind it.
pub open spec fn ends_with_empty_page(
    posts: Seq<Post>,
    start: int,
    end: int,
    lo: int,
    hi: int,
) -> bool {
    start < end && !(lo < hi && posts[hi - 1].created_at == start)
}

/// The least number of pages of `size` posts that hold `total` posts.
pub open spec fn pages_needed(total: nat, size: nat) -> nat
    recommends
        size > 0,
{
    ((total + size - 1) / size as int) as nat
}

/// A window that is not empty lies in one place only.
pub proof fn lemma_window_unique(
    posts: Seq<Post>,
    start: int,
    end: int,
    lo: int,
    hi: int,
    lo2: int,
    hi2: int,
)
    requires
        start < end,
        is_window(posts, start, end, lo, hi),
        is_window(posts, start, end, lo2, hi2),
    ensures
        lo == lo2,
        hi == hi2,
{
    if lo < lo2 {
        assert(posts[lo].created_at >= end);
    } else if lo2 < lo {
        assert(posts[lo2].created_at >= end);
    }
    if hi < hi2 {
        assert(posts[hi].created_at < start);
    } else if hi2 < hi {
        assert(posts[hi2].created_at < start);
    }
}

/// No posts need no page.
pub proof fn lemma_no_pages_needed(size: nat)
    requires
        size > 0,
    ensures
        pages_needed(0, size) == 0,
{
    let d = size as int;
    vstd::arithmetic::div_mod::lemma_fundamental_div_mod_converse(d - 1, d, 0, d - 1);
}

/// Some full pages and one more that is not empty take one page more than
/// the full ones.
pub proof fn lemma_pages_needed(full: nat, extra: nat, size: nat)
    requires
        0 < extra <= size,
    ensures
        pages_needed(full * size + extra, size) == full + 1,
{
    let n = (full * size + extra + size - 1) as int;
    let d = size as int;
    assert(n == (full + 1) * d + (extra - 1)) by (nonlinear_arith)
        requires
            n == full * size + extra + size - 1,
            d == size,
    ;
    vstd::arithmetic::div_mod::lemma_fundamental_div_mod_converse(
        n,
        d,
        (full + 1) as int,
        (extra - 1) as int,
    );
}

/// Posts in order have a window for every stretch of time.
pub proof fn lemma_window_exists(posts: Seq<Post>, start: int, end: int)
    requires
        newest_first(posts),
    ensures
        exists|lo: int, hi: int| is_window(posts, start, end, lo, hi),
    decreases posts.len(),
{
    if posts.len() == 0 {
        assert(is_window(posts, start, end, 0, 0));
    } else {
        let head = posts.drop_last();
        let n = head.len() as int;
        let p = posts.last();
        assert forall|i: int, j: int| 0 <= i < j < head.len() implies (#[trigger] head[i]).created_at
            > (#[trigger] head[j]).created_at by {
            assert(head[i] == posts[i] && head[j] == posts[j]);
        }
        lemma_window_exists(head, start, end);
        let (lo, hi) = choose|lo: int, hi: int| is_window(head, start, end, lo, hi);
        assert forall|i: int| 0 <= i < n implies (#[trigger] posts[i]).created_at
            > p.created_at by {
            assert(posts[n] == p);
        }
        assert forall|i: int| 0 <= i < n implies posts[i] == #[trigger] head[i] by {}
        if p.created_at < start {
            assert(is_window(posts, start, end, lo, hi)) by {
                assert forall|i: int| 0 <= i < lo implies (#[trigger] posts[i]).created_at >= end by {
                    assert(head[i].created_at >= end);
                }
                assert forall|i: int| lo <= i < hi implies start <= (#[trigger] posts[i]).created_at
                    < end by {
                    assert(start <= head[i].created_at < end);
                }
                assert forall|i: int| hi <= i < posts.len() implies (#[trigger] posts[i]).created_at
                    < start by {
                    if i < n {
                        assert(head[i].created_at < start);
                    }
                }
            }
        } else {
            if hi < n {
                assert(head[hi].created_at < start);
                assert(posts[hi].created_at > p.created_at);
                assert(false);
            }
            if p.created_at < end {
                assert(is_window(posts, start, end, lo, n + 1)) by {
                    assert forall|i: int| 0 <= i < lo implies (#[trigger] posts[i]).created_at
                        >= end by {
                        assert(head[i].created_at >= end);
                    }
                    assert forall|i: int| lo <= i < n + 1 implies start <= (
                    #[trigger] posts[i]).created_at < end by {
                        if i < n {
                            assert(start <= head[i].created_at < end);
                        }
                    }
                }
            } else {
                if lo < n {
                    assert(head[lo].created_at < end);
                    assert(posts[lo].created_at > p.created_at);
                    assert(false);
                }
                assert(is_window(posts, start, end, n + 1, n + 1)) by {
                    assert forall|i: int| 0 <= i < n + 1 implies (#[trigger] posts[i]).created_at
                        >= end by {
                        if i < n {
                            assert(posts[i].created_at > p.created_at);
                        }
                    }
                }
            }
        }
    }
}

/// Posts held in memory, newest first, no two of one second.
pub struct Feed {
    posts: Vec<Post>,
}

/// What a day's walk found, and what it took.
#[derive(Clone, Copy, Debug, PartialEq, Eq, Structural)]
pub struct ScanReport {
    /// The distinct authors of the day's posts.
    pub count: usize,
    /// The requests that were answered with posts.
    pub pages: usize,
    /// The requests that were answered with nothing: one at most, the last.
    pub empty_pages: usize,
}

impl Feed {
    /// The posts, newest first.
    pub closed spec fn posts(&self) -> Seq<Post> {
        self.posts@
    }

    /// Whether the posts are in order.
    pub closed spec fn wf(&self) -> bool {
        newest_first(self.posts@)
    }

    /// Takes `posts` for a feed if they run from the newest to the oldest
    /// with no two of one second, and not else.
    pub fn new(posts: Vec<Post>) -> (r: Option<Feed>)
        ensures
            r is Some <==> newest_first(posts@),
            r matches Some(feed) ==> feed.wf() && feed.posts() == posts@,
    {
        let n = posts.len();
        let mut i: usize = 1;
        while i < n
            invariant
                n == posts.len(),
                1 <= i,
                forall|a: int, b: int|
                    0 <= a < b < i && b < n ==> (#[trigger] posts@[a]).created_at > (
                    #[trigger] posts@[b]).created_at,
            decreases n - i,
        {
            if posts[i - 1].created_at <= posts[i].created_at {
                return None;
            }
            assert forall|a: int, b: int| 0 <= a < b < i + 1 && b < n implies (
            #[trigger] posts@[a]).created_at > (#[trigger] posts@[b]).created_at by {
                if b == i && a < i - 1 {
                    assert(posts@[a].created_at > posts@[i - 1].created_at);
                }
            }
            i = i + 1;
        }
        Some(Feed { posts })
    }

    /// How many posts the feed holds.
    pub fn len(&self) -> (n: usize)
        ensures
            n == self.posts().len(),
    {
        self.posts.len()
    }

    /// Answers a search as the platform does: the newest posts written from
    /// `start` up to, and not including, `end`, `max_results` of them at
    /// most, newest first.
    pub fn search(&self, start: i64, end: i64, max_results: usize) -> (page: &[Post])
        requires
            self.wf(),
        ensures
            exists|lo: int, hi: int|
                #[trigger] is_window(self.posts(), start as int, end as int, lo, hi) && page@ == capped(
                    self.posts(),
                    lo,
                    hi,
                    max_results as int,
                ),
    {
        let n = self.posts.len();
        let mut lo: usize = 0;
        while lo < n && self.posts[lo].created_at >= end
            invariant
                n == self.posts.len(),
                lo <= n,
                forall|i: int| 0 <= i < lo ==> (#[trigger] self.posts@[i]).created_at >= end,
            decreases n - lo,
        {
            lo = lo + 1;
        }
        let mut hi: usize = lo;
        while hi < n && self.posts[hi].created_at >= start
            invariant
                n == self.posts.len(),
                lo <= hi <= n,
                newest_first(self.posts@),
                lo < n ==> self.posts@[lo as int].created_at < end,
                forall|i: int| lo <= i < hi ==> start <= (#[trigger] self.posts@[i]).created_at < end,
            decreases n - hi,
        {
            hi = hi + 1;
        }
        let stop: usize = if hi - lo > max_results {
            lo + max_results
        } else {
            hi
        };
        assert(is_window(self.posts@, start as int, end as int, lo as int, hi as int));
        let page = slice_subrange(self.posts.as_slice(), lo, stop);
        assert(page@ == capped(self.posts(), lo as int, hi as int, max_results as int));
        assert(is_window(self.posts(), start as int, end as int, lo as int, hi as int));
        page
    }

    /// Counts the distinct authors of the posts written from `start` up to,
    /// and not including, `end`, by asking for pages of `page_size` posts and
    /// pulling the end of the window back to the oldest post of each page.
    ///
    /// The count is that of the window whatever the page size. The requests
    /// answered with posts are as few as pages can hold the window's posts.
    /// One request more is made to learn that nothing is left, unless the
    /// window is empty or its oldest post was written in its first second.
    /// `None` where `page_size` is zero.
    pub fn walk(&self, start: i64, end: i64, page_size: usize) -> (r: Option<ScanReport>)
        requires
            self.wf(),
        ensures
            r is None <==> page_size == 0,
            r matches Some(report) ==> exists|lo: int, hi: int|
                {
                    &&& #[trigger] is_window(self.posts(), start as int, end as int, lo, hi)
                    &&& report.count == page_authors(self.posts().subrange(lo, hi)).len()
                    &&& report.pages == pages_needed((hi - lo) as nat, page_size as nat)
                    &&& report.empty_pages == if ends_with_empty_page(
                        self.posts(),
                        start as int,
                        end as int,
                        lo,
                        hi,
                    ) {
                        1int
                    } else {
                        0int
                    }
                },
    {
        if page_size == 0 {
            return None;
        }
        let ghost posts = self.posts@;
        proof {
            lemma_window_exists(posts, start as int, end as int);
        }
        let ghost (lo0, hi0) = choose|lo: int, hi: int|
            is_window(posts, start as int, end as int, lo, hi);
        let n = self.posts.len();
        let mut tally = Tally::new(start, end);
        let mut pages: usize = 0;
        let mut extra: usize = 0;
        let ghost mut cur: int = lo0;
        proof {
            lemma_no_pages_needed(page_size as nat);
            assert(posts.subrange(lo0, lo0) =~= Seq::<Post>::empty());
            assert(crate::scanner::author_ids(Seq::<Post>::empty()) =~= Seq::<u64>::empty());
            assert(page_authors(posts.subrange(lo0, lo0)) =~= Set::<u64>::empty());
            if start >= end && lo0 < hi0 {
                assert(start <= posts[lo0].created_at < end);
            }
        }
        while !tally.is_finished()
            invariant
                self.wf(),
                posts == self.posts@,
                posts.len() == n,
                tally.wf(),
                page_size > 0,
                tally.window_start() == start,
                is_window(posts, start as int, end as int, lo0, hi0),
                lo0 <= cur <= hi0,
                !tally.finished() ==> start < tally.window_end() && is_window(
                    posts,
                    start as int,
                    tally.window_end() as int,
                    cur,
                    hi0,
                ),
                tally.finished() ==> cur == hi0,
                tally.authors() == page_authors(posts.subrange(lo0, cur)),
                cur < hi0 ==> cur - lo0 == pages * page_size,
                cur == hi0 ==> pages == pages_needed((hi0 - lo0) as nat, page_size as nat),
                pages <= cur - lo0,
                !tally.finished() ==> extra == 0 && tally.window_end() <= end,
                !tally.finished() && lo0 < cur ==> tally.window_end() == posts[cur - 1].created_at,
                tally.finished() ==> extra == if ends_with_empty_page(
                    posts,
                    start as int,
                    end as int,
                    lo0,
                    hi0,
                ) {
                    1int
                } else {
                    0int
                },
            decreases hi0 - cur + (if tally.finished() { 0int } else { 1int }),
        {
            let query = tally.next_query().unwrap();
            let from = query.start_time.unwrap();
            let until = query.end_time.unwrap();
            let page = self.search(from, until, page_size);
            proof {
                let (l, h) = choose|l: int, h: int| #[trigger]
                    is_window(self.posts(), from as int, until as int, l, h) && page@ == capped(
                        self.posts(),
                        l,
                        h,
                        page_size as int,
                    );
                lemma_window_unique(posts, from as int, until as int, cur, hi0, l, h);
                assert(page@ == capped(posts, cur, hi0, page_size as int));
            }
            let ghost k = page@.len() as int;
            tally.absorb(page);
            if page.len() == 0 {
                proof {
                    assert(cur == hi0);
                    if lo0 < cur {
                        assert(posts[cur - 1].created_at == until);
                    }
                }
                extra = 1;
            } else {
                proof {
                    assert(page@ == posts.subrange(cur, cur + k));
                    assert(page@.last() == posts[cur + k - 1]);
                    assert(start <= posts[cur + k - 1].created_at < until);
                    assert(posts.subrange(lo0, cur + k) =~= posts.subrange(lo0, cur) + page@);
                    lemma_page_authors_concat(posts.subrange(lo0, cur), page@);
                    let bound = posts[cur + k - 1].created_at as int;
                    assert(is_window(posts, start as int, bound, cur + k, hi0)) by {
                        assert forall|i: int| 0 <= i < cur + k implies (
                        #[trigger] posts[i]).created_at >= bound by {
                            if i < cur + k - 1 {
                                assert(posts[i].created_at > posts[cur + k - 1].created_at);
                            }
                        }
                        assert forall|i: int| cur + k <= i < hi0 implies start <= (
                        #[trigger] posts[i]).created_at < bound by {
                            assert(posts[cur + k - 1].created_at > posts[i].created_at);
                        }
                    }
                    if bound <= start {
                        if cur + k < hi0 {
                            assert(start <= posts[cur + k].created_at < bound);
                        }
                        assert(posts[hi0 - 1].created_at == start);
                    }
                    if cur + k == hi0 {
                        assert(cur - lo0 == pages * page_size);
                        lemma_pages_needed(pages as nat, k as nat, page_size as nat);
                    } else {
                        assert(k == page_size);
                        assert((pages + 1) * page_size == pages * page_size + page_size)
                            by (nonlinear_arith);
                    }
                    cur = cur + k;
                }
                pages = pages + 1;
            }
        }
        let count = tally.count();
        assert(is_window(self.posts(), start as int, end as int, lo0, hi0));
        assert(count == page_authors(self.posts().subrange(lo0, hi0)).len());
        Some(ScanReport { count, pages, empty_pages: extra })
    }
}

} // verus!
