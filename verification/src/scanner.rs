//! Walking the search results of one window of time, page by page.
//!
//! The platform answers a search with the newest matching posts first and
//! caps each answer. To see a whole day, ask for the window, note the authors
//! on the page, pull the window's end back to the oldest post seen, and ask
//! again, until a page comes back empty. A [`Tally`] keeps the state of that
//! walk and decides each next request; whoever talks to the platform hands it
//! the pages.

use std::collections::HashSet;
use vstd::prelude::*;
use crate::calendar::SECONDS_PER_DAY;
use crate::post::{Post, SearchQuery, MAXIMUM_NUMBER_OF_RESULTS, MISTAKE};

verus! {

/// The authors of the posts on `page`, post by post.
pub open spec fn author_ids(page: Seq<Post>) -> Seq<u64> {
    Seq::new(page.len(), |i: int| page[i].author_id)
}

/// The accounts that wrote at least one post on `page`.
pub open spec fn page_authors(page: Seq<Post>) -> Set<u64> {
    author_ids(page).to_set()
}

/// The accounts that wrote at least one post on one of `pages`.
pub open spec fn all_authors(pages: Seq<Seq<Post>>) -> Set<u64>
    decreases pages.len(),
{
    if pages.len() == 0 {
        Set::empty()
    } else {
        all_authors(pages.drop_last()).union(page_authors(pages.last()))
    }
}

/// Where the window ends after a page was read: at the oldest post on the
/// page, and in any case earlier than before.
pub open spec fn narrowed_end(page: Seq<Post>, end: int) -> int {
    if page.len() == 0 {
        end
    } else if page.last().created_at < end {
        page.last().created_at as int
    } else {
        end - 1
    }
}

/// The distinct authors seen so far in one window of time, and how much of
/// the window is still to be read.
pub struct Tally {
    authors: HashSet<u64>,
    window_start: i64,
    window_end: i64,
    finished: bool,
}

impl Tally {
    /// The accounts noted so far.
    pub closed spec fn authors(&self) -> Set<u64> {
        self.authors@
    }

    /// The first second of the window.
    pub closed spec fn window_start(&self) -> i64 {
        self.window_start
    }

    /// The second before which the part of the window that is still to be
    /// read ends.
    pub closed spec fn window_end(&self) -> i64 {
        self.window_end
    }

    /// Whether there is nothing left to ask for.
    pub closed spec fn finished(&self) -> bool {
        self.finished
    }

    /// Whether the tally is one that `new` and `absorb` can have made.
    pub closed spec fn wf(&self) -> bool {
        &&& self.authors@.finite()
        &&& !self.finished ==> self.window_start < self.window_end
    }

    /// Whether `next` is the tally that reading `page` leads to from `self`:
    /// the page's authors are noted, and unless the walk was over already,
    /// the end of the window is pulled back and the walk is over if the page
    /// or the window is empty.
    pub open spec fn leads_to(&self, page: Seq<Post>, next: &Tally) -> bool {
        &&& next.authors() == self.authors().union(page_authors(page))
        &&& next.window_start() == self.window_start()
        &&& next.window_end() == if self.finished() {
            self.window_end() as int
        } else {
            narrowed_end(page, self.window_end() as int)
        }
        &&& next.finished() == (self.finished() || page.len() == 0 || narrowed_end(
            page,
            self.window_end() as int,
        ) <= self.window_start())
    }

    /// An empty tally for the posts written from `window_start` up to, and
    /// not including, `window_end`. An empty window is finished at once.
    pub fn new(window_start: i64, window_end: i64) -> (tally: Tally)
        ensures
            tally.wf(),
            tally.authors() == Set::<u64>::empty(),
            tally.window_start() == window_start,
            tally.window_end() == window_end,
            tally.finished() == (window_start >= window_end),
    {
        Tally {
            authors: HashSet::new(),
            window_start,
            window_end,
            finished: window_start >= window_end,
        }
    }

    /// An empty tally for the day numbered `day`, counted from the Unix epoch
    /// in UTC. `None` where the day's seconds do not fit the timestamps.
    pub fn for_day(day: i64) -> (r: Option<Tally>)
        ensures
            r is Some <==> i64::MIN <= day * SECONDS_PER_DAY && (day + 1) * SECONDS_PER_DAY
                <= i64::MAX,
            r matches Some(tally) ==> {
                &&& tally.wf()
                &&& tally.authors() == Set::<u64>::empty()
                &&& tally.window_start() == day * SECONDS_PER_DAY
                &&& tally.window_end() == (day + 1) * SECONDS_PER_DAY
                &&& !tally.finished()
            },
    {
        let start = match day.checked_mul(SECONDS_PER_DAY) {
            Some(s) => s,
            None => {
                return None;
            },
        };
        let end = match start.checked_add(SECONDS_PER_DAY) {
            Some(e) => e,
            None => {
                return None;
            },
        };
        Some(Tally::new(start, end))
    }

    /// Whether the walk is over.
    pub fn is_finished(&self) -> (r: bool)
        ensures
            r == self.finished(),
    {
        self.finished
    }

    /// What to ask the platform next: a full page of matching posts from what
    /// is left of the window. `None` once the walk is over.
    pub fn next_query(&self) -> (r: Option<SearchQuery>)
        ensures
            r is None <==> self.finished(),
            r matches Some(q) ==> {
                &&& q.keyword@ == MISTAKE@
                &&& q.start_time == Some(self.window_start())
                &&& q.end_time == Some(self.window_end())
                &&& q.since_id is None
                &&& q.max_results == MAXIMUM_NUMBER_OF_RESULTS
            },
    {
        if self.finished {
            None
        } else {
            Some(
                SearchQuery {
                    keyword: MISTAKE,
                    start_time: Some(self.window_start),
                    end_time: Some(self.window_end),
                    since_id: None,
                    max_results: MAXIMUM_NUMBER_OF_RESULTS,
                },
            )
        }
    }

    /// Takes in the answer to the last request, newest post first. Every
    /// author on the page is noted, once however often seen. An empty page
    /// ends the walk. Any other pulls the end of the window back to the
    /// oldest post on it, and by a second at least; the walk ends there too
    /// if nothing of the window is left.
    pub fn absorb(&mut self, page: &[Post])
        requires
            old(self).wf(),
        ensures
            final(self).wf(),
            old(self).leads_to(page@, final(self)),
    {
        let n = page.len();
        let mut i: usize = 0;
        while i < n
            invariant
                n == page@.len(),
                i <= n,
                self.authors@.finite(),
                self.authors@ == old(self).authors@.union(author_ids(page@.take(i as int)).to_set()),
                self.window_start == old(self).window_start,
                self.window_end == old(self).window_end,
                self.finished == old(self).finished,
            decreases n - i,
        {
            let ghost before = author_ids(page@.take(i as int));
            let ghost after = author_ids(page@.take(i + 1));
            self.authors.insert(page[i].author_id);
            proof {
                assert(after =~= before.push(page@[i as int].author_id));
                lemma_to_set_push(before, page@[i as int].author_id);
                assert(self.authors@ =~= old(self).authors@.union(after.to_set()));
            }
            i = i + 1;
        }
        assert(page@.take(n as int) =~= page@);
        if !self.finished {
            if n == 0 {
                self.finished = true;
            } else {
                let oldest = page[n - 1].created_at;
                if oldest < self.window_end {
                    self.window_end = oldest;
                } else {
                    self.window_end = self.window_end - 1;
                }
                if self.window_end <= self.window_start {
                    self.finished = true;
                }
            }
        }
    }

    /// How many distinct authors were noted.
    pub fn count(&self) -> (n: usize)
        requires
            self.wf(),
        ensures
            n == self.authors().len(),
    {
        self.authors.len()
    }
}

/// A page that holds posts always leaves less of the window than there was:
/// a walk cannot go on for more pages than the window has seconds.
pub proof fn lemma_window_shrinks(tally: &Tally, page: Seq<Post>, next: &Tally)
    requires
        !tally.finished(),
        page.len() > 0,
        tally.leads_to(page, next),
    ensures
        next.window_end() < tally.window_end(),
        next.window_start() == tally.window_start(),
        next.finished() <==> next.window_end() <= next.window_start(),
{
}

/// The elements of a sequence with one more behind it are those of the
/// sequence and the one.
pub proof fn lemma_to_set_push(s: Seq<u64>, a: u64)
    ensures
        s.push(a).to_set() == s.to_set().insert(a),
{
    let left = s.push(a).to_set();
    let right = s.to_set().insert(a);
    assert forall|x: u64| left.contains(x) <==> right.contains(x) by {
        if left.contains(x) {
            let i = choose|i: int| 0 <= i < s.push(a).len() && s.push(a)[i] == x;
            if i < s.len() {
                assert(s[i] == x);
                assert(s.contains(x));
            }
        }
        if right.contains(x) {
            if x == a {
                assert(s.push(a)[s.len() as int] == a);
            } else {
                let i = choose|i: int| 0 <= i < s.len() && s[i] == x;
                assert(s.push(a)[i] == x);
            }
        }
    }
    assert(left =~= right);
}

/// The authors of two pages laid end to end are the authors of the one and
/// of the other.
pub proof fn lemma_page_authors_concat(a: Seq<Post>, b: Seq<Post>)
    ensures
        page_authors(a + b) == page_authors(a).union(page_authors(b)),
{
    let whole = author_ids(a + b);
    let left = author_ids(a);
    let right = author_ids(b);
    assert forall|x: u64| whole.to_set().contains(x) <==> left.to_set().union(
        right.to_set(),
    ).contains(x) by {
        if whole.to_set().contains(x) {
            let i = choose|i: int| 0 <= i < whole.len() && whole[i] == x;
            if i < a.len() {
                assert(left[i] == x);
                assert(left.contains(x));
            } else {
                assert(right[i - a.len()] == x);
                assert(right.contains(x));
            }
        }
        if left.to_set().contains(x) {
            let i = choose|i: int| 0 <= i < left.len() && left[i] == x;
            assert(whole[i] == x);
            assert(whole.contains(x));
        }
        if right.to_set().contains(x) {
            let i = choose|i: int| 0 <= i < right.len() && right[i] == x;
            assert(whole[i + a.len()] == x);
            assert(whole.contains(x));
        }
    }
    assert(whole.to_set() =~= left.to_set().union(right.to_set()));
}

/// Where the pages are cut makes no difference: the authors of pages taken
/// one by one are the authors of the posts taken all together.
pub proof fn lemma_all_authors_flatten(pages: Seq<Seq<Post>>)
    ensures
        all_authors(pages) == page_authors(pages.flatten()),
        all_authors(pages).finite(),
    decreases pages.len(),
{
    pages.lemma_flatten_and_flatten_alt_are_equivalent();
    if pages.len() == 0 {
        assert(author_ids(pages.flatten()) =~= Seq::<u64>::empty());
        assert(page_authors(pages.flatten()) =~= Set::<u64>::empty());
    } else {
        let head = pages.drop_last();
        lemma_all_authors_flatten(head);
        head.lemma_flatten_and_flatten_alt_are_equivalent();
        assert(pages.flatten() =~= head.flatten() + pages.last());
        lemma_page_authors_concat(head.flatten(), pages.last());
        vstd::seq_lib::seq_to_set_is_finite(author_ids(pages.last()));
    }
}

/// The pages that `pages` holds, page by page.
pub open spec fn pages_of(pages: Seq<Vec<Post>>) -> Seq<Seq<Post>> {
    Seq::new(pages.len(), |i: int| pages[i]@)
}

/// Counts the distinct authors of the posts on `pages`. An author counts
/// once, on however many pages and however often the author occurs, so the
/// count is that of the posts taken all together.
pub fn count_tweets_with_mistake(pages: &[Vec<Post>]) -> (count: usize)
    ensures
        count == all_authors(pages_of(pages@)).len(),
        count == page_authors(pages_of(pages@).flatten()).len(),
{
    // Only the set of authors is used here: the window is left empty.
    let mut tally = Tally::new(0, 0);
    let mut i: usize = 0;
    while i < pages.len()
        invariant
            i <= pages.len(),
            tally.wf(),
            tally.authors() == all_authors(pages_of(pages@).take(i as int)),
        decreases pages.len() - i,
    {
        tally.absorb(pages[i].as_slice());
        proof {
            let seen = pages_of(pages@).take(i + 1);
            assert(seen.drop_last() =~= pages_of(pages@).take(i as int));
            assert(seen.last() == pages@[i as int]@);
        }
        i = i + 1;
    }
    proof {
        assert(pages_of(pages@).take(pages@.len() as int) =~= pages_of(pages@));
        lemma_all_authors_flatten(pages_of(pages@));
    }
    tally.count()
}

/// The one request for the backlog: a full page of matching posts with a
/// number above `checkpoint`, or the newest page of all where there is no
/// checkpoint.
pub fn candidates_query(checkpoint: Option<u64>) -> (q: SearchQuery)
    ensures
        q.keyword@ == MISTAKE@,
        q.since_id == checkpoint,
        q.start_time is None,
        q.end_time is None,
        q.max_results == MAXIMUM_NUMBER_OF_RESULTS,
{
    SearchQuery {
        keyword: MISTAKE,
        start_time: None,
        end_time: None,
        since_id: checkpoint,
        max_results: MAXIMUM_NUMBER_OF_RESULTS,
    }
}

/// Turns a page of search results, which comes newest first, into the
/// backlog: the same posts, oldest first.
pub fn get_tweets_with_mistake(page: Vec<Post>) -> (backlog: Vec<Post>)
    ensures
        backlog@ == page@.reverse(),
{
    let mut page = page;
    let ghost whole = page@;
    let mut backlog: Vec<Post> = Vec::new();
    while page.len() > 0
        invariant
            page@.len() + backlog@.len() == whole.len(),
            page@ == whole.take(page@.len() as int),
            forall|i: int|
                0 <= i < backlog@.len() ==> backlog@[i] == whole[whole.len() - 1 - i],
        decreases page.len(),
    {
        let post = page.pop().unwrap();
        backlog.push(post);
    }
    assert(backlog@ =~= whole.reverse());
    backlog
}

} // verus!
