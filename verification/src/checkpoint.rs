//! Where the last run stopped, read off the account's own timeline.
//!
//! A checkpoint is the number of a post: what was written at or before it
//! counts as dealt with. It is stored nowhere. Each run derives it anew from
//! one page of the account's latest posts, newest first.

use vstd::prelude::*;
use crate::post::{Post, TimelineQuery, MAXIMUM_NUMBER_OF_RESULTS, MINIMUM_NUMBER_OF_RESULTS};

verus! {

/// The silence, in seconds, that parts one run's posts from the next run's.
pub const MINIMUM_BREAK_AFTER_RUN: i64 = 100;

/// Whether more than `threshold` seconds lie between the post at `i` and
/// its neighbour at `i + 1`.
pub open spec fn is_gap(page: Seq<Post>, threshold: int, i: int) -> bool {
    &&& 0 <= i < page.len() - 1
    &&& page[i].created_at - page[i + 1].created_at > threshold
}

/// Whether the post at `k` is where the walk from the newest post stops: the
/// far side of the first gap, or the last post of the page where there is no
/// gap before it.
pub open spec fn is_resume_point(page: Seq<Post>, threshold: int, k: int) -> bool {
    &&& 0 <= k < page.len()
    &&& forall|i: int| 0 <= i < k - 1 ==> !is_gap(page, threshold, i)
    &&& is_gap(page, threshold, k - 1) || k == page.len() - 1
}

/// The checkpoint that a silence longer than `threshold` marks: the number
/// of the post at the resume point; none on an empty page.
pub open spec fn gap_checkpoint(page: Seq<Post>, threshold: int) -> Option<u64> {
    if page.len() == 0 {
        None
    } else {
        Some(page[choose|k: int| is_resume_point(page, threshold, k)].id)
    }
}

/// Whether the post at `k` is the first answer on the page.
pub open spec fn is_first_reply(page: Seq<Post>, k: int) -> bool {
    &&& 0 <= k < page.len()
    &&& page[k].is_reply()
    &&& forall|i: int| 0 <= i < k ==> !(#[trigger] page[i]).is_reply()
}

/// Whether the post at `k` is the first on the page that answers nobody.
pub open spec fn is_first_statement(page: Seq<Post>, k: int) -> bool {
    &&& 0 <= k < page.len()
    &&& page[k].in_reply_to is None
    &&& forall|i: int| 0 <= i < k ==> (#[trigger] page[i]).in_reply_to is Some
}

/// The first post on the page that answers nobody, if there is one.
pub open spec fn latest_statement(page: Seq<Post>) -> Option<Post> {
    if exists|k: int| is_first_statement(page, k) {
        Some(page[choose|k: int| is_first_statement(page, k)])
    } else {
        None
    }
}

/// The checkpoint that the latest answer marks: the number of the first post
/// on the page that answers another account; none where no post does.
pub open spec fn reply_checkpoint(page: Seq<Post>) -> Option<u64> {
    if exists|k: int| is_first_reply(page, k) {
        Some(page[choose|k: int| is_first_reply(page, k)].id)
    } else {
        None
    }
}

/// A page has one resume point and no more.
pub proof fn lemma_resume_point_unique(page: Seq<Post>, threshold: int, k: int, other: int)
    requires
        is_resume_point(page, threshold, k),
        is_resume_point(page, threshold, other),
    ensures
        k == other,
{
    if k < other {
        assert(is_gap(page, threshold, k - 1));
    } else if other < k {
        assert(is_gap(page, threshold, other - 1));
    }
}

/// The checkpoint is the number of the post at the resume point.
pub proof fn lemma_gap_checkpoint(page: Seq<Post>, threshold: int, k: int)
    requires
        is_resume_point(page, threshold, k),
    ensures
        gap_checkpoint(page, threshold) == Some(page[k].id),
{
    let c = choose|c: int| is_resume_point(page, threshold, c);
    lemma_resume_point_unique(page, threshold, k, c);
}

/// The checkpoint is the number of the first answer.
pub proof fn lemma_reply_checkpoint(page: Seq<Post>, k: int)
    requires
        is_first_reply(page, k),
    ensures
        reply_checkpoint(page) == Some(page[k].id),
{
    let c = choose|c: int| is_first_reply(page, c);
    if c < k {
        assert(!page[c].is_reply());
    } else if k < c {
        assert(!page[k].is_reply());
    }
}

/// The first post that answers nobody is the one found at the first such
/// place.
pub proof fn lemma_latest_statement(page: Seq<Post>, k: int)
    requires
        is_first_statement(page, k),
    ensures
        latest_statement(page) == Some(page[k]),
{
    let c = choose|c: int| is_first_statement(page, c);
    if c < k {
        assert(page[c].in_reply_to is Some);
    } else if k < c {
        assert(page[k].in_reply_to is Some);
    }
}

/// Walks `page` from the newest post towards the oldest and stops behind the
/// first pair of neighbours that lie more than `threshold` seconds apart, or
/// at the oldest post. `None` on an empty page.
pub fn find_resume_point(page: &[Post], threshold: i64) -> (r: Option<usize>)
    ensures
        r is None <==> page@.len() == 0,
        r matches Some(k) ==> is_resume_point(page@, threshold as int, k as int),
{
    if page.len() == 0 {
        return None;
    }
    let mut i: usize = 0;
    while i + 1 < page.len()
        invariant
            i < page.len(),
            forall|j: int| 0 <= j < i ==> !is_gap(page@, threshold as int, j),
        decreases page.len() - i,
    {
        let newer: i128 = page[i].created_at as i128;
        let older: i128 = page[i + 1].created_at as i128;
        if newer - older > threshold as i128 {
            return Some(i + 1);
        }
        i = i + 1;
    }
    Some(i)
}

/// The checkpoint of the inactivity-gap strategy with the usual threshold:
/// the number of the latest post of the run before this one.
pub fn get_initial_tweet(tweets: &[Post]) -> (r: Option<u64>)
    ensures
        r == gap_checkpoint(tweets@, MINIMUM_BREAK_AFTER_RUN as int),
{
    match find_resume_point(tweets, MINIMUM_BREAK_AFTER_RUN) {
        Some(k) => {
            proof {
                lemma_gap_checkpoint(tweets@, MINIMUM_BREAK_AFTER_RUN as int, k as int);
            }
            Some(tweets[k].id)
        },
        None => None,
    }
}

/// The checkpoint of the last-reply strategy: the number of the most recent
/// post on the page that answers another account.
pub fn get_last_reply(tweets: &[Post]) -> (r: Option<u64>)
    ensures
        r == reply_checkpoint(tweets@),
{
    let mut i: usize = 0;
    while i < tweets.len()
        invariant
            i <= tweets.len(),
            forall|j: int| 0 <= j < i ==> !(#[trigger] tweets@[j]).is_reply(),
        decreases tweets.len() - i,
    {
        if tweets[i].answers_someone() {
            proof {
                lemma_reply_checkpoint(tweets@, i as int);
            }
            return Some(tweets[i].id);
        }
        i = i + 1;
    }
    None
}

/// The most recent post on the page that answers nobody: the one that
/// carries the figure published last.
pub fn get_latest_tweet(tweets: &[Post]) -> (r: Option<&Post>)
    ensures
        r is Some <==> latest_statement(tweets@) is Some,
        r matches Some(post) ==> latest_statement(tweets@) == Some(*post),
        r matches Some(post) ==> exists|k: int| is_first_statement(tweets@, k) && tweets@[k] == *post,
        r is None ==> forall|i: int|
            0 <= i < tweets@.len() ==> (#[trigger] tweets@[i]).in_reply_to is Some,
{
    let mut i: usize = 0;
    while i < tweets.len()
        invariant
            i <= tweets.len(),
            forall|j: int| 0 <= j < i ==> (#[trigger] tweets@[j]).in_reply_to is Some,
        decreases tweets.len() - i,
    {
        if tweets[i].in_reply_to.is_none() {
            proof {
                lemma_latest_statement(tweets@, i as int);
            }
            return Some(&tweets[i]);
        }
        i = i + 1;
    }
    None
}

/// How a run finds its checkpoint.
#[derive(Clone, Copy, Debug, PartialEq, Eq, Structural)]
pub enum CheckpointStrategy {
    /// By the first silence longer than `threshold` seconds on a full page
    /// of the account's posts.
    InactivityGap { threshold: i64 },
    /// By the account's latest answer on a small page of its posts.
    LastReply,
}

impl CheckpointStrategy {
    /// The checkpoint that the strategy reads off `page`.
    pub open spec fn checkpoint(self, page: Seq<Post>) -> Option<u64> {
        match self {
            CheckpointStrategy::InactivityGap { threshold } => gap_checkpoint(page, threshold as int),
            CheckpointStrategy::LastReply => reply_checkpoint(page),
        }
    }

    /// How many posts the strategy asks for.
    pub open spec fn page_size(self) -> usize {
        match self {
            CheckpointStrategy::InactivityGap { .. } => MAXIMUM_NUMBER_OF_RESULTS,
            CheckpointStrategy::LastReply => MINIMUM_NUMBER_OF_RESULTS,
        }
    }

    /// The page that the strategy reads: a full one of every kind of post
    /// for the gap, a small one for the latest answer.
    pub fn query(&self, user_id: u64) -> (q: TimelineQuery)
        ensures
            q.user_id == user_id,
            !q.exclude_replies,
            q.max_results == self.page_size(),
    {
        match self {
            CheckpointStrategy::InactivityGap { .. } => TimelineQuery {
                user_id,
                max_results: MAXIMUM_NUMBER_OF_RESULTS,
                exclude_replies: false,
            },
            CheckpointStrategy::LastReply => TimelineQuery {
                user_id,
                max_results: MINIMUM_NUMBER_OF_RESULTS,
                exclude_replies: false,
            },
        }
    }

    /// Reads the checkpoint off `page`, the account's latest posts, newest
    /// first. `None` means that nothing bounds the search from below.
    pub fn resolve(&self, page: &[Post]) -> (r: Option<u64>)
        ensures
            r == self.checkpoint(page@),
    {
        match self {
            CheckpointStrategy::InactivityGap { threshold } => {
                match find_resume_point(page, *threshold) {
                    Some(k) => {
                        proof {
                            lemma_gap_checkpoint(page@, *threshold as int, k as int);
                        }
                        Some(page[k].id)
                    },
                    None => None,
                }
            },
            CheckpointStrategy::LastReply => get_last_reply(page),
        }
    }
}

} // verus!
