//! What the platform hands over, and what is asked of it.

use vstd::prelude::*;

verus! {

/// The most posts that the platform returns for one request.
pub const MAXIMUM_NUMBER_OF_RESULTS: usize = 100;

/// The fewest posts that the platform lets one ask for.
pub const MINIMUM_NUMBER_OF_RESULTS: usize = 5;

/// What is searched for: the misspelling, reposts left out.
pub const MISTAKE: &'static str = "napewno -is:retweet";

/// A post as the platform reports it. It is only ever read.
#[derive(Clone, Debug, PartialEq, Eq)]
pub struct Post {
    /// The post's own number.
    pub id: u64,
    /// The number of the account that wrote it.
    pub author_id: u64,
    /// When it was written, in seconds since the Unix epoch (UTC).
    pub created_at: i64,
    /// What it says.
    pub text: String,
    /// The account that it answers, where it is an answer.
    pub in_reply_to: Option<u64>,
}

impl Post {
    /// Whether the post answers a post of another account.
    pub open spec fn is_reply(&self) -> bool {
        self.in_reply_to matches Some(other) && other != self.author_id
    }

    /// Tells answers to other accounts from the rest.
    pub fn answers_someone(&self) -> (r: bool)
        ensures
            r == self.is_reply(),
    {
        match self.in_reply_to {
            Some(other) => other != self.author_id,
            None => false,
        }
    }
}

/// A request for the posts that match a phrase.
#[derive(Clone, Debug, PartialEq, Eq)]
pub struct SearchQuery {
    /// The phrase.
    pub keyword: &'static str,
    /// Only posts written at this time or later, where set.
    pub start_time: Option<i64>,
    /// Only posts written before this time, where set.
    pub end_time: Option<i64>,
    /// Only posts with a greater number than this, where set.
    pub since_id: Option<u64>,
    /// No more posts than this.
    pub max_results: usize,
}

/// A request for the latest posts of one account.
#[derive(Clone, Debug, PartialEq, Eq)]
pub struct TimelineQuery {
    /// The account.
    pub user_id: u64,
    /// No more posts than this.
    pub max_results: usize,
    /// Whether answers are left out.
    pub exclude_replies: bool,
}

} // verus!
