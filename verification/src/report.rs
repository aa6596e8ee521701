//! The lines that a run writes to its log.
//!
//! Each line opens with the time of day in square brackets. The time is
//! handed in as text; what follows it is fixed here.

use vstd::prelude::*;
use crate::text::{decimal_digits, push_decimal};

verus! {

/// The line written when a run begins.
pub open spec fn start_text(clock: Seq<char>) -> Seq<char> {
    "["@ + clock + "] Running the bot..."@
}

/// The line written when the day's message is out, with the address of the
/// profile of the account called `username`.
pub open spec fn update_text(clock: Seq<char>, username: Seq<char>) -> Seq<char> {
    "["@ + clock + "] Posted a profile update: "@ + "https://twitter.com/"@ + username + "."@
}

/// The line written when a post was answered, with the address of the post
/// numbered `post_id` of the account called `username`.
pub open spec fn reply_line_text(clock: Seq<char>, post_id: nat, username: Seq<char>) -> Seq<char> {
    "["@ + clock + "] Posted a reply: "@ + "https://twitter.com/"@ + username + "/status/"@
        + decimal_digits(post_id) + "."@
}

/// The line written when a run is over.
pub open spec fn end_text(clock: Seq<char>) -> Seq<char> {
    "["@ + clock + "] Finished."@
}

/// Writes the line for the beginning of a run.
pub fn start_message(clock: &str) -> (line: String)
    ensures
        line@ == start_text(clock@),
{
    let mut out = String::new();
    out.append("[");
    out.append(clock);
    out.append("] Running the bot...");
    assert(out@ =~= start_text(clock@));
    out
}

/// Writes the line for the day's message.
pub fn update_message(clock: &str, username: &str) -> (line: String)
    ensures
        line@ == update_text(clock@, username@),
{
    let mut out = String::new();
    out.append("[");
    out.append(clock);
    out.append("] Posted a profile update: ");
    out.append("https://twitter.com/");
    out.append(username);
    out.append(".");
    assert(out@ =~= update_text(clock@, username@));
    out
}

/// Writes the line for an answer.
pub fn reply_message(clock: &str, post_id: u64, username: &str) -> (line: String)
    ensures
        line@ == reply_line_text(clock@, post_id as nat, username@),
{
    let mut out = String::new();
    out.append("[");
    out.append(clock);
    out.append("] Posted a reply: ");
    out.append("https://twitter.com/");
    out.append(username);
    out.append("/status/");
    push_decimal(&mut out, post_id as u128);
    out.append(".");
    assert(out@ =~= reply_line_text(clock@, post_id as nat, username@));
    out
}

/// Writes the line for the end of a run.
pub fn end_message(clock: &str) -> (line: String)
    ensures
        line@ == end_text(clock@),
{
    let mut out = String::new();
    out.append("[");
    out.append(clock);
    out.append("] Finished.");
    assert(out@ =~= end_text(clock@));
    out
}

} // verus!
