//! The answer sent to whoever wrote the phrase as one word.
//!
//! An answer is put together from seven small tables, one entry of each, so
//! that no two answers in a row need read alike. Which entries are taken is
//! left to chance; what an answer says once they are taken is fixed.

use rand::rngs::ThreadRng;
use rand::Rng;
use vstd::prelude::*;

verus! {

/// How an answer may open.
pub const GREETINGS: [&'static str; 5] = ["Cześć", "Czołem", "Hej", "Serwus", "Witaj"];

/// What may follow the name.
pub const GREETING_EMOJIS: [&'static str; 8] = ["👋", "🤝", "☺️", "🤓", "🫡", "🍻", "🤖", "👀"];

/// How the apology may begin.
pub const APOLOGIES: [&'static str; 3] = ["Daruj mi", "Wybacz mi", "Przepraszam za"];

/// What is apologised for.
pub const BRAVERY_WORDS: [&'static str; 3] = ["brawurę", "śmiałość", "zuchwałość"];

/// What the phrase may be called.
pub const PHRASE_WORDS: [&'static str; 2] = ["frazę", "wyrażenie"];

/// How "is written" may be said.
pub const SPELLING_WORDS: [&'static str; 2] = ["piszemy", "pisze się"];

/// How "apart" may be said.
pub const DIVISION_WORDS: [&'static str; 3] = ["osobno", "rozdzielnie", "rozłącznie"];

/// One entry of each table, by its place in the table.
#[derive(Clone, Copy, Debug, PartialEq, Eq, Structural)]
pub struct ReplyPicks {
    pub greeting: usize,
    pub emoji: usize,
    pub apology: usize,
    pub bravery: usize,
    pub phrase: usize,
    pub spelling: usize,
    pub division: usize,
}

impl ReplyPicks {
    /// Whether each place lies within its table.
    pub open spec fn in_range(&self) -> bool {
        &&& self.greeting < 5
        &&& self.emoji < 8
        &&& self.apology < 3
        &&& self.bravery < 3
        &&& self.phrase < 2
        &&& self.spelling < 2
        &&& self.division < 3
    }

    /// Tells picks that name an entry of each table from the rest.
    pub fn is_in_range(&self) -> (r: bool)
        ensures
            r == self.in_range(),
    {
        self.greeting < 5 && self.emoji < 8 && self.apology < 3 && self.bravery < 3 && self.phrase
            < 2 && self.spelling < 2 && self.division < 3
    }
}

/// The answer to the account called `username` that `picks` select.
pub open spec fn reply_text(username: Seq<char>, picks: ReplyPicks) -> Seq<char>
    recommends
        picks.in_range(),
{
    GREETINGS[picks.greeting as int]@ + " "@ + username + "! "@ + GREETING_EMOJIS[picks.emoji as int]@
        + "\n"@ + APOLOGIES[picks.apology as int]@ + " moją "@ + BRAVERY_WORDS[picks.bravery as int]@
        + ", ale "@ + PHRASE_WORDS[picks.phrase as int]@ + " 'na pewno' "@
        + SPELLING_WORDS[picks.spelling as int]@ + " "@ + DIVISION_WORDS[picks.division as int]@
        + "."@
}

/// Writes the answer to the account called `username` that `picks` select.
/// `None` where a pick lies outside its table.
pub fn compose_reply(username: &str, picks: &ReplyPicks) -> (r: Option<String>)
    ensures
        r is Some <==> picks.in_range(),
        r matches Some(text) ==> text@ == reply_text(username@, *picks),
{
    if !picks.is_in_range() {
        return None;
    }
    let mut out = String::new();
    out.append(GREETINGS[picks.greeting]);
    out.append(" ");
    out.append(username);
    out.append("! ");
    out.append(GREETING_EMOJIS[picks.emoji]);
    out.append("\n");
    out.append(APOLOGIES[picks.apology]);
    out.append(" moją ");
    out.append(BRAVERY_WORDS[picks.bravery]);
    out.append(", ale ");
    out.append(PHRASE_WORDS[picks.phrase]);
    out.append(" 'na pewno' ");
    out.append(SPELLING_WORDS[picks.spelling]);
    out.append(" ");
    out.append(DIVISION_WORDS[picks.division]);
    out.append(".");
    assert(out@ =~= reply_text(username@, *picks));
    Some(out)
}

/// `rand::rngs::ThreadRng`, the handle on a thread's generator. It is passed
/// on unopened.
#[verifier::external_type_specification]
#[verifier::external_body]
pub struct ExThreadRng(rand::rngs::ThreadRng);

/// `rand::thread_rng`: a handle on the calling thread's generator. Nothing is
/// claimed of it.
pub assume_specification[ rand::thread_rng ]() -> (rng: ThreadRng);

/// `rand::Rng::gen_range` on the half-open range from zero to `bound`: some
/// number below `bound`, and nothing more is known of it. The range must not
/// be empty.
#[verifier::external_body]
fn random_below(rng: &mut ThreadRng, bound: usize) -> (r: usize)
    requires
        bound > 0,
    ensures
        r < bound,
{
    rng.gen_range(0..bound)
}

/// Draws one entry of each table.
pub fn draw_picks() -> (picks: ReplyPicks)
    ensures
        picks.in_range(),
{
    let mut rng = rand::thread_rng();
    let greeting = random_below(&mut rng, 5);
    let emoji = random_below(&mut rng, 8);
    let apology = random_below(&mut rng, 3);
    let bravery = random_below(&mut rng, 3);
    let phrase = random_below(&mut rng, 2);
    let spelling = random_below(&mut rng, 2);
    let division = random_below(&mut rng, 3);
    ReplyPicks { greeting, emoji, apology, bravery, phrase, spelling, division }
}

/// Writes an answer to the account called `username`, its wording drawn by
/// chance from the tables.
pub fn generate_reply(username: &str) -> (text: String)
    ensures
        exists|picks: ReplyPicks| picks.in_range() && text@ == #[trigger] reply_text(username@, picks),
{
    let picks = draw_picks();
    let text = compose_reply(username, &picks).unwrap();
    assert(text@ == reply_text(username@, picks));
    text
}

} // verus!
