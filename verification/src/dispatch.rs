//! Answering the backlog, one post after another.
//!
//! For each post of the backlog, oldest first, the author's name is looked
//! up, an answer is written and sent, and a fixed rest follows, sent or not:
//! a post that cannot be answered is passed over, never tried again, and
//! never stops the rest. The [`Dispatcher`] decides each next move; whoever
//! talks to the platform carries it out and reports back.

use vstd::prelude::*;
use crate::post::Post;
use crate::reply::{generate_reply, reply_text, ReplyPicks};

verus! {

/// The rest after each attempt, in seconds: long enough to stay under the
/// platform's limit of posts per hour.
pub const REQUEST_TIMEOUT_SECS: u64 = 60;

/// What the dispatcher waits for.
#[derive(Clone, Copy, Debug, PartialEq, Eq, Structural)]
pub enum Phase {
    /// The name of the author of the post in turn.
    Naming,
    /// Word of whether the answer went out.
    Replying,
    /// The end of the rest.
    Resting,
    /// Nothing: the backlog is worked off.
    Done,
}

/// What is to be done next.
#[derive(Clone, Debug, PartialEq, Eq)]
pub enum DispatchAction {
    /// Ask the platform what the account is called.
    LookUp { author_id: u64 },
    /// Publish `text` as an answer to the post numbered `in_reply_to`.
    Reply { in_reply_to: u64, text: String },
    /// Do nothing for so many seconds.
    Pause { seconds: u64 },
    /// Stop.
    Done,
}

/// What came of the last action.
#[derive(Clone, Debug, PartialEq, Eq)]
pub enum DispatchEvent {
    /// The account is called `name`.
    Named { name: String },
    /// The answer went out, or it did not.
    Replied { delivered: bool },
    /// The rest is over.
    Rested,
}

/// A backlog and how far it is worked off.
pub struct Dispatcher {
    candidates: Vec<Post>,
    position: usize,
    phase: Phase,
    pending: String,
    delivered: usize,
    failed: usize,
}

impl Dispatcher {
    /// The backlog, oldest post first.
    pub closed spec fn candidates(&self) -> Seq<Post> {
        self.candidates@
    }

    /// How many posts are done with.
    pub closed spec fn position(&self) -> nat {
        self.position as nat
    }

    /// What is waited for.
    pub closed spec fn phase(&self) -> Phase {
        self.phase
    }

    /// The answer written for the post in turn.
    pub closed spec fn pending(&self) -> Seq<char> {
        self.pending@
    }

    /// How many answers went out.
    pub closed spec fn delivered(&self) -> nat {
        self.delivered as nat
    }

    /// How many answers did not go out.
    pub closed spec fn failed(&self) -> nat {
        self.failed as nat
    }

    /// How many answers were tried.
    pub open spec fn attempted(&self) -> nat {
        self.delivered() + self.failed()
    }

    /// Whether the state is one that `new` and `step` can have made: the
    /// posts before the one in turn were each tried once, the one in turn
    /// once it rests, and no other.
    pub closed spec fn wf(&self) -> bool {
        &&& self.position <= self.candidates@.len()
        &&& self.phase == Phase::Done <==> self.position == self.candidates@.len()
        &&& self.delivered + self.failed == self.position + if self.phase == Phase::Resting {
            1int
        } else {
            0int
        }
    }

    /// Whether `action` is what the state calls for.
    pub open spec fn calls_for(&self, action: DispatchAction) -> bool {
        match self.phase() {
            Phase::Naming => action matches DispatchAction::LookUp { author_id } && author_id
                == self.candidates()[self.position() as int].author_id,
            Phase::Replying => action matches DispatchAction::Reply { in_reply_to, text }
                && in_reply_to == self.candidates()[self.position() as int].id && text@
                == self.pending(),
            Phase::Resting => action matches DispatchAction::Pause { seconds } && seconds
                == REQUEST_TIMEOUT_SECS,
            Phase::Done => action is Done,
        }
    }

    /// Whether `event` is the one waited for.
    pub open spec fn awaits(&self, event: DispatchEvent) -> bool {
        match self.phase() {
            Phase::Naming => event is Named,
            Phase::Replying => event is Replied,
            Phase::Resting => event is Rested,
            Phase::Done => false,
        }
    }

    /// Whether `next` is the state that `event` leads to from `self`. An
    /// event that is not waited for changes nothing.
    pub open spec fn leads_to(&self, event: DispatchEvent, next: &Dispatcher) -> bool {
        &&& next.candidates() == self.candidates()
        &&& !self.awaits(event) ==> {
            &&& next.position() == self.position()
            &&& next.phase() == self.phase()
            &&& next.pending() == self.pending()
            &&& next.delivered() == self.delivered()
            &&& next.failed() == self.failed()
        }
        &&& self.awaits(event) ==> match event {
            DispatchEvent::Named { name } => {
                &&& next.position() == self.position()
                &&& next.phase() == Phase::Replying
                &&& exists|picks: ReplyPicks|
                    picks.in_range() && next.pending() == #[trigger] reply_text(name@, picks)
                &&& next.delivered() == self.delivered()
                &&& next.failed() == self.failed()
            },
            DispatchEvent::Replied { delivered } => {
                &&& next.position() == self.position()
                &&& next.phase() == Phase::Resting
                &&& next.delivered() == self.delivered() + if delivered {
                    1nat
                } else {
                    0nat
                }
                &&& next.failed() == self.failed() + if delivered {
                    0nat
                } else {
                    1nat
                }
            },
            DispatchEvent::Rested => {
                &&& next.position() == self.position() + 1
                &&& next.phase() == if self.position() + 1 < self.candidates().len() {
                    Phase::Naming
                } else {
                    Phase::Done
                }
                &&& next.delivered() == self.delivered()
                &&& next.failed() == self.failed()
            },
        }
    }

    /// Takes on a backlog, oldest post first. Nothing is tried yet.
    pub fn new(candidates: Vec<Post>) -> (d: Dispatcher)
        ensures
            d.wf(),
            d.candidates() == candidates@,
            d.position() == 0,
            d.delivered() == 0,
            d.failed() == 0,
            d.phase() == if candidates@.len() == 0 {
                Phase::Done
            } else {
                Phase::Naming
            },
    {
        let phase = if candidates.len() == 0 {
            Phase::Done
        } else {
            Phase::Naming
        };
        Dispatcher { candidates, position: 0, phase, pending: String::new(), delivered: 0, failed: 0 }
    }

    /// What is to be done now.
    pub fn action(&self) -> (action: DispatchAction)
        requires
            self.wf(),
        ensures
            self.calls_for(action),
    {
        match self.phase {
            Phase::Naming => DispatchAction::LookUp {
                author_id: self.candidates[self.position].author_id,
            },
            Phase::Replying => DispatchAction::Reply {
                in_reply_to: self.candidates[self.position].id,
                text: self.pending.clone(),
            },
            Phase::Resting => DispatchAction::Pause { seconds: REQUEST_TIMEOUT_SECS },
            Phase::Done => DispatchAction::Done,
        }
    }

    /// Takes in what came of the last action and says what is to be done
    /// next. A name leads to an answer for the post in turn; word of the
    /// answer, whichever way it went, leads to a rest; the end of the rest
    /// leads to the next post, or to the end.
    pub fn step(&mut self, event: DispatchEvent) -> (action: DispatchAction)
        requires
            old(self).wf(),
        ensures
            final(self).wf(),
            old(self).leads_to(event, final(self)),
            final(self).calls_for(action),
    {
        let total = self.candidates.len();
        match event {
            DispatchEvent::Named { name } => {
                if self.phase == Phase::Naming {
                    self.pending = generate_reply(name.as_str());
                    self.phase = Phase::Replying;
                }
            },
            DispatchEvent::Replied { delivered } => {
                if self.phase == Phase::Replying {
                    if delivered {
                        self.delivered = self.delivered + 1;
                    } else {
                        self.failed = self.failed + 1;
                    }
                    self.phase = Phase::Resting;
                }
            },
            DispatchEvent::Rested => {
                if self.phase == Phase::Resting {
                    self.position = self.position + 1;
                    self.phase = if self.position < total {
                        Phase::Naming
                    } else {
                        Phase::Done
                    };
                }
            },
        }
        self.action()
    }

    /// How many answers went out so far.
    pub fn delivered_count(&self) -> (n: usize)
        ensures
            n == self.delivered(),
    {
        self.delivered
    }

    /// How many answers did not go out so far.
    pub fn failed_count(&self) -> (n: usize)
        ensures
            n == self.failed(),
    {
        self.failed
    }

    /// What is waited for now.
    pub fn phase_now(&self) -> (phase: Phase)
        ensures
            phase == self.phase(),
    {
        self.phase
    }

    /// Whether the backlog is worked off.
    pub fn is_done(&self) -> (r: bool)
        ensures
            r == (self.phase() == Phase::Done),
    {
        self.phase == Phase::Done
    }
}

/// Once the backlog is worked off, every post of it was tried once: no
/// failure has cut the work short.
pub proof fn lemma_done_means_all_attempted(d: &Dispatcher)
    requires
        d.wf(),
        d.phase() == Phase::Done,
    ensures
        d.attempted() == d.candidates().len(),
        d.position() == d.candidates().len(),
{
}

} // verus!
