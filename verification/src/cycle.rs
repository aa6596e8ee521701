//! One full run: the day's count, its publication, and the backlog.
//!
//! A run talks to the platform many times and decides between the calls what
//! to ask next. The deciding is done here, by a [`Cycle`]: it says what is
//! to be asked, takes the answer, and says what is to be asked then. Its
//! caller does the asking and nothing else.
//!
//! The order is fixed: who the account is; where the last run stopped; the
//! backlog since then; the figure published last; the day's count, page by
//! page; its publication; then the answers to the backlog, oldest first. A
//! call that fails ends the run, with one exception: an answer that cannot
//! be sent is passed over.

use vstd::prelude::*;
use crate::calendar::{day_number, day_of, utc_date_label, utc_date_text, SECONDS_PER_DAY};
use crate::checkpoint::{get_latest_tweet, latest_statement, CheckpointStrategy};
use crate::codec::{extract_statistics, is_date_label, statistic_in, tweet_message, tweet_text};
use crate::dispatch::{DispatchAction, DispatchEvent, Dispatcher, Phase, REQUEST_TIMEOUT_SECS};
use crate::post::{
    Post, SearchQuery, TimelineQuery, MAXIMUM_NUMBER_OF_RESULTS, MINIMUM_NUMBER_OF_RESULTS, MISTAKE,
};
use crate::scanner::{candidates_query, get_tweets_with_mistake, Tally};

verus! {

/// Why a run was given up.
#[derive(Clone, Copy, Debug, PartialEq, Eq, Structural)]
pub enum Fault {
    /// The platform would not say who the account is.
    Authorization,
    /// A search, a timeline or a name could not be fetched.
    Query,
    /// The post that should carry yesterday's figure carries none.
    CorruptState,
    /// The day's message could not be published.
    Publish,
}

/// What is to become of the day's message.
#[derive(Clone, Copy, Debug, PartialEq, Eq, Structural)]
pub enum UpdatePlan {
    /// Nothing: today's message is out already.
    Skip,
    /// Count and publish, holding the count against `prev_stat`.
    Publish { prev_stat: usize },
}

/// What a run with the clock at `now` makes of the account's latest post
/// that answers nobody. A post of today means that the message is out. A
/// post of yesterday must carry yesterday's figure. With an older post, or
/// none, there is no figure to compare with, which is written as zero.
pub open spec fn planned_update(now: i64, latest: Option<Post>) -> Result<UpdatePlan, Fault> {
    match latest {
        None => Ok(UpdatePlan::Publish { prev_stat: 0 }),
        Some(post) => if day_number(post.created_at as int) == day_number(now as int) {
            Ok(UpdatePlan::Skip)
        } else if day_number(post.created_at as int) == day_number(now as int) - 1 {
            match statistic_in(post.text@) {
                Some(figure) => Ok(UpdatePlan::Publish { prev_stat: figure }),
                None => Err(Fault::CorruptState),
            }
        } else {
            Ok(UpdatePlan::Publish { prev_stat: 0 })
        },
    }
}

/// Decides what is to become of the day's message, given the account's
/// latest post that answers nobody.
pub fn plan_update(now: i64, latest: Option<&Post>) -> (r: Result<UpdatePlan, Fault>)
    ensures
        match latest {
            Some(post) => r == planned_update(now, Some(*post)),
            None => r == planned_update(now, None),
        },
{
    match latest {
        None => Ok(UpdatePlan::Publish { prev_stat: 0 }),
        Some(post) => {
            let written = day_of(post.created_at);
            let today = day_of(now);
            if written == today {
                Ok(UpdatePlan::Skip)
            } else if written < today && today - written == 1 {
                match extract_statistics(post.text.as_str()) {
                    Some(figure) => Ok(UpdatePlan::Publish { prev_stat: figure }),
                    None => Err(Fault::CorruptState),
                }
            } else {
                Ok(UpdatePlan::Publish { prev_stat: 0 })
            }
        },
    }
}

/// How far a run has come.
#[derive(Clone, Copy, Debug, PartialEq, Eq, Structural)]
pub enum Stage {
    /// Asking who the account is.
    Identify,
    /// Asking for the account's posts, to find the checkpoint.
    Checkpoint,
    /// Asking for the matching posts since the checkpoint.
    Backlog,
    /// Asking for the account's latest posts that answer nobody.
    Latest,
    /// Asking for the day's matching posts, page by page.
    Counting,
    /// Publishing the day's message.
    Publishing,
    /// Answering the backlog.
    Replying,
    /// Done, with nothing left to do.
    Finished,
    /// Given up.
    Aborted,
}

/// What the caller is to do next.
#[derive(Clone, Debug, PartialEq, Eq)]
pub enum Request {
    /// Ask the platform who the account is.
    CurrentUser,
    /// Fetch an account's latest posts.
    Timeline { timeline: TimelineQuery },
    /// Search for posts.
    Search { search: SearchQuery },
    /// Publish `text` as a post of its own.
    Publish { text: String },
    /// Ask the platform what an account is called.
    LookUp { author_id: u64 },
    /// Publish `text` as an answer to the post numbered `in_reply_to`.
    Reply { in_reply_to: u64, text: String },
    /// Do nothing for so many seconds.
    Pause { seconds: u64 },
    /// Stop: the run is complete.
    Finish,
    /// Stop: the run is given up.
    Abort { fault: Fault },
}

/// What came of the last request.
#[derive(Clone, Debug, PartialEq, Eq)]
pub enum Response {
    /// The account has the number `id`.
    User { id: u64 },
    /// The posts asked for, newest first.
    Page { posts: Vec<Post> },
    /// The message is out.
    Published,
    /// The account asked after is called `name`.
    Named { name: String },
    /// The answer went out, or it did not.
    Replied { delivered: bool },
    /// The pause is over.
    Rested,
    /// The platform did not do what was asked.
    Failed,
}

/// Where a run stands, as contracts speak of it.
pub struct CycleView {
    pub now: i64,
    pub strategy: CheckpointStrategy,
    pub stage: Stage,
    pub user_id: Option<u64>,
    pub checkpoint: Option<u64>,
    pub prev_stat: usize,
    pub label: Seq<char>,
    pub tally: Tally,
    pub pending: Seq<char>,
    pub dispatcher: Dispatcher,
    pub fault: Option<Fault>,
}

/// Where a run stands.
pub struct Cycle {
    now: i64,
    strategy: CheckpointStrategy,
    stage: Stage,
    user_id: Option<u64>,
    checkpoint: Option<u64>,
    prev_stat: usize,
    label: String,
    tally: Tally,
    pending: String,
    dispatcher: Dispatcher,
    fault: Option<Fault>,
}

impl View for Cycle {
    type V = CycleView;

    closed spec fn view(&self) -> CycleView {
        CycleView {
            now: self.now,
            strategy: self.strategy,
            stage: self.stage,
            user_id: self.user_id,
            checkpoint: self.checkpoint,
            prev_stat: self.prev_stat,
            label: self.label@,
            tally: self.tally,
            pending: self.pending@,
            dispatcher: self.dispatcher,
            fault: self.fault,
        }
    }
}

/// Whether a run can start with the clock at `now`: the day before has a
/// place in the calendar and its seconds fit the timestamps.
pub open spec fn has_yesterday(now: i64) -> bool {
    &&& i64::MIN <= now - SECONDS_PER_DAY
    &&& i64::MIN <= (day_number(now as int) - 1) * SECONDS_PER_DAY
    &&& utc_date_text((now - SECONDS_PER_DAY) as i64) is Some
}

/// The stage that follows the day's message: the answers, or the end where
/// there is nothing to answer.
pub open spec fn stage_after_update(dispatcher: Dispatcher) -> Stage {
    if dispatcher.phase() == Phase::Done {
        Stage::Finished
    } else {
        Stage::Replying
    }
}

/// The state `v` given up for `fault`.
pub open spec fn aborted(v: CycleView, fault: Fault) -> CycleView {
    CycleView { stage: Stage::Aborted, fault: Some(fault), ..v }
}

/// Whether `w` is what `event` makes of `v` while the backlog is answered.
pub open spec fn reply_step(v: CycleView, event: DispatchEvent, w: CycleView) -> bool {
    &&& v.dispatcher.leads_to(event, &w.dispatcher)
    &&& w == CycleView {
        stage: stage_after_update(w.dispatcher),
        dispatcher: w.dispatcher,
        ..v
    }
}

/// Whether `w` is what `response` makes of `v`. A response that does not
/// answer the request of the stage changes nothing.
pub open spec fn leads_to(v: CycleView, response: Response, w: CycleView) -> bool {
    match v.stage {
        Stage::Identify => match response {
            Response::User { id } => w == CycleView {
                stage: Stage::Checkpoint,
                user_id: Some(id),
                ..v
            },
            Response::Failed => w == aborted(v, Fault::Authorization),
            _ => w == v,
        },
        Stage::Checkpoint => match response {
            Response::Page { posts } => w == CycleView {
                stage: Stage::Backlog,
                checkpoint: v.strategy.checkpoint(posts@),
                ..v
            },
            Response::Failed => w == aborted(v, Fault::Query),
            _ => w == v,
        },
        Stage::Backlog => match response {
            Response::Page { posts } => {
                &&& w == CycleView { stage: Stage::Latest, dispatcher: w.dispatcher, ..v }
                &&& w.dispatcher.candidates() == posts@.reverse()
                &&& w.dispatcher.position() == 0
                &&& w.dispatcher.delivered() == 0
                &&& w.dispatcher.failed() == 0
                &&& w.dispatcher.phase() == if posts@.len() == 0 {
                    Phase::Done
                } else {
                    Phase::Naming
                }
            },
            Response::Failed => w == aborted(v, Fault::Query),
            _ => w == v,
        },
        Stage::Latest => match response {
            Response::Page { posts } => match planned_update(v.now, latest_statement(posts@)) {
                Ok(UpdatePlan::Skip) => w == CycleView {
                    stage: stage_after_update(v.dispatcher),
                    ..v
                },
                Ok(UpdatePlan::Publish { prev_stat }) => w == CycleView {
                    stage: Stage::Counting,
                    prev_stat,
                    ..v
                },
                Err(fault) => w == aborted(v, fault),
            },
            Response::Failed => w == aborted(v, Fault::Query),
            _ => w == v,
        },
        Stage::Counting => match response {
            Response::Page { posts } => {
                &&& v.tally.leads_to(posts@, &w.tally)
                &&& if w.tally.finished() {
                    w == CycleView {
                        stage: Stage::Publishing,
                        tally: w.tally,
                        pending: tweet_text(
                            v.label,
                            v.prev_stat as nat,
                            w.tally.authors().len(),
                        ),
                        ..v
                    }
                } else {
                    w == CycleView { tally: w.tally, ..v }
                }
            },
            Response::Failed => w == aborted(v, Fault::Query),
            _ => w == v,
        },
        Stage::Publishing => match response {
            Response::Published => w == CycleView {
                stage: stage_after_update(v.dispatcher),
                ..v
            },
            Response::Failed => w == aborted(v, Fault::Publish),
            _ => w == v,
        },
        Stage::Replying => match response {
            Response::Named { name } => reply_step(v, DispatchEvent::Named { name }, w),
            Response::Replied { delivered } => reply_step(
                v,
                DispatchEvent::Replied { delivered },
                w,
            ),
            Response::Rested => reply_step(v, DispatchEvent::Rested, w),
            Response::Failed => match v.dispatcher.phase() {
                Phase::Naming => w == aborted(v, Fault::Query),
                Phase::Replying => reply_step(v, DispatchEvent::Replied { delivered: false }, w),
                _ => w == v,
            },
            _ => w == v,
        },
        Stage::Finished => w == v,
        Stage::Aborted => w == v,
    }
}

/// Whether `request` is what the state `v` calls for.
pub open spec fn calls_for(v: CycleView, request: Request) -> bool {
    match v.stage {
        Stage::Identify => request is CurrentUser,
        Stage::Checkpoint => {
            &&& request matches Request::Timeline { timeline }
            &&& Some(timeline.user_id) == v.user_id
            &&& timeline.max_results == v.strategy.page_size()
            &&& !timeline.exclude_replies
        },
        Stage::Backlog => {
            &&& request matches Request::Search { search }
            &&& search.keyword@ == MISTAKE@
            &&& search.since_id == v.checkpoint
            &&& search.start_time is None
            &&& search.end_time is None
            &&& search.max_results == MAXIMUM_NUMBER_OF_RESULTS
        },
        Stage::Latest => {
            &&& request matches Request::Timeline { timeline }
            &&& Some(timeline.user_id) == v.user_id
            &&& timeline.max_results == MINIMUM_NUMBER_OF_RESULTS
            &&& timeline.exclude_replies
        },
        Stage::Counting => {
            &&& request matches Request::Search { search }
            &&& search.keyword@ == MISTAKE@
            &&& search.since_id is None
            &&& search.start_time == Some(v.tally.window_start())
            &&& search.end_time == Some(v.tally.window_end())
            &&& search.max_results == MAXIMUM_NUMBER_OF_RESULTS
        },
        Stage::Publishing => request matches Request::Publish { text } && text@ == v.pending,
        Stage::Replying => match v.dispatcher.phase() {
            Phase::Naming => request matches Request::LookUp { author_id } && author_id
                == v.dispatcher.candidates()[v.dispatcher.position() as int].author_id,
            Phase::Replying => request matches Request::Reply { in_reply_to, text } && in_reply_to
                == v.dispatcher.candidates()[v.dispatcher.position() as int].id && text@
                == v.dispatcher.pending(),
            Phase::Resting => request matches Request::Pause { seconds } && seconds
                == REQUEST_TIMEOUT_SECS,
            Phase::Done => false,
        },
        Stage::Finished => request is Finish,
        Stage::Aborted => request matches Request::Abort { fault } && Some(fault) == v.fault,
    }
}

impl Cycle {
    /// Whether the state is one that `new` and `step` can have made.
    pub closed spec fn wf(&self) -> bool {
        &&& self.tally.wf()
        &&& self.dispatcher.wf()
        &&& has_yesterday(self.now)
        &&& utc_date_text((self.now - SECONDS_PER_DAY) as i64) == Some(self.label@)
        &&& is_date_label(self.label@)
        &&& self.tally.window_start() == (day_number(self.now as int) - 1) * SECONDS_PER_DAY
        &&& self.stage != Stage::Identify && self.stage != Stage::Aborted ==> self.user_id is Some
        &&& self.stage == Stage::Aborted <==> self.fault is Some
        &&& self.before_publishing() ==> !self.tally.finished()
        &&& self.stage == Stage::Replying ==> self.dispatcher.phase() != Phase::Done
    }

    /// Whether the day's count is still to be made or under way.
    spec fn before_publishing(&self) -> bool {
        ||| self.stage == Stage::Identify
        ||| self.stage == Stage::Checkpoint
        ||| self.stage == Stage::Backlog
        ||| self.stage == Stage::Latest
        ||| self.stage == Stage::Counting
    }

    /// A run about to begin, with the clock at `now` (seconds since the Unix
    /// epoch) and the checkpoint to be found by `strategy`. `None` where the
    /// day before `now` cannot be counted or written.
    pub fn new(now: i64, strategy: CheckpointStrategy) -> (r: Option<Cycle>)
        ensures
            r is Some <==> has_yesterday(now),
            r matches Some(cycle) ==> {
                &&& cycle.wf()
                &&& cycle@.now == now
                &&& cycle@.strategy == strategy
                &&& cycle@.stage == Stage::Identify
                &&& cycle@.user_id is None
                &&& cycle@.fault is None
                &&& cycle@.checkpoint is None
                &&& cycle@.prev_stat == 0
                &&& cycle@.pending == Seq::<char>::empty()
                &&& cycle@.dispatcher.candidates() == Seq::<Post>::empty()
                &&& cycle@.dispatcher.phase() == Phase::Done
                &&& !cycle@.tally.finished()
                &&& utc_date_text((now - SECONDS_PER_DAY) as i64) == Some(cycle@.label)
                &&& cycle@.tally.authors() == Set::<u64>::empty()
                &&& cycle@.tally.window_start() == (day_number(now as int) - 1) * SECONDS_PER_DAY
                &&& cycle@.tally.window_end() == day_number(now as int) * SECONDS_PER_DAY
            },
    {
        let yesterday = match now.checked_sub(SECONDS_PER_DAY) {
            Some(t) => t,
            None => {
                return None;
            },
        };
        let today = day_of(now);
        let tally = match Tally::for_day(today - 1) {
            Some(t) => t,
            None => {
                return None;
            },
        };
        let label = match utc_date_label(yesterday) {
            Some(l) => l,
            None => {
                return None;
            },
        };
        Some(
            Cycle {
                now,
                strategy,
                stage: Stage::Identify,
                user_id: None,
                checkpoint: None,
                prev_stat: 0,
                label,
                tally,
                pending: String::new(),
                dispatcher: Dispatcher::new(Vec::new()),
                fault: None,
            },
        )
    }

    /// How far the run has come.
    pub fn stage(&self) -> (stage: Stage)
        ensures
            stage == self@.stage,
    {
        self.stage
    }

    /// What the caller is to do now.
    pub fn request(&self) -> (request: Request)
        requires
            self.wf(),
        ensures
            calls_for(self@, request),
    {
        match self.stage {
            Stage::Identify => Request::CurrentUser,
            Stage::Checkpoint => Request::Timeline {
                timeline: self.strategy.query(self.user_id.unwrap()),
            },
            Stage::Backlog => Request::Search { search: candidates_query(self.checkpoint) },
            Stage::Latest => Request::Timeline {
                timeline: TimelineQuery {
                    user_id: self.user_id.unwrap(),
                    max_results: MINIMUM_NUMBER_OF_RESULTS,
                    exclude_replies: true,
                },
            },
            Stage::Counting => Request::Search { search: self.tally.next_query().unwrap() },
            Stage::Publishing => Request::Publish { text: self.pending.clone() },
            Stage::Replying => match self.dispatcher.action() {
                DispatchAction::LookUp { author_id } => Request::LookUp { author_id },
                DispatchAction::Reply { in_reply_to, text } => Request::Reply { in_reply_to, text },
                DispatchAction::Pause { seconds } => Request::Pause { seconds },
                DispatchAction::Done => Request::Finish,
            },
            Stage::Finished => Request::Finish,
            Stage::Aborted => Request::Abort { fault: self.fault.unwrap() },
        }
    }

    /// Takes in what came of the last request and says what is to be done
    /// next.
    pub fn step(&mut self, response: Response) -> (request: Request)
        requires
            old(self).wf(),
        ensures
            final(self).wf(),
            leads_to(old(self)@, response, final(self)@),
            calls_for(final(self)@, request),
    {
        match self.stage {
            Stage::Identify => match response {
                Response::User { id } => {
                    self.user_id = Some(id);
                    self.stage = Stage::Checkpoint;
                },
                Response::Failed => {
                    self.give_up(Fault::Authorization);
                },
                _ => {},
            },
            Stage::Checkpoint => match response {
                Response::Page { posts } => {
                    self.checkpoint = self.strategy.resolve(posts.as_slice());
                    self.stage = Stage::Backlog;
                },
                Response::Failed => {
                    self.give_up(Fault::Query);
                },
                _ => {},
            },
            Stage::Backlog => match response {
                Response::Page { posts } => {
                    self.dispatcher = Dispatcher::new(get_tweets_with_mistake(posts));
                    self.stage = Stage::Latest;
                },
                Response::Failed => {
                    self.give_up(Fault::Query);
                },
                _ => {},
            },
            Stage::Latest => match response {
                Response::Page { posts } => {
                    let latest = get_latest_tweet(posts.as_slice());
                    match plan_update(self.now, latest) {
                        Ok(UpdatePlan::Skip) => {
                            self.after_update();
                        },
                        Ok(UpdatePlan::Publish { prev_stat }) => {
                            self.prev_stat = prev_stat;
                            self.stage = Stage::Counting;
                        },
                        Err(fault) => {
                            self.give_up(fault);
                        },
                    }
                },
                Response::Failed => {
                    self.give_up(Fault::Query);
                },
                _ => {},
            },
            Stage::Counting => match response {
                Response::Page { posts } => {
                    self.tally.absorb(posts.as_slice());
                    if self.tally.is_finished() {
                        self.pending = tweet_message(
                            self.label.as_str(),
                            self.prev_stat,
                            self.tally.count(),
                        );
                        self.stage = Stage::Publishing;
                    }
                },
                Response::Failed => {
                    self.give_up(Fault::Query);
                },
                _ => {},
            },
            Stage::Publishing => match response {
                Response::Published => {
                    self.after_update();
                },
                Response::Failed => {
                    self.give_up(Fault::Publish);
                },
                _ => {},
            },
            Stage::Replying => match response {
                Response::Named { name } => {
                    self.answer(DispatchEvent::Named { name });
                },
                Response::Replied { delivered } => {
                    self.answer(DispatchEvent::Replied { delivered });
                },
                Response::Rested => {
                    self.answer(DispatchEvent::Rested);
                },
                Response::Failed => {
                    if self.dispatcher.phase_now() == Phase::Naming {
                        self.give_up(Fault::Query);
                    } else if self.dispatcher.phase_now() == Phase::Replying {
                        self.answer(DispatchEvent::Replied { delivered: false });
                    }
                },
                _ => {},
            },
            Stage::Finished => {},
            Stage::Aborted => {},
        }
        self.request()
    }

    fn give_up(&mut self, fault: Fault)
        requires
            old(self).wf(),
        ensures
            final(self).wf(),
            final(self)@ == aborted(old(self)@, fault),
    {
        self.fault = Some(fault);
        self.stage = Stage::Aborted;
    }

    fn after_update(&mut self)
        requires
            old(self).wf(),
            old(self)@.stage == Stage::Latest || old(self)@.stage == Stage::Publishing,
        ensures
            final(self).wf(),
            final(self)@ == (CycleView {
                stage: stage_after_update(old(self)@.dispatcher),
                ..old(self)@
            }),
    {
        self.stage = if self.dispatcher.is_done() {
            Stage::Finished
        } else {
            Stage::Replying
        };
    }

    fn answer(&mut self, event: DispatchEvent)
        requires
            old(self).wf(),
            old(self)@.stage == Stage::Replying,
        ensures
            final(self).wf(),
            reply_step(old(self)@, event, final(self)@),
    {
        let _ = self.dispatcher.step(event);
        self.stage = if self.dispatcher.is_done() {
            Stage::Finished
        } else {
            Stage::Replying
        };
    }
}

} // verus!
