use napewno::checkpoint::CheckpointStrategy;
use napewno::cycle::{plan_update, Cycle, Fault, Request, Response, Stage, UpdatePlan};
use napewno::post::{Post, SearchQuery, TimelineQuery};

const BOT: u64 = 1608833104919117824;

// 2023-02-01 12:00:00 UTC.
const NOON: i64 = 1_675_252_800;
const MIDNIGHT: i64 = 1_675_209_600;
const DAY: i64 = 86_400;

const BY_GAP: CheckpointStrategy = CheckpointStrategy::InactivityGap { threshold: 100 };

fn own(id: u64, created_at: i64, text: &str) -> Post {
    Post { id, author_id: BOT, created_at, text: String::from(text), in_reply_to: None }
}

fn own_reply(id: u64, created_at: i64, to: u64) -> Post {
    Post { id, author_id: BOT, created_at, text: String::from("Hej!"), in_reply_to: Some(to) }
}

fn mistake(id: u64, author_id: u64, created_at: i64) -> Post {
    Post { id, author_id, created_at, text: String::from("napewno"), in_reply_to: None }
}

fn page(posts: Vec<Post>) -> Response {
    Response::Page { posts }
}

fn day_search(end: i64) -> Request {
    Request::Search {
        search: SearchQuery {
            keyword: "napewno -is:retweet",
            start_time: Some(MIDNIGHT - DAY),
            end_time: Some(end),
            since_id: None,
            max_results: 100,
        },
    }
}

// Takes a run up to the request for the account's latest post.
fn up_to_latest(strategy: CheckpointStrategy, timeline: Vec<Post>, found: Vec<Post>) -> Cycle {
    let mut cycle = Cycle::new(NOON, strategy).unwrap();
    assert_eq!(cycle.request(), Request::CurrentUser);
    let request = cycle.step(Response::User { id: BOT });
    assert_eq!(request, Request::Timeline { timeline: strategy.query(BOT) });
    let request = cycle.step(page(timeline));
    assert!(matches!(request, Request::Search { .. }));
    let request = cycle.step(page(found));
    assert_eq!(
        request,
        Request::Timeline {
            timeline: TimelineQuery { user_id: BOT, max_results: 5, exclude_replies: true }
        }
    );
    assert_eq!(cycle.stage(), Stage::Latest);
    cycle
}

#[test]
fn run_goes_through_its_stages_in_order() {
    let mut cycle = Cycle::new(NOON, BY_GAP).unwrap();
    assert_eq!(cycle.stage(), Stage::Identify);
    assert_eq!(cycle.request(), Request::CurrentUser);

    let request = cycle.step(Response::User { id: BOT });
    assert_eq!(cycle.stage(), Stage::Checkpoint);
    assert_eq!(
        request,
        Request::Timeline {
            timeline: TimelineQuery { user_id: BOT, max_results: 100, exclude_replies: false }
        }
    );

    // The last run ended with the post numbered 70; a silence follows.
    let timeline = vec![own_reply(90, NOON - 10, 5), own_reply(70, NOON - 5000, 4)];
    let request = cycle.step(page(timeline));
    assert_eq!(cycle.stage(), Stage::Backlog);
    assert_eq!(
        request,
        Request::Search {
            search: SearchQuery {
                keyword: "napewno -is:retweet",
                start_time: None,
                end_time: None,
                since_id: Some(70),
                max_results: 100,
            },
        }
    );

    let found = vec![mistake(82, 502, NOON - 100), mistake(81, 501, NOON - 200)];
    let request = cycle.step(page(found));
    assert_eq!(cycle.stage(), Stage::Latest);
    assert_eq!(
        request,
        Request::Timeline {
            timeline: TimelineQuery { user_id: BOT, max_results: 5, exclude_replies: true }
        }
    );

    // Yesterday's message carries yesterday's figure.
    let latest = vec![own(60, NOON - DAY, "W dniu 2023-01-30 ... przez 50 użytkowników.")];
    let request = cycle.step(page(latest));
    assert_eq!(cycle.stage(), Stage::Counting);
    assert_eq!(request, day_search(MIDNIGHT));

    let first = vec![mistake(40, 1, MIDNIGHT - 10), mistake(39, 2, MIDNIGHT - 20)];
    let request = cycle.step(page(first));
    assert_eq!(cycle.stage(), Stage::Counting);
    assert_eq!(request, day_search(MIDNIGHT - 20));

    let second = vec![mistake(38, 2, MIDNIGHT - 30), mistake(37, 3, MIDNIGHT - 40)];
    let request = cycle.step(page(second));
    assert_eq!(request, day_search(MIDNIGHT - 40));

    let request = cycle.step(page(Vec::new()));
    assert_eq!(cycle.stage(), Stage::Publishing);
    assert_eq!(
        request,
        Request::Publish {
            text: String::from(
                "W dniu 2023-01-31 wyrażenie 'na pewno' zostało błędnie napisane przez 3 użytkowników Twittera.\n\nTo wynik o 47 mniejszy względem poprzedniego dnia (-94%). 📉"
            )
        }
    );

    let request = cycle.step(Response::Published);
    assert_eq!(cycle.stage(), Stage::Replying);
    // The backlog is answered oldest first.
    assert_eq!(request, Request::LookUp { author_id: 501 });
    let request = cycle.step(Response::Named { name: String::from("Ala") });
    match request {
        Request::Reply { in_reply_to, text } => {
            assert_eq!(in_reply_to, 81);
            assert!(text.contains(" Ala! "));
        }
        other => panic!("no answer was asked for: {:?}", other),
    }
    assert_eq!(cycle.step(Response::Replied { delivered: true }), Request::Pause { seconds: 60 });
    assert_eq!(cycle.step(Response::Rested), Request::LookUp { author_id: 502 });
    assert!(matches!(
        cycle.step(Response::Named { name: String::from("Ola") }),
        Request::Reply { in_reply_to: 82, .. }
    ));
    assert_eq!(cycle.step(Response::Replied { delivered: false }), Request::Pause { seconds: 60 });
    assert_eq!(cycle.stage(), Stage::Replying);
    assert_eq!(cycle.step(Response::Rested), Request::Finish);
    assert_eq!(cycle.stage(), Stage::Finished);
    assert_eq!(cycle.step(Response::Rested), Request::Finish);
    assert_eq!(cycle.step(Response::Failed), Request::Finish);
}

#[test]
fn run_without_a_checkpoint_searches_unbounded() {
    let mut cycle = Cycle::new(NOON, CheckpointStrategy::LastReply).unwrap();
    let request = cycle.step(Response::User { id: BOT });
    assert_eq!(
        request,
        Request::Timeline {
            timeline: TimelineQuery { user_id: BOT, max_results: 5, exclude_replies: false }
        }
    );
    let request = cycle.step(page(vec![own(60, NOON - DAY, "12")]));
    match request {
        Request::Search { search } => assert_eq!(search.since_id, None),
        other => panic!("no search was asked for: {:?}", other),
    }
}

#[test]
fn run_resumes_from_the_latest_reply() {
    let mut cycle = Cycle::new(NOON, CheckpointStrategy::LastReply).unwrap();
    cycle.step(Response::User { id: BOT });
    let timeline = vec![own(9, NOON - 5, "x"), own_reply(8, NOON - 6, 44), own_reply(7, NOON - 7, 45)];
    match cycle.step(page(timeline)) {
        Request::Search { search } => assert_eq!(search.since_id, Some(8)),
        other => panic!("no search was asked for: {:?}", other),
    }
}

#[test]
fn run_skips_the_message_that_is_out_already() {
    let mut cycle = up_to_latest(BY_GAP, Vec::new(), vec![mistake(81, 501, NOON - 200)]);
    let latest = vec![own(60, MIDNIGHT + 5, "W dniu 2023-01-31 ... przez 50 użytkowników.")];
    assert_eq!(cycle.step(page(latest)), Request::LookUp { author_id: 501 });
    assert_eq!(cycle.stage(), Stage::Replying);
}

#[test]
fn run_with_nothing_to_do_finishes() {
    let mut cycle = up_to_latest(BY_GAP, Vec::new(), Vec::new());
    let latest = vec![own(60, MIDNIGHT, "12")];
    assert_eq!(cycle.step(page(latest)), Request::Finish);
    assert_eq!(cycle.stage(), Stage::Finished);
}

#[test]
fn first_message_is_written_without_comparison() {
    let mut cycle = up_to_latest(BY_GAP, Vec::new(), Vec::new());
    assert_eq!(cycle.step(page(Vec::new())), day_search(MIDNIGHT));
    let request = cycle.step(page(Vec::new()));
    assert_eq!(
        request,
        Request::Publish {
            text: String::from(
                "W dniu 2023-01-31 wyrażenie 'na pewno' zostało błędnie napisane przez 0 użytkowników Twittera."
            )
        }
    );
    assert_eq!(cycle.step(Response::Published), Request::Finish);
}

#[test]
fn older_message_is_not_compared_with() {
    let mut cycle = up_to_latest(BY_GAP, Vec::new(), Vec::new());
    let latest = vec![own(60, MIDNIGHT - DAY - 1, "przez 50 użytkowników")];
    assert_eq!(cycle.step(page(latest)), day_search(MIDNIGHT));
    cycle.step(page(vec![mistake(40, 1, MIDNIGHT - 10)]));
    match cycle.step(page(Vec::new())) {
        Request::Publish { text } => {
            assert!(text.ends_with("przez 1 użytkowników Twittera."));
        }
        other => panic!("nothing was published: {:?}", other),
    }
}

#[test]
fn run_is_given_up_where_yesterdays_figure_is_missing() {
    let mut cycle = up_to_latest(BY_GAP, Vec::new(), vec![mistake(81, 501, NOON - 200)]);
    let latest = vec![own(60, MIDNIGHT - 1, "Dzień dobry!")];
    assert_eq!(cycle.step(page(latest)), Request::Abort { fault: Fault::CorruptState });
    assert_eq!(cycle.stage(), Stage::Aborted);
    assert_eq!(cycle.step(Response::Published), Request::Abort { fault: Fault::CorruptState });
    assert_eq!(cycle.request(), Request::Abort { fault: Fault::CorruptState });
}

#[test]
fn failed_call_ends_the_run() {
    let mut cycle = Cycle::new(NOON, BY_GAP).unwrap();
    assert_eq!(cycle.step(Response::Failed), Request::Abort { fault: Fault::Authorization });

    let mut cycle = Cycle::new(NOON, BY_GAP).unwrap();
    cycle.step(Response::User { id: BOT });
    assert_eq!(cycle.step(Response::Failed), Request::Abort { fault: Fault::Query });

    let mut cycle = Cycle::new(NOON, BY_GAP).unwrap();
    cycle.step(Response::User { id: BOT });
    cycle.step(page(Vec::new()));
    assert_eq!(cycle.step(Response::Failed), Request::Abort { fault: Fault::Query });

    let mut cycle = up_to_latest(BY_GAP, Vec::new(), Vec::new());
    assert_eq!(cycle.step(Response::Failed), Request::Abort { fault: Fault::Query });

    let mut cycle = up_to_latest(BY_GAP, Vec::new(), Vec::new());
    cycle.step(page(Vec::new()));
    assert_eq!(cycle.stage(), Stage::Counting);
    assert_eq!(cycle.step(Response::Failed), Request::Abort { fault: Fault::Query });

    let mut cycle = up_to_latest(BY_GAP, Vec::new(), vec![mistake(81, 501, NOON - 200)]);
    cycle.step(page(Vec::new()));
    cycle.step(page(Vec::new()));
    assert_eq!(cycle.stage(), Stage::Publishing);
    assert_eq!(cycle.step(Response::Failed), Request::Abort { fault: Fault::Publish });
    // Nothing is answered once the run is given up.
    assert_eq!(cycle.step(Response::Published), Request::Abort { fault: Fault::Publish });
}

#[test]
fn failed_answer_is_passed_over_but_a_failed_lookup_is_not() {
    let found = vec![mistake(82, 502, NOON - 100), mistake(81, 501, NOON - 200)];
    let mut cycle = up_to_latest(BY_GAP, Vec::new(), found.clone());
    cycle.step(page(vec![own(60, MIDNIGHT + 5, "12")]));
    cycle.step(Response::Named { name: String::from("Ala") });
    assert_eq!(cycle.step(Response::Failed), Request::Pause { seconds: 60 });
    assert_eq!(cycle.step(Response::Failed), Request::Pause { seconds: 60 });
    assert_eq!(cycle.step(Response::Rested), Request::LookUp { author_id: 502 });
    assert_eq!(cycle.step(Response::Failed), Request::Abort { fault: Fault::Query });
}

#[test]
fn response_out_of_turn_changes_nothing() {
    let mut cycle = Cycle::new(NOON, BY_GAP).unwrap();
    assert_eq!(cycle.step(Response::Published), Request::CurrentUser);
    assert_eq!(cycle.step(page(Vec::new())), Request::CurrentUser);
    assert_eq!(cycle.step(Response::Rested), Request::CurrentUser);
    assert_eq!(cycle.stage(), Stage::Identify);
    cycle.step(Response::User { id: BOT });
    let again = cycle.step(Response::User { id: 5 });
    assert_eq!(again, Request::Timeline { timeline: BY_GAP.query(BOT) });
}

#[test]
fn run_needs_a_day_before() {
    assert!(Cycle::new(NOON, BY_GAP).is_some());
    assert!(Cycle::new(0, BY_GAP).is_some());
    assert!(Cycle::new(i64::MIN, BY_GAP).is_none());
    assert!(Cycle::new(i64::MIN + DAY, BY_GAP).is_none());
    assert!(Cycle::new(i64::MAX, BY_GAP).is_none());
}

#[test]
fn update_is_planned_from_the_latest_post() {
    let today = own(1, MIDNIGHT, "12");
    let yesterday = own(1, MIDNIGHT - 1, "W dniu ... przez 12 użytkowników");
    let silent = own(1, MIDNIGHT - 1, "nic");
    let older = own(1, MIDNIGHT - DAY - 1, "12");
    let later = own(1, MIDNIGHT + DAY, "12");
    assert_eq!(plan_update(NOON, None), Ok(UpdatePlan::Publish { prev_stat: 0 }));
    assert_eq!(plan_update(NOON, Some(&today)), Ok(UpdatePlan::Skip));
    assert_eq!(plan_update(NOON, Some(&yesterday)), Ok(UpdatePlan::Publish { prev_stat: 12 }));
    assert_eq!(plan_update(NOON, Some(&silent)), Err(Fault::CorruptState));
    assert_eq!(plan_update(NOON, Some(&older)), Ok(UpdatePlan::Publish { prev_stat: 0 }));
    assert_eq!(plan_update(NOON, Some(&later)), Ok(UpdatePlan::Publish { prev_stat: 0 }));
}

#[test]
fn days_are_told_apart_before_the_epoch_too() {
    let eve = own(1, -1, "7");
    assert_eq!(plan_update(0, Some(&eve)), Ok(UpdatePlan::Publish { prev_stat: 7 }));
    assert_eq!(plan_update(-1, Some(&eve)), Ok(UpdatePlan::Skip));
    assert_eq!(plan_update(-86_400, Some(&eve)), Ok(UpdatePlan::Skip));
    assert_eq!(plan_update(-86_401, Some(&eve)), Ok(UpdatePlan::Publish { prev_stat: 0 }));
    assert_eq!(plan_update(86_399, Some(&eve)), Ok(UpdatePlan::Publish { prev_stat: 7 }));
    assert_eq!(plan_update(86_400, Some(&eve)), Ok(UpdatePlan::Publish { prev_stat: 0 }));
    let first = own(1, i64::MIN, "7");
    assert_eq!(plan_update(i64::MAX, Some(&first)), Ok(UpdatePlan::Publish { prev_stat: 0 }));
    assert_eq!(plan_update(i64::MIN + 1, Some(&first)), Ok(UpdatePlan::Skip));
}
