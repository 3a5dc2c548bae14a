use openai_rst::error::APIError;
use openai_rst::polling::{
    await_terminal, classify, replay, Ending, Outcome, Replay, Sight, Step, Verdict, Waiter,
};
use openai_rst::run::RunObject;
use openai_rst::string_map::StringMap;
use std::cell::RefCell;

fn run_with_status(status: &str) -> RunObject {
    RunObject {
        id: "run_1".to_string(),
        object: "thread.run".to_string(),
        created_at: 1699063290,
        thread_id: "thread_1".to_string(),
        assistant_id: "asst_1".to_string(),
        status: status.to_string(),
        required_action: None,
        last_error: None,
        expires_at: None,
        started_at: None,
        cancelled_at: None,
        failed_at: None,
        completed_at: None,
        model: "gpt-4".to_string(),
        instructions: None,
        tools: Vec::new(),
        file_ids: Vec::new(),
        metadata: StringMap::new(),
        headers: None,
    }
}

fn seen(status: &str) -> Outcome {
    Ok(run_with_status(status))
}

fn transport_error() -> Outcome {
    Err(APIError::TransportError("connection reset".to_string()))
}

/// A script in which the run shows `running` for `k - 1` polls and `last`
/// at poll `k`, followed by outcomes that no wait should reach.
fn script(k: usize, running: &str, last: &str) -> Vec<Outcome> {
    let mut outcomes = Vec::new();
    for _ in 1..k {
        outcomes.push(seen(running));
    }
    outcomes.push(seen(last));
    outcomes.push(seen("failed"));
    outcomes.push(transport_error());
    outcomes
}

#[test]
fn what_a_poll_shows() {
    assert_eq!(classify(&seen("queued")), Sight::Running);
    assert_eq!(classify(&seen("in_progress")), Sight::Running);
    assert_eq!(classify(&seen("cancelling")), Sight::Running);
    assert_eq!(classify(&seen("requires_action")), Sight::Settled);
    assert_eq!(classify(&seen("cancelled")), Sight::Settled);
    assert_eq!(classify(&seen("failed")), Sight::Settled);
    assert_eq!(classify(&seen("completed")), Sight::Settled);
    assert_eq!(classify(&seen("expired")), Sight::Settled);
    assert_eq!(classify(&seen("sleeping")), Sight::UnknownStatus);
    assert_eq!(classify(&transport_error()), Sight::PollFailed);
}

#[test]
fn a_zero_poll_interval_is_a_configuration_error() {
    match Waiter::start(0, 1000) {
        Err(APIError::ConfigurationError(_)) => {}
        other => panic!("{:?}", other),
    }
    match Waiter::start(0, 0) {
        Err(APIError::ConfigurationError(_)) => {}
        other => panic!("{:?}", other),
    }
    assert!(Waiter::start(1, 0).is_ok());
}

#[test]
fn a_zero_poll_interval_makes_no_poll() {
    let outcomes = script(1, "queued", "completed");
    assert_eq!(replay(0, 1000, &outcomes), Replay { polls: 0, ending: Ending::ZeroInterval });
    assert_eq!(replay(0, 0, &Vec::new()), Replay { polls: 0, ending: Ending::ZeroInterval });
}

#[test]
fn a_run_that_completes_at_poll_k_takes_exactly_k_polls() {
    for k in 1..=6 {
        let outcomes = script(k, "in_progress", "completed");
        let result = replay(10, 1000, &outcomes);
        assert_eq!(result, Replay { polls: k, ending: Ending::Settled }, "k = {}", k);
        let last = outcomes[result.polls - 1].as_ref().unwrap();
        assert_eq!(last.status, "completed");
    }
}

#[test]
fn the_sleeps_must_fit_into_the_time_allowed() {
    // Poll k is made after k - 1 sleeps of 10 ms.
    let outcomes = script(4, "queued", "completed");
    assert_eq!(replay(10, 30, &outcomes), Replay { polls: 4, ending: Ending::Settled });
    assert_eq!(replay(10, 29, &outcomes), Replay { polls: 3, ending: Ending::TimedOut });
    assert_eq!(replay(10, 20, &outcomes), Replay { polls: 3, ending: Ending::TimedOut });
    assert_eq!(replay(10, 19, &outcomes), Replay { polls: 2, ending: Ending::TimedOut });
    assert_eq!(replay(10, 9, &outcomes), Replay { polls: 1, ending: Ending::TimedOut });
    assert_eq!(replay(10, 0, &outcomes), Replay { polls: 1, ending: Ending::TimedOut });
}

#[test]
fn a_short_wait_still_polls_once() {
    let queued = script(5, "queued", "completed");
    assert_eq!(replay(1000, 999, &queued), Replay { polls: 1, ending: Ending::TimedOut });
    // A run that is already complete is not reported as a timeout.
    let complete = script(1, "queued", "completed");
    assert_eq!(replay(1000, 999, &complete), Replay { polls: 1, ending: Ending::Settled });
    assert_eq!(replay(1000, 0, &complete), Replay { polls: 1, ending: Ending::Settled });
}

#[test]
fn requires_action_ends_the_wait() {
    let outcomes = script(3, "in_progress", "requires_action");
    let result = replay(5, 100, &outcomes);
    assert_eq!(result, Replay { polls: 3, ending: Ending::Settled });
    assert_eq!(outcomes[2].as_ref().unwrap().status, "requires_action");
}

#[test]
fn each_terminal_status_ends_the_wait() {
    for status in ["cancelled", "failed", "completed", "expired"] {
        let outcomes = script(2, "queued", status);
        assert_eq!(replay(5, 100, &outcomes), Replay { polls: 2, ending: Ending::Settled });
    }
}

#[test]
fn a_failed_poll_ends_the_wait_at_once() {
    let outcomes = vec![seen("queued"), transport_error(), seen("completed")];
    assert_eq!(replay(5, 100, &outcomes), Replay { polls: 2, ending: Ending::PollFailed });
    let first = vec![transport_error(), seen("completed")];
    assert_eq!(replay(5, 100, &first), Replay { polls: 1, ending: Ending::PollFailed });
}

#[test]
fn an_unknown_status_is_a_decode_error() {
    let outcomes = vec![seen("queued"), seen("sleeping"), seen("completed")];
    assert_eq!(replay(5, 100, &outcomes), Replay { polls: 2, ending: Ending::UnknownStatus });
}

#[test]
fn outcomes_that_run_out_leave_the_wait_pending() {
    assert_eq!(replay(5, 100, &Vec::new()), Replay { polls: 0, ending: Ending::Pending });
    let outcomes = vec![seen("queued"), seen("in_progress")];
    assert_eq!(replay(5, 100, &outcomes), Replay { polls: 2, ending: Ending::Pending });
}

#[test]
fn large_durations_do_not_overflow() {
    let outcomes = vec![seen("queued"), seen("queued"), seen("queued")];
    assert_eq!(
        replay(u64::MAX, u64::MAX, &outcomes),
        Replay { polls: 2, ending: Ending::TimedOut }
    );
    assert_eq!(
        replay(u64::MAX - 1, u64::MAX, &outcomes),
        Replay { polls: 2, ending: Ending::TimedOut }
    );
    assert_eq!(replay(1, u64::MAX, &outcomes), Replay { polls: 3, ending: Ending::Pending });
}

#[test]
fn the_waiter_orders_sleeps_of_one_interval() {
    let mut waiter = Waiter::start(250, 600).unwrap();
    match waiter.observe(seen("queued")) {
        Step::Sleep(250) => {}
        other => panic!("{:?}", other),
    }
    match waiter.observe(seen("in_progress")) {
        Step::Sleep(250) => {}
        other => panic!("{:?}", other),
    }
    // 500 ms are used; a third sleep would make 750.
    match waiter.observe(seen("in_progress")) {
        Step::Failed(APIError::Timeout) => {}
        other => panic!("{:?}", other),
    }
}

#[test]
fn the_waiter_returns_the_snapshot_that_settled() {
    let mut waiter = Waiter::start(250, 600).unwrap();
    assert!(matches!(waiter.observe(seen("queued")), Step::Sleep(250)));
    let mut last = run_with_status("completed");
    last.completed_at = Some(1699063300);
    match waiter.observe(Ok(last)) {
        Step::Done(run) => {
            assert_eq!(run.status, "completed");
            assert_eq!(run.completed_at, Some(1699063300));
            assert_eq!(run.id, "run_1");
        }
        other => panic!("{:?}", other),
    }
}

#[test]
fn the_waiter_hands_the_error_of_a_poll_on_unchanged() {
    let mut waiter = Waiter::start(10, 100).unwrap();
    match waiter.observe(Err(APIError::HttpStatusError { status: 503, body: "busy".to_string() })) {
        Step::Failed(APIError::HttpStatusError { status: 503, body }) => assert_eq!(body, "busy"),
        other => panic!("{:?}", other),
    }
    let mut waiter = Waiter::start(10, 100).unwrap();
    match waiter.observe(transport_error()) {
        Step::Failed(APIError::TransportError(text)) => assert_eq!(text, "connection reset"),
        other => panic!("{:?}", other),
    }
}

#[test]
fn the_waiter_refuses_a_snapshot_without_a_known_status() {
    let mut waiter = Waiter::start(10, 100).unwrap();
    match waiter.observe(seen("sleeping")) {
        Step::Failed(APIError::DecodeError(_)) => {}
        other => panic!("{:?}", other),
    }
}

#[test]
fn the_verdicts_of_the_waiter() {
    let mut waiter = Waiter::start(10, 15).unwrap();
    assert_eq!(waiter.judge(Sight::Running), Verdict::SleepThenPoll);
    assert_eq!(waiter.judge(Sight::Running), Verdict::TimedOut);
    assert_eq!(waiter.judge(Sight::Settled), Verdict::Settled);
    assert_eq!(waiter.judge(Sight::PollFailed), Verdict::PollFailed);
    assert_eq!(waiter.judge(Sight::UnknownStatus), Verdict::UnknownStatus);
}

#[test]
fn replay_agrees_with_a_waiter_driven_by_hand() {
    let outcomes = script(3, "queued", "completed");
    let expected = replay(7, 100, &outcomes);
    let mut waiter = Waiter::start(7, 100).unwrap();
    let mut polls = 0;
    let mut slept = 0;
    let mut finished = None;
    for outcome in outcomes {
        polls += 1;
        match waiter.observe(outcome) {
            Step::Sleep(ms) => slept += ms,
            Step::Done(run) => {
                finished = Some(run);
                break;
            }
            Step::Failed(e) => panic!("{:?}", e),
        }
    }
    assert_eq!(polls, expected.polls);
    assert_eq!(expected.ending, Ending::Settled);
    assert_eq!(slept, 14);
    assert_eq!(finished.unwrap().status, "completed");
}

/// Runs `await_terminal` over prepared outcomes and reports the result,
/// the number of polls and the sleeps.
fn wait_over(
    outcomes: Vec<Outcome>,
    poll_interval: u64,
    max_wait: u64,
) -> (Result<RunObject, APIError>, usize, Vec<u64>) {
    let remaining = RefCell::new(outcomes.into_iter());
    let polls = RefCell::new(0usize);
    let sleeps = RefCell::new(Vec::new());
    let result = await_terminal(
        || {
            *polls.borrow_mut() += 1;
            remaining.borrow_mut().next().expect("the wait polls no further")
        },
        |ms| sleeps.borrow_mut().push(ms),
        poll_interval,
        max_wait,
    );
    (result, polls.into_inner(), sleeps.into_inner())
}

#[test]
fn await_terminal_returns_the_snapshot_that_settled() {
    for k in 1..=5 {
        let (result, polls, sleeps) = wait_over(script(k, "in_progress", "completed"), 20, 1000);
        assert_eq!(result.unwrap().status, "completed");
        assert_eq!(polls, k);
        assert_eq!(sleeps, vec![20; k - 1]);
    }
}

#[test]
fn await_terminal_refuses_a_zero_interval_without_a_poll() {
    let (result, polls, sleeps) = wait_over(script(1, "queued", "completed"), 0, 1000);
    assert!(matches!(result, Err(APIError::ConfigurationError(_))));
    assert_eq!(polls, 0);
    assert!(sleeps.is_empty());
}

#[test]
fn await_terminal_polls_once_when_the_time_is_short() {
    let (result, polls, sleeps) = wait_over(script(3, "queued", "completed"), 100, 99);
    assert_eq!(result.unwrap_err(), APIError::Timeout);
    assert_eq!(polls, 1);
    assert!(sleeps.is_empty());
    let (result, polls, _) = wait_over(script(1, "queued", "completed"), 100, 99);
    assert_eq!(result.unwrap().status, "completed");
    assert_eq!(polls, 1);
}

#[test]
fn await_terminal_times_out_after_the_last_sleep_that_fits() {
    let (result, polls, sleeps) = wait_over(script(9, "queued", "completed"), 100, 250);
    assert_eq!(result.unwrap_err(), APIError::Timeout);
    assert_eq!(polls, 3);
    assert_eq!(sleeps, vec![100, 100]);
}

#[test]
fn await_terminal_agrees_with_replay() {
    let cases: Vec<(Vec<Outcome>, u64, u64)> = vec![
        (script(4, "queued", "cancelled"), 10, 100),
        (script(4, "queued", "cancelled"), 10, 25),
        (vec![seen("queued"), transport_error(), seen("completed")], 10, 100),
        (vec![seen("in_progress"), seen("sleeping"), seen("completed")], 10, 100),
        (script(2, "cancelling", "requires_action"), 1, 1),
    ];
    for (outcomes, interval, max_wait) in cases {
        let expected = replay(interval, max_wait, &outcomes);
        let (result, polls, sleeps) = wait_over(outcomes.clone(), interval, max_wait);
        assert_eq!(polls, expected.polls);
        let last = &outcomes[polls - 1];
        match expected.ending {
            Ending::Settled => {
                assert_eq!(result.unwrap().status, last.as_ref().unwrap().status);
                assert_eq!(sleeps.len(), polls - 1);
            }
            Ending::PollFailed => assert_eq!(&result.unwrap_err(), last.as_ref().unwrap_err()),
            Ending::UnknownStatus => assert!(matches!(result, Err(APIError::DecodeError(_)))),
            Ending::TimedOut => assert_eq!(result.unwrap_err(), APIError::Timeout),
            other => panic!("{:?}", other),
        }
    }
}
