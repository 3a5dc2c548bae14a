//! Waiting for a run to settle.
//!
//! The service executes a run on its own; the client can only look at it
//! again. A wait polls the run, and between two polls it sleeps for the
//! poll interval, until the run is settled (terminal, or `requires_action`,
//! which only the caller can resolve), a poll fails, or the time allowed is
//! used up.
//!
//! The wait itself is a loop around network calls and sleeps, which this
//! library leaves to its caller. What it decides is here: a [`Waiter`]
//! takes the outcome of each poll and says what to do next. The time that a
//! wait has used is the time that it slept: the first poll is made at once,
//! poll number `n` (from zero) after `n` intervals.
//!
//! [`trace`] is the whole wait as a function of the outcomes that the polls
//! bring, and [`replay`] computes it. [`await_terminal`] is the wait itself
//! for callers that can block: it is handed the poll and the sleep as
//! functions.

use crate::error::APIError;
use crate::json::bad_field;
use crate::run::RunObject;
use vstd::prelude::*;
use vstd::string::*;

verus! {

/// Durations are counted in milliseconds.
pub type Millis = u64;

/// What one poll brought: a snapshot of the run, or the error of the call.
pub type Outcome = Result<RunObject, APIError>;

/// What a poll showed, as far as the wait is concerned.
#[derive(Debug, Clone, Copy, PartialEq, Eq, Structural)]
pub enum Sight {
    /// The poll itself failed.
    PollFailed,
    /// The snapshot has a status that is not one of the eight.
    UnknownStatus,
    /// The run is queued, in progress or being cancelled.
    Running,
    /// The run is terminal or requires action.
    Settled,
}

/// What the wait does after a poll.
#[derive(Debug, Clone, Copy, PartialEq, Eq, Structural)]
pub enum Verdict {
    /// Sleep for one interval, then poll again.
    SleepThenPoll,
    /// Return the snapshot that the poll brought.
    Settled,
    /// Fail with the error of the poll, unchanged and without a retry.
    PollFailed,
    /// Fail with `DecodeError`: the snapshot has no known status.
    UnknownStatus,
    /// Fail with `Timeout`: the run is still running and another interval
    /// does not fit into the time allowed.
    TimedOut,
}

/// How a wait over recorded outcomes ended.
#[derive(Debug, Clone, Copy, PartialEq, Eq, Structural)]
pub enum Ending {
    /// The outcomes ran out while the wait was still on.
    Pending,
    /// The last poll showed a settled run; the wait returns its snapshot.
    Settled,
    /// The last poll failed; the wait fails with its error.
    PollFailed,
    /// The last poll brought a snapshot without a known status; the wait
    /// fails with `DecodeError`.
    UnknownStatus,
    /// The wait fails with `Timeout`.
    TimedOut,
    /// The poll interval is zero; the wait fails with `ConfigurationError`
    /// before any poll.
    ZeroInterval,
}

/// A whole wait: how many polls it made and how it ended.
pub struct Trace {
    /// The number of polls that were made.
    pub polls: nat,
    /// How the wait ended.
    pub ending: Ending,
}

/// What an outcome shows.
pub open spec fn sight(outcome: Outcome) -> Sight {
    match outcome {
        Err(_) => Sight::PollFailed,
        Ok(run) => match run.status_model() {
            None => Sight::UnknownStatus,
            Some(status) => if status.settled() {
                Sight::Settled
            } else {
                Sight::Running
            },
        },
    }
}

/// What the wait does after it has slept for `waited` and then seen
/// `sight`.
pub open spec fn verdict(interval: Millis, max_wait: Millis, waited: int, sight: Sight) -> Verdict {
    match sight {
        Sight::PollFailed => Verdict::PollFailed,
        Sight::UnknownStatus => Verdict::UnknownStatus,
        Sight::Settled => Verdict::Settled,
        Sight::Running => if waited + interval <= max_wait {
            Verdict::SleepThenPoll
        } else {
            Verdict::TimedOut
        },
    }
}

/// The wait from poll number `at` on, over the outcomes `script`.
pub open spec fn trace_from(interval: Millis, max_wait: Millis, script: Seq<Outcome>, at: nat)
    -> Trace
    decreases script.len() - at,
{
    if at >= script.len() {
        Trace { polls: at, ending: Ending::Pending }
    } else {
        match verdict(interval, max_wait, at * interval, sight(script[at as int])) {
            Verdict::SleepThenPoll => trace_from(interval, max_wait, script, at + 1),
            Verdict::Settled => Trace { polls: at + 1, ending: Ending::Settled },
            Verdict::PollFailed => Trace { polls: at + 1, ending: Ending::PollFailed },
            Verdict::UnknownStatus => Trace { polls: at + 1, ending: Ending::UnknownStatus },
            Verdict::TimedOut => Trace { polls: at + 1, ending: Ending::TimedOut },
        }
    }
}

/// The wait with the given poll interval and time allowed, when the polls
/// bring the outcomes `script` in this order.
pub open spec fn trace(interval: Millis, max_wait: Millis, script: Seq<Outcome>) -> Trace {
    if interval == 0 {
        Trace { polls: 0, ending: Ending::ZeroInterval }
    } else {
        trace_from(interval, max_wait, script, 0)
    }
}

/// What an outcome shows.
pub fn classify(outcome: &Outcome) -> (r: Sight)
    ensures
        r == sight(*outcome),
{
    match outcome {
        Err(_) => Sight::PollFailed,
        Ok(run) => match run.run_status() {
            None => Sight::UnknownStatus,
            Some(status) => if status.is_settled() {
                Sight::Settled
            } else {
                Sight::Running
            },
        },
    }
}

/// What the caller of a [`Waiter`] does next.
#[derive(Debug)]
pub enum Step {
    /// Sleep for this many milliseconds, poll again and hand in the
    /// outcome.
    Sleep(Millis),
    /// The wait is over: this is the final snapshot.
    Done(RunObject),
    /// The wait is over: it failed with this error.
    Failed(APIError),
}

/// A wait in progress.
///
/// A waiter exists only for a poll interval above zero, and the time that
/// it has slept never exceeds the time allowed.
#[derive(Debug)]
pub struct Waiter {
    poll_interval: Millis,
    max_wait: Millis,
    waited: Millis,
}

impl Waiter {
    #[verifier::type_invariant]
    spec fn well_formed(&self) -> bool {
        self.poll_interval > 0 && self.waited <= self.max_wait
    }

    /// The poll interval.
    pub closed spec fn interval(&self) -> Millis {
        self.poll_interval
    }

    /// The time allowed.
    pub closed spec fn budget(&self) -> Millis {
        self.max_wait
    }

    /// The time slept so far.
    pub closed spec fn waited(&self) -> Millis {
        self.waited
    }

    /// Begins a wait. Nothing has been polled yet: the caller polls once
    /// and hands the outcome to [`Waiter::observe`]. A poll interval of zero
    /// is refused with `ConfigurationError`, so that no wait spins.
    pub fn start(poll_interval: Millis, max_wait: Millis) -> (r: Result<Waiter, APIError>)
        ensures
            match r {
                Ok(waiter) => poll_interval > 0 && waiter.interval() == poll_interval
                    && waiter.budget() == max_wait && waiter.waited() == 0,
                Err(e) => poll_interval == 0 && e is ConfigurationError,
            },
    {
        if poll_interval == 0 {
            let message = String::from_str("the poll interval must not be zero");
            Err(APIError::ConfigurationError(message))
        } else {
            Ok(Waiter { poll_interval, max_wait, waited: 0 })
        }
    }

    /// Decides what follows a poll that showed `sight`, and counts the
    /// sleep that it orders.
    pub fn judge(&mut self, sight: Sight) -> (r: Verdict)
        ensures
            r == verdict(
                old(self).interval(),
                old(self).budget(),
                old(self).waited() as int,
                sight,
            ),
            final(self).interval() == old(self).interval(),
            final(self).budget() == old(self).budget(),
            final(self).interval() > 0,
            final(self).waited() <= final(self).budget(),
            final(self).waited() == if r is SleepThenPoll {
                old(self).waited() + old(self).interval()
            } else {
                old(self).waited() as int
            },
    {
        proof {
            use_type_invariant(&*self);
        }
        match sight {
            Sight::PollFailed => Verdict::PollFailed,
            Sight::UnknownStatus => Verdict::UnknownStatus,
            Sight::Settled => Verdict::Settled,
            Sight::Running => {
                if self.poll_interval <= self.max_wait - self.waited {
                    self.waited = self.waited + self.poll_interval;
                    Verdict::SleepThenPoll
                } else {
                    Verdict::TimedOut
                }
            },
        }
    }

    /// Takes the outcome of a poll and says what to do next.
    ///
    /// A settled run ends the wait with its snapshot. A failed poll ends it
    /// with the error of the poll, unchanged. A run that is still running
    /// orders a sleep of one interval if that fits into the time allowed,
    /// and ends the wait with `Timeout` if it does not.
    pub fn observe(&mut self, outcome: Outcome) -> (r: Step)
        ensures
            final(self).interval() == old(self).interval(),
            final(self).budget() == old(self).budget(),
            match verdict(
                old(self).interval(),
                old(self).budget(),
                old(self).waited() as int,
                sight(outcome),
            ) {
                Verdict::SleepThenPoll => r == Step::Sleep(old(self).interval())
                    && final(self).waited() == old(self).waited() + old(self).interval(),
                Verdict::Settled => outcome is Ok && r == Step::Done(outcome->Ok_0)
                    && final(self).waited() == old(self).waited(),
                Verdict::PollFailed => outcome is Err && r == Step::Failed(outcome->Err_0)
                    && final(self).waited() == old(self).waited(),
                Verdict::UnknownStatus => r matches Step::Failed(e) && e is DecodeError
                    && final(self).waited() == old(self).waited(),
                Verdict::TimedOut => r == Step::Failed(APIError::Timeout) && final(self).waited()
                    == old(self).waited(),
            },
    {
        let seen = classify(&outcome);
        let interval = self.poll_interval;
        match self.judge(seen) {
            Verdict::SleepThenPoll => Step::Sleep(interval),
            Verdict::TimedOut => Step::Failed(APIError::Timeout),
            Verdict::UnknownStatus => Step::Failed(bad_field("status")),
            Verdict::Settled => match outcome {
                Ok(run) => Step::Done(run),
                Err(e) => Step::Failed(e),
            },
            Verdict::PollFailed => match outcome {
                Ok(run) => Step::Done(run),
                Err(e) => Step::Failed(e),
            },
        }
    }
}

/// A whole wait over recorded outcomes, as [`replay`] reports it.
#[derive(Debug, Clone, Copy, PartialEq, Eq)]
pub struct Replay {
    /// The number of polls that were made: the wait used the first `polls`
    /// outcomes. Where it ended `Settled` or `PollFailed`, the snapshot or
    /// the error that it returns is the last of them.
    pub polls: usize,
    /// How the wait ended.
    pub ending: Ending,
}

/// Runs a wait over recorded outcomes: what a wait does when its polls
/// bring the outcomes `script` in this order.
pub fn replay(poll_interval: Millis, max_wait: Millis, script: &Vec<Outcome>) -> (r: Replay)
    ensures
        r.polls == trace(poll_interval, max_wait, script@).polls,
        r.ending == trace(poll_interval, max_wait, script@).ending,
{
    let mut waiter = match Waiter::start(poll_interval, max_wait) {
        Ok(waiter) => waiter,
        Err(_) => {
            return Replay { polls: 0, ending: Ending::ZeroInterval };
        },
    };
    let mut polls: usize = 0;
    assert(0 * poll_interval == 0);
    while polls < script.len()
        invariant
            polls <= script@.len(),
            poll_interval > 0,
            waiter.interval() == poll_interval,
            waiter.budget() == max_wait,
            waiter.waited() == polls * poll_interval,
            trace(poll_interval, max_wait, script@) == trace_from(
                poll_interval,
                max_wait,
                script@,
                polls as nat,
            ),
        decreases script@.len() - polls,
    {
        let seen = classify(&script[polls]);
        let ghost before = waiter.waited();
        let what = waiter.judge(seen);
        polls += 1;
        match what {
            Verdict::SleepThenPoll => {
                assert(polls * poll_interval == (polls - 1) * poll_interval + poll_interval)
                    by (nonlinear_arith);
            },
            Verdict::Settled => {
                return Replay { polls, ending: Ending::Settled };
            },
            Verdict::PollFailed => {
                return Replay { polls, ending: Ending::PollFailed };
            },
            Verdict::UnknownStatus => {
                return Replay { polls, ending: Ending::UnknownStatus };
            },
            Verdict::TimedOut => {
                return Replay { polls, ending: Ending::TimedOut };
            },
        }
    }
    Replay { polls, ending: Ending::Pending }
}

/// What a wait returns when its polls brought exactly the outcomes
/// `script`: the wait used all of them and ended at the last.
pub open spec fn awaited(
    interval: Millis,
    max_wait: Millis,
    script: Seq<Outcome>,
    result: Result<RunObject, APIError>,
) -> bool {
    let t = trace(interval, max_wait, script);
    &&& t.polls == script.len()
    &&& match t.ending {
        Ending::Pending => false,
        Ending::Settled => result is Ok && result == script.last(),
        Ending::PollFailed => result is Err && result == script.last(),
        Ending::UnknownStatus => result matches Err(e) && e is DecodeError,
        Ending::TimedOut => result == Err::<RunObject, APIError>(APIError::Timeout),
        Ending::ZeroInterval => result matches Err(e) && e is ConfigurationError,
    }
}

/// Waits until a run is settled.
///
/// `poll` fetches the present state of the run once and `sleep` blocks for
/// the given number of milliseconds. The run is polled at once and then
/// after every sleep of `poll_interval`, one poll after the other, until
/// it is terminal or requires action; that snapshot is returned. The wait
/// fails with `ConfigurationError`, before any poll, where the poll
/// interval is zero; with the error of a poll that fails, unchanged and
/// without a retry; and with `Timeout` where the run is still running and
/// another sleep would exceed `max_wait`. At least one poll is made
/// however short `max_wait` is.
///
/// Whatever the polls bring, the result is that of [`trace`] on the
/// outcomes that they brought.
pub fn await_terminal<P: Fn() -> Outcome, S: Fn(Millis)>(
    poll: P,
    sleep: S,
    poll_interval: Millis,
    max_wait: Millis,
) -> (r: Result<RunObject, APIError>)
    requires
        call_requires(poll, ()),
        forall|ms: Millis| call_requires(sleep, (ms,)),
    ensures
        exists|script: Seq<Outcome>|
            #![trigger awaited(poll_interval, max_wait, script, r)]
            awaited(poll_interval, max_wait, script, r) && forall|i: int|
                0 <= i < script.len() ==> call_ensures(poll, (), #[trigger] script[i]),
{
    let mut waiter = match Waiter::start(poll_interval, max_wait) {
        Ok(waiter) => waiter,
        Err(e) => {
            assert(awaited(poll_interval, max_wait, Seq::empty(), Err(e)));
            return Err(e);
        },
    };
    let ghost mut script: Seq<Outcome> = Seq::empty();
    assert(0 * poll_interval == 0);
    loop
        invariant
            poll_interval > 0,
            waiter.interval() == poll_interval,
            waiter.budget() == max_wait,
            waiter.waited() == script.len() * poll_interval,
            waiter.waited() <= max_wait,
            running_before(script, script.len()),
            forall|i: int| 0 <= i < script.len() ==> call_ensures(poll, (), #[trigger] script[i]),
            call_requires(poll, ()),
            forall|ms: Millis| call_requires(sleep, (ms,)),
        decreases max_wait - waiter.waited(),
    {
        let outcome = poll();
        let ghost before = script;
        proof {
            script = script.push(outcome);
            assert(script.drop_last() =~= before);
            assert(running_before(script, before.len())) by {
                assert forall|i: int| 0 <= i < before.len() implies sight(#[trigger] script[i])
                    == Sight::Running by {
                    assert(script[i] == before[i]);
                }
            }
            assert(script.len() * poll_interval == before.len() * poll_interval + poll_interval)
                by (nonlinear_arith)
                requires
                    script.len() == before.len() + 1,
            ;
        }
        let what = waiter.observe(outcome);
        proof {
            if !(what is Sleep) {
                lemma_wait_ends_at(poll_interval, max_wait, script, script.len());
            }
        }
        match what {
            Step::Sleep(ms) => {
                sleep(ms);
            },
            Step::Done(run) => {
                assert(awaited(poll_interval, max_wait, script, Ok(run)));
                return Ok(run);
            },
            Step::Failed(e) => {
                assert(awaited(poll_interval, max_wait, script, Err(e)));
                return Err(e);
            },
        }
    }
}

/// How a wait ends after a poll that does not order a sleep.
pub open spec fn ending_of(verdict: Verdict) -> Ending {
    match verdict {
        Verdict::SleepThenPoll => Ending::Pending,
        Verdict::Settled => Ending::Settled,
        Verdict::PollFailed => Ending::PollFailed,
        Verdict::UnknownStatus => Ending::UnknownStatus,
        Verdict::TimedOut => Ending::TimedOut,
    }
}

/// A wait whose first `k - 1` polls show a running run, with sleeps that
/// fit into the time allowed, and whose `k`-th poll orders no further
/// sleep, makes exactly `k` polls and ends as that poll says.
pub proof fn lemma_wait_ends_at(interval: Millis, max_wait: Millis, script: Seq<Outcome>, k: nat)
    requires
        interval > 0,
        1 <= k <= script.len(),
        running_before(script, (k - 1) as nat),
        (k - 1) * interval <= max_wait,
        verdict(interval, max_wait, (k - 1) * interval, sight(script[k - 1]))
            != Verdict::SleepThenPoll,
    ensures
        trace(interval, max_wait, script) == (Trace {
            polls: k,
            ending: ending_of(
                verdict(interval, max_wait, (k - 1) * interval, sight(script[k - 1])),
            ),
        }),
{
    lemma_wait_ends_from(interval, max_wait, script, k, 0);
}

/// The induction behind [`lemma_wait_ends_at`].
pub proof fn lemma_wait_ends_from(
    interval: Millis,
    max_wait: Millis,
    script: Seq<Outcome>,
    k: nat,
    at: nat,
)
    requires
        interval > 0,
        1 <= k <= script.len(),
        at < k,
        running_before(script, (k - 1) as nat),
        (k - 1) * interval <= max_wait,
        verdict(interval, max_wait, (k - 1) * interval, sight(script[k - 1]))
            != Verdict::SleepThenPoll,
    ensures
        trace_from(interval, max_wait, script, at) == (Trace {
            polls: k,
            ending: ending_of(
                verdict(interval, max_wait, (k - 1) * interval, sight(script[k - 1])),
            ),
        }),
    decreases k - at,
{
    if at < k - 1 {
        assert(sight(script[at as int]) == Sight::Running);
        assert(at * interval + interval <= (k - 1) * interval) by (nonlinear_arith)
            requires
                at + 1 <= k - 1,
                interval > 0,
        ;
        lemma_wait_ends_from(interval, max_wait, script, k, at + 1);
    }
}

/// A wait never makes more polls than there are outcomes, and with a poll
/// interval above zero and at least one outcome it makes at least one.
pub proof fn lemma_polls_bounds(interval: Millis, max_wait: Millis, script: Seq<Outcome>)
    ensures
        trace(interval, max_wait, script).polls <= script.len(),
        interval > 0 && script.len() > 0 ==> trace(interval, max_wait, script).polls >= 1,
        interval == 0 ==> trace(interval, max_wait, script) == (Trace {
            polls: 0,
            ending: Ending::ZeroInterval,
        }),
{
    if interval > 0 {
        lemma_polls_bounds_from(interval, max_wait, script, 0);
    }
}

/// From any poll on, a wait ends after that poll and within the outcomes.
pub proof fn lemma_polls_bounds_from(
    interval: Millis,
    max_wait: Millis,
    script: Seq<Outcome>,
    at: nat,
)
    requires
        at <= script.len(),
    ensures
        trace_from(interval, max_wait, script, at).polls <= script.len(),
        trace_from(interval, max_wait, script, at).polls >= at,
        at < script.len() ==> trace_from(interval, max_wait, script, at).polls > at,
    decreases script.len() - at,
{
    if at < script.len() {
        lemma_polls_bounds_from(interval, max_wait, script, at + 1);
    }
}

/// The polls before number `k` all show a running run.
pub open spec fn running_before(script: Seq<Outcome>, k: nat) -> bool {
    forall|i: int| 0 <= i < k ==> sight(#[trigger] script[i]) == Sight::Running
}

/// A run that is seen settled at its `k`-th poll, after `k - 1` polls that
/// showed it running, ends the wait at that poll: exactly `k` polls are
/// made and the snapshot of the last one is returned. This holds whenever
/// the `k - 1` sleeps fit into the time allowed.
pub proof fn lemma_settles_after_k_polls(
    interval: Millis,
    max_wait: Millis,
    script: Seq<Outcome>,
    k: nat,
)
    requires
        interval > 0,
        1 <= k <= script.len(),
        running_before(script, (k - 1) as nat),
        sight(script[k - 1]) == Sight::Settled,
        (k - 1) * interval <= max_wait,
    ensures
        trace(interval, max_wait, script) == (Trace { polls: k, ending: Ending::Settled }),
{
    lemma_wait_ends_at(interval, max_wait, script, k);
}

/// A run that is still running at every poll times out at the first poll
/// after which another interval does not fit into the time allowed: poll
/// number `max_wait / interval`. In particular a time allowed below one
/// interval still gets its one poll.
pub proof fn lemma_times_out(interval: Millis, max_wait: Millis, script: Seq<Outcome>)
    requires
        interval > 0,
        script.len() > max_wait / interval,
        running_before(script, (max_wait / interval + 1) as nat),
    ensures
        trace(interval, max_wait, script) == (Trace {
            polls: (max_wait / interval + 1) as nat,
            ending: Ending::TimedOut,
        }),
{
    lemma_times_out_from(interval, max_wait, script, 0);
}

/// The induction behind [`lemma_times_out`].
pub proof fn lemma_times_out_from(
    interval: Millis,
    max_wait: Millis,
    script: Seq<Outcome>,
    at: nat,
)
    requires
        interval > 0,
        script.len() > max_wait / interval,
        running_before(script, (max_wait / interval + 1) as nat),
        at <= max_wait / interval,
    ensures
        trace_from(interval, max_wait, script, at) == (Trace {
            polls: (max_wait / interval + 1) as nat,
            ending: Ending::TimedOut,
        }),
    decreases max_wait / interval - at,
{
    let last = (max_wait / interval) as nat;
    assert(sight(script[at as int]) == Sight::Running);
    assert(last * interval <= max_wait < last * interval + interval) by (nonlinear_arith)
        requires
            last == max_wait / interval,
            interval > 0,
    ;
    if at < last {
        assert(at * interval + interval <= last * interval) by (nonlinear_arith)
            requires
                at + 1 <= last,
                interval > 0,
        ;
        lemma_times_out_from(interval, max_wait, script, at + 1);
    } else {
        assert(at == last);
    }
}

/// With less time allowed than one interval, a run that the first poll
/// shows running times out after that one poll.
pub proof fn lemma_short_wait_polls_once(interval: Millis, max_wait: Millis, script: Seq<Outcome>)
    requires
        max_wait < interval,
        script.len() >= 1,
        sight(script[0]) == Sight::Running,
    ensures
        trace(interval, max_wait, script) == (Trace { polls: 1, ending: Ending::TimedOut }),
{
    assert(0 * interval == 0);
}

/// A failed poll ends the wait at once with the error of that poll: no
/// later outcome is looked at.
pub proof fn lemma_poll_failure_ends_wait(
    interval: Millis,
    max_wait: Millis,
    script: Seq<Outcome>,
    k: nat,
)
    requires
        interval > 0,
        1 <= k <= script.len(),
        running_before(script, (k - 1) as nat),
        script[k - 1] is Err,
        (k - 1) * interval <= max_wait,
    ensures
        trace(interval, max_wait, script) == (Trace { polls: k, ending: Ending::PollFailed }),
{
    lemma_wait_ends_at(interval, max_wait, script, k);
}

/// A wait with a poll interval of zero fails with `ConfigurationError`
/// and has made no poll at all.
pub proof fn lemma_await_with_zero_interval(
    max_wait: Millis,
    script: Seq<Outcome>,
    result: Result<RunObject, APIError>,
)
    requires
        awaited(0, max_wait, script, result),
    ensures
        script.len() == 0,
        result matches Err(e) && e is ConfigurationError,
{
}

/// A wait with a poll interval above zero has made at least one poll,
/// however little time it was allowed.
pub proof fn lemma_await_polls_at_least_once(
    interval: Millis,
    max_wait: Millis,
    script: Seq<Outcome>,
    result: Result<RunObject, APIError>,
)
    requires
        interval > 0,
        awaited(interval, max_wait, script, result),
    ensures
        script.len() >= 1,
{
}

/// A wait that is allowed less time than one poll interval, and whose
/// first poll shows the run still running, fails with `Timeout` after that
/// one poll.
pub proof fn lemma_await_short_of_one_interval(
    interval: Millis,
    max_wait: Millis,
    script: Seq<Outcome>,
    result: Result<RunObject, APIError>,
)
    requires
        max_wait < interval,
        awaited(interval, max_wait, script, result),
        script.len() >= 1 ==> sight(script[0]) == Sight::Running,
    ensures
        script.len() == 1,
        result == Err::<RunObject, APIError>(APIError::Timeout),
{
    lemma_await_polls_at_least_once(interval, max_wait, script, result);
    lemma_short_wait_polls_once(interval, max_wait, script);
}

/// A wait on a run that is seen settled at its `k`-th poll, after `k - 1`
/// polls that showed it running and `k - 1` sleeps that fit into the time
/// allowed, has made exactly `k` polls and returns the snapshot of the
/// last.
pub proof fn lemma_await_settles_at_poll_k(
    interval: Millis,
    max_wait: Millis,
    script: Seq<Outcome>,
    result: Result<RunObject, APIError>,
    k: nat,
)
    requires
        interval > 0,
        awaited(interval, max_wait, script, result),
        1 <= k <= script.len(),
        running_before(script, (k - 1) as nat),
        sight(script[k - 1]) == Sight::Settled,
        (k - 1) * interval <= max_wait,
    ensures
        script.len() == k,
        result is Ok,
        result == script[k - 1],
{
    lemma_settles_after_k_polls(interval, max_wait, script, k);
}

} // verus!
