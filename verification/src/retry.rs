//! The command-registration retry scheduler's policy: classify a failure as
//! retryable or not, and decide after each failed attempt whether to sleep
//! and retry or give up.
//!
//! The schedule is fixed: at most three attempts, a first delay of two
//! time-units, doubled after every retry and capped at thirty. A
//! non-retryable failure, or reaching the attempt limit, stops the schedule
//! at once. The caller performs the platform call itself and hands the
//! classified outcome back after each attempt.

use vstd::prelude::*;

verus! {

/// The most attempts the scheduler ever makes.
pub const MAX_ATTEMPTS: u64 = 3;

/// The delay before the first retry, in time-units.
pub const INITIAL_DELAY: u64 = 2;

/// The ceiling the doubling delay never exceeds, in time-units.
pub const DELAY_CAP: u64 = 30;

/// Whether a classified registration failure is worth retrying.
#[derive(Debug, Clone, Copy, PartialEq, Eq, Structural)]
pub struct RetryPlan {
    retryable: bool,
}

impl RetryPlan {
    pub closed spec fn spec_retryable(self) -> bool {
        self.retryable
    }

    pub fn retry() -> (r: Self)
        ensures
            r.spec_retryable(),
    {
        Self { retryable: true }
    }

    pub fn non_retryable() -> (r: Self)
        ensures
            !r.spec_retryable(),
    {
        Self { retryable: false }
    }

    pub fn is_retryable(self) -> (r: bool)
        ensures
            r == self.spec_retryable(),
    {
        self.retryable
    }
}

/// What the retry policy reads of an HTTP-layer registration failure: the
/// response status for an unsuccessful request, whether a request-level
/// failure was a timeout or a connection failure, a rate-limit response, or
/// one of the malformed-request and configuration defects.
#[derive(Debug, Clone, Copy, PartialEq, Eq, Structural)]
pub enum HttpErrorKind {
    UnsuccessfulRequest { status: u16 },
    Request { timeout: bool, connect: bool },
    RateLimit,
    Url,
    InvalidWebhook,
    InvalidHeader,
    InvalidScheme,
    InvalidPort,
    ApplicationIdMissing,
    Other,
}

/// What the retry policy reads of a registration failure: an HTTP-layer
/// failure, an I/O failure, or anything else.
#[derive(Debug, Clone, Copy, PartialEq, Eq, Structural)]
pub enum RegisterErrorKind {
    Http(HttpErrorKind),
    Io,
    Other,
}

/// The retryable HTTP failures: request timeout, the gateway/server error
/// statuses (408, 500, 502, 503, 504 are the timeout, internal error,
/// bad-gateway, service-unavailable and gateway-timeout classes), connection
/// failures, and rate-limit responses. Everything else, malformed-request
/// and configuration defects included, is not retried.
pub open spec fn spec_http_retryable(kind: HttpErrorKind) -> bool {
    match kind {
        HttpErrorKind::UnsuccessfulRequest { status } => status == 408 || status == 500 || status
            == 502 || status == 503 || status == 504,
        HttpErrorKind::Request { timeout, connect } => timeout || connect,
        HttpErrorKind::RateLimit => true,
        _ => false,
    }
}

/// The retryable registration failures: retryable HTTP failures and I/O
/// failures; any error kind not explicitly classified retryable is not.
pub open spec fn spec_register_retryable(kind: RegisterErrorKind) -> bool {
    match kind {
        RegisterErrorKind::Http(http) => spec_http_retryable(http),
        RegisterErrorKind::Io => true,
        RegisterErrorKind::Other => false,
    }
}

/// Classify an HTTP-layer registration failure.
pub fn retry_plan_for_http_error(kind: &HttpErrorKind) -> (r: RetryPlan)
    ensures
        r.spec_retryable() == spec_http_retryable(*kind),
{
    match kind {
        HttpErrorKind::UnsuccessfulRequest { status } => {
            let s = *status;
            if s == 408 || s == 500 || s == 502 || s == 503 || s == 504 {
                RetryPlan::retry()
            } else {
                RetryPlan::non_retryable()
            }
        },
        HttpErrorKind::Request { timeout, connect } => {
            if *timeout || *connect {
                RetryPlan::retry()
            } else {
                RetryPlan::non_retryable()
            }
        },
        HttpErrorKind::RateLimit => RetryPlan::retry(),
        _ => RetryPlan::non_retryable(),
    }
}

/// Classify a registration failure.
pub fn retry_plan_for_register_error(kind: &RegisterErrorKind) -> (r: RetryPlan)
    ensures
        r.spec_retryable() == spec_register_retryable(*kind),
{
    match kind {
        RegisterErrorKind::Http(http) => retry_plan_for_http_error(http),
        RegisterErrorKind::Io => RetryPlan::retry(),
        RegisterErrorKind::Other => RetryPlan::non_retryable(),
    }
}

/// The delay after the next retry: doubled, capped at the ceiling.
pub open spec fn spec_next_delay(delay: u64) -> u64 {
    if 2 * delay > DELAY_CAP {
        DELAY_CAP
    } else {
        (2 * delay) as u64
    }
}

/// What to do after a failed attempt: stop, or sleep and try again with the
/// next delay.
#[derive(Debug, Clone, Copy, PartialEq, Eq, Structural)]
pub enum RetryDirective {
    GiveUp,
    RetryAfter { sleep: u64, next_delay: u64 },
}

/// What the scheduler does after attempt number `attempt` fails with the
/// given classification: give up on a non-retryable failure or once the
/// attempt limit is reached, otherwise sleep for the current delay and
/// retry with the delay doubled, capped.
pub open spec fn spec_after_failed_attempt(attempt: u64, delay: u64, plan: RetryPlan) -> RetryDirective {
    if !plan.spec_retryable() || attempt >= MAX_ATTEMPTS {
        RetryDirective::GiveUp
    } else {
        RetryDirective::RetryAfter { sleep: delay, next_delay: spec_next_delay(delay) }
    }
}

/// Decide whether a failed attempt is followed by another.
pub fn after_failed_attempt(attempt: u64, delay: u64, plan: RetryPlan) -> (r: RetryDirective)
    requires
        1 <= attempt <= MAX_ATTEMPTS,
        delay <= DELAY_CAP,
    ensures
        r == spec_after_failed_attempt(attempt, delay, plan),
{
    if !plan.is_retryable() || attempt >= MAX_ATTEMPTS {
        RetryDirective::GiveUp
    } else {
        let doubled = 2 * delay;
        let next = if doubled > DELAY_CAP {
            DELAY_CAP
        } else {
            doubled
        };
        RetryDirective::RetryAfter { sleep: delay, next_delay: next }
    }
}

/// What one registration attempt came back with: success, or a failure
/// already classified by the retry policy.
#[derive(Debug, Clone, Copy, PartialEq, Eq, Structural)]
pub enum AttemptOutcome {
    Success,
    Failure(RetryPlan),
}

/// How a whole schedule went: how many attempts were made, the sleeps taken
/// between them in order, and whether registration succeeded.
#[derive(Debug, Clone)]
pub struct ScheduleReport {
    pub attempts: u64,
    pub delays: Vec<u64>,
    pub succeeded: bool,
}

/// The schedule from attempt number `attempt` on, with the current delay,
/// against the outcome each attempt would come back with: the total attempt
/// count, the sleeps taken, and whether it ended in success.
pub open spec fn spec_schedule_from(
    outcomes: Seq<AttemptOutcome>,
    attempt: u64,
    delay: u64,
) -> (u64, Seq<u64>, bool)
    decreases MAX_ATTEMPTS - attempt when 1 <= attempt <= MAX_ATTEMPTS
{
    if attempt < 1 || attempt > MAX_ATTEMPTS || outcomes.len() < attempt {
        (0, Seq::empty(), false)
    } else {
        match outcomes[attempt - 1] {
            AttemptOutcome::Success => (attempt, Seq::empty(), true),
            AttemptOutcome::Failure(plan) => {
                if spec_after_failed_attempt(attempt, delay, plan) is GiveUp {
                    (attempt, Seq::empty(), false)
                } else {
                    let rest = spec_schedule_from(
                        outcomes,
                        (attempt + 1) as u64,
                        spec_next_delay(delay),
                    );
                    (rest.0, seq![delay] + rest.1, rest.2)
                }
            },
        }
    }
}

/// The whole schedule from the first attempt with the initial delay.
pub open spec fn spec_schedule(outcomes: Seq<AttemptOutcome>) -> (u64, Seq<u64>, bool) {
    spec_schedule_from(outcomes, 1, INITIAL_DELAY)
}

/// Run the whole schedule against the outcome each attempt would come back
/// with. This is the scheduler's decision sequence in one piece; the caller
/// interleaves the real platform call and the real sleeps in the same order.
pub fn run_registration_schedule(outcomes: &Vec<AttemptOutcome>) -> (r: ScheduleReport)
    requires
        outcomes@.len() >= MAX_ATTEMPTS,
    ensures
        (r.attempts, r.delays@, r.succeeded) == spec_schedule(outcomes@),
{
    let mut delays: Vec<u64> = Vec::new();
    let mut delay: u64 = INITIAL_DELAY;
    let mut attempt: u64 = 1;
    proof {
        assert(Seq::<u64>::empty() + spec_schedule_from(outcomes@, 1, INITIAL_DELAY).1
            =~= spec_schedule_from(outcomes@, 1, INITIAL_DELAY).1);
    }
    loop
        invariant
            1 <= attempt <= MAX_ATTEMPTS,
            delay <= DELAY_CAP,
            outcomes@.len() >= MAX_ATTEMPTS,
            spec_schedule(outcomes@) == {
                let rest = spec_schedule_from(outcomes@, attempt, delay);
                (rest.0, delays@ + rest.1, rest.2)
            },
        decreases MAX_ATTEMPTS - attempt,
    {
        let outcome = outcomes[attempt as usize - 1];
        match outcome {
            AttemptOutcome::Success => {
                return ScheduleReport { attempts: attempt, delays, succeeded: true };
            },
            AttemptOutcome::Failure(plan) => {
                match after_failed_attempt(attempt, delay, plan) {
                    RetryDirective::GiveUp => {
                        return ScheduleReport { attempts: attempt, delays, succeeded: false };
                    },
                    RetryDirective::RetryAfter { sleep, next_delay } => {
                        let ghost done = delays@;
                        let ghost rest_after = spec_schedule_from(
                            outcomes@,
                            (attempt + 1) as u64,
                            next_delay,
                        );
                        delays.push(sleep);
                        proof {
                            assert(done + (seq![sleep] + rest_after.1) =~= delays@ + rest_after.1);
                        }
                        delay = next_delay;
                        attempt = attempt + 1;
                    },
                }
            },
        }
    }
}

/// Law: three consecutive retryable failures give exactly three attempts,
/// sleeps of two and four time-units between them, and a reported failure;
/// no further retry happens.
pub proof fn lemma_three_retryable_failures(outcomes: Seq<AttemptOutcome>)
    requires
        outcomes.len() >= 3,
        outcomes[0] matches AttemptOutcome::Failure(plan) && plan.spec_retryable(),
        outcomes[1] matches AttemptOutcome::Failure(plan) && plan.spec_retryable(),
        outcomes[2] matches AttemptOutcome::Failure(plan) && plan.spec_retryable(),
    ensures
        spec_schedule(outcomes) == (3u64, seq![2u64, 4u64], false),
{
    assert(spec_schedule_from(outcomes, 3, 8) == (3u64, Seq::<u64>::empty(), false));
    assert(spec_schedule_from(outcomes, 2, 4) == (3u64, seq![4u64], false)) by {
        assert(seq![4u64] + Seq::<u64>::empty() =~= seq![4u64]);
    }
    assert(spec_schedule(outcomes) == (3u64, seq![2u64, 4u64], false)) by {
        assert(seq![2u64] + seq![4u64] =~= seq![2u64, 4u64]);
    }
}

/// Law: a non-retryable failure on the first attempt stops the schedule at
/// once: exactly one attempt, no sleeps, a reported failure.
pub proof fn lemma_non_retryable_stops_at_once(outcomes: Seq<AttemptOutcome>)
    requires
        outcomes.len() >= 1,
        outcomes[0] matches AttemptOutcome::Failure(plan) && !plan.spec_retryable(),
    ensures
        spec_schedule(outcomes) == (1u64, Seq::<u64>::empty(), false),
{
}

} // verus!
