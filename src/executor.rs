//! The decisions of the retry loop that executes a method: what to do after
//! each response, and the shared backoff baseline.

use vstd::prelude::*;
use crate::response::{ResponseTransformerError, ValidateResponseError};
use crate::uri::UriError;

verus! {

/// The delay before the first call of a polling cycle, in milliseconds.
pub const SLEEP_BETWEEN_REQUESTS_INITIAL_MS: u64 = 10000;

/// How much each rate-limit event raises the delay between calls, in milliseconds.
pub const SLEEP_BETWEEN_REQUESTS_STEP_MS: u64 = 500;

/// A failure of the whole program, with its message.
#[derive(Clone, Debug)]
pub enum Error {
    Runtime(String),
}

/// The delay imposed before every call, shared by all calls of a polling cycle.
#[derive(Clone, Copy, PartialEq, Eq, Structural, Debug)]
pub struct Backoff {
    pub ms: u64,
}

/// Why executing a method failed for good.
#[derive(Clone, Debug)]
pub enum RequestError {
    Uri(UriError),
    BannedForUnknownTime,
    Unhandled(ResponseTransformerError),
}

/// What the retry loop does after one response.
#[derive(Clone, Debug)]
pub enum Step<T> {
    Done(T),
    Retry { sleep_secs: u64 },
    Fail(RequestError),
}

/// The baseline after one more rate-limit event.
pub open spec fn raised(ms: u64) -> u64 {
    if ms <= u64::MAX - SLEEP_BETWEEN_REQUESTS_STEP_MS {
        (ms + SLEEP_BETWEEN_REQUESTS_STEP_MS) as u64
    } else {
        u64::MAX
    }
}

/// The baseline and the decision after one response.
pub open spec fn step_of<T>(ms: u64, outcome: Result<T, ResponseTransformerError>) -> (u64, Step<T>) {
    match outcome {
        Ok(x) => (ms, Step::Done(x)),
        Err(e) => match e {
            ResponseTransformerError::ValidateResponseError(ValidateResponseError::Banned(Some(n))) => (
                raised(ms),
                Step::Retry { sleep_secs: (n as u64 + 1) as u64 },
            ),
            ResponseTransformerError::ValidateResponseError(ValidateResponseError::Banned(None)) => (
                ms,
                Step::Fail(RequestError::BannedForUnknownTime),
            ),
            _ => (ms, Step::Fail(RequestError::Unhandled(e))),
        },
    }
}

/// The retry loop fed with successive responses: the final baseline, the
/// result once the loop has ended (`None` while it is still attempting) and the
/// number of responses it consumed.
pub open spec fn run_of<T>(ms: u64, outcomes: Seq<Result<T, ResponseTransformerError>>) -> (
    u64,
    Option<Result<T, RequestError>>,
    nat,
)
    decreases outcomes.len(),
{
    if outcomes.len() == 0 {
        (ms, None, 0)
    } else {
        let (next, s) = step_of(ms, outcomes[0]);
        match s {
            Step::Done(x) => (next, Some(Ok(x)), 1),
            Step::Fail(e) => (next, Some(Err(e)), 1),
            Step::Retry { .. } => {
                let (last, res, n) = run_of(next, outcomes.drop_first());
                (last, res, n + 1)
            },
        }
    }
}

impl Backoff {
    /// The baseline at the start of a polling cycle.
    pub fn new() -> (r: Self)
        ensures
            r.ms == SLEEP_BETWEEN_REQUESTS_INITIAL_MS,
    {
        Backoff { ms: SLEEP_BETWEEN_REQUESTS_INITIAL_MS }
    }

    /// Raises the baseline by one step, saturating at the largest delay.
    pub fn raise(&mut self)
        ensures
            final(self).ms == raised(old(self).ms),
            final(self).ms >= old(self).ms,
    {
        self.ms = self.ms.saturating_add(SLEEP_BETWEEN_REQUESTS_STEP_MS);
    }
}

/// Decides what the retry loop does with one response: a payload ends it, a
/// ban with a known wait raises the baseline and retries after that wait plus
/// one second, and every other error ends it with a failure.
pub fn next_step<T>(backoff: &mut Backoff, outcome: Result<T, ResponseTransformerError>) -> (r: Step<T>)
    ensures
        (final(backoff).ms, r) == step_of(old(backoff).ms, outcome),
        final(backoff).ms >= old(backoff).ms,
        r is Retry <==> outcome matches Err(
            ResponseTransformerError::ValidateResponseError(ValidateResponseError::Banned(Some(_))),
        ),
{
    match outcome {
        Ok(x) => Step::Done(x),
        Err(e) => match e {
            ResponseTransformerError::ValidateResponseError(ValidateResponseError::Banned(Some(n))) => {
                backoff.raise();
                Step::Retry { sleep_secs: n as u64 + 1 }
            },
            ResponseTransformerError::ValidateResponseError(ValidateResponseError::Banned(None)) => {
                Step::Fail(RequestError::BannedForUnknownTime)
            },
            _ => Step::Fail(RequestError::Unhandled(e)),
        },
    }
}

/// A ban with a known wait followed by a payload: the loop retries once, ends
/// with the payload, and the baseline has risen by exactly one step.
pub proof fn lemma_ban_then_success<T>(
    ms: u64,
    secs: u32,
    x: T,
    rest: Seq<Result<T, ResponseTransformerError>>,
)
    requires
        ms + SLEEP_BETWEEN_REQUESTS_STEP_MS <= u64::MAX,
    ensures
        ({
            let outcomes = seq![
                Err(ResponseTransformerError::ValidateResponseError(ValidateResponseError::Banned(Some(secs)))),
                Ok(x),
            ] + rest;
            run_of(ms, outcomes) == (
                (ms + SLEEP_BETWEEN_REQUESTS_STEP_MS) as u64,
                Some(Ok::<T, RequestError>(x)),
                2nat,
            )
        }),
{
    let outcomes = seq![
        Err(ResponseTransformerError::ValidateResponseError(ValidateResponseError::Banned(Some(secs)))),
        Ok(x),
    ] + rest;
    assert(outcomes[0] == Err::<T, _>(
        ResponseTransformerError::ValidateResponseError(ValidateResponseError::Banned(Some(secs))),
    ));
    assert(outcomes.drop_first()[0] == Ok::<T, ResponseTransformerError>(x));
    assert(raised(ms) == ms + SLEEP_BETWEEN_REQUESTS_STEP_MS);
    assert(run_of(raised(ms), outcomes.drop_first()) == (raised(ms), Some(Ok::<T, RequestError>(x)), 1nat));
}

/// A ban without a known wait ends the loop at once with a failure, whatever
/// responses would follow, and leaves the baseline as it was.
pub proof fn lemma_ban_unknown_fails<T>(ms: u64, rest: Seq<Result<T, ResponseTransformerError>>)
    ensures
        run_of(
            ms,
            seq![Err(ResponseTransformerError::ValidateResponseError(ValidateResponseError::Banned(None)))]
                + rest,
        ) == (ms, Some(Err::<T, RequestError>(RequestError::BannedForUnknownTime)), 1nat),
{
    let outcomes = seq![
        Err(ResponseTransformerError::ValidateResponseError(ValidateResponseError::Banned(None))),
    ] + rest;
    assert(outcomes[0] == Err::<T, _>(
        ResponseTransformerError::ValidateResponseError(ValidateResponseError::Banned(None)),
    ));
}

/// Only a ban with a known wait keeps the loop attempting; the baseline never falls.
pub proof fn lemma_only_known_ban_retries<T>(ms: u64, outcome: Result<T, ResponseTransformerError>)
    ensures
        step_of(ms, outcome).1 is Retry <==> outcome matches Err(
            ResponseTransformerError::ValidateResponseError(ValidateResponseError::Banned(Some(_))),
        ),
        step_of(ms, outcome).0 >= ms,
{
}

/// The `User-Agent` value that identifies this client at the given version.
pub fn user_agent(version: &str) -> (r: String)
    ensures
        r@ == "cg_req/"@ + version@,
{
    let mut s = String::from_str("cg_req/");
    s.append(version);
    s
}

} // verus!
