use cg_req::executor::{
    next_step, user_agent, Backoff, RequestError, Step, SLEEP_BETWEEN_REQUESTS_INITIAL_MS,
    SLEEP_BETWEEN_REQUESTS_STEP_MS,
};
use cg_req::response::{ResponseTransformerError, ValidateResponseError};

fn banned(secs: Option<u32>) -> Result<u32, ResponseTransformerError> {
    Err(ResponseTransformerError::ValidateResponseError(ValidateResponseError::Banned(secs)))
}

/// Drives the decisions over scripted responses; returns the result, the
/// number of responses consumed and the sleeps requested.
fn drive(
    backoff: &mut Backoff,
    script: Vec<Result<u32, ResponseTransformerError>>,
) -> (Option<Result<u32, RequestError>>, usize, Vec<u64>) {
    let mut sleeps = vec![];
    let mut used = 0;
    for outcome in script {
        used += 1;
        match next_step(backoff, outcome) {
            Step::Done(x) => return (Some(Ok(x)), used, sleeps),
            Step::Fail(e) => return (Some(Err(e)), used, sleeps),
            Step::Retry { sleep_secs } => sleeps.push(sleep_secs),
        }
    }
    (None, used, sleeps)
}

#[test]
fn ban_with_wait_then_success() {
    let mut backoff = Backoff::new();
    let before = backoff.ms;
    let (res, used, sleeps) = drive(&mut backoff, vec![banned(Some(2)), Ok(9)]);
    assert!(matches!(res, Some(Ok(9))));
    assert_eq!(used, 2);
    assert_eq!(sleeps, vec![3]);
    assert_eq!(backoff.ms, before + SLEEP_BETWEEN_REQUESTS_STEP_MS);
}

#[test]
fn ban_without_wait_is_fatal() {
    let mut backoff = Backoff::new();
    let (res, used, sleeps) = drive(&mut backoff, vec![banned(None), Ok(1)]);
    assert!(matches!(res, Some(Err(RequestError::BannedForUnknownTime))));
    assert_eq!(used, 1);
    assert!(sleeps.is_empty());
    assert_eq!(backoff.ms, SLEEP_BETWEEN_REQUESTS_INITIAL_MS);
}

#[test]
fn other_errors_are_fatal() {
    let mut backoff = Backoff { ms: 42 };
    let e = Err(ResponseTransformerError::ValidateResponseError(
        ValidateResponseError::UnexpectedResponseCode(500),
    ));
    let (res, used, _) = drive(&mut backoff, vec![e, Ok(1)]);
    assert!(matches!(
        res,
        Some(Err(RequestError::Unhandled(ResponseTransformerError::ValidateResponseError(
            ValidateResponseError::UnexpectedResponseCode(500)
        ))))
    ));
    assert_eq!(used, 1);
    assert_eq!(backoff.ms, 42);
}

#[test]
fn baseline_rises_per_ban_and_saturates() {
    let mut backoff = Backoff { ms: 0 };
    let (res, _, sleeps) = drive(&mut backoff, vec![banned(Some(0)), banned(Some(u32::MAX)), Ok(5)]);
    assert!(matches!(res, Some(Ok(5))));
    assert_eq!(sleeps, vec![1, u32::MAX as u64 + 1]);
    assert_eq!(backoff.ms, 2 * SLEEP_BETWEEN_REQUESTS_STEP_MS);
    let mut top = Backoff { ms: u64::MAX - 1 };
    top.raise();
    assert_eq!(top.ms, u64::MAX);
}

#[test]
fn user_agent_names_version() {
    assert_eq!(user_agent("1.2.3"), "cg_req/1.2.3");
}
