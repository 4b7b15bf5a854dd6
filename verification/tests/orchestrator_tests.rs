use sell_engine::MAX_RETRIES;
use sell_engine::errors::{AttemptError, FallbackError, SellError};
use sell_engine::orchestrator::{
    execute_sell_with_retry_and_fallback, fallback_needed, outcome_from_fallback,
};
use sell_engine::retry::AttemptObservation;
use solana_signature::Signature;

fn signature() -> Signature {
    "1".repeat(64).parse::<Signature>().unwrap()
}

fn failed(detail: &str) -> AttemptObservation {
    AttemptObservation::Failed { error: AttemptError::BuildFailed { detail: detail.to_string() } }
}

#[test]
fn fallback_runs_once_after_exhaustion_and_marks_the_outcome() {
    let observations = vec![failed("a"), failed("b"), failed("c")];
    let outcome = execute_sell_with_retry_and_fallback(&observations, Some(Ok(signature())));
    assert!(outcome.success);
    assert!(outcome.used_jupiter_fallback);
    assert_eq!(outcome.attempt_count, MAX_RETRIES + 1);
    assert_eq!(outcome.signature, Some(signature()));
    assert_eq!(outcome.error, None);
}

#[test]
fn fallback_failure_is_embedded_in_the_final_error() {
    let observations = vec![failed("a"), failed("b"), failed("c")];
    let cause = FallbackError::AggregatorRejected { detail: "no route".to_string() };
    let outcome = execute_sell_with_retry_and_fallback(&observations, Some(Err(cause.clone())));
    assert!(!outcome.success);
    assert!(outcome.used_jupiter_fallback);
    assert_eq!(outcome.attempt_count, MAX_RETRIES + 1);
    assert_eq!(outcome.signature, None);
    assert_eq!(outcome.error, Some(SellError::FallbackFailed { cause }));
}

#[test]
fn direct_success_skips_the_fallback() {
    let observations = vec![
        AttemptObservation::Confirmed { signature: signature() },
        failed("unused"),
        failed("unused"),
    ];
    let outcome = execute_sell_with_retry_and_fallback(&observations, None);
    assert!(outcome.success);
    assert!(!outcome.used_jupiter_fallback);
    assert_eq!(outcome.attempt_count, 1);
}

#[test]
fn fallback_is_needed_exactly_when_the_direct_path_did_not_succeed() {
    let exhausted: Result<_, SellError> = Err(SellError::RetryExhausted {
        attempts: MAX_RETRIES,
        last: AttemptError::NoSignatureReturned,
    });
    assert!(fallback_needed(&exhausted));
    let confirmed = Ok(outcome_from_fallback(Ok(signature())));
    assert!(!fallback_needed(&confirmed));
}

#[test]
fn fallback_outcome_uses_the_sentinel_attempt_count() {
    let outcome = outcome_from_fallback(Err(FallbackError::NothingToSell));
    assert!(!outcome.success);
    assert!(outcome.used_jupiter_fallback);
    assert_eq!(outcome.attempt_count, MAX_RETRIES + 1);
    assert_eq!(
        outcome.error,
        Some(SellError::FallbackFailed { cause: FallbackError::NothingToSell })
    );
}
