use vstd::prelude::*;

use crate::MAX_RETRIES;
use crate::errors::{FallbackError, SellError};
use crate::outcome::SellTransactionResult;
use crate::retry::{AttemptObservation, execute_normal_sell_with_retry, spec_retry};
use solana_signature::Signature;

verus! {

/// Decide whether the aggregator fallback path is owed: it is, exactly when
/// the direct path ended in anything other than a successful outcome. An
/// unsuccessful outcome and a hard error both mean the normal path is
/// exhausted; the two shapes are treated identically.
pub fn fallback_needed(normal: &Result<SellTransactionResult, SellError>) -> (b: bool)
    ensures
        b == !(normal matches Ok(outcome) && outcome.success),
{
    match normal {
        Ok(outcome) => !outcome.success,
        Err(_) => true,
    }
}

/// Pass a successful direct-path outcome through unchanged.
pub fn outcome_without_fallback(normal: Result<SellTransactionResult, SellError>) -> (r:
    SellTransactionResult)
    requires
        normal matches Ok(outcome) && outcome.success,
    ensures
        normal matches Ok(outcome) && r == outcome,
{
    match normal {
        Ok(outcome) => outcome,
        Err(_) => unreached(),
    }
}

/// Fold how the aggregator path ended into the caller-visible outcome. The
/// attempt count is fixed at one past the retry ceiling: a sentinel marking
/// that the fallback path was used, not a count of aggregator attempts —
/// only one is ever made.
pub fn outcome_from_fallback(fallback: Result<Signature, FallbackError>) -> (r:
    SellTransactionResult)
    ensures
        r.wf(),
        r.used_jupiter_fallback,
        r.attempt_count == MAX_RETRIES + 1,
        fallback matches Ok(signature) ==> r == (SellTransactionResult {
            success: true,
            signature: Some(signature),
            error: None,
            used_jupiter_fallback: true,
            attempt_count: (MAX_RETRIES + 1) as u32,
        }),
        fallback matches Err(cause) ==> r == (SellTransactionResult {
            success: false,
            signature: None,
            error: Some(SellError::FallbackFailed { cause }),
            used_jupiter_fallback: true,
            attempt_count: (MAX_RETRIES + 1) as u32,
        }),
{
    match fallback {
        Ok(signature) => SellTransactionResult {
            success: true,
            signature: Some(signature),
            error: None,
            used_jupiter_fallback: true,
            attempt_count: MAX_RETRIES + 1,
        },
        Err(cause) => SellTransactionResult {
            success: false,
            signature: None,
            error: Some(SellError::FallbackFailed { cause }),
            used_jupiter_fallback: true,
            attempt_count: MAX_RETRIES + 1,
        },
    }
}

/// Run the whole sell operation over a given trace: the direct path's
/// attempt outcomes, and — exactly when those exhaust the ceiling — how the
/// aggregator path ended. This call never fails; every terminal condition is
/// folded into the one outcome. A confirmed direct attempt keeps its attempt
/// number; a fallback outcome carries the sentinel count of one past the
/// ceiling, and the fallback's own failure is embedded in the final error.
pub fn execute_sell_with_retry_and_fallback(
    observations: &Vec<AttemptObservation>,
    fallback: Option<Result<Signature, FallbackError>>,
) -> (r: SellTransactionResult)
    requires
        observations@.len() >= MAX_RETRIES,
        (fallback is Some) <==> (spec_retry(observations@, 1, MAX_RETRIES as int) is None),
    ensures
        r.wf(),
        spec_retry(observations@, 1, MAX_RETRIES as int) matches Some(sk) ==> r == (
        SellTransactionResult {
            success: true,
            signature: Some(sk.0),
            error: None,
            used_jupiter_fallback: false,
            attempt_count: sk.1 as u32,
        }),
        spec_retry(observations@, 1, MAX_RETRIES as int) is None ==> r.used_jupiter_fallback
            && r.attempt_count == MAX_RETRIES + 1,
        fallback matches Some(Ok(signature)) ==> r == (SellTransactionResult {
            success: true,
            signature: Some(signature),
            error: None,
            used_jupiter_fallback: true,
            attempt_count: (MAX_RETRIES + 1) as u32,
        }),
        fallback matches Some(Err(cause)) ==> r == (SellTransactionResult {
            success: false,
            signature: None,
            error: Some(SellError::FallbackFailed { cause }),
            used_jupiter_fallback: true,
            attempt_count: (MAX_RETRIES + 1) as u32,
        }),
{
    let normal = execute_normal_sell_with_retry(observations);
    if fallback_needed(&normal) {
        match fallback {
            Some(ended) => outcome_from_fallback(ended),
            None => unreached(),
        }
    } else {
        outcome_without_fallback(normal)
    }
}

} // verus!
