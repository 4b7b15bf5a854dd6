use vstd::prelude::*;

use crate::chain::{address_text_ok, is_address_text, is_signature_text};
use crate::confirm::{PollRound, spec_verify, verify_transaction_with_retry};
use crate::dispatch::accept_submission;
use crate::errors::FallbackError;
use crate::{SellRequest, TradeRecord, VERIFY_SUB_ATTEMPTS};
use solana_signature::Signature;
use vstd::arithmetic::div_mod::{lemma_fundamental_div_mod, lemma_mod_bound};
use vstd::arithmetic::mul::lemma_mul_inequality;

verus! {

// ---------------------------------------------------------------------
// Reading the reported balance
// ---------------------------------------------------------------------
/// Whether a character is a decimal digit.
pub open spec fn is_digit(c: char) -> bool {
    48 <= c as int <= 57
}

/// The numeric value of a decimal digit character.
pub open spec fn digit_value(c: char) -> int {
    c as int - 48
}

/// Whether a piece of text is a plain decimal numeral: nonempty, digits
/// only. No sign, whitespace or grouping is accepted; balance amounts are
/// reported as bare digit runs.
pub open spec fn is_decimal_text(s: Seq<char>) -> bool {
    s.len() > 0 && forall|i: int| 0 <= i < s.len() ==> is_digit(#[trigger] s[i])
}

/// The number a run of decimal digits denotes.
pub open spec fn decimal_value(s: Seq<char>) -> int
    decreases s.len(),
{
    if s.len() == 0 {
        0
    } else {
        decimal_value(s.drop_last()) * 10 + digit_value(s.last())
    }
}

/// A digit run denotes a nonnegative number.
proof fn lemma_decimal_value_nonneg(s: Seq<char>)
    requires
        forall|i: int| 0 <= i < s.len() ==> is_digit(#[trigger] s[i]),
    ensures
        decimal_value(s) >= 0,
    decreases s.len(),
{
    if s.len() > 0 {
        assert(forall|i: int| 0 <= i < s.drop_last().len() ==> is_digit(#[trigger] s.drop_last()[i]));
        lemma_decimal_value_nonneg(s.drop_last());
    }
}

/// Reading one more digit multiplies the prefix's value by ten and adds the
/// digit.
proof fn lemma_decimal_value_step(s: Seq<char>, i: int)
    requires
        0 <= i < s.len(),
    ensures
        decimal_value(s.subrange(0, i + 1)) == decimal_value(s.subrange(0, i)) * 10 + digit_value(
            s[i],
        ),
{
    let t = s.subrange(0, i + 1);
    assert(t.drop_last() =~= s.subrange(0, i));
    assert(t.last() == s[i]);
}

/// A digit run's value never shrinks as it is extended to the right.
proof fn lemma_decimal_value_grows(s: Seq<char>, i: int, j: int)
    requires
        0 <= i <= j <= s.len(),
        forall|k: int| 0 <= k < j ==> is_digit(#[trigger] s[k]),
    ensures
        decimal_value(s.subrange(0, i)) <= decimal_value(s.subrange(0, j)),
    decreases j - i,
{
    if i < j {
        lemma_decimal_value_step(s, i);
        assert(forall|k: int|
            0 <= k < s.subrange(0, i).len() ==> is_digit(#[trigger] s.subrange(0, i)[k]));
        lemma_decimal_value_nonneg(s.subrange(0, i));
        lemma_decimal_value_grows(s, i + 1, j);
    }
}

/// Read a reported balance: the text must be a nonempty run of decimal
/// digits denoting a number that fits the unsigned machine word balances are
/// held in. Anything else — signs, whitespace, other characters, or a value
/// too large — is rejected.
pub fn parse_balance_text(s: &str) -> (r: Option<u64>)
    ensures
        r is Some <==> is_decimal_text(s@) && decimal_value(s@) <= u64::MAX,
        r matches Some(v) ==> v == decimal_value(s@),
{
    let n = s.unicode_len();
    if n == 0 {
        return None;
    }
    let mut value: u64 = 0;
    let mut i: usize = 0;
    while i < n
        invariant
            0 <= i <= n,
            n == s@.len(),
            forall|j: int| 0 <= j < i ==> is_digit(#[trigger] s@[j]),
            value == decimal_value(s@.subrange(0, i as int)),
        decreases n - i,
    {
        let c = s.get_char(i);
        let u = c as u32;
        if u < 48 || u > 57 {
            assert(!is_digit(s@[i as int]));
            return None;
        }
        let d = (u - 48) as u64;
        proof {
            lemma_decimal_value_step(s@, i as int);
        }
        if value > (u64::MAX - d) / 10 {
            proof {
                lemma_fundamental_div_mod((u64::MAX - d) as int, 10);
                lemma_mod_bound((u64::MAX - d) as int, 10);
                lemma_mul_inequality(((u64::MAX - d) / 10) as int + 1, value as int, 10);
                assert(value * 10 + d > u64::MAX);
                if is_decimal_text(s@) && decimal_value(s@) <= u64::MAX {
                    lemma_decimal_value_grows(s@, i as int + 1, s@.len() as int);
                    assert(s@.subrange(0, s@.len() as int) =~= s@);
                    assert(false);
                }
            }
            return None;
        }
        proof {
            lemma_fundamental_div_mod((u64::MAX - d) as int, 10);
            lemma_mod_bound((u64::MAX - d) as int, 10);
            lemma_mul_inequality(value as int, ((u64::MAX - d) / 10) as int, 10);
        }
        value = value * 10 + d;
        i = i + 1;
    }
    proof {
        assert(s@.subrange(0, n as int) =~= s@);
    }
    Some(value)
}

// ---------------------------------------------------------------------
// Sizing the sell
// ---------------------------------------------------------------------
/// The number of units to sell out of a holding: the whole balance when the
/// requested fraction is one or more, otherwise the balance scaled by the
/// fraction and rounded down.
pub open spec fn spec_sell_amount(balance: u64, numer: u64, denom: u64) -> int
    recommends
        denom >= 1,
{
    if numer >= denom {
        balance as int
    } else {
        (balance as int * numer as int) / denom as int
    }
}

/// Compute the number of units to sell out of a holding of `balance` units,
/// under the request's fraction.
pub fn compute_sell_amount(balance: u64, numer: u64, denom: u64) -> (amount: u64)
    requires
        denom >= 1,
    ensures
        amount == spec_sell_amount(balance, numer, denom),
        amount <= balance,
        numer >= denom ==> amount == balance,
{
    if numer >= denom {
        balance
    } else {
        proof {
            lemma_scaled_amount_bounds(balance, numer, denom);
        }
        ((balance as u128 * numer as u128) / denom as u128) as u64
    }
}

/// Scaling a balance by a proper fraction keeps the result between zero and
/// the balance, and the intermediate product fits the doubled word it is
/// computed in.
#[verifier::nonlinear]
proof fn lemma_scaled_amount_bounds(balance: u64, numer: u64, denom: u64)
    requires
        numer < denom,
        denom >= 1,
    ensures
        (balance as int * numer as int) / denom as int >= 0,
        (balance as int * numer as int) / denom as int <= balance as int,
        (balance as int) * (numer as int) >= 0,
        (balance as int) * (numer as int) < u128::MAX,
{
}

/// Convert a whole-percent slippage tolerance to basis points, as the
/// aggregator API expects.
pub fn slippage_to_basis_points(slippage_percent: u32) -> (bps: u64)
    ensures
        bps == 100 * slippage_percent,
{
    slippage_percent as u64 * 100
}

// ---------------------------------------------------------------------
// The fallback pipeline's decisions
// ---------------------------------------------------------------------
/// What resolving the owner's holding of the token showed: the account's
/// reported balance text, its absence, or a wallet or transport failure that
/// prevented the lookup.
#[derive(Debug, PartialEq, Eq)]
pub enum HoldingProbe {
    Unavailable { detail: String },
    Missing,
    Found { raw_amount: String },
}

/// How the aggregator swap API answered: a transaction identifier for the
/// swap it signed and broadcast, or a refusal.
#[derive(Debug, PartialEq, Eq)]
pub enum AggregatorReply {
    Rejected { detail: String },
    Accepted { signature_text: String },
}

/// Judge the trade's token mint before anything is looked up: the fallback
/// path works from the mint's address, so text that is not an address stops
/// the path at once.
pub fn validate_mint(mint: &String) -> (r: Result<(), FallbackError>)
    ensures
        r is Ok <==> is_address_text(mint@),
        !is_address_text(mint@) ==> r == Err::<(), FallbackError>(
            FallbackError::InvalidMint { mint: *mint },
        ),
{
    if address_text_ok(mint.as_str()) {
        Ok(())
    } else {
        Err(FallbackError::InvalidMint { mint: mint.clone() })
    }
}

/// Decide the sell size from what the holding lookup showed. A failed or
/// empty lookup, unreadable balance text, and a zero balance each stop the
/// path — a zero balance before the aggregator is ever invoked — and
/// otherwise the sell is sized by the request's fraction of the balance.
pub fn resolve_sell_amount(probe: &HoldingProbe, request: &SellRequest) -> (r: Result<
    u64,
    FallbackError,
>)
    requires
        request.wf(),
    ensures
        (*probe) matches HoldingProbe::Unavailable { detail } ==> r == Err::<u64, FallbackError>(
            FallbackError::HoldingAccountUnavailable { detail },
        ),
        *probe == HoldingProbe::Missing ==> r == Err::<u64, FallbackError>(
            FallbackError::HoldingAccountMissing,
        ),
        (*probe) matches HoldingProbe::Found { raw_amount } ==> (!(is_decimal_text(raw_amount@)
            && decimal_value(raw_amount@) <= u64::MAX) ==> r == Err::<u64, FallbackError>(
            FallbackError::MalformedBalance { raw: raw_amount },
        )),
        (*probe) matches HoldingProbe::Found { raw_amount } ==> (is_decimal_text(raw_amount@)
            && decimal_value(raw_amount@) == 0 ==> r == Err::<u64, FallbackError>(
            FallbackError::NothingToSell,
        )),
        (*probe) matches HoldingProbe::Found { raw_amount } ==> (is_decimal_text(raw_amount@) && 0
            < decimal_value(raw_amount@) <= u64::MAX ==> r == Ok::<u64, FallbackError>(
            spec_sell_amount(
                decimal_value(raw_amount@) as u64,
                request.amount_in_numer,
                request.amount_in_denom,
            ) as u64,
        )),
{
    match probe {
        HoldingProbe::Unavailable { detail } => Err(
            FallbackError::HoldingAccountUnavailable { detail: detail.clone() },
        ),
        HoldingProbe::Missing => Err(FallbackError::HoldingAccountMissing),
        HoldingProbe::Found { raw_amount } => {
            match parse_balance_text(raw_amount.as_str()) {
                None => Err(FallbackError::MalformedBalance { raw: raw_amount.clone() }),
                Some(balance) => {
                    if balance == 0 {
                        Err(FallbackError::NothingToSell)
                    } else {
                        Ok(
                            compute_sell_amount(
                                balance,
                                request.amount_in_numer,
                                request.amount_in_denom,
                            ),
                        )
                    }
                },
            }
        },
    }
}

/// Judge the aggregator's answer: a refusal is passed through as the path's
/// failure, and an accepted swap must name an identifier that parses as a
/// transaction signature.
pub fn accept_aggregator_reply(reply: &AggregatorReply) -> (r: Result<Signature, FallbackError>)
    ensures
        (*reply) matches AggregatorReply::Rejected { detail } ==> r == Err::<Signature, FallbackError>(
            FallbackError::AggregatorRejected { detail },
        ),
        (*reply) matches AggregatorReply::Accepted { signature_text } ==> (is_signature_text(
            signature_text@,
        ) ==> r is Ok),
        (*reply) matches AggregatorReply::Accepted { signature_text } ==> (!is_signature_text(
            signature_text@,
        ) ==> r == Err::<Signature, FallbackError>(
            FallbackError::AggregatorResponseMalformed { raw: signature_text },
        )),
{
    match reply {
        AggregatorReply::Rejected { detail } => Err(
            FallbackError::AggregatorRejected { detail: detail.clone() },
        ),
        AggregatorReply::Accepted { signature_text } => {
            let mut identifiers: Vec<String> = Vec::new();
            identifiers.push(signature_text.clone());
            match accept_submission(&identifiers) {
                Ok(signature) => Ok(signature),
                Err(_) => Err(
                    FallbackError::AggregatorResponseMalformed { raw: signature_text.clone() },
                ),
            }
        },
    }
}

/// Return the aggregator path's signature only if its confirmation was
/// observed; an unconfirmed send fails with a verification error distinct
/// from a build or submit error.
pub fn conclude_aggregator_sell(signature: Signature, confirmed: bool) -> (r: Result<
    Signature,
    FallbackError,
>)
    ensures
        confirmed ==> r == Ok::<Signature, FallbackError>(signature),
        !confirmed ==> r == Err::<Signature, FallbackError>(
            FallbackError::AggregatorVerificationFailed,
        ),
{
    if confirmed {
        Ok(signature)
    } else {
        Err(FallbackError::AggregatorVerificationFailed)
    }
}

/// Why a fallback run over the given inputs fails, or nothing when it is
/// owed success: each stage's guard, in the order the path takes them.
pub open spec fn spec_fallback_failure(
    trade: TradeRecord,
    probe: HoldingProbe,
    reply: AggregatorReply,
    confirmed: bool,
) -> Option<FallbackError> {
    if !is_address_text(trade.mint@) {
        Some(FallbackError::InvalidMint { mint: trade.mint })
    } else {
        match probe {
            HoldingProbe::Unavailable { detail } => Some(
                FallbackError::HoldingAccountUnavailable { detail },
            ),
            HoldingProbe::Missing => Some(FallbackError::HoldingAccountMissing),
            HoldingProbe::Found { raw_amount } => {
                if !(is_decimal_text(raw_amount@) && decimal_value(raw_amount@) <= u64::MAX) {
                    Some(FallbackError::MalformedBalance { raw: raw_amount })
                } else if decimal_value(raw_amount@) == 0 {
                    Some(FallbackError::NothingToSell)
                } else {
                    match reply {
                        AggregatorReply::Rejected { detail } => Some(
                            FallbackError::AggregatorRejected { detail },
                        ),
                        AggregatorReply::Accepted { signature_text } => {
                            if !is_signature_text(signature_text@) {
                                Some(FallbackError::AggregatorResponseMalformed {
                                    raw: signature_text,
                                })
                            } else if !confirmed {
                                Some(FallbackError::AggregatorVerificationFailed)
                            } else {
                                None
                            }
                        },
                    }
                }
            },
        }
    }
}

/// Run the whole aggregator fallback path over a given trace: what the
/// holding lookup showed, how the aggregator answered, and what each
/// confirmation poll would observe. The path fails exactly where
/// `spec_fallback_failure` says it does, with that error; otherwise it
/// returns the confirmed transaction's signature.
pub fn execute_jupiter_fallback_sell(
    trade: &TradeRecord,
    request: &SellRequest,
    probe: &HoldingProbe,
    reply: &AggregatorReply,
    rounds: &Vec<PollRound>,
) -> (r: Result<Signature, FallbackError>)
    requires
        request.wf(),
        rounds@.len() >= VERIFY_SUB_ATTEMPTS,
    ensures
        r is Ok <==> spec_fallback_failure(
            *trade,
            *probe,
            *reply,
            spec_verify(rounds@, 1, VERIFY_SUB_ATTEMPTS as int).confirmed,
        ) is None,
        r matches Err(e) ==> Some(e) == spec_fallback_failure(
            *trade,
            *probe,
            *reply,
            spec_verify(rounds@, 1, VERIFY_SUB_ATTEMPTS as int).confirmed,
        ),
{
    match validate_mint(&trade.mint) {
        Err(e) => Err(e),
        Ok(()) => {
            match resolve_sell_amount(probe, request) {
                Err(e) => {
                    proof {
                        match probe {
                            HoldingProbe::Found { raw_amount } => {
                                if is_decimal_text(raw_amount@) {
                                    lemma_decimal_value_nonneg(raw_amount@);
                                }
                            },
                            _ => {},
                        }
                    }
                    Err(e)
                },
                Ok(_sell_amount) => {
                    match accept_aggregator_reply(reply) {
                        Err(e) => Err(e),
                        Ok(signature) => {
                            let report = verify_transaction_with_retry(rounds, VERIFY_SUB_ATTEMPTS);
                            conclude_aggregator_sell(signature, report.confirmed)
                        },
                    }
                },
            }
        },
    }
}

} // verus!
