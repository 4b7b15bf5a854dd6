use vstd::prelude::*;

verus! {

/// What went wrong inside one build-submit-verify cycle on the direct venue
/// path. Each attempt resolves to a confirmed signature or to one of these;
/// the retry loop records the most recent one and drives on.
#[derive(Debug, PartialEq, Eq)]
pub enum AttemptError {
    /// The venue builder could not construct a valid instruction set.
    BuildFailed { detail: String },
    /// The latest blockhash was unavailable, so the attempt would have
    /// submitted against stale state.
    BlockhashUnavailable,
    /// The submission transport failed to broadcast the transaction.
    SubmitFailed { detail: String },
    /// The submission transport returned zero transaction identifiers,
    /// which the protocol never allows.
    NoSignatureReturned,
    /// The transport returned an identifier that does not parse as a
    /// transaction signature.
    MalformedSignature { raw: String },
    /// The transaction was submitted but never observed as confirmed: the
    /// status poll saw an on-chain failure or ran out of its budget.
    VerificationFailed { signature_text: String },
}

impl Clone for AttemptError {
    fn clone(&self) -> (r: Self)
        ensures
            r == *self,
    {
        match self {
            AttemptError::BuildFailed { detail } => AttemptError::BuildFailed {
                detail: detail.clone(),
            },
            AttemptError::BlockhashUnavailable => AttemptError::BlockhashUnavailable,
            AttemptError::SubmitFailed { detail } => AttemptError::SubmitFailed {
                detail: detail.clone(),
            },
            AttemptError::NoSignatureReturned => AttemptError::NoSignatureReturned,
            AttemptError::MalformedSignature { raw } => AttemptError::MalformedSignature {
                raw: raw.clone(),
            },
            AttemptError::VerificationFailed { signature_text } => AttemptError::VerificationFailed {
                signature_text: signature_text.clone(),
            },
        }
    }
}

/// What went wrong on the aggregator fallback path, tried only once the
/// direct venue path has used up its whole attempt ceiling.
#[derive(Clone, Debug, PartialEq, Eq)]
pub enum FallbackError {
    /// The trade's token mint is not a well-formed on-chain address.
    InvalidMint { mint: String },
    /// The owner's wallet or the balance query transport was unavailable.
    HoldingAccountUnavailable { detail: String },
    /// The holding account for (owner, mint) does not exist on chain.
    HoldingAccountMissing,
    /// The balance query answered with text that is not a decimal amount.
    MalformedBalance { raw: String },
    /// The holding account exists but its balance is zero.
    NothingToSell,
    /// The aggregator swap API refused or failed the swap.
    AggregatorRejected { detail: String },
    /// The aggregator returned an identifier that does not parse as a
    /// transaction signature.
    AggregatorResponseMalformed { raw: String },
    /// The aggregator's transaction was sent but never observed as
    /// confirmed within the polling budget.
    AggregatorVerificationFailed,
}

/// A terminal failure of a whole sell operation.
#[derive(Clone, Debug, PartialEq, Eq)]
pub enum SellError {
    /// The direct venue path used up its whole attempt ceiling; `last` is
    /// the failure recorded on the final attempt.
    RetryExhausted { attempts: u32, last: AttemptError },
    /// The whole operation failed: the retry budget ran out and then the
    /// aggregator path failed too, for the reason in `cause`.
    FallbackFailed { cause: FallbackError },
}

} // verus!
