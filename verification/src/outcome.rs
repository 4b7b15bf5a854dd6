use vstd::prelude::*;

use crate::errors::SellError;
use solana_signature::Signature;

verus! {

/// The single caller-visible result of one whole sell operation. Exactly one
/// of these is built per top-level call; every failure mode is folded into
/// it rather than raised.
#[derive(Clone, Debug, PartialEq, Eq)]
pub struct SellTransactionResult {
    /// Whether a transaction confirming the sell landed on chain.
    pub success: bool,
    /// The confirmed transaction's signature, when `success` holds.
    pub signature: Option<Signature>,
    /// The terminal failure, when `success` does not hold.
    pub error: Option<SellError>,
    /// Whether the aggregator fallback path produced this result.
    pub used_jupiter_fallback: bool,
    /// On the direct path, the attempt that confirmed; when the fallback
    /// path was used, the sentinel value one past the retry ceiling.
    pub attempt_count: u32,
}

impl SellTransactionResult {
    /// A successful outcome always carries its signature; a failed one
    /// always carries its error.
    pub open spec fn wf(self) -> bool {
        &&& self.success ==> self.signature is Some && self.error is None
        &&& !self.success ==> self.error is Some && self.signature is None
    }
}

} // verus!
