use vstd::prelude::*;

pub mod chain;
pub mod dispatch;
pub mod errors;
pub mod fallback;
pub mod orchestrator;
pub mod outcome;
pub mod retry;
pub mod confirm;

verus! {

/// Ceiling on build-submit-verify attempts on the direct venue path.
pub const MAX_RETRIES: u32 = 3;

/// Pause between two direct-path attempts, in milliseconds.
pub const RETRY_DELAY_MS: u64 = 2000;

/// Wall-clock budget for confirmation polling, in milliseconds.
pub const VERIFICATION_TIMEOUT_MS: u64 = 30000;

/// Pause between two status polls, in milliseconds.
pub const STATUS_POLL_DELAY_MS: u64 = 1000;

/// Polling-attempt budget that each attempt's verification runs with,
/// independent of the outer retry ceiling.
pub const VERIFY_SUB_ATTEMPTS: u32 = 5;

/// One parsed trade record, as far as this engine reads it: the token mint
/// the sell is denominated in, and the venue the trade originated on. The
/// record is owned by the caller and immutable for the whole operation.
#[derive(Debug, PartialEq, Eq)]
pub struct TradeRecord {
    pub mint: String,
    pub dex: crate::dispatch::DexVariant,
}

/// The sell configuration, cloned into each attempt. The fraction of the
/// holding to sell is the ratio of the two amount fields: a ratio of one or
/// more means the entire holding, a ratio below one means that fraction of
/// the current balance, rounded down.
#[derive(Clone, Copy, Debug, PartialEq, Eq, Structural)]
pub struct SellRequest {
    /// Numerator of the fraction of the holding to sell.
    pub amount_in_numer: u64,
    /// Denominator of the fraction of the holding to sell; at least one.
    pub amount_in_denom: u64,
    /// Slippage tolerance in whole percent; the aggregator path converts it
    /// to basis points.
    pub slippage_percent: u32,
}

impl SellRequest {
    pub open spec fn wf(self) -> bool {
        self.amount_in_denom >= 1
    }
}

} // verus!
