use vstd::prelude::*;

use crate::chain::{is_signature_text, parse_signature_text};
use crate::errors::AttemptError;
use solana_signature::Signature;

verus! {

/// The closed set of venues a trade record can originate from. A record
/// whose venue the parser did not recognize still names the trade; the
/// dispatcher routes it to the default builder rather than failing.
#[derive(Clone, Copy, Debug, PartialEq, Eq, Structural)]
pub enum DexVariant {
    PumpFun,
    PumpSwap,
    RaydiumLaunchpad,
    Unrecognized,
}

/// The broadcast policy a signed transaction is submitted under.
#[derive(Clone, Copy, Debug, PartialEq, Eq, Structural)]
pub enum LandingStrategy {
    /// Ordinary broadcast through the regular submission path.
    Standard,
    /// Priority broadcast through the low-latency submission path.
    Priority,
}

/// Which builder serves a venue: each recognized venue builds its own swap,
/// and an unrecognized one is deliberately routed to the first-listed venue.
/// That permissive default is a policy choice — it misroutes rather than
/// fails — and this function is the one place that states it.
pub open spec fn spec_builder_for(dex: DexVariant) -> DexVariant {
    if dex == DexVariant::Unrecognized {
        DexVariant::PumpFun
    } else {
        dex
    }
}

/// Which broadcast policy serves a venue: the low-latency path for the
/// launchpad venue, the regular path for the other two.
pub open spec fn spec_strategy_for(builder: DexVariant) -> LandingStrategy {
    if builder == DexVariant::RaydiumLaunchpad {
        LandingStrategy::Priority
    } else {
        LandingStrategy::Standard
    }
}

/// The per-venue choices one sell attempt is carried out with.
#[derive(Clone, Copy, Debug, PartialEq, Eq, Structural)]
pub struct DispatchPlan {
    pub builder: DexVariant,
    pub strategy: LandingStrategy,
}

/// Select the builder and the landing strategy for one sell attempt on the
/// given venue.
pub fn plan_dispatch(dex: DexVariant) -> (p: DispatchPlan)
    ensures
        p.builder == spec_builder_for(dex),
        p.strategy == spec_strategy_for(spec_builder_for(dex)),
        p.builder != DexVariant::Unrecognized,
{
    let builder = match dex {
        DexVariant::PumpFun => DexVariant::PumpFun,
        DexVariant::PumpSwap => DexVariant::PumpSwap,
        DexVariant::RaydiumLaunchpad => DexVariant::RaydiumLaunchpad,
        DexVariant::Unrecognized => DexVariant::PumpFun,
    };
    let strategy = match builder {
        DexVariant::RaydiumLaunchpad => LandingStrategy::Priority,
        _ => LandingStrategy::Standard,
    };
    DispatchPlan { builder, strategy }
}

/// Judge what the submission transport handed back. Zero identifiers is a
/// protocol violation; otherwise the first identifier must parse as a
/// transaction signature, and the rest are ignored.
pub fn accept_submission(identifiers: &Vec<String>) -> (r: Result<Signature, AttemptError>)
    ensures
        identifiers@.len() == 0 ==> r == Err::<Signature, AttemptError>(
            AttemptError::NoSignatureReturned,
        ),
        identifiers@.len() > 0 && is_signature_text(identifiers@[0]@) ==> r is Ok,
        identifiers@.len() > 0 && !is_signature_text(identifiers@[0]@) ==> r == Err::<
            Signature,
            AttemptError,
        >(AttemptError::MalformedSignature { raw: identifiers@[0] }),
{
    if identifiers.len() == 0 {
        Err(AttemptError::NoSignatureReturned)
    } else {
        match parse_signature_text(identifiers[0].as_str()) {
            Some(signature) => Ok(signature),
            None => Err(AttemptError::MalformedSignature { raw: identifiers[0].clone() }),
        }
    }
}

} // verus!
