use vstd::prelude::*;

use crate::MAX_RETRIES;
use crate::errors::{AttemptError, SellError};
use crate::outcome::SellTransactionResult;
use solana_signature::Signature;

verus! {

/// How one whole build-submit-verify cycle ended: with a signature whose
/// confirmation was observed on chain, or with the failure that cut the
/// cycle short.
#[derive(Debug, PartialEq, Eq)]
pub enum AttemptObservation {
    Confirmed { signature: Signature },
    Failed { error: AttemptError },
}

impl Clone for AttemptObservation {
    fn clone(&self) -> (r: Self)
        ensures
            r == *self,
    {
        match self {
            AttemptObservation::Confirmed { signature } => AttemptObservation::Confirmed {
                signature: *signature,
            },
            AttemptObservation::Failed { error } => AttemptObservation::Failed {
                error: error.clone(),
            },
        }
    }
}

/// The signature and 1-based attempt number of the first attempt that
/// confirmed, starting the count at `attempt`, or nothing when every attempt
/// through the ceiling failed. One confirmation is terminal: later attempts
/// are never consulted.
pub open spec fn spec_retry(
    observations: Seq<AttemptObservation>,
    attempt: int,
    max_attempts: int,
) -> Option<(Signature, int)>
    decreases max_attempts + 1 - attempt,
{
    if attempt > max_attempts || attempt < 1 {
        None
    } else {
        match observations[attempt - 1] {
            AttemptObservation::Confirmed { signature } => Some((signature, attempt)),
            AttemptObservation::Failed { .. } => spec_retry(
                observations,
                attempt + 1,
                max_attempts,
            ),
        }
    }
}

/// What the retry loop should do next: run one more build-submit-verify
/// cycle, or stop and report.
#[derive(Clone, Copy, Debug, PartialEq, Eq, Structural)]
pub enum RetryAction {
    RunAttempt,
    Conclude,
}

/// The direct-path retry state machine, bounded to the fixed attempt
/// ceiling. The caller carries out each attempt and the pauses between
/// them; which attempt runs, when the loop stops, and what it reports are
/// decided here. Only the most recent failure is retained.
#[derive(Debug)]
pub struct RetryMachine {
    /// The 1-based number of the next attempt.
    pub attempt: u64,
    /// The confirmed signature, once an attempt succeeded.
    pub confirmed: Option<Signature>,
    /// The attempt number that confirmed, meaningful once `confirmed` is.
    pub confirmed_attempt: u32,
    /// The failure recorded by the most recent failed attempt.
    pub last_error: Option<AttemptError>,
}

impl RetryMachine {
    pub open spec fn wf(self) -> bool {
        &&& 1 <= self.attempt <= MAX_RETRIES + 1
        &&& self.confirmed is Some ==> self.attempt <= MAX_RETRIES && self.confirmed_attempt
            == self.attempt
        &&& self.attempt > 1 && self.confirmed is None ==> self.last_error is Some
    }

    pub fn new() -> (m: Self)
        ensures
            m.wf(),
            m.attempt == 1,
            m.confirmed is None,
            m.last_error is None,
    {
        RetryMachine { attempt: 1, confirmed: None, confirmed_attempt: 0, last_error: None }
    }

    /// Decide whether another attempt is owed: one is, exactly when nothing
    /// has confirmed yet and the ceiling is not reached.
    pub fn next_action(&self) -> (a: RetryAction)
        requires
            self.wf(),
        ensures
            a == RetryAction::RunAttempt <==> (self.confirmed is None && self.attempt
                <= MAX_RETRIES),
    {
        if self.confirmed.is_none() && self.attempt <= MAX_RETRIES as u64 {
            RetryAction::RunAttempt
        } else {
            RetryAction::Conclude
        }
    }

    /// Absorb how one attempt ended. A confirmation is terminal; a failure
    /// is recorded as the most recent one and spends the attempt. The result
    /// says whether the caller should pause before the next attempt.
    pub fn absorb(&mut self, observation: AttemptObservation) -> (delay: bool)
        requires
            old(self).wf(),
            old(self).confirmed is None,
            old(self).attempt <= MAX_RETRIES,
        ensures
            final(self).wf(),
            observation matches AttemptObservation::Confirmed { signature } ==> final(self).confirmed
                == Some(signature) && final(self).confirmed_attempt == old(self).attempt
                && final(self).attempt == old(self).attempt
                && final(self).last_error == old(self).last_error,
            observation matches AttemptObservation::Failed { error } ==> final(self).confirmed
                is None && final(self).attempt == old(self).attempt + 1 && final(self).last_error
                == Some(error),
            delay == (observation matches AttemptObservation::Failed { .. } && old(self).attempt
                + 1 <= MAX_RETRIES),
    {
        match observation {
            AttemptObservation::Confirmed { signature } => {
                self.confirmed_attempt = self.attempt as u32;
                self.confirmed = Some(signature);
                false
            },
            AttemptObservation::Failed { error } => {
                self.last_error = Some(error);
                self.attempt = self.attempt + 1;
                self.attempt <= MAX_RETRIES as u64
            },
        }
    }

    /// Report the finished loop: success names the signature and the attempt
    /// that confirmed; exhaustion names the ceiling and the failure recorded
    /// on the final attempt.
    pub fn conclude(self) -> (r: Result<SellTransactionResult, SellError>)
        requires
            self.wf(),
            self.confirmed is Some || self.attempt > MAX_RETRIES,
        ensures
            self.confirmed matches Some(signature) ==> r == Ok::<_, SellError>(
                SellTransactionResult {
                    success: true,
                    signature: Some(signature),
                    error: None,
                    used_jupiter_fallback: false,
                    attempt_count: self.confirmed_attempt,
                },
            ),
            self.confirmed is None ==> (self.last_error matches Some(error) && r == Err::<
                SellTransactionResult,
                _,
            >(SellError::RetryExhausted { attempts: MAX_RETRIES, last: error })),
    {
        match self.confirmed {
            Some(signature) => Ok(
                SellTransactionResult {
                    success: true,
                    signature: Some(signature),
                    error: None,
                    used_jupiter_fallback: false,
                    attempt_count: self.confirmed_attempt,
                },
            ),
            None => {
                match self.last_error {
                    Some(error) => Err(
                        SellError::RetryExhausted { attempts: MAX_RETRIES, last: error },
                    ),
                    None => unreached(),
                }
            },
        }
    }
}

/// Decide how one attempt ended once its transaction was submitted and its
/// confirmation polled for: a confirmed signature ends the attempt in
/// success, and anything else is a verification failure naming the
/// submitted identifier.
pub fn observe_verification(signature: Signature, signature_text: String, confirmed: bool) -> (o:
    AttemptObservation)
    ensures
        confirmed ==> o == (AttemptObservation::Confirmed { signature }),
        !confirmed ==> o == (AttemptObservation::Failed {
            error: AttemptError::VerificationFailed { signature_text },
        }),
{
    if confirmed {
        AttemptObservation::Confirmed { signature }
    } else {
        AttemptObservation::Failed { error: AttemptError::VerificationFailed { signature_text } }
    }
}

/// Run the whole direct-path retry loop over a given trace of attempt
/// outcomes. `observations[i]` is how the `i+1`-th attempt would end; the
/// run consults an attempt only if every earlier one failed.
pub fn execute_normal_sell_with_retry(observations: &Vec<AttemptObservation>) -> (r: Result<
    SellTransactionResult,
    SellError,
>)
    requires
        observations@.len() >= MAX_RETRIES,
    ensures
        spec_retry(observations@, 1, MAX_RETRIES as int) matches Some(sk) ==> r == Ok::<
            _,
            SellError,
        >(
            SellTransactionResult {
                success: true,
                signature: Some(sk.0),
                error: None,
                used_jupiter_fallback: false,
                attempt_count: sk.1 as u32,
            },
        ),
        spec_retry(observations@, 1, MAX_RETRIES as int) is None ==> (observations@[MAX_RETRIES
            - 1] matches AttemptObservation::Failed { error } && r == Err::<
            SellTransactionResult,
            _,
        >(SellError::RetryExhausted { attempts: MAX_RETRIES, last: error })),
{
    let mut m = RetryMachine::new();
    loop
        invariant
            m.wf(),
            observations@.len() >= MAX_RETRIES,
            m.confirmed is None ==> spec_retry(observations@, 1, MAX_RETRIES as int) == spec_retry(
                observations@,
                m.attempt as int,
                MAX_RETRIES as int,
            ),
            m.confirmed matches Some(s) ==> spec_retry(observations@, 1, MAX_RETRIES as int)
                == Some((s, m.confirmed_attempt as int)),
            m.confirmed is None && m.attempt > 1 ==> (observations@[m.attempt - 2] matches
                AttemptObservation::Failed { error } && m.last_error == Some(error)),
        decreases 2 * (MAX_RETRIES + 2 - m.attempt) + (if m.confirmed is None {
            1int
        } else {
            0int
        }),
    {
        match m.next_action() {
            RetryAction::Conclude => {
                return m.conclude();
            },
            RetryAction::RunAttempt => {
                let ghost prev = m;
                let observation = observations[(m.attempt - 1) as usize].clone();
                let _delay = m.absorb(observation);
                proof {
                    assert(spec_retry(observations@, prev.attempt as int, MAX_RETRIES as int)
                        == match observations@[prev.attempt - 1] {
                        AttemptObservation::Confirmed { signature } => Some(
                            (signature, prev.attempt as int),
                        ),
                        AttemptObservation::Failed { .. } => spec_retry(
                            observations@,
                            prev.attempt + 1,
                            MAX_RETRIES as int,
                        ),
                    });
                }
            },
        }
    }
}

/// A run whose attempts all fail confirms nothing: exhaustion is the only
/// outcome once every attempt through the ceiling has failed.
pub proof fn lemma_retry_ceiling(observations: Seq<AttemptObservation>, attempt: int, max_attempts: int)
    requires
        forall|i: int|
            0 <= i < max_attempts ==> (#[trigger] observations[i]) matches AttemptObservation::Failed {
                ..
            },
    ensures
        spec_retry(observations, attempt, max_attempts) is None,
    decreases max_attempts + 1 - attempt,
{
    if 1 <= attempt <= max_attempts {
        lemma_retry_ceiling(observations, attempt + 1, max_attempts);
    }
}

/// An early confirmation halts the loop: when the first attempt fails and
/// the second confirms, the run reports the second attempt's signature and
/// attempt number two, and no third attempt is consulted.
pub proof fn lemma_early_success_halts_retry(
    observations: Seq<AttemptObservation>,
    signature: Signature,
    max_attempts: int,
)
    requires
        max_attempts >= 2,
        observations.len() >= 2,
        observations[0] matches AttemptObservation::Failed { .. },
        observations[1] == (AttemptObservation::Confirmed { signature }),
    ensures
        spec_retry(observations, 1, max_attempts) == Some((signature, 2int)),
{
    assert(spec_retry(observations, 1, max_attempts) == spec_retry(observations, 2, max_attempts));
    assert(spec_retry(observations, 2, max_attempts) == Some((signature, 2int)));
}

} // verus!
