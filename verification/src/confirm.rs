use vstd::prelude::*;

use crate::VERIFICATION_TIMEOUT_MS;

verus! {

/// What one status poll showed about the transaction. A definite status with
/// no on-chain error confirms the transaction; a definite status carrying an
/// on-chain error rejects it; anything else (no status yet, or the query
/// itself failing) is unknown and worth another poll.
#[derive(Clone, Copy, Debug, PartialEq, Eq, Structural)]
pub enum StatusObservation {
    Succeeded,
    FailedOnChain,
    Unknown,
}

/// One iteration of the polling loop: how much wall-clock time had elapsed
/// when the iteration began, and what the status query then showed.
#[derive(Clone, Copy, Debug, PartialEq, Eq, Structural)]
pub struct PollRound {
    pub elapsed_ms: u64,
    pub observation: StatusObservation,
}

/// How a polling run ends: whether the transaction was confirmed, and how
/// many status queries were issued before the run stopped.
pub struct VerdictModel {
    pub confirmed: bool,
    pub polls: int,
}

/// The verdict reached by polling from attempt number `attempt` (1-based) up
/// to the ceiling `max_attempts`, given what each iteration would observe.
/// Success and on-chain failure are terminal at the first definite status;
/// only an unknown result spends another attempt; a round that begins past
/// the wall-clock budget stops without issuing its query.
pub open spec fn spec_verify(rounds: Seq<PollRound>, attempt: int, max_attempts: int) -> VerdictModel
    decreases max_attempts + 1 - attempt,
{
    if attempt > max_attempts || attempt < 1 {
        VerdictModel { confirmed: false, polls: 0 }
    } else if rounds[attempt - 1].elapsed_ms > VERIFICATION_TIMEOUT_MS {
        VerdictModel { confirmed: false, polls: 0 }
    } else {
        match rounds[attempt - 1].observation {
            StatusObservation::Succeeded => VerdictModel { confirmed: true, polls: 1 },
            StatusObservation::FailedOnChain => VerdictModel { confirmed: false, polls: 1 },
            StatusObservation::Unknown => {
                let rest = spec_verify(rounds, attempt + 1, max_attempts);
                VerdictModel { confirmed: rest.confirmed, polls: rest.polls + 1 }
            },
        }
    }
}

/// What the polling loop should do next: stop with a verdict, or issue one
/// more status query.
#[derive(Clone, Copy, Debug, PartialEq, Eq, Structural)]
pub enum VerifierAction {
    Finish { confirmed: bool },
    QueryStatus,
}

/// The confirmation-polling state machine. The caller performs the status
/// queries and the pauses; every decision about what the observations mean
/// is taken here.
#[derive(Clone, Copy, Debug)]
pub struct VerifierMachine {
    /// The polling-attempt ceiling this run was started with.
    pub max_attempts: u32,
    /// The 1-based number of the next attempt.
    pub attempt: u64,
    /// How many status queries have been absorbed so far.
    pub polls: u64,
    /// The terminal verdict, once one of the polls was definite.
    pub verdict: Option<bool>,
}

impl VerifierMachine {
    pub open spec fn wf(self) -> bool {
        &&& 1 <= self.attempt <= self.max_attempts + 1
        &&& self.verdict is Some ==> self.attempt <= self.max_attempts
        &&& self.polls == self.attempt - 1 + (if self.verdict is Some {
            1int
        } else {
            0int
        })
    }

    pub fn new(max_attempts: u32) -> (m: Self)
        ensures
            m.wf(),
            m.max_attempts == max_attempts,
            m.attempt == 1,
            m.polls == 0,
            m.verdict is None,
    {
        VerifierMachine { max_attempts, attempt: 1, polls: 0, verdict: None }
    }

    /// Decide whether to keep polling, given how much wall-clock time has
    /// elapsed. A verdict, an exhausted attempt budget, or an exceeded time
    /// budget each end the run; failure is the default for the latter two.
    pub fn next_action(&self, elapsed_ms: u64) -> (a: VerifierAction)
        requires
            self.wf(),
        ensures
            self.verdict matches Some(c) ==> a == (VerifierAction::Finish { confirmed: c }),
            self.verdict is None && self.attempt > self.max_attempts ==> a == (
            VerifierAction::Finish { confirmed: false }),
            self.verdict is None && self.attempt <= self.max_attempts && elapsed_ms
                > VERIFICATION_TIMEOUT_MS ==> a == (VerifierAction::Finish { confirmed: false }),
            self.verdict is None && self.attempt <= self.max_attempts && elapsed_ms
                <= VERIFICATION_TIMEOUT_MS ==> a == VerifierAction::QueryStatus,
    {
        match self.verdict {
            Some(c) => VerifierAction::Finish { confirmed: c },
            None => {
                if self.attempt > self.max_attempts as u64 {
                    VerifierAction::Finish { confirmed: false }
                } else if elapsed_ms > VERIFICATION_TIMEOUT_MS {
                    VerifierAction::Finish { confirmed: false }
                } else {
                    VerifierAction::QueryStatus
                }
            },
        }
    }

    /// Absorb what one status query showed. A definite status settles the
    /// verdict at once; an unknown one spends the attempt. The result says
    /// whether the caller should pause before polling again.
    pub fn absorb(&mut self, observation: StatusObservation) -> (delay: bool)
        requires
            old(self).wf(),
            old(self).verdict is None,
            old(self).attempt <= old(self).max_attempts,
        ensures
            final(self).wf(),
            final(self).max_attempts == old(self).max_attempts,
            final(self).polls == old(self).polls + 1,
            observation == StatusObservation::Succeeded ==> final(self).verdict == Some(true)
                && final(self).attempt == old(self).attempt,
            observation == StatusObservation::FailedOnChain ==> final(self).verdict == Some(false)
                && final(self).attempt == old(self).attempt,
            observation == StatusObservation::Unknown ==> final(self).verdict is None
                && final(self).attempt == old(self).attempt + 1,
            delay == (observation == StatusObservation::Unknown
                && old(self).attempt + 1 <= old(self).max_attempts),
    {
        self.polls = self.polls + 1;
        match observation {
            StatusObservation::Succeeded => {
                self.verdict = Some(true);
                false
            },
            StatusObservation::FailedOnChain => {
                self.verdict = Some(false);
                false
            },
            StatusObservation::Unknown => {
                self.attempt = self.attempt + 1;
                self.attempt <= self.max_attempts as u64
            },
        }
    }
}

/// How a finished polling run is reported to the caller.
#[derive(Clone, Copy, Debug, PartialEq, Eq, Structural)]
pub struct VerificationReport {
    pub confirmed: bool,
    pub polls: u32,
}

/// Run the whole confirmation-polling state machine over a given trace of
/// iterations. `rounds[i]` is what the `i+1`-th iteration would see; the run
/// consults an iteration only if the previous ones were all unknown and
/// within budget.
pub fn verify_transaction_with_retry(rounds: &Vec<PollRound>, max_attempts: u32) -> (r:
    VerificationReport)
    requires
        rounds@.len() >= max_attempts,
    ensures
        r.confirmed == spec_verify(rounds@, 1, max_attempts as int).confirmed,
        r.polls == spec_verify(rounds@, 1, max_attempts as int).polls,
        r.polls <= max_attempts,
{
    let mut m = VerifierMachine::new(max_attempts);
    loop
        invariant
            m.wf(),
            m.max_attempts == max_attempts,
            rounds@.len() >= max_attempts,
            m.verdict is None ==> spec_verify(rounds@, 1, max_attempts as int) == (VerdictModel {
                confirmed: spec_verify(rounds@, m.attempt as int, max_attempts as int).confirmed,
                polls: m.polls + spec_verify(rounds@, m.attempt as int, max_attempts as int).polls,
            }),
            m.verdict matches Some(c) ==> spec_verify(rounds@, 1, max_attempts as int) == (
            VerdictModel { confirmed: c, polls: m.polls as int }),
        decreases 2 * (max_attempts + 2 - m.attempt) + (if m.verdict is None {
            1int
        } else {
            0int
        }),
    {
        let elapsed_ms: u64 = if m.verdict.is_none() && m.attempt <= max_attempts as u64 {
            rounds[(m.attempt - 1) as usize].elapsed_ms
        } else {
            0
        };
        match m.next_action(elapsed_ms) {
            VerifierAction::Finish { confirmed } => {
                return VerificationReport { confirmed, polls: m.polls as u32 };
            },
            VerifierAction::QueryStatus => {
                let ghost prev = m;
                let observation = rounds[(m.attempt - 1) as usize].observation;
                let _delay = m.absorb(observation);
                proof {
                    assert(spec_verify(rounds@, prev.attempt as int, max_attempts as int) == (
                    match rounds@[prev.attempt - 1].observation {
                        StatusObservation::Succeeded => VerdictModel {
                            confirmed: true,
                            polls: 1,
                        },
                        StatusObservation::FailedOnChain => VerdictModel {
                            confirmed: false,
                            polls: 1,
                        },
                        StatusObservation::Unknown => {
                            let rest = spec_verify(
                                rounds@,
                                prev.attempt + 1,
                                max_attempts as int,
                            );
                            VerdictModel { confirmed: rest.confirmed, polls: rest.polls + 1 }
                        },
                    }));
                }
            },
        }
    }
}

/// Fast-path confirmation: when the first poll is within budget and shows a
/// definite status with no on-chain error, the run confirms at once, having
/// issued exactly one query.
pub proof fn lemma_confirm_on_first_poll(rounds: Seq<PollRound>, max_attempts: int)
    requires
        max_attempts >= 1,
        rounds.len() >= 1,
        rounds[0].elapsed_ms <= VERIFICATION_TIMEOUT_MS,
        rounds[0].observation == StatusObservation::Succeeded,
    ensures
        spec_verify(rounds, 1, max_attempts) == (VerdictModel { confirmed: true, polls: 1 }),
{
}

/// Fast-path rejection: when the first poll is within budget and shows a
/// definite status carrying an on-chain error, the run rejects at once,
/// never issuing a second query.
pub proof fn lemma_reject_on_first_poll(rounds: Seq<PollRound>, max_attempts: int)
    requires
        max_attempts >= 1,
        rounds.len() >= 1,
        rounds[0].elapsed_ms <= VERIFICATION_TIMEOUT_MS,
        rounds[0].observation == StatusObservation::FailedOnChain,
    ensures
        spec_verify(rounds, 1, max_attempts) == (VerdictModel { confirmed: false, polls: 1 }),
{
}

/// A run that only ever observes unknown statuses never confirms, and it
/// issues at most one query per remaining attempt — exactly one per
/// remaining attempt when every iteration begins within the time budget.
pub proof fn lemma_unknown_never_confirms(rounds: Seq<PollRound>, attempt: int, max_attempts: int)
    requires
        1 <= attempt <= max_attempts + 1,
        forall|i: int|
            0 <= i < max_attempts ==> rounds[i].observation == StatusObservation::Unknown,
    ensures
        !spec_verify(rounds, attempt, max_attempts).confirmed,
        0 <= spec_verify(rounds, attempt, max_attempts).polls <= max_attempts + 1 - attempt,
        (forall|i: int|
            0 <= i < max_attempts ==> rounds[i].elapsed_ms <= VERIFICATION_TIMEOUT_MS)
            ==> spec_verify(rounds, attempt, max_attempts).polls == max_attempts + 1 - attempt,
    decreases max_attempts + 1 - attempt,
{
    if attempt <= max_attempts && rounds[attempt - 1].elapsed_ms <= VERIFICATION_TIMEOUT_MS {
        lemma_unknown_never_confirms(rounds, attempt + 1, max_attempts);
    }
}

/// When every poll is unknown and the time budget runs out first — the
/// iteration after the first `k` begins past the budget — the run stops
/// there: it rejects after exactly `k` queries, not spending the remaining
/// configured attempts.
pub proof fn lemma_unknown_times_out(rounds: Seq<PollRound>, k: int, max_attempts: int)
    requires
        0 <= k < max_attempts,
        forall|i: int|
            0 <= i < k ==> rounds[i].observation == StatusObservation::Unknown && rounds[i].elapsed_ms
                <= VERIFICATION_TIMEOUT_MS,
        rounds[k].elapsed_ms > VERIFICATION_TIMEOUT_MS,
    ensures
        spec_verify(rounds, 1, max_attempts) == (VerdictModel { confirmed: false, polls: k }),
{
    lemma_unknown_times_out_from(rounds, 1, k, max_attempts);
}

proof fn lemma_unknown_times_out_from(rounds: Seq<PollRound>, attempt: int, k: int, max_attempts: int)
    requires
        1 <= attempt <= k + 1,
        k < max_attempts,
        forall|i: int|
            attempt - 1 <= i < k ==> rounds[i].observation == StatusObservation::Unknown
                    && rounds[i].elapsed_ms <= VERIFICATION_TIMEOUT_MS,
        rounds[k].elapsed_ms > VERIFICATION_TIMEOUT_MS,
    ensures
        spec_verify(rounds, attempt, max_attempts) == (VerdictModel {
            confirmed: false,
            polls: k + 1 - attempt,
        }),
    decreases k + 1 - attempt,
{
    if attempt <= k {
        lemma_unknown_times_out_from(rounds, attempt + 1, k, max_attempts);
    }
}

} // verus!
