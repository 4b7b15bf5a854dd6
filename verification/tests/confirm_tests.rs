use sell_engine::VERIFY_SUB_ATTEMPTS;
use sell_engine::confirm::{
    PollRound, StatusObservation, VerifierAction, VerifierMachine, verify_transaction_with_retry,
};

fn round(elapsed_ms: u64, observation: StatusObservation) -> PollRound {
    PollRound { elapsed_ms, observation }
}

#[test]
fn fast_path_confirm_first_poll() {
    let rounds = vec![
        round(0, StatusObservation::Succeeded),
        round(1000, StatusObservation::Unknown),
        round(2000, StatusObservation::Unknown),
        round(3000, StatusObservation::Unknown),
        round(4000, StatusObservation::Unknown),
    ];
    let report = verify_transaction_with_retry(&rounds, VERIFY_SUB_ATTEMPTS);
    assert!(report.confirmed);
    assert_eq!(report.polls, 1);
}

#[test]
fn fast_path_reject_first_poll() {
    let rounds = vec![
        round(0, StatusObservation::FailedOnChain),
        round(1000, StatusObservation::Succeeded),
        round(2000, StatusObservation::Succeeded),
        round(3000, StatusObservation::Succeeded),
        round(4000, StatusObservation::Succeeded),
    ];
    let report = verify_transaction_with_retry(&rounds, VERIFY_SUB_ATTEMPTS);
    assert!(!report.confirmed);
    assert_eq!(report.polls, 1);
}

#[test]
fn unknown_exhausts_attempt_budget() {
    let rounds = vec![
        round(0, StatusObservation::Unknown),
        round(1000, StatusObservation::Unknown),
        round(2000, StatusObservation::Unknown),
        round(3000, StatusObservation::Unknown),
        round(4000, StatusObservation::Unknown),
    ];
    let report = verify_transaction_with_retry(&rounds, VERIFY_SUB_ATTEMPTS);
    assert!(!report.confirmed);
    assert_eq!(report.polls, VERIFY_SUB_ATTEMPTS);
}

#[test]
fn unknown_stops_at_time_budget() {
    let rounds = vec![
        round(0, StatusObservation::Unknown),
        round(15000, StatusObservation::Unknown),
        round(30001, StatusObservation::Unknown),
        round(31000, StatusObservation::Unknown),
        round(32000, StatusObservation::Unknown),
    ];
    let report = verify_transaction_with_retry(&rounds, VERIFY_SUB_ATTEMPTS);
    assert!(!report.confirmed);
    assert_eq!(report.polls, 2);
}

#[test]
fn late_confirmation_is_accepted_within_budget() {
    let rounds = vec![
        round(0, StatusObservation::Unknown),
        round(1000, StatusObservation::Unknown),
        round(2000, StatusObservation::Succeeded),
        round(3000, StatusObservation::Unknown),
        round(4000, StatusObservation::Unknown),
    ];
    let report = verify_transaction_with_retry(&rounds, VERIFY_SUB_ATTEMPTS);
    assert!(report.confirmed);
    assert_eq!(report.polls, 3);
}

#[test]
fn machine_steps_match_the_polling_policy() {
    let mut machine = VerifierMachine::new(2);
    assert_eq!(machine.next_action(0), VerifierAction::QueryStatus);
    let delay = machine.absorb(StatusObservation::Unknown);
    assert!(delay);
    assert_eq!(machine.next_action(1500), VerifierAction::QueryStatus);
    let delay = machine.absorb(StatusObservation::Unknown);
    assert!(!delay);
    assert_eq!(machine.next_action(2500), VerifierAction::Finish { confirmed: false });
}

#[test]
fn machine_finishes_early_past_time_budget() {
    let machine = VerifierMachine::new(5);
    assert_eq!(machine.next_action(30001), VerifierAction::Finish { confirmed: false });
    assert_eq!(machine.next_action(30000), VerifierAction::QueryStatus);
}

#[test]
fn machine_settles_on_definite_status() {
    let mut machine = VerifierMachine::new(5);
    let delay = machine.absorb(StatusObservation::Succeeded);
    assert!(!delay);
    assert_eq!(machine.next_action(0), VerifierAction::Finish { confirmed: true });
}
