use escrow_ledger::callback::{handle_callback, CallbackStatus, ComputationOutcome};
use escrow_ledger::delegation::{DelegationError, DelegationOp, DelegationState};
use escrow_ledger::entry::{AggregateState, RequestKind, RevealAnswer, RevealQuery};
use escrow_ledger::error::{InsufficientFunds, LedgerError, StaleOrUnknownCallback};
use escrow_ledger::fees::{FeeError, FeeSplitter};
use escrow_ledger::gateway::{issue_aggregation, issue_reveal, EncryptedDelta, RequestPayload};
use escrow_ledger::ledger::Ledger;
use escrow_ledger::transfer::{Movement, TransferRequest};

fn ledger() -> Ledger {
    Ledger::new(FeeSplitter::new(1000), 14, 6).unwrap()
}

fn state(b: u8) -> AggregateState {
    AggregateState { ciphertexts: [[b; 32]; 3] }
}

fn request(sender: u64, gross: u64, nonce: u64) -> TransferRequest {
    TransferRequest { sender, recipient: 20, referral: 30, gross_amount: gross, replay_nonce: nonce, created_at: 1 }
}

#[test]
fn new_ledger_refuses_rates_beyond_denominator() {
    assert!(matches!(
        Ledger::new(FeeSplitter::new(1000), 900, 101),
        Err(LedgerError::Fee(FeeError::InvalidRate))
    ));
    assert!(matches!(Ledger::new(FeeSplitter::new(0), 0, 0), Err(LedgerError::Fee(FeeError::InvalidRate))));
}

#[test]
fn create_entry_once_per_owner() {
    let mut l = ledger();
    assert_eq!(l.create_entry(7), Ok(0));
    assert_eq!(l.create_entry(8), Ok(1));
    assert_eq!(l.create_entry(7), Err(LedgerError::EntryExists));
    let e = l.entry(0).unwrap();
    assert_eq!(e.owner, 7);
    assert!(e.active);
    assert_eq!(e.running_total, 0);
    assert_eq!(e.aggregate_state, None);
    assert_eq!(e.aggregate_version, 0);
    assert_eq!(e.pending, None);
    assert!(l.entry(2).is_none());
}

#[test]
fn set_active_reports_same_state() {
    let mut l = ledger();
    l.create_entry(7).unwrap();
    assert_eq!(l.set_active(7, 0, true), Err(LedgerError::AlreadyActive));
    assert_eq!(l.set_active(7, 0, false), Ok(()));
    assert!(!l.entry(0).unwrap().active);
    assert_eq!(l.set_active(7, 0, false), Err(LedgerError::AlreadyPaused));
    assert_eq!(l.set_active(7, 0, true), Ok(()));
    assert_eq!(l.set_active(7, 5, true), Err(LedgerError::UnknownEntry));
    assert_eq!(l.set_active(8, 0, false), Err(LedgerError::InvalidAuthority));
    assert!(l.entry(0).unwrap().active);
}

#[test]
fn transfer_is_split_and_executed() {
    let mut l = ledger();
    l.create_entry(7).unwrap();
    let id = l.initiate_transfer(0, request(10, 1000, 1)).unwrap();
    let t = l.transfer(id).unwrap();
    assert_eq!((t.net_amount, t.fee_a, t.fee_b), (980, 14, 6));
    assert!(!t.completed);
    assert_eq!(t.delegation_state, DelegationState::NotDelegated);
    assert_eq!(
        t.movements(99),
        vec![
            Movement { from: 10, to: 20, amount: 980 },
            Movement { from: 10, to: 99, amount: 14 },
            Movement { from: 10, to: 30, amount: 6 },
        ]
    );
    assert_eq!(l.apply_transfer(id, 10, 1, Ok(())), Ok(()));
    assert!(l.transfer(id).unwrap().completed);
    assert_eq!(l.entry(0).unwrap().running_total, 1000);
    assert_eq!(l.plan_execution(id, 10, 1, 99), Err(LedgerError::TransferAlreadyCompleted));
    assert_eq!(l.apply_transfer(id, 10, 1, Ok(())), Err(LedgerError::TransferAlreadyCompleted));
    assert_eq!(l.entry(0).unwrap().running_total, 1000);
    assert_eq!(l.find_transfer(10, 1), Some(id));
    assert_eq!(l.find_transfer(10, 2), None);
}

#[test]
fn failed_movement_changes_nothing() {
    let mut l = ledger();
    l.create_entry(7).unwrap();
    let id = l.initiate_transfer(0, request(10, 500, 1)).unwrap();
    assert_eq!(l.apply_transfer(id, 10, 1, Err(InsufficientFunds)), Err(LedgerError::InsufficientFunds));
    assert_eq!(l.entry(0).unwrap().running_total, 0);
    assert!(!l.transfer(id).unwrap().completed);
    assert_eq!(l.apply_transfer(id, 10, 1, Ok(())), Ok(()));
    assert_eq!(l.entry(0).unwrap().running_total, 500);
}

#[test]
fn transfer_errors() {
    let mut l = ledger();
    l.create_entry(7).unwrap();
    assert_eq!(l.initiate_transfer(3, request(10, 100, 1)), Err(LedgerError::UnknownEntry));
    assert_eq!(l.initiate_transfer(0, request(10, 0, 1)), Err(LedgerError::Fee(FeeError::ZeroAmount)));
    assert_eq!(
        l.initiate_transfer(0, request(10, u64::MAX, 1)),
        Err(LedgerError::Fee(FeeError::ArithmeticOverflow))
    );
    assert_eq!(l.initiate_transfer(0, request(10, 100, 1)), Ok(0));
    assert_eq!(l.initiate_transfer(0, request(10, 100, 1)), Err(LedgerError::ReplayRejected));
    assert_eq!(l.initiate_transfer(0, request(11, 100, 1)), Ok(1));
    assert_eq!(l.apply_transfer(9, 10, 1, Ok(())), Err(LedgerError::UnknownTransfer));
    l.set_active(7, 0, false).unwrap();
    assert_eq!(l.initiate_transfer(0, request(10, 100, 2)), Err(LedgerError::EntryInactive));
    assert_eq!(l.apply_transfer(0, 10, 1, Ok(())), Err(LedgerError::EntryInactive));
}

#[test]
fn running_total_overflow_is_refused() {
    let mut l = Ledger::new(FeeSplitter::new(1000), 0, 0).unwrap();
    l.create_entry(7).unwrap();
    let a = l.initiate_transfer(0, request(10, u64::MAX, 1)).unwrap();
    let b = l.initiate_transfer(0, request(10, 1, 2)).unwrap();
    assert_eq!(l.apply_transfer(a, 10, 1, Ok(())), Ok(()));
    assert_eq!(l.plan_execution(b, 10, 2, 99), Err(LedgerError::Overflow));
    assert_eq!(l.apply_transfer(b, 10, 2, Ok(())), Err(LedgerError::Overflow));
    assert_eq!(l.entry(0).unwrap().running_total, u64::MAX);
    assert!(!l.transfer(b).unwrap().completed);
}

#[test]
fn second_request_is_refused_while_pending() {
    let mut l = ledger();
    l.create_entry(7).unwrap();
    assert_eq!(l.begin_aggregation_request(0, 5), Ok(0));
    assert_eq!(l.begin_aggregation_request(0, 6), Err(LedgerError::RequestAlreadyPending));
    assert_eq!(
        l.begin_reveal_request(7, 0, RevealQuery::PaymentCount, 6),
        Err(LedgerError::RequestAlreadyPending)
    );
    assert_eq!(l.begin_aggregation_request(1, 6), Err(LedgerError::UnknownEntry));
    let p = l.entry(0).unwrap().pending.unwrap();
    assert_eq!(p.correlation_id, 0);
    assert_eq!(p.kind, RequestKind::Aggregation);
    assert_eq!(p.issued_at, 5);
}

#[test]
fn aborted_request_clears_pending() {
    let mut l = ledger();
    l.create_entry(7).unwrap();
    let c = l.begin_aggregation_request(0, 5).unwrap();
    assert_eq!(handle_callback(&mut l, 0, c, ComputationOutcome::Aborted), CallbackStatus::Aborted);
    let e = l.entry(0).unwrap();
    assert_eq!(e.pending, None);
    assert_eq!(e.aggregate_version, 0);
    assert_eq!(e.aggregate_state, None);
    let c2 = l.begin_aggregation_request(0, 6).unwrap();
    assert_ne!(c2, c);
}

#[test]
fn redelivered_success_is_a_no_op() {
    let mut l = ledger();
    l.create_entry(7).unwrap();
    let c1 = l.begin_aggregation_request(0, 5).unwrap();
    let outcome = ComputationOutcome::Success { state: state(1), version: 1 };
    assert_eq!(handle_callback(&mut l, 0, c1, outcome), CallbackStatus::Applied);
    let after_first = l.entry(0).unwrap();
    assert_eq!(after_first.aggregate_state, Some(state(1)));
    assert_eq!(after_first.aggregate_version, 1);
    assert_eq!(after_first.pending, None);
    assert_eq!(handle_callback(&mut l, 0, c1, outcome), CallbackStatus::Rejected);
    let after_second = l.entry(0).unwrap();
    assert_eq!(after_second.aggregate_state, after_first.aggregate_state);
    assert_eq!(after_second.aggregate_version, after_first.aggregate_version);
    assert_eq!(after_second.pending, None);
}

#[test]
fn stale_correlation_id_changes_nothing() {
    let mut l = ledger();
    l.create_entry(7).unwrap();
    let c1 = l.begin_aggregation_request(0, 5).unwrap();
    assert_eq!(
        l.apply_aggregation_result(0, c1 + 1, state(2), 1),
        Err(StaleOrUnknownCallback { correlation_id: c1 + 1 })
    );
    assert_eq!(handle_callback(&mut l, 0, c1 + 1, ComputationOutcome::Aborted), CallbackStatus::Rejected);
    assert_eq!(handle_callback(&mut l, 3, c1, ComputationOutcome::Aborted), CallbackStatus::Rejected);
    let e = l.entry(0).unwrap();
    assert_eq!(e.aggregate_state, None);
    assert_eq!(e.aggregate_version, 0);
    assert_eq!(e.pending.unwrap().correlation_id, c1);
}

#[test]
fn version_must_grow() {
    let mut l = ledger();
    l.create_entry(7).unwrap();
    let c1 = l.begin_aggregation_request(0, 5).unwrap();
    assert_eq!(l.apply_aggregation_result(0, c1, state(1), 4), Ok(()));
    let c2 = l.begin_aggregation_request(0, 6).unwrap();
    assert_eq!(
        l.apply_aggregation_result(0, c2, state(2), 4),
        Err(StaleOrUnknownCallback { correlation_id: c2 })
    );
    assert_eq!(l.entry(0).unwrap().aggregate_state, Some(state(1)));
    assert_eq!(l.apply_aggregation_result(0, c2, state(2), 5), Ok(()));
    assert_eq!(l.entry(0).unwrap().aggregate_version, 5);
}

#[test]
fn reveal_keeps_aggregate() {
    let mut l = ledger();
    l.create_entry(7).unwrap();
    let c1 = l.begin_aggregation_request(0, 5).unwrap();
    l.apply_aggregation_result(0, c1, state(1), 1).unwrap();
    let r = l.begin_reveal_request(7, 0, RevealQuery::VolumeThreshold { threshold: 50 }, 6).unwrap();
    assert_eq!(
        handle_callback(&mut l, 0, r, ComputationOutcome::Revealed(RevealAnswer::PaymentCount(3))),
        CallbackStatus::Rejected
    );
    assert_eq!(
        handle_callback(&mut l, 0, r, ComputationOutcome::Success { state: state(9), version: 2 }),
        CallbackStatus::Rejected
    );
    assert_eq!(
        handle_callback(&mut l, 0, r, ComputationOutcome::Revealed(RevealAnswer::MeetsThreshold(true))),
        CallbackStatus::Revealed(RevealAnswer::MeetsThreshold(true))
    );
    let e = l.entry(0).unwrap();
    assert_eq!(e.aggregate_state, Some(state(1)));
    assert_eq!(e.aggregate_version, 1);
    assert_eq!(e.pending, None);
    let r2 = l.begin_reveal_request(7, 0, RevealQuery::PaymentCount, 7).unwrap();
    assert_eq!(l.apply_reveal_result(0, r2, RevealAnswer::PaymentCount(4)), Ok(RevealAnswer::PaymentCount(4)));
}

#[test]
fn gateway_marks_pending_before_sending() {
    let mut l = ledger();
    l.create_entry(7).unwrap();
    let delta = EncryptedDelta { public_key: [3; 32], nonce: 11, ciphertext: [4; 32] };
    let req = issue_aggregation(&mut l, 0, delta, 5).unwrap();
    assert_eq!(req.correlation_id, 0);
    assert_eq!(req.entry, 0);
    assert_eq!(req.current_state, None);
    assert_eq!(req.current_version, 0);
    assert_eq!(req.payload, RequestPayload::Aggregation(delta));
    assert_eq!(l.entry(0).unwrap().pending.unwrap().correlation_id, 0);
    assert_eq!(issue_aggregation(&mut l, 0, delta, 6), Err(LedgerError::RequestAlreadyPending));
    assert_eq!(
        issue_reveal(&mut l, 7, 0, RevealQuery::PaymentCount, 6),
        Err(LedgerError::RequestAlreadyPending)
    );
    l.apply_aggregation_result(0, 0, state(1), 1).unwrap();
    let rev = issue_reveal(&mut l, 7, 0, RevealQuery::PaymentCount, 7).unwrap();
    assert_eq!(rev.correlation_id, 1);
    assert_eq!(rev.current_state, Some(state(1)));
    assert_eq!(rev.current_version, 1);
    assert_eq!(rev.payload, RequestPayload::Reveal(RevealQuery::PaymentCount));
}

#[test]
fn delegation_through_ledger() {
    let mut l = ledger();
    l.create_entry(7).unwrap();
    let id = l.initiate_transfer(0, request(10, 1000, 1)).unwrap();
    assert_eq!(
        l.apply_delegation(id, DelegationOp::Delegate),
        Err(LedgerError::Delegation(DelegationError::InvalidDelegationTransition))
    );
    assert_eq!(
        l.apply_delegation(id, DelegationOp::Integrate),
        Err(LedgerError::Delegation(DelegationError::TransferNotExecuted))
    );
    l.apply_transfer(id, 10, 1, Ok(())).unwrap();
    assert_eq!(
        l.apply_delegation(id, DelegationOp::Undelegate),
        Err(LedgerError::Delegation(DelegationError::PerNotCommitted))
    );
    assert_eq!(l.delegation_state(id), Some(DelegationState::NotDelegated));
    assert_eq!(l.apply_delegation(id, DelegationOp::Delegate), Ok(()));
    assert_eq!(l.apply_delegation(id, DelegationOp::Commit), Ok(()));
    assert_eq!(l.apply_delegation(id, DelegationOp::Undelegate), Ok(()));
    assert_eq!(l.delegation_state(id), Some(DelegationState::Undelegated));
    assert_eq!(l.apply_delegation(5, DelegationOp::Commit), Err(LedgerError::UnknownTransfer));
    assert_eq!(l.delegation_state(5), None);
}

#[test]
fn integration_is_terminal() {
    let mut l = ledger();
    l.create_entry(7).unwrap();
    let id = l.initiate_transfer(0, request(10, 1000, 1)).unwrap();
    l.apply_transfer(id, 10, 1, Ok(())).unwrap();
    l.apply_delegation(id, DelegationOp::Delegate).unwrap();
    l.apply_delegation(id, DelegationOp::Commit).unwrap();
    assert_eq!(l.apply_delegation(id, DelegationOp::Integrate), Ok(()));
    assert_eq!(l.delegation_state(id), Some(DelegationState::Integrated));
    assert!(l.apply_delegation(id, DelegationOp::Undelegate).is_err());
    assert_eq!(l.delegation_state(id), Some(DelegationState::Integrated));
}

#[test]
fn execution_is_planned_before_value_moves() {
    let mut l = ledger();
    l.create_entry(7).unwrap();
    let id = l.initiate_transfer(0, request(10, 1000, 1)).unwrap();
    assert_eq!(
        l.plan_execution(id, 10, 1, 99),
        Ok(vec![
            Movement { from: 10, to: 20, amount: 980 },
            Movement { from: 10, to: 99, amount: 14 },
            Movement { from: 10, to: 30, amount: 6 },
        ])
    );
    assert_eq!(l.plan_execution(id, 11, 1, 99), Err(LedgerError::InvalidProxySigner));
    assert_eq!(l.plan_execution(id, 10, 2, 99), Err(LedgerError::InvalidNonce));
    assert_eq!(l.plan_execution(4, 10, 1, 99), Err(LedgerError::UnknownTransfer));
    assert_eq!(l.apply_transfer(id, 11, 1, Ok(())), Err(LedgerError::InvalidProxySigner));
    assert_eq!(l.apply_transfer(id, 10, 2, Ok(())), Err(LedgerError::InvalidNonce));
    assert!(!l.transfer(id).unwrap().completed);
    assert_eq!(l.entry(0).unwrap().running_total, 0);
    l.set_active(7, 0, false).unwrap();
    assert_eq!(l.plan_execution(id, 10, 1, 99), Err(LedgerError::EntryInactive));
    l.set_active(7, 0, true).unwrap();
    assert_eq!(l.apply_transfer(id, 10, 1, Ok(())), Ok(()));
    assert_eq!(l.plan_execution(id, 10, 1, 99), Err(LedgerError::TransferAlreadyCompleted));
}

#[test]
fn only_owner_requests_reveals() {
    let mut l = ledger();
    l.create_entry(7).unwrap();
    assert_eq!(
        l.begin_reveal_request(8, 0, RevealQuery::VolumeThreshold { threshold: 5 }, 1),
        Err(LedgerError::InvalidAuthority)
    );
    assert_eq!(issue_reveal(&mut l, 8, 0, RevealQuery::PaymentCount, 1), Err(LedgerError::InvalidAuthority));
    assert_eq!(l.entry(0).unwrap().pending, None);
    assert_eq!(issue_reveal(&mut l, 7, 1, RevealQuery::PaymentCount, 1), Err(LedgerError::UnknownEntry));
    assert_eq!(l.begin_reveal_request(7, 0, RevealQuery::PaymentCount, 1), Ok(0));
}

#[test]
fn abort_is_visible_on_entry() {
    let mut l = ledger();
    l.create_entry(7).unwrap();
    assert_eq!(l.entry(0).unwrap().last_aborted, None);
    let c = l.begin_aggregation_request(0, 5).unwrap();
    assert_eq!(l.abort_request(0, c + 1), Err(StaleOrUnknownCallback { correlation_id: c + 1 }));
    assert_eq!(l.entry(0).unwrap().last_aborted, None);
    assert_eq!(l.abort_request(0, c), Ok(()));
    assert_eq!(l.entry(0).unwrap().last_aborted, Some(c));
}
