use vote_escrow::address::Address;
use vote_escrow::errors::{ErrorCode, ErrorKind};
use vote_escrow::gateway::{refusal, GatewayError};
use vote_escrow::ledger::BallotLedger;
use vote_escrow::schema::{Ballot, Candidate};
use vote_escrow::time_gate::{has_ended, is_active, phase, Phase};

fn address(byte: u8) -> Address {
    Address::new([byte; 32])
}

fn candidate(start_date: i64, end_date: i64) -> Candidate {
    Candidate { id: address(1), mint: address(2), start_date, end_date, authority: address(3) }
}

#[test]
fn new_ledger_is_empty() {
    let ledger = BallotLedger::new();
    assert_eq!(ledger.len(), 0);
    assert_eq!(ledger.get(&address(1), &address(2)), None);
    assert_eq!(ledger.locked(&address(1)), 0);
}

#[test]
fn credit_creates_then_adds() {
    let mut ledger = BallotLedger::new();
    let c = address(1);
    let v = address(2);
    assert_eq!(ledger.credit(c, v, 10), Ok(Ballot { candidate: c, voter: v, amount: 10 }));
    assert_eq!(ledger.len(), 1);
    assert_eq!(ledger.credit(c, v, 5), Ok(Ballot { candidate: c, voter: v, amount: 15 }));
    assert_eq!(ledger.len(), 1);
    assert_eq!(ledger.get(&c, &v), Some(Ballot { candidate: c, voter: v, amount: 15 }));
    assert_eq!(ledger.locked(&c), 15);
}

#[test]
fn credit_keeps_pairs_apart() {
    let mut ledger = BallotLedger::new();
    ledger.credit(address(1), address(2), 10).unwrap();
    ledger.credit(address(1), address(3), 20).unwrap();
    ledger.credit(address(4), address(2), 40).unwrap();
    assert_eq!(ledger.len(), 3);
    assert_eq!(ledger.get(&address(1), &address(2)).unwrap().amount, 10);
    assert_eq!(ledger.get(&address(1), &address(3)).unwrap().amount, 20);
    assert_eq!(ledger.get(&address(4), &address(2)).unwrap().amount, 40);
    assert_eq!(ledger.get(&address(4), &address(3)), None);
    assert_eq!(ledger.locked(&address(1)), 30);
    assert_eq!(ledger.locked(&address(4)), 40);
    assert_eq!(ledger.locked(&address(9)), 0);
}

#[test]
fn credit_refuses_what_does_not_fit() {
    let mut ledger = BallotLedger::new();
    let c = address(1);
    let v = address(2);
    ledger.credit(c, v, u64::MAX - 1).unwrap();
    assert_eq!(ledger.credit(c, v, 2), Err(ErrorCode::AmountOverflow));
    assert_eq!(ledger.get(&c, &v).unwrap().amount, u64::MAX - 1);
    assert_eq!(ledger.credit(c, v, 1).unwrap().amount, u64::MAX);
}

#[test]
fn locked_sums_beyond_one_word() {
    let mut ledger = BallotLedger::new();
    let c = address(1);
    ledger.credit(c, address(2), u64::MAX).unwrap();
    ledger.credit(c, address(3), u64::MAX).unwrap();
    assert_eq!(ledger.locked(&c), 2 * (u64::MAX as u128));
}

#[test]
fn release_destroys_one_ballot() {
    let mut ledger = BallotLedger::new();
    ledger.credit(address(1), address(2), 10).unwrap();
    ledger.credit(address(1), address(3), 20).unwrap();
    ledger.credit(address(1), address(4), 30).unwrap();
    assert_eq!(
        ledger.release(&address(1), &address(3)),
        Some(Ballot { candidate: address(1), voter: address(3), amount: 20 })
    );
    assert_eq!(ledger.len(), 2);
    assert_eq!(ledger.get(&address(1), &address(3)), None);
    assert_eq!(ledger.get(&address(1), &address(2)).unwrap().amount, 10);
    assert_eq!(ledger.get(&address(1), &address(4)).unwrap().amount, 30);
    assert_eq!(ledger.locked(&address(1)), 40);
    assert_eq!(ledger.release(&address(1), &address(3)), None);
    assert_eq!(ledger.len(), 2);
}

#[test]
fn phases_turn_at_the_bounds() {
    let c = candidate(100, 200);
    assert_eq!(phase(&c, i64::MIN), Phase::Created);
    assert_eq!(phase(&c, 99), Phase::Created);
    assert_eq!(phase(&c, 100), Phase::Active);
    assert_eq!(phase(&c, 199), Phase::Active);
    assert_eq!(phase(&c, 200), Phase::Ended);
    assert_eq!(phase(&c, i64::MAX), Phase::Ended);
}

#[test]
fn window_is_closed_below_and_open_above() {
    let c = candidate(100, 200);
    assert!(!is_active(&c, 99));
    assert!(is_active(&c, 100));
    assert!(is_active(&c, 199));
    assert!(!is_active(&c, 200));
    assert!(!has_ended(&c, 199));
    assert!(has_ended(&c, 200));
}

#[test]
fn every_error_has_its_kind() {
    assert_eq!(ErrorCode::InvalidDateRange.kind(), ErrorKind::Validation);
    assert_eq!(ErrorCode::ZeroAmount.kind(), ErrorKind::Validation);
    assert_eq!(ErrorCode::NotActiveCandidate.kind(), ErrorKind::Precondition);
    assert_eq!(ErrorCode::NotEndedCandidate.kind(), ErrorKind::Precondition);
    assert_eq!(ErrorCode::BallotNotFound.kind(), ErrorKind::Precondition);
    assert_eq!(ErrorCode::AuthorizationError.kind(), ErrorKind::Authorization);
    assert_eq!(ErrorCode::MintMismatch.kind(), ErrorKind::Resource);
    assert_eq!(ErrorCode::AmountOverflow.kind(), ErrorKind::Resource);
    assert_eq!(ErrorCode::ResourceError.kind(), ErrorKind::Resource);
}

#[test]
fn ledger_refusals_map_to_errors() {
    assert_eq!(refusal(GatewayError::Unauthorized), ErrorCode::AuthorizationError);
    assert_eq!(refusal(GatewayError::Rejected), ErrorCode::ResourceError);
}
