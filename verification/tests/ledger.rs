use party::amount::Amount;
use party::ledger::{BalanceError, BalanceOperation, BalanceState};

fn amt(v: u128) -> Amount {
    Amount::from_u128(v)
}

fn bal(s: &BalanceState, a: &str) -> u128 {
    s.balance(a).to_u128().unwrap()
}

fn mint(a: &str, v: u128) -> BalanceOperation {
    BalanceOperation::Mint(a.to_string(), amt(v))
}

fn burn(a: &str, v: u128) -> BalanceOperation {
    BalanceOperation::Burn(a.to_string(), amt(v))
}

fn transfer(f: &str, t: &str, v: u128) -> BalanceOperation {
    BalanceOperation::Transfer(f.to_string(), t.to_string(), amt(v))
}

#[test]
fn default_ledger_is_empty() {
    let s = BalanceState::default();
    assert_eq!(s.tapp_id(), 0);
    assert!(!s.contains("alice"));
    assert_eq!(bal(&s, "alice"), 0);
}

#[test]
fn mint_adds_up() {
    let mut s = BalanceState::default();
    assert_eq!(s.execute(&mint("alice", 10)), Ok(()));
    assert_eq!(s.execute(&mint("alice", 5)), Ok(()));
    assert_eq!(bal(&s, "alice"), 15);
    assert!(!s.contains("bob"));
}

#[test]
fn mint_of_zero_records_the_address() {
    let mut s = BalanceState::default();
    assert_eq!(s.execute(&mint("alice", 0)), Ok(()));
    assert!(s.contains("alice"));
    assert_eq!(bal(&s, "alice"), 0);
}

#[test]
fn burn_takes_and_drops_zero() {
    let mut s = BalanceState::default();
    s.execute(&mint("alice", 10)).unwrap();
    assert_eq!(s.execute(&burn("alice", 4)), Ok(()));
    assert_eq!(bal(&s, "alice"), 6);
    assert_eq!(s.execute(&burn("alice", 6)), Ok(()));
    assert!(!s.contains("alice"));
}

#[test]
fn burn_of_too_much_is_refused_and_changes_nothing() {
    let mut s = BalanceState::default();
    s.execute(&mint("alice", 10)).unwrap();
    assert_eq!(s.execute(&burn("alice", 11)), Err(BalanceError::SubError));
    assert_eq!(bal(&s, "alice"), 10);
}

#[test]
fn burn_from_unknown_address_is_a_no_op() {
    let mut s = BalanceState::default();
    assert_eq!(s.execute(&burn("nobody", 5)), Ok(()));
    assert!(!s.contains("nobody"));
}

#[test]
fn transfer_moves_amount() {
    let mut s = BalanceState::default();
    s.execute(&mint("alice", 10)).unwrap();
    assert_eq!(s.execute(&transfer("alice", "bob", 4)), Ok(()));
    assert_eq!(bal(&s, "alice"), 6);
    assert_eq!(bal(&s, "bob"), 4);
    assert_eq!(bal(&s, "alice") + bal(&s, "bob"), 10);
}

#[test]
fn transfer_of_too_much_is_refused() {
    let mut s = BalanceState::default();
    s.execute(&mint("alice", 3)).unwrap();
    assert_eq!(s.execute(&transfer("alice", "bob", 4)), Err(BalanceError::SubError));
    assert_eq!(bal(&s, "alice"), 3);
    assert!(!s.contains("bob"));
}

#[test]
fn transfer_from_unknown_address_credits_receiver() {
    let mut s = BalanceState::default();
    assert_eq!(s.execute(&transfer("nobody", "bob", 4)), Ok(()));
    assert_eq!(bal(&s, "bob"), 4);
    assert!(!s.contains("nobody"));
}

#[test]
fn mint_then_burn_restores() {
    let mut s = BalanceState::default();
    s.execute(&mint("alice", 7)).unwrap();
    s.execute(&mint("carol", 9)).unwrap();
    s.execute(&burn("carol", 9)).unwrap();
    assert!(!s.contains("carol"));
    s.execute(&mint("alice", 5)).unwrap();
    s.execute(&burn("alice", 5)).unwrap();
    assert_eq!(bal(&s, "alice"), 7);
}

#[test]
fn self_transfer_changes_nothing() {
    let mut s = BalanceState::default();
    s.execute(&mint("alice", 7)).unwrap();
    assert_eq!(s.execute(&transfer("alice", "alice", 7)), Ok(()));
    assert_eq!(bal(&s, "alice"), 7);
    assert_eq!(s.execute(&transfer("alice", "alice", 3)), Ok(()));
    assert_eq!(bal(&s, "alice"), 7);
}

#[test]
fn batch_stops_at_first_refusal() {
    let mut s = BalanceState::default();
    let ops = vec![mint("alice", 5), transfer("alice", "bob", 2), burn("bob", 3), mint("carol", 1)];
    assert_eq!(s.batch_execute(ops), Err(BalanceError::SubError));
    assert_eq!(bal(&s, "alice"), 3);
    assert_eq!(bal(&s, "bob"), 2);
    assert!(!s.contains("carol"));
}

#[test]
fn batch_runs_all() {
    let mut s = BalanceState::default();
    let ops = vec![mint("alice", 5), transfer("alice", "bob", 5), mint("carol", 1)];
    assert_eq!(s.batch_execute(ops), Ok(()));
    assert!(!s.contains("alice"));
    assert_eq!(bal(&s, "bob"), 5);
    assert_eq!(bal(&s, "carol"), 1);
    assert_eq!(s.batch_execute(vec![]), Ok(()));
}

#[test]
fn amounts_beyond_u128() {
    let mut s = BalanceState::default();
    s.execute(&mint("whale", u128::MAX)).unwrap();
    s.execute(&mint("whale", 1)).unwrap();
    let big = s.balance("whale");
    assert_eq!(big.to_u128(), None);
    let mut expected = vec![0u8; 16];
    expected.push(1);
    assert_eq!(big.to_le_bytes(), expected);
    s.execute(&burn("whale", 1)).unwrap();
    assert_eq!(bal(&s, "whale"), u128::MAX);
}

#[test]
fn amount_arithmetic() {
    let a = Amount::from_le_bytes(vec![1, 1]);
    assert_eq!(a.to_u128(), Some(257));
    assert!(Amount::from_le_bytes(vec![]).is_zero());
    assert!(Amount::from_le_bytes(vec![0, 0]).is_zero());
    assert!(!a.is_zero());
    assert_eq!(a.checked_add(&amt(3)).unwrap().to_u128(), Some(260));
    assert_eq!(a.checked_sub(&amt(257)).unwrap().to_u128(), Some(0));
    assert!(a.checked_sub(&amt(258)).is_none());
    assert_eq!(a.duplicate().to_u128(), Some(257));
}
