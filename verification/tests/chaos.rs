use credence::bond_contract::CredenceBond;
use credence::bond_types::Ledger;
use credence::errors::{CallError, ContractError};

const ADMIN: u64 = 1;
const IDENTITY: u64 = 2;

fn setup_with_bond() -> CredenceBond {
    let mut c = CredenceBond::new();
    c.initialize(ADMIN).unwrap();
    c.create_bond(IDENTITY, 1000, 86_400, false, 0, Ledger { timestamp: 0, sequence: 0 }).unwrap();
    c
}

#[test]
fn chaos_injection_4b_missing_admin_key_bond_state_unchanged() {
    let mut c = setup_with_bond();
    c.admin = None;
    let result = c.slash_bond(ADMIN, 50);
    assert!(result.is_err());
    c.admin = Some(ADMIN);
    let bond = c.get_identity_state().unwrap();
    assert_eq!(bond.slashed_amount, 0);
    assert_eq!(bond.bonded_amount, 1000);
}

#[test]
fn chaos_injection_6_slash_exceeds_bond_rejected_state_unchanged() {
    let mut c = setup_with_bond();
    assert_eq!(c.get_identity_state().unwrap().slashed_amount, 0);
    assert!(c.slash_bond(ADMIN, 2000).is_err());
    let bond = c.get_identity_state().unwrap();
    assert_eq!(bond.slashed_amount, 0);
    assert_eq!(bond.bonded_amount, 1000);
    assert!(!c.is_locked());
}

#[test]
fn chaos_injection_7_reentrancy_guard_blocks_double_lock() {
    let mut c = setup_with_bond();
    c.locked = true;
    assert!(c.is_locked());
    assert_eq!(c.slash_bond(ADMIN, 50), Err(CallError::Code(ContractError::ReentrancyDetected)));
}

#[test]
fn chaos_validation_guard_absent_double_call_succeeds_without_guard() {
    let mut c = setup_with_bond();
    assert!(!c.is_locked());
    assert_eq!(c.slash_bond(ADMIN, 50).unwrap().0, 50);
    assert_eq!(c.slash_bond(ADMIN, 50).unwrap().0, 100);
}

#[test]
fn chaos_injection_5_missing_bond_key_withdraw_fails() {
    let mut c = setup_with_bond();
    c.bond = None;
    assert_eq!(c.withdraw_bond(IDENTITY, Ledger { timestamp: 0, sequence: 0 }), Err(CallError::Code(ContractError::BondNotFound)));
}
