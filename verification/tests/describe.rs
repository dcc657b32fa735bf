use credence::bond::BondTier;
use credence::bond_contract::{CredenceBond, DEFAULT_WEIGHT_MULTIPLIER_BPS};
use credence::bond_types::Ledger;
use credence::errors::{CallError, ContractError};

const ADMIN: u64 = 1;
const IDENTITY: u64 = 2;
const OTHER: u64 = 3;

fn at(timestamp: u64, sequence: u32) -> Ledger {
    Ledger { timestamp, sequence }
}

fn setup() -> CredenceBond {
    let mut c = CredenceBond::new();
    c.initialize(ADMIN).unwrap();
    c
}

#[test]
fn test_describe_config_panics_when_uninitialized() {
    let c = CredenceBond::new();
    assert_eq!(c.describe_config(), Err(CallError::Code(ContractError::NotInitialized)));
}

#[test]
fn test_describe_config_after_initialize() {
    let c = setup();
    let cfg = c.describe_config().unwrap();
    assert_eq!(cfg.admin, ADMIN);
    assert!(cfg.early_exit_treasury.is_none());
    assert!(cfg.early_exit_penalty_bps.is_none());
    assert_eq!(cfg.weight_multiplier_bps, DEFAULT_WEIGHT_MULTIPLIER_BPS);
}

#[test]
fn test_describe_config_reflects_early_exit_config() {
    let mut c = setup();
    let treasury = 9u64;
    c.set_early_exit_config(ADMIN, treasury, 500).unwrap();
    let cfg = c.describe_config().unwrap();
    assert_eq!(cfg.early_exit_treasury, Some(treasury));
    assert_eq!(cfg.early_exit_penalty_bps, Some(500_u32));
}

#[test]
fn test_describe_config_no_auth_required() {
    let c = setup();
    let cfg = c.describe_config().unwrap();
    assert_eq!(cfg.admin, ADMIN);
}

#[test]
fn test_describe_bond_returns_none_when_no_bond() {
    let c = setup();
    assert!(c.describe_bond(OTHER).is_none());
}

#[test]
fn test_describe_bond_returns_none_for_wrong_identity() {
    let mut c = setup();
    c.create_bond(IDENTITY, 1000, 3600, false, 0, at(0, 0)).unwrap();
    assert!(c.describe_bond(OTHER).is_none());
}

#[test]
fn test_describe_bond_after_create_bond() {
    let mut c = setup();
    c.create_bond(IDENTITY, 1000, 3600, false, 0, at(0, 0)).unwrap();
    let view = c.describe_bond(IDENTITY).unwrap();
    assert_eq!(view.identity, IDENTITY);
    assert_eq!(view.bonded_amount, 1000);
    assert_eq!(view.slashed_amount, 0);
    assert_eq!(view.available_amount, 1000);
    assert_eq!(view.bond_duration, 3600);
    assert!(view.active);
    assert!(!view.is_rolling);
    assert_eq!(view.withdrawal_requested_at, 0);
    assert_eq!(view.tier, BondTier::Bronze);
}

#[test]
fn test_describe_bond_tier_bronze() {
    let mut c = setup();
    c.create_bond(IDENTITY, 500, 3600, false, 0, at(0, 0)).unwrap();
    assert_eq!(c.describe_bond(IDENTITY).unwrap().tier, BondTier::Bronze);
}

#[test]
fn test_describe_bond_reflects_top_up() {
    let mut c = setup();
    c.create_bond(IDENTITY, 500, 3600, false, 0, at(0, 0)).unwrap();
    c.top_up(250, at(0, 0)).unwrap();
    let view = c.describe_bond(IDENTITY).unwrap();
    assert_eq!(view.bonded_amount, 750);
    assert_eq!(view.available_amount, 750);
}

#[test]
fn test_describe_bond_reflects_slash() {
    let mut c = setup();
    c.create_bond(IDENTITY, 1000, 3600, false, 0, at(0, 0)).unwrap();
    c.slash(ADMIN, 200, at(0, 0)).unwrap();
    let view = c.describe_bond(IDENTITY).unwrap();
    assert_eq!(view.bonded_amount, 1000);
    assert_eq!(view.slashed_amount, 200);
    assert_eq!(view.available_amount, 800);
}

#[test]
fn test_describe_bond_reflects_request_withdrawal() {
    let mut c = setup();
    c.create_bond(IDENTITY, 1000, 3600, true, 600, at(0, 0)).unwrap();
    c.request_withdrawal(at(1_000, 0)).unwrap();
    let view = c.describe_bond(IDENTITY).unwrap();
    assert!(view.is_rolling);
    assert!(view.withdrawal_requested_at > 0);
}

#[test]
fn test_describe_bond_reflects_partial_withdraw() {
    let mut c = setup();
    c.create_bond(IDENTITY, 1000, 3600, false, 0, at(0, 0)).unwrap();
    c.withdraw(400, at(3601, 0)).unwrap();
    let view = c.describe_bond(IDENTITY).unwrap();
    assert_eq!(view.bonded_amount, 600);
    assert_eq!(view.available_amount, 600);
}

#[test]
fn test_describe_bond_no_auth_required() {
    let mut c = setup();
    c.create_bond(IDENTITY, 1000, 3600, false, 0, at(0, 0)).unwrap();
    assert_eq!(c.describe_bond(IDENTITY).unwrap().bonded_amount, 1000);
}
