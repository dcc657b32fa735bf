use credence::admin::{report_outcome, ReportOutcome};
use credence::bond::BondTier;
use credence::bond_contract::{
    assert_self_consistent, assert_self_consistent_for_subject, compute_weight, BondDriftKind, CredenceBond,
};
use credence::bond_types::{ClaimType, Ledger, LiquidationReason, WeightConfig};
use credence::errors::{CallError, ContractError, ErrorExt, Refusal};

const ADMIN: u64 = 1;
const IDENTITY: u64 = 2;
const ATTESTER: u64 = 3;
const SUBJECT: u64 = 4;
const TREASURY: u64 = 5;

fn at(timestamp: u64) -> Ledger {
    Ledger { timestamp, sequence: 0 }
}

fn setup() -> CredenceBond {
    let mut c = CredenceBond::new();
    c.initialize(ADMIN).unwrap();
    c
}

#[test]
fn test_not_initialized_errors() {
    let mut c = CredenceBond::new();
    assert_eq!(c.set_early_exit_config(ADMIN, TREASURY, 500), Err(CallError::Code(ContractError::NotInitialized)));
}

#[test]
fn test_request_withdrawal_not_rolling_and_already_requested() {
    let mut c = setup();
    c.create_bond(IDENTITY, 100, 1000, false, 0, at(0)).unwrap();
    assert_eq!(c.request_withdrawal(at(0)), Err(CallError::Code(ContractError::NotRollingBond)));
    c.create_bond(IDENTITY, 100, 1000, true, 10, at(0)).unwrap();
    // The request is recorded by its (non-zero) ledger time.
    c.request_withdrawal(at(10)).unwrap();
    assert_eq!(c.request_withdrawal(at(11)), Err(CallError::Code(ContractError::WithdrawalAlreadyRequested)));
}

#[test]
fn test_bond_locked_for_max_duration_never_expires_before_unlock() {
    let mut c = CredenceBond::new();
    let amount: i128 = 1000;
    // maximum bond duration (365 days)
    let max_duration: u64 = 31_536_000;
    c.create_bond(IDENTITY, amount, max_duration, false, 0, at(0)).unwrap();
    // just before unlock the bond is still there
    assert_eq!(c.get_identity_state().unwrap().bonded_amount, amount);
    // at unlock time the owner withdraws everything
    let (withdrawn, _) = c.withdraw_bond(IDENTITY, at(max_duration + 1)).unwrap();
    assert_eq!(withdrawn, amount);
}

#[test]
fn test_bond_not_found_and_insufficient_balance() {
    let mut c = CredenceBond::new();
    // no bond exists yet
    assert_eq!(c.get_identity_state().unwrap_err(), CallError::Code(ContractError::BondNotFound));
    // a small bond, still in its lock-up: withdrawing more than is available
    c.create_bond(IDENTITY, 100, 1000, false, 0, at(0)).unwrap();
    assert_eq!(c.withdraw(200, at(0)).unwrap_err(), CallError::Code(ContractError::InsufficientBalance));
}

#[test]
fn withdraw_within_balance_during_lockup_is_refused() {
    let mut c = CredenceBond::new();
    c.create_bond(IDENTITY, 100, 1000, false, 0, at(0)).unwrap();
    assert_eq!(c.withdraw(50, at(999)), Err(CallError::Refused(Refusal::LockupNotExpiredUseWithdrawEarly)));
    assert_eq!(c.withdraw(50, at(1000)).unwrap().bonded_amount, 50);
}

#[test]
fn initialize_twice_is_refused() {
    let mut c = setup();
    assert_eq!(c.initialize(7), Err(CallError::Code(ContractError::AlreadyInitialized)));
}

#[test]
fn no_bond_before_creation() {
    let c = setup();
    assert_eq!(c.get_identity_state(), Err(CallError::Code(ContractError::BondNotFound)));
}

#[test]
fn bond_end_overflow_is_refused() {
    let mut c = setup();
    assert_eq!(
        c.create_bond(IDENTITY, 100, 10, false, 0, at(u64::MAX - 5)),
        Err(CallError::Refused(Refusal::BondEndWouldOverflow))
    );
    assert_eq!(Refusal::BondEndWouldOverflow.message(), "bond end timestamp would overflow");
}

#[test]
fn withdraw_during_lockup_is_refused() {
    let mut c = setup();
    c.create_bond(IDENTITY, 1000, 100, false, 0, at(0)).unwrap();
    assert_eq!(c.withdraw(10, at(99)), Err(CallError::Refused(Refusal::LockupNotExpiredUseWithdrawEarly)));
    assert_eq!(c.withdraw(10, at(100)).unwrap().bonded_amount, 990);
}

#[test]
fn rolling_withdrawal_needs_request_and_notice() {
    let mut c = setup();
    c.create_bond(IDENTITY, 1000, 100, true, 50, at(0)).unwrap();
    assert_eq!(c.withdraw(10, at(200)), Err(CallError::Refused(Refusal::WithdrawalNotRequested)));
    c.request_withdrawal(at(200)).unwrap();
    assert_eq!(c.withdraw(10, at(249)), Err(CallError::Refused(Refusal::NoticePeriodNotElapsed)));
    assert_eq!(c.withdraw(10, at(250)).unwrap().bonded_amount, 990);
}

#[test]
fn early_withdrawal_pays_time_decayed_penalty() {
    let mut c = setup();
    c.create_bond(IDENTITY, 1000, 86_400, false, 0, at(0)).unwrap();
    assert_eq!(c.withdraw_early(100, at(43_200)), Err(CallError::Code(ContractError::EarlyExitConfigNotSet)));
    c.set_early_exit_config(ADMIN, TREASURY, 1000).unwrap();
    // charge = 1000 * 1000 / 10_000 = 100, penalty = 100 * 43_200 / 86_400 = 50
    let (bond, penalty) = c.withdraw_early(1000, at(43_200)).unwrap();
    assert_eq!(penalty, 50);
    assert_eq!(bond.bonded_amount, 0);
}

#[test]
fn early_withdrawal_after_lockup_is_refused() {
    let mut c = setup();
    c.set_early_exit_config(ADMIN, TREASURY, 1000).unwrap();
    c.create_bond(IDENTITY, 1000, 100, false, 0, at(0)).unwrap();
    assert_eq!(c.withdraw_early(10, at(100)), Err(CallError::Code(ContractError::LockupNotExpired)));
    assert_eq!(c.withdraw_early(2000, at(10)), Err(CallError::Code(ContractError::InsufficientBalance)));
}

#[test]
fn penalty_rate_above_full_is_refused() {
    let mut c = setup();
    assert_eq!(c.set_early_exit_config(ADMIN, TREASURY, 10_001), Err(CallError::Code(ContractError::InvalidPenaltyBps)));
    assert_eq!(c.set_early_exit_config(99, TREASURY, 100), Err(CallError::Code(ContractError::NotAdmin)));
}

#[test]
fn rolling_bond_renews_after_period_end() {
    let mut c = setup();
    c.create_bond(IDENTITY, 1000, 100, true, 10, at(0)).unwrap();
    assert_eq!(c.renew_if_rolling(at(99)).unwrap().bond_start, 0);
    assert_eq!(c.renew_if_rolling(at(150)).unwrap().bond_start, 150);
    c.request_withdrawal(at(160)).unwrap();
    assert_eq!(c.renew_if_rolling(at(400)).unwrap().bond_start, 150);
}

#[test]
fn top_up_and_extend() {
    let mut c = setup();
    c.create_bond(IDENTITY, 1000, 100, false, 0, at(0)).unwrap();
    assert_eq!(c.top_up(500, at(0)).unwrap().bonded_amount, 1500);
    assert_eq!(c.extend_duration(50).unwrap().bond_duration, 150);
    assert_eq!(c.extend_duration(u64::MAX), Err(CallError::Code(ContractError::Overflow)));
    assert_eq!(c.top_up(i128::MAX, at(0)), Err(CallError::Code(ContractError::Overflow)));
}

#[test]
fn tiers_follow_the_default_thresholds() {
    let mut c = setup();
    c.create_bond(IDENTITY, 1000, 100, false, 0, at(0)).unwrap();
    assert_eq!(c.get_tier(), Ok(BondTier::Bronze));
    c.create_bond(IDENTITY, 1_000_000_000_000_000_000_000, 100, false, 0, at(0)).unwrap();
    assert_eq!(c.get_tier(), Ok(BondTier::Silver));
}

#[test]
fn attestation_lifecycle_with_nonces() {
    let mut c = setup();
    assert_eq!(
        c.add_attestation(ATTESTER, SUBJECT, vec![1, 2], 0, at(5)).unwrap_err(),
        CallError::Code(ContractError::UnauthorizedAttester)
    );
    c.register_attester(ATTESTER).unwrap();
    assert!(c.is_attester(ATTESTER));
    let a = c.add_attestation(ATTESTER, SUBJECT, vec![1, 2], 0, at(5)).unwrap();
    assert_eq!(a.id, 0);
    assert_eq!(a.timestamp, 5);
    assert_eq!(a.weight, 1);
    assert_eq!(c.get_nonce(ATTESTER), 1);
    assert_eq!(c.get_subject_attestation_count(SUBJECT), 1);
    // replaying the nonce is refused
    assert_eq!(
        c.add_attestation(ATTESTER, SUBJECT, vec![9], 0, at(5)).unwrap_err(),
        CallError::Code(ContractError::InvalidNonce)
    );
    // the same live attestation cannot be added twice
    assert_eq!(
        c.add_attestation(ATTESTER, SUBJECT, vec![1, 2], 1, at(5)).unwrap_err(),
        CallError::Code(ContractError::DuplicateAttestation)
    );
    c.revoke_attestation(ATTESTER, 0, 1).unwrap();
    assert!(c.get_attestation(0).unwrap().revoked);
    assert_eq!(c.get_subject_attestation_count(SUBJECT), 0);
    // revoking takes the id off the subject's list, which stays as long as the count
    assert_eq!(c.get_subject_attestations(SUBJECT), Vec::<u64>::new());
    assert_eq!(c.revoke_attestation(ATTESTER, 0, 2), Err(CallError::Code(ContractError::AttestationAlreadyRevoked)));
    assert_eq!(c.get_attestation(7).unwrap_err(), CallError::Code(ContractError::AttestationNotFound));
}

#[test]
fn attestation_weight_follows_stake() {
    let mut c = setup();
    c.register_attester(ATTESTER).unwrap();
    c.set_attester_stake(ADMIN, ATTESTER, 1_000_000).unwrap();
    // 1_000_000 * 100 / 10_000 = 10_000
    let a = c.add_attestation(ATTESTER, SUBJECT, vec![7], 0, at(0)).unwrap();
    assert_eq!(a.weight, 10_000);
    assert_eq!(c.set_attester_stake(ADMIN, ATTESTER, -1), Err(CallError::Code(ContractError::NegativeStake)));
}

#[test]
fn weight_formula_clamps() {
    let w = WeightConfig { multiplier_bps: 100, max_weight: 100_000 };
    assert_eq!(compute_weight(0, w), 1);
    assert_eq!(compute_weight(-5, w), 1);
    assert_eq!(compute_weight(1_000_000, w), 10_000);
    assert_eq!(compute_weight(i128::MAX, w), 100_000);
}

#[test]
fn liquidation_of_fully_slashed_bond() {
    let mut c = setup();
    c.create_bond(IDENTITY, 1000, 86_400, true, 10, at(0)).unwrap();
    assert_eq!(c.liquidate(ADMIN, at(10)), Err(CallError::Refused(Refusal::NotEligibleForLiquidation)));
    c.slash(ADMIN, 1000, Ledger { timestamp: 10, sequence: 1 }).unwrap();
    let l = c.liquidate(ADMIN, at(10)).unwrap();
    assert_eq!(l.reason, LiquidationReason::FullySlashed);
    assert_eq!(l.residual, 0);
    assert!(c.is_liquidated(IDENTITY));
    assert_eq!(c.liquidate(ADMIN, at(10)), Err(CallError::Code(ContractError::BondNotActive)));
}

#[test]
fn liquidation_of_expired_fixed_bond() {
    let mut c = setup();
    c.create_bond(IDENTITY, 1000, 100, false, 0, at(0)).unwrap();
    let l = c.liquidate(ADMIN, at(100)).unwrap();
    assert_eq!(l.reason, LiquidationReason::ExpiredUnrenewed);
    assert_eq!(l.residual, 1000);
    assert!(!c.get_identity_state().unwrap().active);
}

#[test]
fn slash_rewards_the_admin_a_tenth() {
    let mut c = setup();
    c.create_bond(IDENTITY, 1000, 100, false, 0, at(0)).unwrap();
    c.slash(ADMIN, 300, Ledger { timestamp: 0, sequence: 1 }).unwrap();
    assert_eq!(c.pending_claims.len(), 1);
    let claim = c.pending_claims[0];
    assert_eq!(claim.recipient, ADMIN);
    assert_eq!(claim.claim_type, ClaimType::SlashingReward);
    assert_eq!(claim.amount, 30);
    assert_eq!(claim.source_id, 1);
}

#[test]
fn self_check_reports_drift() {
    let mut c = setup();
    assert_eq!(assert_self_consistent(&c), Ok(()));
    c.create_bond(IDENTITY, 1000, 100, false, 0, at(0)).unwrap();
    assert_eq!(assert_self_consistent(&c), Ok(()));
    // a stored count that disagrees with the live attestations is drift
    c.subject_counts.insert(SUBJECT, 3);
    assert_eq!(assert_self_consistent(&c), Ok(()));
    let d = assert_self_consistent_for_subject(&c, SUBJECT).unwrap_err();
    assert_eq!(d.kind, BondDriftKind::AttestationCountMismatch);
    assert_eq!(d.attestation_count, 3);
    assert_eq!(d.attestation_list_len, 0);
    // balances that drift are reported first
    c.bond = Some(credence::bond_types::IdentityBond { slashed_amount: 2000, ..c.bond.unwrap() });
    assert_eq!(assert_self_consistent(&c).unwrap_err().kind, BondDriftKind::SlashedExceedsBonded);
}

#[test]
fn liquidation_treasury_is_admin_only() {
    let mut c = setup();
    assert_eq!(c.get_liquidation_treasury(), None);
    assert!(c.set_liquidation_treasury(99, TREASURY).is_err());
    c.set_liquidation_treasury(ADMIN, TREASURY).unwrap();
    assert_eq!(c.get_liquidation_treasury(), Some(TREASURY));
}

#[test]
fn error_codes_and_categories() {
    assert_eq!(ContractError::InsufficientBalance.code(), 202);
    assert_eq!(ContractError::InsufficientBalance.description(), "Insufficient balance for withdrawal");
}

#[test]
fn admin_tool_submits_nothing() {
    assert_eq!(report_outcome(false), ReportOutcome::DryRun);
    assert_eq!(report_outcome(true), ReportOutcome::SubmitNotImplemented);
}
