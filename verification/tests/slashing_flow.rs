use credence::bond_contract::CredenceBond;
use credence::bond_types::Ledger;
use credence::errors::{CallError, ContractError, Refusal};

const ADMIN: u64 = 1;
const IDENTITY: u64 = 2;

fn at(timestamp: u64, sequence: u32) -> Ledger {
    Ledger { timestamp, sequence }
}

fn setup() -> CredenceBond {
    let mut c = CredenceBond::new();
    c.initialize(ADMIN).unwrap();
    c
}

/// A contract holding a fixed-duration bond created at time 0 in ledger 0;
/// the calls that follow run in ledger 1.
fn setup_with_bond(amount: i128, duration: u64) -> CredenceBond {
    let mut c = setup();
    c.create_bond(IDENTITY, amount, duration, false, 0, at(0, 0)).unwrap();
    c
}

fn slash(c: &mut CredenceBond, who: u64, amount: i128) -> Result<credence::bond_types::IdentityBond, CallError> {
    c.slash(who, amount, at(0, 1))
}

#[test]
fn test_slash_basic_success() {
    let mut c = setup_with_bond(1000, 86400);
    let bond = slash(&mut c, ADMIN, 300).unwrap();
    assert_eq!(bond.slashed_amount, 300);
    assert_eq!(bond.bonded_amount, 1000);
    assert!(bond.active);
}

#[test]
fn test_slash_small_amount() {
    let mut c = setup_with_bond(10000, 86400);
    let bond = slash(&mut c, ADMIN, 1).unwrap();
    assert_eq!(bond.slashed_amount, 1);
    assert_eq!(bond.bonded_amount, 10000);
}

#[test]
fn test_slash_exact_half() {
    let mut c = setup_with_bond(1000, 86400);
    let bond = slash(&mut c, ADMIN, 500).unwrap();
    assert_eq!(bond.slashed_amount, 500);
    assert_eq!(bond.bonded_amount, 1000);
}

#[test]
fn test_slash_entire_amount() {
    let mut c = setup_with_bond(1000, 86400);
    let bond = slash(&mut c, ADMIN, 1000).unwrap();
    assert_eq!(bond.slashed_amount, 1000);
    assert_eq!(bond.bonded_amount, 1000);
}

#[test]
fn test_slash_unauthorized_rejection() {
    let mut c = setup_with_bond(1000, 86400);
    let other = 77u64;
    assert_eq!(slash(&mut c, other, 100), Err(CallError::Refused(Refusal::NotAdmin)));
}

#[test]
fn test_slash_unauthorized_different_address() {
    let mut c = setup_with_bond(1000, 86400);
    assert_eq!(slash(&mut c, 77, 500), Err(CallError::Refused(Refusal::NotAdmin)));
    assert_eq!(slash(&mut c, 78, 500), Err(CallError::Refused(Refusal::NotAdmin)));
    assert_eq!(c.get_identity_state().unwrap().slashed_amount, 0);
}

#[test]
fn test_slash_identity_cannot_slash_own_bond() {
    let mut c = setup_with_bond(1000, 86400);
    assert_eq!(slash(&mut c, IDENTITY, 100), Err(CallError::Refused(Refusal::NotAdmin)));
}

#[test]
fn test_slash_over_amount_capped() {
    let mut c = setup_with_bond(1000, 86400);
    let bond = slash(&mut c, ADMIN, 2000).unwrap();
    assert_eq!(bond.slashed_amount, 1000);
    assert_eq!(bond.bonded_amount, 1000);
}

#[test]
fn test_slash_way_over_amount_capped() {
    let mut c = setup_with_bond(1000, 86400);
    let bond = slash(&mut c, ADMIN, 5_000).unwrap();
    assert_eq!(bond.slashed_amount, 1000);
    assert_eq!(bond.bonded_amount, 1000);
}

#[test]
fn test_slash_max_i128_capped() {
    let mut c = setup_with_bond(1000, 86400);
    let bond = slash(&mut c, ADMIN, i128::MAX).unwrap();
    assert_eq!(bond.slashed_amount, 1000);
    assert_eq!(bond.bonded_amount, 1000);
}

#[test]
fn test_slash_zero_amount() {
    let mut c = setup_with_bond(1000, 86400);
    let bond = slash(&mut c, ADMIN, 0).unwrap();
    assert_eq!(bond.slashed_amount, 0);
    assert_eq!(bond.bonded_amount, 1000);
}

#[test]
fn test_slash_history_single_slash() {
    let mut c = setup_with_bond(1000, 86400);
    slash(&mut c, ADMIN, 200).unwrap();
    let bond = c.get_identity_state().unwrap();
    assert_eq!(bond.slashed_amount, 200);
    assert_eq!(bond.bonded_amount, 1000);
}

#[test]
fn test_slash_history_cumulative() {
    let mut c = setup_with_bond(1000, 86400);
    assert_eq!(slash(&mut c, ADMIN, 200).unwrap().slashed_amount, 200);
    assert_eq!(slash(&mut c, ADMIN, 300).unwrap().slashed_amount, 500);
    assert_eq!(c.get_identity_state().unwrap().slashed_amount, 500);
}

#[test]
fn test_slash_multiple_accumulate() {
    let mut c = setup_with_bond(10000, 86400);
    for i in 1..=5 {
        let bond = slash(&mut c, ADMIN, i as i128 * 1000_i128).unwrap();
        let expected_slashed = (i as i128 * (i as i128 + 1) / 2) * 1000_i128;
        let capped = if expected_slashed > 10000_i128 { 10000_i128 } else { expected_slashed };
        assert_eq!(bond.slashed_amount, capped);
    }
}

#[test]
fn test_slash_does_not_affect_other_fields() {
    let mut c = setup_with_bond(1000, 86400);
    let original = c.get_identity_state().unwrap();
    slash(&mut c, ADMIN, 300).unwrap();
    let updated = c.get_identity_state().unwrap();
    assert_eq!(updated.bonded_amount, original.bonded_amount);
    assert_eq!(updated.bond_start, original.bond_start);
    assert_eq!(updated.bond_duration, original.bond_duration);
    assert_eq!(updated.identity, IDENTITY);
}

#[test]
fn test_slash_event_emitted_basic() {
    let mut c = setup_with_bond(1000, 86400);
    slash(&mut c, ADMIN, 250).unwrap();
    assert_eq!(c.get_identity_state().unwrap().slashed_amount, 250);
}

#[test]
fn test_slash_event_contains_correct_event_data() {
    let mut c = setup_with_bond(1000, 86400);
    assert_eq!(slash(&mut c, ADMIN, 100).unwrap().slashed_amount, 100);
    assert_eq!(slash(&mut c, ADMIN, 200).unwrap().slashed_amount, 300);
}

#[test]
fn test_slash_multiple_events() {
    let mut c = setup_with_bond(1000, 86400);
    for i in 1..=3 {
        let bond = slash(&mut c, ADMIN, 100_i128 * i as i128).unwrap();
        assert_eq!(bond.slashed_amount, 100_i128 * (i * (i + 1) / 2) as i128);
    }
}

#[test]
fn test_withdraw_after_slash_respects_available() {
    let mut c = setup_with_bond(1000, 86400);
    slash(&mut c, ADMIN, 400).unwrap();
    let bond = c.withdraw(600, at(86401, 1)).unwrap();
    assert_eq!(bond.bonded_amount, 400);
    assert_eq!(bond.slashed_amount, 400);
}

#[test]
fn test_withdraw_more_than_available_after_slash() {
    let mut c = setup_with_bond(1000, 86400);
    slash(&mut c, ADMIN, 400).unwrap();
    assert_eq!(c.withdraw(601, at(86401, 1)), Err(CallError::Code(ContractError::InsufficientBalance)));
}

#[test]
fn test_withdraw_when_fully_slashed() {
    let mut c = setup_with_bond(1000, 86400);
    slash(&mut c, ADMIN, 1000).unwrap();
    assert_eq!(c.withdraw(1, at(86401, 1)), Err(CallError::Code(ContractError::InsufficientBalance)));
}

#[test]
fn test_withdraw_exact_available_balance() {
    let mut c = setup_with_bond(1000, 86400);
    slash(&mut c, ADMIN, 400).unwrap();
    let bond = c.withdraw(600, at(86401, 1)).unwrap();
    assert_eq!(bond.bonded_amount, 400);
}

#[test]
fn test_slash_then_withdraw_then_slash_again() {
    let mut c = setup_with_bond(1000, 86400);
    slash(&mut c, ADMIN, 200).unwrap();
    assert_eq!(c.get_identity_state().unwrap().bonded_amount, 1000);
    c.withdraw(300, at(86401, 1)).unwrap();
    assert_eq!(c.get_identity_state().unwrap().bonded_amount, 700);
    let bond = c.slash(ADMIN, 100, at(86401, 1)).unwrap();
    assert_eq!(bond.slashed_amount, 300);
    assert_eq!(bond.bonded_amount, 700);
}

#[test]
fn test_slash_after_partial_withdrawal() {
    let mut c = setup_with_bond(1000, 86400);
    c.withdraw(300, at(86401, 0)).unwrap();
    assert_eq!(c.get_identity_state().unwrap().bonded_amount, 700);
    let bond = c.slash(ADMIN, 200, at(86401, 1)).unwrap();
    assert_eq!(bond.bonded_amount, 700);
    assert_eq!(bond.slashed_amount, 200);
    c.withdraw(500, at(86401, 1)).unwrap();
    assert_eq!(c.get_identity_state().unwrap().bonded_amount, 200);
}

#[test]
fn test_cumulative_slash_with_capping() {
    let mut c = setup_with_bond(1000, 86400);
    slash(&mut c, ADMIN, 600).unwrap();
    assert_eq!(c.get_identity_state().unwrap().slashed_amount, 600);
    assert_eq!(slash(&mut c, ADMIN, 600).unwrap().slashed_amount, 1000);
}

#[test]
fn test_cumulative_slash_incremental() {
    let mut c = setup_with_bond(10000, 86400);
    for i in 1..=10 {
        let bond = slash(&mut c, ADMIN, 1000).unwrap();
        assert_eq!(bond.slashed_amount, (i as i128) * 1000_i128);
    }
}

#[test]
fn test_full_slash_prevents_further_slashing() {
    let mut c = setup_with_bond(1000, 86400);
    slash(&mut c, ADMIN, 1000).unwrap();
    assert_eq!(c.get_identity_state().unwrap().slashed_amount, 1000);
    assert_eq!(slash(&mut c, ADMIN, 500).unwrap().slashed_amount, 1000);
}

#[test]
fn test_slash_large_amounts() {
    let large_amount = 1_000_000_000_000_i128;
    let mut c = setup_with_bond(large_amount, 86400);
    assert_eq!(slash(&mut c, ADMIN, large_amount / 4).unwrap().slashed_amount, large_amount / 4);
    assert_eq!(slash(&mut c, ADMIN, large_amount / 4).unwrap().slashed_amount, large_amount / 2);
}

#[test]
fn test_slash_state_persists() {
    let mut c = setup_with_bond(1000, 86400);
    slash(&mut c, ADMIN, 300).unwrap();
    assert_eq!(c.get_identity_state().unwrap().slashed_amount, 300);
    assert_eq!(c.get_identity_state().unwrap().slashed_amount, 300);
}

#[test]
fn slash_leaving_one_unit_slashes_everything() {
    let mut c = setup_with_bond(1000, 86400);
    assert_eq!(slash(&mut c, ADMIN, 999).unwrap().slashed_amount, 1000);
}

#[test]
fn negative_slash_is_refused() {
    let mut c = setup_with_bond(1000, 86400);
    assert_eq!(slash(&mut c, ADMIN, -1), Err(CallError::Refused(Refusal::NegativeSlashAmount)));
}

#[test]
fn slash_without_bond_is_refused() {
    let mut c = setup();
    assert_eq!(slash(&mut c, ADMIN, 1), Err(CallError::Refused(Refusal::NoBond)));
}

#[test]
fn unslash_reverts_slashing() {
    let mut c = setup_with_bond(1000, 86400);
    slash(&mut c, ADMIN, 400).unwrap();
    let bond = c.unslash_bond(ADMIN, 150).unwrap();
    assert_eq!(bond.slashed_amount, 250);
    // Going below zero is caught by the post-write drift check.
    assert_eq!(c.unslash_bond(ADMIN, 300), Err(CallError::Code(ContractError::InvariantViolation)));
    assert_eq!(c.get_identity_state().unwrap().slashed_amount, 250);
}

#[test]
fn test_slash_result_matches_get_state() {
    let mut c = setup_with_bond(1000, 86400);
    let slash_result = slash(&mut c, ADMIN, 250).unwrap();
    let state = c.get_identity_state().unwrap();
    assert_eq!(slash_result.slashed_amount, state.slashed_amount);
    assert_eq!(slash_result.bonded_amount, state.bonded_amount);
}

#[test]
fn test_error_message_not_admin() {
    let mut c = setup_with_bond(1000, 86400);
    let err = slash(&mut c, 99, 100).unwrap_err();
    assert_eq!(err, CallError::Refused(Refusal::NotAdmin));
    assert_eq!(Refusal::NotAdmin.message(), "not admin");
}

#[test]
fn test_error_message_no_bond() {
    let mut c = setup();
    assert_eq!(slash(&mut c, ADMIN, 100), Err(CallError::Refused(Refusal::NoBond)));
    assert_eq!(Refusal::NoBond.message(), "no bond");
}

#[test]
fn test_slash_capped_at_available_not_bonded() {
    let mut c = setup_with_bond(1000, 86400);
    slash(&mut c, ADMIN, 600).unwrap();
    assert_eq!(c.get_identity_state().unwrap().slashed_amount, 600);
    assert_eq!(slash(&mut c, ADMIN, 500).unwrap().slashed_amount, 1000);
}

#[test]
fn test_slash_zero_available_is_noop() {
    let mut c = setup_with_bond(1000, 86400);
    slash(&mut c, ADMIN, 1000).unwrap();
    assert_eq!(c.get_identity_state().unwrap().slashed_amount, 1000);
    assert_eq!(slash(&mut c, ADMIN, 1).unwrap().slashed_amount, 1000);
}

#[test]
fn test_slash_available_decreases_after_each_slash() {
    let mut c = setup_with_bond(1000, 86400);
    slash(&mut c, ADMIN, 200).unwrap();
    slash(&mut c, ADMIN, 300).unwrap();
    slash(&mut c, ADMIN, 400).unwrap();
    assert_eq!(slash(&mut c, ADMIN, 200).unwrap().slashed_amount, 1000);
}

#[test]
fn test_slash_after_withdraw_respects_new_available() {
    let mut c = setup_with_bond(1000, 86400);
    c.withdraw(400, at(86401, 0)).unwrap();
    let bond = c.slash(ADMIN, 700, at(86401, 1)).unwrap();
    assert_eq!(bond.bonded_amount, 600);
    assert_eq!(bond.slashed_amount, 600);
}

#[test]
fn test_slash_history_count_increments() {
    let mut c = setup_with_bond(1000, 86400);
    slash(&mut c, ADMIN, 100).unwrap();
    slash(&mut c, ADMIN, 200).unwrap();
    assert_eq!(c.get_slash_count(IDENTITY), 2);
}

#[test]
fn test_slash_history_record_fields() {
    let mut c = setup();
    c.create_bond(IDENTITY, 1000, 86400, false, 0, at(5000, 0)).unwrap();
    c.slash(ADMIN, 300, at(5000, 1)).unwrap();
    let record = c.get_slash_record(IDENTITY, 0).unwrap();
    assert_eq!(record.identity, IDENTITY);
    assert_eq!(record.slash_amount, 300);
    assert_eq!(record.total_slashed_after, 300);
    assert_eq!(record.timestamp, 5000);
}

#[test]
fn test_slash_history_total_slashed_after_accumulates() {
    let mut c = setup_with_bond(1000, 86400);
    slash(&mut c, ADMIN, 100).unwrap();
    slash(&mut c, ADMIN, 200).unwrap();
    assert_eq!(c.get_slash_record(IDENTITY, 0).unwrap().total_slashed_after, 100);
    assert_eq!(c.get_slash_record(IDENTITY, 1).unwrap().total_slashed_after, 300);
}

#[test]
fn test_slash_history_capped_slash_records_actual_amount() {
    let mut c = setup_with_bond(1000, 86400);
    slash(&mut c, ADMIN, 800).unwrap();
    slash(&mut c, ADMIN, 500).unwrap();
    let r1 = c.get_slash_record(IDENTITY, 1).unwrap();
    assert_eq!(r1.slash_amount, 200);
    assert_eq!(r1.total_slashed_after, 1000);
}

#[test]
fn test_slash_history_zero_slash_no_record() {
    let mut c = setup_with_bond(1000, 86400);
    slash(&mut c, ADMIN, 0).unwrap();
    assert_eq!(c.get_slash_count(IDENTITY), 1);
    assert_eq!(c.get_slash_record(IDENTITY, 0).unwrap().slash_amount, 0);
}

#[test]
fn test_slash_history_get_all_records() {
    let mut c = setup_with_bond(10000, 86400);
    for i in 1_i128..=5 {
        slash(&mut c, ADMIN, i * 100).unwrap();
    }
    let history = c.get_slash_history(IDENTITY);
    assert_eq!(history.len(), 5);
    assert_eq!(history[0].slash_amount, 100);
    assert_eq!(history[4].slash_amount, 500);
}

#[test]
fn slash_history_of_another_identity_is_empty() {
    let mut c = setup_with_bond(1000, 86400);
    slash(&mut c, ADMIN, 100).unwrap();
    assert_eq!(c.get_slash_count(IDENTITY + 40), 0);
    assert!(c.get_slash_record(IDENTITY, 1).is_none());
}

#[test]
fn test_slash_next_ledger_after_increase_bond_allowed() {
    let mut c = setup_with_bond(10_000, 86_400);
    c.top_up(1_000, at(0, 0)).unwrap();
    let bond = c.slash(ADMIN, 100, at(0, 1)).unwrap();
    assert_eq!(bond.slashed_amount, 100);
    assert_eq!(bond.bonded_amount, 11_000);
}

#[test]
fn test_slash_same_ledger_after_top_up_rejected() {
    let mut c = setup_with_bond(10_000, 86_400);
    c.top_up(5_000, at(0, 1)).unwrap();
    assert_eq!(c.slash(ADMIN, 100, at(0, 1)), Err(CallError::Refused(Refusal::SlashBlockedSameLedger)));
    assert_eq!(Refusal::SlashBlockedSameLedger.message(), "slash blocked: collateral increased in this ledger");
}

#[test]
fn test_slash_next_ledger_after_create_bond_allowed() {
    let mut c = setup_with_bond(10_000, 86_400);
    assert_eq!(c.slash(ADMIN, 200, at(0, 1)).unwrap().slashed_amount, 200);
}

#[test]
fn test_withdraw_unaffected_after_create_same_ledger() {
    let duration = 86_400_u64;
    let mut c = setup_with_bond(10_000, duration);
    let bond = c.withdraw(1_000, at(duration + 1, 0)).unwrap();
    assert_eq!(bond.bonded_amount, 9_000);
}

/// A bond as large as an `i128` holds.
const VERY_LARGE_BOND: i128 = i128::MAX;

#[test]
fn test_slash_overflow_prevention() {
    // slashing is capped by the available balance (bonded - slashed); once
    // the bond is fully slashed, further slashes change nothing
    let mut c = setup_with_bond(VERY_LARGE_BOND, 86400);
    let bond = slash(&mut c, ADMIN, VERY_LARGE_BOND).unwrap();
    assert_eq!(bond.slashed_amount, VERY_LARGE_BOND);
    let bond2 = slash(&mut c, ADMIN, i128::MAX).unwrap();
    assert_eq!(bond2.slashed_amount, VERY_LARGE_BOND);
}

#[test]
fn test_slash_on_very_large_bond() {
    let mut c = setup_with_bond(VERY_LARGE_BOND, 86400);
    let bond = slash(&mut c, ADMIN, VERY_LARGE_BOND / 4).unwrap();
    assert_eq!(bond.slashed_amount, VERY_LARGE_BOND / 4);
}
