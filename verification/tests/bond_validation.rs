use credence::bond::{create_bond, is_valid_bond};
use credence::errors::ContractError;

#[test]
fn lib_is_valid_bond_positive_amount() {
    assert!(is_valid_bond(1));
    assert!(is_valid_bond(1_000_000));
    assert!(is_valid_bond(i128::MAX));
}

#[test]
fn lib_is_valid_bond_zero_is_invalid() {
    assert!(!is_valid_bond(0));
}

#[test]
fn lib_is_valid_bond_negative_is_invalid() {
    assert!(!is_valid_bond(-1));
    assert!(!is_valid_bond(-5));
    assert!(!is_valid_bond(i128::MIN));
}

#[test]
fn lib_create_bond_rejects_zero_amount() {
    let err = create_bond(0, 0, 3600, false, 0).unwrap_err();
    assert_eq!(err, ContractError::InvalidBondAmount);
}

#[test]
fn lib_create_bond_rejects_negative_amount() {
    let err = create_bond(-1, 0, 3600, false, 0).unwrap_err();
    assert_eq!(err, ContractError::InvalidBondAmount);
}

#[test]
fn lib_create_bond_rejects_large_negative_amount() {
    let err = create_bond(i128::MIN, 0, 3600, false, 0).unwrap_err();
    assert_eq!(err, ContractError::InvalidBondAmount);
}

#[test]
fn lib_create_bond_rejects_zero_duration() {
    let err = create_bond(100, 0, 0, false, 0).unwrap_err();
    assert_eq!(err, ContractError::InvalidBondDuration);
}

#[test]
fn lib_create_bond_rejects_zero_duration_rolling() {
    let err = create_bond(100, 0, 0, true, 0).unwrap_err();
    assert_eq!(err, ContractError::InvalidBondDuration);
}

#[test]
fn lib_create_bond_rejects_zero_notice_for_rolling_bond() {
    let err = create_bond(100, 0, 3600, true, 0).unwrap_err();
    assert_eq!(err, ContractError::InvalidNoticePeriod);
}

#[test]
fn lib_create_bond_rejects_notice_greater_than_duration() {
    let err = create_bond(100, 0, 3600, true, 3601).unwrap_err();
    assert_eq!(err, ContractError::InvalidNoticePeriod);
}

#[test]
fn lib_create_bond_rejects_notice_much_greater_than_duration() {
    let err = create_bond(100, 0, 100, true, u64::MAX).unwrap_err();
    assert_eq!(err, ContractError::InvalidNoticePeriod);
}

#[test]
fn lib_create_bond_rejects_overflow_on_bond_end() {
    let err = create_bond(100, u64::MAX, 1, false, 0).unwrap_err();
    assert_eq!(err, ContractError::Overflow);
}

#[test]
fn lib_create_bond_rejects_overflow_both_max() {
    let err = create_bond(100, u64::MAX, u64::MAX, false, 0).unwrap_err();
    assert_eq!(err, ContractError::Overflow);
}

#[test]
fn lib_create_bond_valid_non_rolling() {
    let bond = create_bond(100, 1000, 3600, false, 0).unwrap();
    assert_eq!(bond.amount, 100);
    assert_eq!(bond.bond_start, 1000);
    assert_eq!(bond.duration, 3600);
    assert!(!bond.is_rolling);
    assert_eq!(bond.notice_period_duration, 0);
}

#[test]
fn lib_create_bond_valid_rolling_notice_less_than_duration() {
    let bond = create_bond(50, 0, 7200, true, 3600).unwrap();
    assert!(bond.is_rolling);
    assert_eq!(bond.notice_period_duration, 3600);
}

#[test]
fn lib_create_bond_valid_rolling_notice_equals_duration() {
    let bond = create_bond(50, 0, 3600, true, 3600).unwrap();
    assert!(bond.is_rolling);
    assert_eq!(bond.notice_period_duration, 3600);
}

#[test]
fn lib_create_bond_valid_max_amount() {
    let bond = create_bond(i128::MAX, 0, 1, false, 0).unwrap();
    assert_eq!(bond.amount, i128::MAX);
}

#[test]
fn lib_create_bond_valid_minimum_positive_amount() {
    let bond = create_bond(1, 0, 1, false, 0).unwrap();
    assert_eq!(bond.amount, 1);
}

#[test]
fn lib_create_bond_valid_minimum_duration() {
    let bond = create_bond(100, 0, 1, false, 0).unwrap();
    assert_eq!(bond.duration, 1);
}

#[test]
fn lib_create_bond_valid_rolling_minimum_notice() {
    let bond = create_bond(100, 0, 1, true, 1).unwrap();
    assert_eq!(bond.notice_period_duration, 1);
}

#[test]
fn lib_create_bond_non_rolling_ignores_notice_period() {
    let bond = create_bond(100, 0, 3600, false, 9999).unwrap();
    assert!(!bond.is_rolling);
    assert_eq!(bond.notice_period_duration, 9999);
}

#[test]
fn lib_create_bond_valid_no_overflow_at_boundary() {
    let bond = create_bond(100, 0, u64::MAX, false, 0).unwrap();
    assert_eq!(bond.duration, u64::MAX);
}

#[test]
fn lib_create_bond_amount_checked_before_duration() {
    let err = create_bond(0, 0, 0, false, 0).unwrap_err();
    assert_eq!(err, ContractError::InvalidBondAmount);
}

#[test]
fn lib_create_bond_duration_checked_before_notice() {
    let err = create_bond(100, 0, 0, true, 0).unwrap_err();
    assert_eq!(err, ContractError::InvalidBondDuration);
}
