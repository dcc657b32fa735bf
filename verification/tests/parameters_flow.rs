use credence::parameters::{
    get_max_leverage, get_protocol_fee_bps, get_silver_threshold, get_slash_cooldown_secs, is_borrow_frozen,
    require_not_borrow_frozen, set_borrow_frozen, set_max_leverage, set_protocol_fee_bps,
    set_protocol_fee_bps_with_approval, set_silver_threshold, set_slash_cooldown_secs_with_approval, ApprovalCategory,
    GovernanceApproval, ParameterError, ParameterKey, ProtocolParameters, DEFAULT_PROTOCOL_FEE_BPS,
    DEFAULT_SLASH_COOLDOWN_SECS,
};

const ADMIN: u64 = 1;

fn setup() -> ProtocolParameters {
    ProtocolParameters::new(Some(ADMIN))
}

#[test]
fn defaults_until_set() {
    let p = setup();
    assert_eq!(get_protocol_fee_bps(&p), DEFAULT_PROTOCOL_FEE_BPS);
    assert_eq!(get_slash_cooldown_secs(&p), DEFAULT_SLASH_COOLDOWN_SECS);
    assert_eq!(get_max_leverage(&p), 100_000);
    assert!(!is_borrow_frozen(&p));
}

#[test]
fn test_set_protocol_fee_bps_unauthorized() {
    let mut p = setup();
    assert_eq!(set_protocol_fee_bps(&mut p, 99, 50), Err(ParameterError::NotAdmin));
    assert_eq!(ParameterError::NotAdmin.message(), "not admin");
}

#[test]
fn test_set_max_leverage_unauthorized() {
    let mut p = setup();
    assert_eq!(set_max_leverage(&mut p, 99, 10), Err(ParameterError::NotAdmin));
}

#[test]
fn admin_sets_within_bounds() {
    let mut p = setup();
    set_protocol_fee_bps(&mut p, ADMIN, 10).unwrap();
    set_max_leverage(&mut p, ADMIN, 5).unwrap();
    assert_eq!(get_protocol_fee_bps(&p), 10);
    assert_eq!(get_max_leverage(&p), 5);
}

#[test]
fn out_of_bounds_values_are_refused() {
    let mut p = setup();
    let e = set_protocol_fee_bps(&mut p, ADMIN, 1001).unwrap_err();
    assert_eq!(e, ParameterError::OutOfBounds(ParameterKey::ProtocolFeeBps));
    assert_eq!(e.message(), "protocol_fee_bps out of bounds");
    assert_eq!(set_max_leverage(&mut p, ADMIN, 0), Err(ParameterError::OutOfBounds(ParameterKey::MaxLeverage)));
    assert_eq!(set_silver_threshold(&mut p, ADMIN, 99_999_999), Err(ParameterError::OutOfBounds(ParameterKey::SilverThreshold)));
    assert_eq!(get_protocol_fee_bps(&p), DEFAULT_PROTOCOL_FEE_BPS);
    assert_eq!(get_silver_threshold(&p), 1_000_000_000);
}

#[test]
fn approvals_are_checked() {
    let mut p = setup();
    let other = GovernanceApproval { approver: 2, expires_at: 0, category: ApprovalCategory::Fee };
    assert_eq!(set_protocol_fee_bps_with_approval(&mut p, ADMIN, 20, &other, 0), Err(ParameterError::ApproverMismatch));
    let expired = GovernanceApproval { approver: ADMIN, expires_at: 100, category: ApprovalCategory::Fee };
    assert_eq!(set_protocol_fee_bps_with_approval(&mut p, ADMIN, 20, &expired, 101), Err(ParameterError::ApprovalExpired));
    assert_eq!(set_protocol_fee_bps_with_approval(&mut p, ADMIN, 20, &expired, 100), Ok(()));
    let wrong = GovernanceApproval { approver: ADMIN, expires_at: 0, category: ApprovalCategory::Fee };
    assert_eq!(
        set_slash_cooldown_secs_with_approval(&mut p, ADMIN, 10, &wrong, 0),
        Err(ParameterError::ApprovalCategoryMismatch)
    );
    assert_eq!(get_protocol_fee_bps(&p), 20);
}

#[test]
fn borrow_freeze() {
    let mut p = setup();
    assert_eq!(require_not_borrow_frozen(&p), Ok(()));
    set_borrow_frozen(&mut p, ADMIN, true).unwrap();
    assert_eq!(require_not_borrow_frozen(&p), Err(ParameterError::BorrowFrozen));
    assert_eq!(ParameterError::BorrowFrozen.message(), "borrow frozen");
    set_borrow_frozen(&mut p, ADMIN, false).unwrap();
    assert!(!is_borrow_frozen(&p));
}

#[test]
fn uninitialized_parameters_refuse_writes() {
    let mut p = ProtocolParameters::new(None);
    assert_eq!(set_protocol_fee_bps(&mut p, ADMIN, 10), Err(ParameterError::NotInitialized));
}
