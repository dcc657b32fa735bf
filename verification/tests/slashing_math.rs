use credence::bond::{get_available_balance, is_fully_slashed, is_partial_slash};

#[test]
fn test_available_balance_calculation() {
    assert_eq!(get_available_balance(1000, 300), 700);
    assert_eq!(get_available_balance(1000, 0), 1000);
    assert_eq!(get_available_balance(1000, 1000), 0);
}

#[test]
fn test_fully_slashed_detection() {
    assert!(!is_fully_slashed(1000, 0));
    assert!(!is_fully_slashed(1000, 500));
    assert!(is_fully_slashed(1000, 1000));
    assert!(is_fully_slashed(1000, 1500));
}

#[test]
fn test_partial_slash_detection() {
    assert!(is_partial_slash(500, 1000));
    assert!(!is_partial_slash(1000, 1000));
    assert!(!is_partial_slash(1500, 1000));
}

#[test]
fn test_available_balance_with_slashing() {
    let available = get_available_balance(1000, 300);
    assert_eq!(available, 700);

    let available_full = get_available_balance(1000, 1000);
    assert_eq!(available_full, 0);
}

#[test]
fn available_balance_may_be_negative_when_over_slashed() {
    assert_eq!(get_available_balance(1000, 1500), -500);
}
