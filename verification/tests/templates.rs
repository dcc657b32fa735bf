use credence::errors::{CallError, Refusal};
use credence::templates::TemplateContract;

const ADMIN: u64 = 1;

fn setup() -> TemplateContract {
    let mut c = TemplateContract::new();
    c.initialize(ADMIN).unwrap();
    c
}

#[test]
fn test_initialize_sets_admin() {
    let c = setup();
    assert_eq!(c.get_admin(), Ok(ADMIN));
}

#[test]
fn test_initialize_twice_panics() {
    let mut c = setup();
    assert_eq!(c.initialize(ADMIN), Err(CallError::Refused(Refusal::AlreadyInitialized)));
    assert_eq!(Refusal::AlreadyInitialized.message(), "already initialized");
}

#[test]
fn test_set_record_stores_value_and_timestamp() {
    let mut c = setup();
    let owner = 2u64;
    let now = 100u64;
    c.set_record(owner, 42, 0, now).unwrap();
    let rec = c.get_record(owner, now).unwrap();
    assert_eq!(rec.value, 42);
    assert_eq!(rec.updated_at, now);
}

#[test]
fn test_set_record_overwrites_previous() {
    let mut c = setup();
    let owner = 2u64;
    c.set_record(owner, 10, 0, 0).unwrap();
    c.set_record(owner, 99, 0, 50).unwrap();
    assert_eq!(c.get_record(owner, 50).unwrap().value, 99);
}

#[test]
fn test_set_record_requires_admin_auth() {
    let mut c = TemplateContract::new();
    assert_eq!(c.set_record(2, 1, 0, 0), Err(CallError::Refused(Refusal::NotInitialized)));
    c.initialize(ADMIN).unwrap();
    c.set_record(2, 1, 0, 0).unwrap();
}

#[test]
fn test_has_record_false_before_set() {
    let mut c = setup();
    assert!(!c.has_record(2, 0));
}

#[test]
fn test_has_record_true_after_set() {
    let mut c = setup();
    c.set_record(2, 7, 0, 0).unwrap();
    assert!(c.has_record(2, 0));
}

#[test]
fn test_get_record_panics_when_missing() {
    let c = setup();
    assert_eq!(c.get_record(2, 0), Err(CallError::Refused(Refusal::RecordNotFound)));
    assert_eq!(Refusal::RecordNotFound.message(), "record not found");
}

#[test]
fn test_remove_record_clears_entry() {
    let mut c = setup();
    c.set_record(2, 5, 0, 0).unwrap();
    assert!(c.has_record(2, 0));
    c.remove_record(2).unwrap();
    assert!(!c.has_record(2, 0));
}

#[test]
fn test_remove_nonexistent_record_is_noop() {
    let mut c = setup();
    c.remove_record(2).unwrap();
    assert!(!c.has_record(2, 0));
}

#[test]
fn test_get_admin_panics_before_init() {
    let c = TemplateContract::new();
    assert_eq!(c.get_admin(), Err(CallError::Refused(Refusal::NotInitialized)));
}

#[test]
fn test_updated_at_reflects_ledger_time() {
    let mut c = setup();
    c.set_record(2, 1, 0, 1_000).unwrap();
    let t1 = c.get_record(2, 1_000).unwrap().updated_at;
    c.set_record(2, 2, 0, 1_500).unwrap();
    let t2 = c.get_record(2, 1_500).unwrap().updated_at;
    assert!(t2 > t1);
}

#[test]
fn test_set_record_accepts_negative_value() {
    let mut c = setup();
    c.set_record(2, -100, 0, 0).unwrap();
    assert_eq!(c.get_record(2, 0).unwrap().value, -100);
}

#[test]
fn test_multiple_owners_are_independent() {
    let mut c = setup();
    let (a, b) = (2u64, 3u64);
    c.set_record(a, 10, 0, 0).unwrap();
    c.set_record(b, 20, 0, 0).unwrap();
    assert_eq!(c.get_record(a, 0).unwrap().value, 10);
    assert_eq!(c.get_record(b, 0).unwrap().value, 20);
    c.remove_record(a).unwrap();
    assert!(!c.has_record(a, 0));
    assert!(c.has_record(b, 0));
}

#[test]
fn test_expiry_pattern() {
    let mut c = setup();
    let owner = 2u64;
    let now = 0u64;
    c.set_record(owner, 100, now + 100, now).unwrap();
    assert!(c.has_record(owner, now));
    assert!(!c.is_expired(owner, now));
    let later = now + 100;
    assert!(c.is_expired(owner, later));
    assert!(!c.has_record(owner, later));
    assert!(!c.is_expired(owner, later));
}

#[test]
fn test_get_expired_record_panics() {
    let mut c = setup();
    let owner = 2u64;
    c.set_record(owner, 100, 10, 0).unwrap();
    assert_eq!(c.get_record(owner, 10), Err(CallError::Refused(Refusal::RecordExpired)));
    assert_eq!(Refusal::RecordExpired.message(), "record expired");
}
