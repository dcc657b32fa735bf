use credence::delegation::{
    decode_scheme_safe, validate_scheme_registered, verify_delegated_signature, verify_payload, verify_scheme_supported,
    DelegatedActionPayload, DomainTag, SchemeTag,
};
use credence::errors::ContractError;

fn payload() -> DelegatedActionPayload {
    DelegatedActionPayload { domain: DomainTag::Delegate, owner: 1, target: 2, contract_id: 3, nonce: 0, scheme: 0 }
}

#[test]
fn matching_payload_is_accepted() {
    assert_eq!(verify_payload(&payload(), DomainTag::Delegate, 1, 2, 3), Ok(()));
}

#[test]
fn each_mismatch_has_its_error() {
    let p = payload();
    assert_eq!(verify_payload(&p, DomainTag::RevokeDelegation, 1, 2, 3), Err(ContractError::DomainMismatch));
    assert_eq!(verify_payload(&p, DomainTag::Delegate, 9, 2, 3), Err(ContractError::OwnerMismatch));
    assert_eq!(verify_payload(&p, DomainTag::Delegate, 1, 9, 3), Err(ContractError::TargetMismatch));
    assert_eq!(verify_payload(&p, DomainTag::Delegate, 1, 2, 9), Err(ContractError::ContractIdMismatch));
}

#[test]
fn schemes() {
    let mut p = payload();
    p.scheme = 7;
    assert_eq!(decode_scheme_safe(&p), SchemeTag::Ed25519);
    p.scheme = 2;
    assert_eq!(decode_scheme_safe(&p), SchemeTag::MLDSA44);
    assert_eq!(verify_scheme_supported(2), Ok(()));
    assert_eq!(verify_scheme_supported(3), Err(ContractError::UnknownScheme));
    assert_eq!(validate_scheme_registered(4), Err(ContractError::UnknownScheme));
    assert_eq!(verify_delegated_signature(1, b"m", b"s", 0), Ok(()));
    assert_eq!(verify_delegated_signature(1, b"m", b"s", 1), Err(ContractError::VerifierNotRegistered));
    assert_eq!(verify_delegated_signature(1, b"m", b"s", 3), Err(ContractError::UnknownScheme));
}
