//! Delegated-action payloads: the function domain a signature authorizes, the
//! wire-stable signature scheme tags, and the checks a delegated call makes.
use vstd::prelude::*;
use crate::AccountId;
use crate::errors::ContractError;

verus! {

/// Supported signature schemes; their wire values are 0, 1 and 2 and never change.
#[derive(Clone, Copy, Debug, PartialEq, Eq, PartialOrd, Ord, Hash, Structural)]
pub enum SchemeTag {
    Ed25519,
    Secp256r1,
    MLDSA44,
}

/// Wire value of a scheme.
pub open spec fn scheme_value(s: SchemeTag) -> u32 {
    match s {
        SchemeTag::Ed25519 => 0,
        SchemeTag::Secp256r1 => 1,
        SchemeTag::MLDSA44 => 2,
    }
}

/// The scheme with a given wire value, if any.
pub open spec fn scheme_of(value: u32) -> Option<SchemeTag> {
    if value == 0 {
        Some(SchemeTag::Ed25519)
    } else if value == 1 {
        Some(SchemeTag::Secp256r1)
    } else if value == 2 {
        Some(SchemeTag::MLDSA44)
    } else {
        None
    }
}

impl SchemeTag {
    /// The scheme with wire value `value`; `None` for any other value.
    pub fn try_from_u32(value: u32) -> (r: Option<SchemeTag>)
        ensures
            r == scheme_of(value),
    {
        match value {
            0 => Some(SchemeTag::Ed25519),
            1 => Some(SchemeTag::Secp256r1),
            2 => Some(SchemeTag::MLDSA44),
            _ => None,
        }
    }

    /// The wire value of this scheme.
    pub fn to_u32(self) -> (v: u32)
        ensures
            v == scheme_value(self),
    {
        match self {
            SchemeTag::Ed25519 => 0,
            SchemeTag::Secp256r1 => 1,
            SchemeTag::MLDSA44 => 2,
        }
    }

    /// The scheme assumed for payloads that predate multi-scheme support.
    pub fn default_scheme() -> (s: SchemeTag)
        ensures
            s == SchemeTag::Ed25519,
    {
        SchemeTag::Ed25519
    }

    /// Whether `value` names a known scheme.
    pub fn is_known(value: u32) -> (r: bool)
        ensures
            r == (value <= 2),
    {
        value <= 2
    }
}

/// Decoding a scheme's wire value gives the scheme back, and exactly the
/// known values decode.
pub proof fn lemma_scheme_round_trip(s: SchemeTag, v: u32)
    ensures
        scheme_of(scheme_value(s)) == Some(s),
        scheme_of(v) is Some <==> v <= 2,
        scheme_of(v) matches Some(t) ==> scheme_value(t) == v,
{
}

/// The function domain a delegated signature authorizes.
#[derive(Clone, Copy, Debug, PartialEq, Eq, Structural)]
pub enum DomainTag {
    Delegate,
    RevokeDelegation,
    RevokeAttestation,
}

/// What an owner signs so that a relayer may act on its behalf.
#[derive(Clone, Copy, Debug, PartialEq, Eq, Structural)]
pub struct DelegatedActionPayload {
    pub domain: DomainTag,
    pub owner: AccountId,
    pub target: AccountId,
    pub contract_id: AccountId,
    pub nonce: u64,
    /// Wire value of the signature scheme (unknown values decode as Ed25519).
    pub scheme: u32,
}

/// The first field of the payload that disagrees with the call, if any.
pub open spec fn payload_error(
    p: DelegatedActionPayload,
    expected_domain: DomainTag,
    owner: AccountId,
    target: AccountId,
    current_contract: AccountId,
) -> Option<ContractError> {
    if p.domain != expected_domain {
        Some(ContractError::DomainMismatch)
    } else if p.owner != owner {
        Some(ContractError::OwnerMismatch)
    } else if p.target != target {
        Some(ContractError::TargetMismatch)
    } else if p.contract_id != current_contract {
        Some(ContractError::ContractIdMismatch)
    } else {
        None
    }
}

/// Check that the payload was made for this call: its domain, owner, target
/// and contract; each mismatch has its own error.
pub fn verify_payload(
    payload: &DelegatedActionPayload,
    expected_domain: DomainTag,
    caller_owner: AccountId,
    caller_target: AccountId,
    current_contract: AccountId,
) -> (r: Result<(), ContractError>)
    ensures
        r == match payload_error(*payload, expected_domain, caller_owner, caller_target, current_contract) {
            Some(e) => Err::<(), ContractError>(e),
            None => Ok(()),
        },
{
    if payload.domain != expected_domain {
        return Err(ContractError::DomainMismatch);
    }
    if payload.owner != caller_owner {
        return Err(ContractError::OwnerMismatch);
    }
    if payload.target != caller_target {
        return Err(ContractError::TargetMismatch);
    }
    if payload.contract_id != current_contract {
        return Err(ContractError::ContractIdMismatch);
    }
    Ok(())
}

/// The payload's scheme, defaulting to Ed25519 for an unknown value.
pub fn decode_scheme_safe(payload: &DelegatedActionPayload) -> (s: SchemeTag)
    ensures
        s == match scheme_of(payload.scheme) {
            Some(t) => t,
            None => SchemeTag::Ed25519,
        },
{
    match SchemeTag::try_from_u32(payload.scheme) {
        Some(s) => s,
        None => SchemeTag::default_scheme(),
    }
}

/// Refuse an unknown scheme with `UnknownScheme`.
pub fn verify_scheme_supported(scheme: u32) -> (r: Result<(), ContractError>)
    ensures
        r == if scheme <= 2 { Ok::<(), ContractError>(()) } else { Err(ContractError::UnknownScheme) },
{
    if !SchemeTag::is_known(scheme) {
        return Err(ContractError::UnknownScheme);
    }
    Ok(())
}

/// Refuse a scheme that is not known (and so not registered) with `UnknownScheme`.
pub fn validate_scheme_registered(scheme: u32) -> (r: Result<(), ContractError>)
    ensures
        r == if scheme <= 2 { Ok::<(), ContractError>(()) } else { Err(ContractError::UnknownScheme) },
{
    verify_scheme_supported(scheme)
}

/// Check a delegated signature by scheme: Ed25519 is authenticated by the
/// host's own authorization, the other known schemes need a registered
/// verifier (none is registered), and unknown schemes are refused.  The
/// owner, message and signature are what a registered verifier would check.
pub fn verify_delegated_signature(
    owner: AccountId,
    message: &[u8],
    signature: &[u8],
    scheme: u32,
) -> (r: Result<(), ContractError>)
    ensures
        r == match scheme_of(scheme) {
            Some(SchemeTag::Ed25519) => Ok::<(), ContractError>(()),
            Some(_) => Err(ContractError::VerifierNotRegistered),
            None => Err(ContractError::UnknownScheme),
        },
{
    match SchemeTag::try_from_u32(scheme) {
        Some(SchemeTag::Ed25519) => Ok(()),
        Some(_) => Err(ContractError::VerifierNotRegistered),
        None => Err(ContractError::UnknownScheme),
    }
}

/// A verifier registered for a scheme.
#[derive(Clone, Copy, Debug, PartialEq, Eq, Structural)]
pub struct VerifierEntry {
    pub scheme: u32,
    pub verifier_id: AccountId,
}

/// Published when a verifier is registered for a scheme.
#[derive(Clone, Copy, Debug, PartialEq, Eq, Structural)]
pub struct VerifierRegisteredEvent {
    pub scheme: u32,
    pub verifier_id: AccountId,
    pub admin: AccountId,
}

} // verus!
