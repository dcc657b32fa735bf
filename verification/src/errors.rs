//! Shared error codes of the Credence contracts, with their categories,
//! wire-stable numeric codes and human-readable descriptions.
use vstd::prelude::*;

verus! {

/// Broad family an error code belongs to.
#[derive(Clone, Copy, Debug, PartialEq, Eq, Structural)]
pub enum ErrorCategory {
    Initialization,
    Authorization,
    Bond,
    Attestation,
    Registry,
    Delegation,
    Treasury,
    Arithmetic,
}

/// Every error a Credence contract can answer a refused call with.
///
/// The numeric wire code of each variant is given by [`ContractError::code`].
#[derive(Clone, Copy, Debug, PartialEq, Eq, Structural)]
pub enum ContractError {
    NotInitialized,
    AlreadyInitialized,
    NotAdmin,
    NotBondOwner,
    UnauthorizedAttester,
    NotOriginalAttester,
    NotSigner,
    UnauthorizedDepositor,
    ContractPaused,
    InvalidPauseAction,
    InsufficientSignatures,
    BondNotFound,
    BondNotActive,
    InsufficientBalance,
    SlashExceedsBond,
    LockupNotExpired,
    NotRollingBond,
    WithdrawalAlreadyRequested,
    ReentrancyDetected,
    InvalidNonce,
    SignatureExpired,
    NegativeStake,
    EarlyExitConfigNotSet,
    InvalidPenaltyBps,
    LeverageExceeded,
    UnsupportedToken,
    InvalidBondAmount,
    InvalidBondDuration,
    InvalidNoticePeriod,
    BondAlreadyExists,
    InvariantViolation,
    DuplicateAttestation,
    AttestationNotFound,
    AttestationAlreadyRevoked,
    InvalidAttestationWeight,
    AttestationWeightExceedsMax,
    IdentityAlreadyRegistered,
    BondContractAlreadyRegistered,
    IdentityNotRegistered,
    BondContractNotRegistered,
    AlreadyDeactivated,
    AlreadyActive,
    InvalidContractAddress,
    ExpiryInPast,
    DelegationNotFound,
    AlreadyRevoked,
    DelegationExpiryTooLong,
    UnknownScheme,
    VerifierAlreadyRegistered,
    VerifierNotRegistered,
    VerificationFailed,
    DomainMismatch,
    OwnerMismatch,
    TargetMismatch,
    ContractIdMismatch,
    NoPendingAdmin,
    InvalidAdminAddress,
    AdminUnchanged,
    TimelockNotReady,
    AmountMustBePositive,
    ThresholdExceedsSigners,
    InsufficientTreasuryBalance,
    ProposalNotFound,
    ProposalAlreadyExecuted,
    InsufficientApprovals,
    InvalidFlashLoanCallback,
    FlashLoanRepaymentFailed,
    Overflow,
    Underflow,
}

/// The wire code of each error (grouped by hundreds per category).
pub open spec fn error_code(e: ContractError) -> u32 {
    match e {
        ContractError::NotInitialized => 1,
        ContractError::AlreadyInitialized => 2,
        ContractError::NotAdmin => 100,
        ContractError::NotBondOwner => 101,
        ContractError::UnauthorizedAttester => 102,
        ContractError::NotOriginalAttester => 103,
        ContractError::NotSigner => 104,
        ContractError::UnauthorizedDepositor => 105,
        ContractError::ContractPaused => 106,
        ContractError::InvalidPauseAction => 107,
        ContractError::InsufficientSignatures => 108,
        ContractError::NoPendingAdmin => 109,
        ContractError::InvalidAdminAddress => 110,
        ContractError::AdminUnchanged => 111,
        ContractError::TimelockNotReady => 112,
        ContractError::BondNotFound => 200,
        ContractError::BondNotActive => 201,
        ContractError::InsufficientBalance => 202,
        ContractError::SlashExceedsBond => 203,
        ContractError::LockupNotExpired => 204,
        ContractError::NotRollingBond => 205,
        ContractError::WithdrawalAlreadyRequested => 206,
        ContractError::ReentrancyDetected => 207,
        ContractError::InvalidNonce => 208,
        ContractError::NegativeStake => 209,
        ContractError::EarlyExitConfigNotSet => 210,
        ContractError::InvalidPenaltyBps => 211,
        ContractError::LeverageExceeded => 212,
        ContractError::UnsupportedToken => 213,
        ContractError::InvalidBondAmount => 214,
        ContractError::InvalidBondDuration => 215,
        ContractError::InvalidNoticePeriod => 216,
        ContractError::BondAlreadyExists => 217,
        ContractError::DomainMismatch => 218,
        ContractError::OwnerMismatch => 219,
        ContractError::TargetMismatch => 220,
        ContractError::ContractIdMismatch => 221,
        ContractError::SignatureExpired => 222,
        ContractError::InvariantViolation => 223,
        ContractError::DuplicateAttestation => 300,
        ContractError::AttestationNotFound => 301,
        ContractError::AttestationAlreadyRevoked => 302,
        ContractError::InvalidAttestationWeight => 303,
        ContractError::AttestationWeightExceedsMax => 304,
        ContractError::IdentityAlreadyRegistered => 400,
        ContractError::BondContractAlreadyRegistered => 401,
        ContractError::IdentityNotRegistered => 402,
        ContractError::BondContractNotRegistered => 403,
        ContractError::AlreadyDeactivated => 404,
        ContractError::AlreadyActive => 405,
        ContractError::InvalidContractAddress => 406,
        ContractError::ExpiryInPast => 500,
        ContractError::DelegationNotFound => 501,
        ContractError::AlreadyRevoked => 502,
        ContractError::DelegationExpiryTooLong => 503,
        ContractError::UnknownScheme => 504,
        ContractError::VerifierAlreadyRegistered => 505,
        ContractError::VerifierNotRegistered => 506,
        ContractError::VerificationFailed => 507,
        ContractError::AmountMustBePositive => 600,
        ContractError::ThresholdExceedsSigners => 601,
        ContractError::InsufficientTreasuryBalance => 602,
        ContractError::ProposalNotFound => 603,
        ContractError::ProposalAlreadyExecuted => 604,
        ContractError::InsufficientApprovals => 605,
        ContractError::InvalidFlashLoanCallback => 606,
        ContractError::FlashLoanRepaymentFailed => 607,
        ContractError::Overflow => 700,
        ContractError::Underflow => 701,
    }
}

/// The category of each error.
pub open spec fn error_category(e: ContractError) -> ErrorCategory {
    match e {
        ContractError::NotInitialized | ContractError::AlreadyInitialized => ErrorCategory::Initialization,
        ContractError::NotAdmin
        | ContractError::NotBondOwner
        | ContractError::UnauthorizedAttester
        | ContractError::NotOriginalAttester
        | ContractError::NotSigner
        | ContractError::UnauthorizedDepositor
        | ContractError::ContractPaused
        | ContractError::InvalidPauseAction
        | ContractError::InsufficientSignatures
        | ContractError::NoPendingAdmin
        | ContractError::InvalidAdminAddress
        | ContractError::AdminUnchanged
        | ContractError::TimelockNotReady => ErrorCategory::Authorization,
        ContractError::BondNotFound
        | ContractError::BondNotActive
        | ContractError::InsufficientBalance
        | ContractError::SlashExceedsBond
        | ContractError::LockupNotExpired
        | ContractError::NotRollingBond
        | ContractError::WithdrawalAlreadyRequested
        | ContractError::ReentrancyDetected
        | ContractError::InvalidNonce
        | ContractError::SignatureExpired
        | ContractError::NegativeStake
        | ContractError::EarlyExitConfigNotSet
        | ContractError::InvalidPenaltyBps
        | ContractError::LeverageExceeded
        | ContractError::UnsupportedToken
        | ContractError::InvalidBondAmount
        | ContractError::InvalidBondDuration
        | ContractError::InvalidNoticePeriod
        | ContractError::BondAlreadyExists
        | ContractError::DomainMismatch
        | ContractError::OwnerMismatch
        | ContractError::TargetMismatch
        | ContractError::ContractIdMismatch
        | ContractError::InvariantViolation => ErrorCategory::Bond,
        ContractError::DuplicateAttestation
        | ContractError::AttestationNotFound
        | ContractError::AttestationAlreadyRevoked
        | ContractError::InvalidAttestationWeight
        | ContractError::AttestationWeightExceedsMax => ErrorCategory::Attestation,
        ContractError::IdentityAlreadyRegistered
        | ContractError::BondContractAlreadyRegistered
        | ContractError::IdentityNotRegistered
        | ContractError::BondContractNotRegistered
        | ContractError::AlreadyDeactivated
        | ContractError::AlreadyActive
        | ContractError::InvalidContractAddress => ErrorCategory::Registry,
        ContractError::ExpiryInPast
        | ContractError::DelegationNotFound
        | ContractError::AlreadyRevoked
        | ContractError::DelegationExpiryTooLong
        | ContractError::UnknownScheme
        | ContractError::VerifierAlreadyRegistered
        | ContractError::VerifierNotRegistered
        | ContractError::VerificationFailed => ErrorCategory::Delegation,
        ContractError::AmountMustBePositive
        | ContractError::ThresholdExceedsSigners
        | ContractError::InsufficientTreasuryBalance
        | ContractError::ProposalNotFound
        | ContractError::ProposalAlreadyExecuted
        | ContractError::InsufficientApprovals
        | ContractError::InvalidFlashLoanCallback
        | ContractError::FlashLoanRepaymentFailed => ErrorCategory::Treasury,
        ContractError::Overflow | ContractError::Underflow => ErrorCategory::Arithmetic,
    }
}

/// The human-readable description of each error.
pub open spec fn error_description(e: ContractError) -> Seq<char> {
    match e {
        ContractError::NotInitialized => "Contract has not been initialized"@,
        ContractError::AlreadyInitialized => "Contract has already been initialized"@,
        ContractError::NotAdmin => "Caller is not the admin"@,
        ContractError::NotBondOwner => "Caller is not the bond owner"@,
        ContractError::UnauthorizedAttester => "Caller is not an authorized attester"@,
        ContractError::NotOriginalAttester => "Only the original attester can revoke"@,
        ContractError::NotSigner => "Caller is not a registered multi-sig signer"@,
        ContractError::UnauthorizedDepositor => "Caller is neither admin nor an authorized depositor"@,
        ContractError::ContractPaused => "Contract is paused"@,
        ContractError::InvalidPauseAction => "Pause proposal action is invalid"@,
        ContractError::InsufficientSignatures => "Not enough approvals to execute proposal"@,
        ContractError::BondNotFound => "No bond found for the given key"@,
        ContractError::BondNotActive => "Bond is not in an active state"@,
        ContractError::InsufficientBalance => "Insufficient balance for withdrawal"@,
        ContractError::SlashExceedsBond => "Slash amount exceeds the bonded amount"@,
        ContractError::LockupNotExpired => "Lock-up period has not yet expired"@,
        ContractError::NotRollingBond => "Bond is not configured as a rolling bond"@,
        ContractError::WithdrawalAlreadyRequested => "A withdrawal has already been requested for this bond"@,
        ContractError::ReentrancyDetected => "Reentrancy detected; call rejected"@,
        ContractError::InvalidNonce => "Nonce is replayed or out of order"@,
        ContractError::SignatureExpired => "Signature/operation deadline has passed"@,
        ContractError::NegativeStake => "Attester stake cannot be negative"@,
        ContractError::EarlyExitConfigNotSet => "Early-exit configuration has not been set for this bond"@,
        ContractError::InvalidPenaltyBps => "Penalty bps must be in range 0-10000"@,
        ContractError::LeverageExceeded => "Resulting leverage exceeds the configured maximum"@,
        ContractError::UnsupportedToken => "Token transfer resulted in different amount than requested (fee-on-transfer tokens not supported)"@,
        ContractError::InvalidBondAmount => "Bond amount must be strictly positive (> 0)"@,
        ContractError::InvalidBondDuration => "Bond duration must be strictly positive (> 0)"@,
        ContractError::InvalidNoticePeriod => "Rolling-bond notice_period_duration must be > 0 and <= duration"@,
        ContractError::BondAlreadyExists => "Bond already exists for this identity"@,
        ContractError::InvariantViolation => "Bond state violates a protocol invariant"@,
        ContractError::DuplicateAttestation => "Attestation already exists from this attester"@,
        ContractError::AttestationNotFound => "No attestation found for the given key"@,
        ContractError::AttestationAlreadyRevoked => "Attestation has already been revoked"@,
        ContractError::InvalidAttestationWeight => "Attestation weight must be positive"@,
        ContractError::AttestationWeightExceedsMax => "Attestation weight exceeds the configured maximum"@,
        ContractError::IdentityAlreadyRegistered => "Identity has already been registered in the registry"@,
        ContractError::BondContractAlreadyRegistered => "Bond contract address has already been registered"@,
        ContractError::IdentityNotRegistered => "Identity is not registered in the registry"@,
        ContractError::BondContractNotRegistered => "Bond contract is not registered in the registry"@,
        ContractError::AlreadyDeactivated => "Record is already in the deactivated state"@,
        ContractError::AlreadyActive => "Record is already in the active state"@,
        ContractError::InvalidContractAddress => "Provided contract address is not a deployed contract"@,
        ContractError::ExpiryInPast => "Delegation expiry must be in the future"@,
        ContractError::DelegationNotFound => "No delegation found for the given key"@,
        ContractError::AlreadyRevoked => "Delegation has already been revoked"@,
        ContractError::DelegationExpiryTooLong => "Delegation expiry exceeds the maximum allowed lifetime"@,
        ContractError::UnknownScheme => "Unknown or unsupported signature scheme tag"@,
        ContractError::VerifierAlreadyRegistered => "Verifier already registered for the given scheme tag"@,
        ContractError::VerifierNotRegistered => "No verifier registered for the given scheme tag"@,
        ContractError::VerificationFailed => "Signature verification failed for the given scheme and payload"@,
        ContractError::DomainMismatch => "Payload domain tag does not match expected"@,
        ContractError::OwnerMismatch => "Payload owner does not match expected caller"@,
        ContractError::TargetMismatch => "Payload target does not match expected action"@,
        ContractError::ContractIdMismatch => "Payload contract_id does not match current contract"@,
        ContractError::NoPendingAdmin => "No pending admin transfer exists"@,
        ContractError::InvalidAdminAddress => "Proposed admin is the zero or identity address"@,
        ContractError::AdminUnchanged => "Proposed admin is the same as the current admin"@,
        ContractError::TimelockNotReady => "Timelock delay has not yet elapsed"@,
        ContractError::AmountMustBePositive => "Amount must be strictly positive (> 0)"@,
        ContractError::ThresholdExceedsSigners => "Threshold cannot exceed the current signer count"@,
        ContractError::InsufficientTreasuryBalance => "Treasury balance is insufficient for withdrawal"@,
        ContractError::ProposalNotFound => "Withdrawal proposal not found"@,
        ContractError::ProposalAlreadyExecuted => "Withdrawal proposal has already been executed"@,
        ContractError::InsufficientApprovals => "Proposal does not have enough approvals to execute"@,
        ContractError::InvalidFlashLoanCallback => "Flashloan callback returned an invalid magic value"@,
        ContractError::FlashLoanRepaymentFailed => "Flashloan principal plus fee was not fully repaid"@,
        ContractError::Overflow => "Integer overflow in checked arithmetic"@,
        ContractError::Underflow => "Integer underflow in checked arithmetic"@,
    }
}

/// Category and description of an error.
pub trait ErrorExt {
    fn category(&self) -> ErrorCategory;

    fn description(&self) -> &'static str;
}

impl ErrorExt for ContractError {
    fn category(&self) -> (c: ErrorCategory)
        ensures
            c == error_category(*self),
    {
        match self {
            ContractError::NotInitialized
            | ContractError::AlreadyInitialized => ErrorCategory::Initialization,
            ContractError::NotAdmin
            | ContractError::NotBondOwner
            | ContractError::UnauthorizedAttester
            | ContractError::NotOriginalAttester
            | ContractError::NotSigner
            | ContractError::UnauthorizedDepositor
            | ContractError::ContractPaused
            | ContractError::InvalidPauseAction
            | ContractError::InsufficientSignatures
            | ContractError::NoPendingAdmin
            | ContractError::InvalidAdminAddress
            | ContractError::AdminUnchanged
            | ContractError::TimelockNotReady => ErrorCategory::Authorization,
            ContractError::BondNotFound
            | ContractError::BondNotActive
            | ContractError::InsufficientBalance
            | ContractError::SlashExceedsBond
            | ContractError::LockupNotExpired
            | ContractError::NotRollingBond
            | ContractError::WithdrawalAlreadyRequested
            | ContractError::ReentrancyDetected
            | ContractError::InvalidNonce
            | ContractError::SignatureExpired
            | ContractError::NegativeStake
            | ContractError::EarlyExitConfigNotSet
            | ContractError::InvalidPenaltyBps
            | ContractError::LeverageExceeded
            | ContractError::UnsupportedToken
            | ContractError::InvalidBondAmount
            | ContractError::InvalidBondDuration
            | ContractError::InvalidNoticePeriod
            | ContractError::BondAlreadyExists
            | ContractError::DomainMismatch
            | ContractError::OwnerMismatch
            | ContractError::TargetMismatch
            | ContractError::ContractIdMismatch
            | ContractError::InvariantViolation => ErrorCategory::Bond,
            ContractError::DuplicateAttestation
            | ContractError::AttestationNotFound
            | ContractError::AttestationAlreadyRevoked
            | ContractError::InvalidAttestationWeight
            | ContractError::AttestationWeightExceedsMax => ErrorCategory::Attestation,
            ContractError::IdentityAlreadyRegistered
            | ContractError::BondContractAlreadyRegistered
            | ContractError::IdentityNotRegistered
            | ContractError::BondContractNotRegistered
            | ContractError::AlreadyDeactivated
            | ContractError::AlreadyActive
            | ContractError::InvalidContractAddress => ErrorCategory::Registry,
            ContractError::ExpiryInPast
            | ContractError::DelegationNotFound
            | ContractError::AlreadyRevoked
            | ContractError::DelegationExpiryTooLong
            | ContractError::UnknownScheme
            | ContractError::VerifierAlreadyRegistered
            | ContractError::VerifierNotRegistered
            | ContractError::VerificationFailed => ErrorCategory::Delegation,
            ContractError::AmountMustBePositive
            | ContractError::ThresholdExceedsSigners
            | ContractError::InsufficientTreasuryBalance
            | ContractError::ProposalNotFound
            | ContractError::ProposalAlreadyExecuted
            | ContractError::InsufficientApprovals
            | ContractError::InvalidFlashLoanCallback
            | ContractError::FlashLoanRepaymentFailed => ErrorCategory::Treasury,
            ContractError::Overflow
            | ContractError::Underflow => ErrorCategory::Arithmetic,
        }
    }

    fn description(&self) -> (s: &'static str)
        ensures
            s@ == error_description(*self),
    {
        match self {
            ContractError::NotInitialized => "Contract has not been initialized",
            ContractError::AlreadyInitialized => "Contract has already been initialized",
            ContractError::NotAdmin => "Caller is not the admin",
            ContractError::NotBondOwner => "Caller is not the bond owner",
            ContractError::UnauthorizedAttester => "Caller is not an authorized attester",
            ContractError::NotOriginalAttester => "Only the original attester can revoke",
            ContractError::NotSigner => "Caller is not a registered multi-sig signer",
            ContractError::UnauthorizedDepositor => "Caller is neither admin nor an authorized depositor",
            ContractError::ContractPaused => "Contract is paused",
            ContractError::InvalidPauseAction => "Pause proposal action is invalid",
            ContractError::InsufficientSignatures => "Not enough approvals to execute proposal",
            ContractError::BondNotFound => "No bond found for the given key",
            ContractError::BondNotActive => "Bond is not in an active state",
            ContractError::InsufficientBalance => "Insufficient balance for withdrawal",
            ContractError::SlashExceedsBond => "Slash amount exceeds the bonded amount",
            ContractError::LockupNotExpired => "Lock-up period has not yet expired",
            ContractError::NotRollingBond => "Bond is not configured as a rolling bond",
            ContractError::WithdrawalAlreadyRequested => "A withdrawal has already been requested for this bond",
            ContractError::ReentrancyDetected => "Reentrancy detected; call rejected",
            ContractError::InvalidNonce => "Nonce is replayed or out of order",
            ContractError::SignatureExpired => "Signature/operation deadline has passed",
            ContractError::NegativeStake => "Attester stake cannot be negative",
            ContractError::EarlyExitConfigNotSet => "Early-exit configuration has not been set for this bond",
            ContractError::InvalidPenaltyBps => "Penalty bps must be in range 0-10000",
            ContractError::LeverageExceeded => "Resulting leverage exceeds the configured maximum",
            ContractError::UnsupportedToken => "Token transfer resulted in different amount than requested (fee-on-transfer tokens not supported)",
            ContractError::InvalidBondAmount => "Bond amount must be strictly positive (> 0)",
            ContractError::InvalidBondDuration => "Bond duration must be strictly positive (> 0)",
            ContractError::InvalidNoticePeriod => "Rolling-bond notice_period_duration must be > 0 and <= duration",
            ContractError::BondAlreadyExists => "Bond already exists for this identity",
            ContractError::InvariantViolation => "Bond state violates a protocol invariant",
            ContractError::DuplicateAttestation => "Attestation already exists from this attester",
            ContractError::AttestationNotFound => "No attestation found for the given key",
            ContractError::AttestationAlreadyRevoked => "Attestation has already been revoked",
            ContractError::InvalidAttestationWeight => "Attestation weight must be positive",
            ContractError::AttestationWeightExceedsMax => "Attestation weight exceeds the configured maximum",
            ContractError::IdentityAlreadyRegistered => "Identity has already been registered in the registry",
            ContractError::BondContractAlreadyRegistered => "Bond contract address has already been registered",
            ContractError::IdentityNotRegistered => "Identity is not registered in the registry",
            ContractError::BondContractNotRegistered => "Bond contract is not registered in the registry",
            ContractError::AlreadyDeactivated => "Record is already in the deactivated state",
            ContractError::AlreadyActive => "Record is already in the active state",
            ContractError::InvalidContractAddress => "Provided contract address is not a deployed contract",
            ContractError::ExpiryInPast => "Delegation expiry must be in the future",
            ContractError::DelegationNotFound => "No delegation found for the given key",
            ContractError::AlreadyRevoked => "Delegation has already been revoked",
            ContractError::DelegationExpiryTooLong => "Delegation expiry exceeds the maximum allowed lifetime",
            ContractError::UnknownScheme => "Unknown or unsupported signature scheme tag",
            ContractError::VerifierAlreadyRegistered => "Verifier already registered for the given scheme tag",
            ContractError::VerifierNotRegistered => "No verifier registered for the given scheme tag",
            ContractError::VerificationFailed => "Signature verification failed for the given scheme and payload",
            ContractError::DomainMismatch => "Payload domain tag does not match expected",
            ContractError::OwnerMismatch => "Payload owner does not match expected caller",
            ContractError::TargetMismatch => "Payload target does not match expected action",
            ContractError::ContractIdMismatch => "Payload contract_id does not match current contract",
            ContractError::NoPendingAdmin => "No pending admin transfer exists",
            ContractError::InvalidAdminAddress => "Proposed admin is the zero or identity address",
            ContractError::AdminUnchanged => "Proposed admin is the same as the current admin",
            ContractError::TimelockNotReady => "Timelock delay has not yet elapsed",
            ContractError::AmountMustBePositive => "Amount must be strictly positive (> 0)",
            ContractError::ThresholdExceedsSigners => "Threshold cannot exceed the current signer count",
            ContractError::InsufficientTreasuryBalance => "Treasury balance is insufficient for withdrawal",
            ContractError::ProposalNotFound => "Withdrawal proposal not found",
            ContractError::ProposalAlreadyExecuted => "Withdrawal proposal has already been executed",
            ContractError::InsufficientApprovals => "Proposal does not have enough approvals to execute",
            ContractError::InvalidFlashLoanCallback => "Flashloan callback returned an invalid magic value",
            ContractError::FlashLoanRepaymentFailed => "Flashloan principal plus fee was not fully repaid",
            ContractError::Overflow => "Integer overflow in checked arithmetic",
            ContractError::Underflow => "Integer underflow in checked arithmetic",
        }
    }
}

impl ContractError {
    /// The wire-stable numeric code of this error.
    pub fn code(&self) -> (c: u32)
        ensures
            c == error_code(*self),
    {
        match self {
            ContractError::NotInitialized => 1,
            ContractError::AlreadyInitialized => 2,
            ContractError::NotAdmin => 100,
            ContractError::NotBondOwner => 101,
            ContractError::UnauthorizedAttester => 102,
            ContractError::NotOriginalAttester => 103,
            ContractError::NotSigner => 104,
            ContractError::UnauthorizedDepositor => 105,
            ContractError::ContractPaused => 106,
            ContractError::InvalidPauseAction => 107,
            ContractError::InsufficientSignatures => 108,
            ContractError::BondNotFound => 200,
            ContractError::BondNotActive => 201,
            ContractError::InsufficientBalance => 202,
            ContractError::SlashExceedsBond => 203,
            ContractError::LockupNotExpired => 204,
            ContractError::NotRollingBond => 205,
            ContractError::WithdrawalAlreadyRequested => 206,
            ContractError::ReentrancyDetected => 207,
            ContractError::InvalidNonce => 208,
            ContractError::SignatureExpired => 222,
            ContractError::NegativeStake => 209,
            ContractError::EarlyExitConfigNotSet => 210,
            ContractError::InvalidPenaltyBps => 211,
            ContractError::LeverageExceeded => 212,
            ContractError::UnsupportedToken => 213,
            ContractError::InvalidBondAmount => 214,
            ContractError::InvalidBondDuration => 215,
            ContractError::InvalidNoticePeriod => 216,
            ContractError::BondAlreadyExists => 217,
            ContractError::InvariantViolation => 223,
            ContractError::DuplicateAttestation => 300,
            ContractError::AttestationNotFound => 301,
            ContractError::AttestationAlreadyRevoked => 302,
            ContractError::InvalidAttestationWeight => 303,
            ContractError::AttestationWeightExceedsMax => 304,
            ContractError::IdentityAlreadyRegistered => 400,
            ContractError::BondContractAlreadyRegistered => 401,
            ContractError::IdentityNotRegistered => 402,
            ContractError::BondContractNotRegistered => 403,
            ContractError::AlreadyDeactivated => 404,
            ContractError::AlreadyActive => 405,
            ContractError::InvalidContractAddress => 406,
            ContractError::ExpiryInPast => 500,
            ContractError::DelegationNotFound => 501,
            ContractError::AlreadyRevoked => 502,
            ContractError::DelegationExpiryTooLong => 503,
            ContractError::UnknownScheme => 504,
            ContractError::VerifierAlreadyRegistered => 505,
            ContractError::VerifierNotRegistered => 506,
            ContractError::VerificationFailed => 507,
            ContractError::DomainMismatch => 218,
            ContractError::OwnerMismatch => 219,
            ContractError::TargetMismatch => 220,
            ContractError::ContractIdMismatch => 221,
            ContractError::NoPendingAdmin => 109,
            ContractError::InvalidAdminAddress => 110,
            ContractError::AdminUnchanged => 111,
            ContractError::TimelockNotReady => 112,
            ContractError::AmountMustBePositive => 600,
            ContractError::ThresholdExceedsSigners => 601,
            ContractError::InsufficientTreasuryBalance => 602,
            ContractError::ProposalNotFound => 603,
            ContractError::ProposalAlreadyExecuted => 604,
            ContractError::InsufficientApprovals => 605,
            ContractError::InvalidFlashLoanCallback => 606,
            ContractError::FlashLoanRepaymentFailed => 607,
            ContractError::Overflow => 700,
            ContractError::Underflow => 701,
        }
    }
}



/// A refusal that a contract reports with a message instead of an error code.
#[derive(Clone, Copy, Debug, PartialEq, Eq, Structural)]
pub enum Refusal {
    /// The end of a new bond's lock-up does not fit in a timestamp.
    BondEndWouldOverflow,
    /// The end of an existing bond's lock-up does not fit in a timestamp.
    BondEndOverflow,
    /// A regular withdrawal was attempted during the lock-up.
    LockupNotExpiredUseWithdrawEarly,
    /// A rolling bond is withdrawn without a prior withdrawal request.
    WithdrawalNotRequested,
    /// The end of the notice period does not fit in a timestamp.
    NoticePeriodOverflow,
    /// The notice period of a rolling bond has not elapsed yet.
    NoticePeriodNotElapsed,
    /// The bond is neither fully slashed nor an expired fixed-duration bond.
    NotEligibleForLiquidation,
    /// A negative amount was given to slash.
    NegativeSlashAmount,
    /// A negative amount was given to unslash.
    NegativeUnslashAmount,
    /// Unslashing would take the slashed amount below zero.
    UnslashBelowZero,
    /// The slashed amount already exceeds the bonded amount.
    SlashedExceedsBonded,
    /// A slash in the same ledger as a collateral increase.
    SlashBlockedSameLedger,
    /// No admin is configured.
    NotInitialized,
    /// The caller is not the admin.
    NotAdmin,
    /// No bond exists.
    NoBond,
    /// The contract was already initialized.
    AlreadyInitialized,
    /// The operation hash was already executed.
    OperationAlreadyExecuted,
    /// No record is stored for the owner.
    RecordNotFound,
    /// The record has expired.
    RecordExpired,
    /// An arithmetic result does not fit in its machine integer.
    ArithmeticOverflow,
}

/// The message a refusal is reported with.
pub open spec fn refusal_message(r: Refusal) -> Seq<char> {
    match r {
        Refusal::BondEndWouldOverflow => "bond end timestamp would overflow"@,
        Refusal::BondEndOverflow => "bond end timestamp overflow"@,
        Refusal::LockupNotExpiredUseWithdrawEarly => "lock-up not expired; use withdraw_early"@,
        Refusal::WithdrawalNotRequested => "withdrawal not requested"@,
        Refusal::NoticePeriodOverflow => "notice period overflow"@,
        Refusal::NoticePeriodNotElapsed => "notice period not elapsed"@,
        Refusal::NotEligibleForLiquidation => "bond is not eligible for liquidation: must be fully slashed or expired (non-rolling) without renewal"@,
        Refusal::NegativeSlashAmount => "slash amount must be non-negative"@,
        Refusal::NegativeUnslashAmount => "unslash amount must be non-negative"@,
        Refusal::UnslashBelowZero => "unslashing would reduce below 0"@,
        Refusal::SlashedExceedsBonded => "slashed exceeds bonded"@,
        Refusal::SlashBlockedSameLedger => "slash blocked: collateral increased in this ledger"@,
        Refusal::NotInitialized => "not initialized"@,
        Refusal::NotAdmin => "not admin"@,
        Refusal::NoBond => "no bond"@,
        Refusal::AlreadyInitialized => "already initialized"@,
        Refusal::OperationAlreadyExecuted => "operation already executed"@,
        Refusal::RecordNotFound => "record not found"@,
        Refusal::RecordExpired => "record expired"@,
        Refusal::ArithmeticOverflow => "arithmetic overflow"@,
    }
}

impl Refusal {
    /// The message this refusal is reported with.
    pub fn message(&self) -> (s: &'static str)
        ensures
            s@ == refusal_message(*self),
    {
        match self {
            Refusal::BondEndWouldOverflow => "bond end timestamp would overflow",
            Refusal::BondEndOverflow => "bond end timestamp overflow",
            Refusal::LockupNotExpiredUseWithdrawEarly => "lock-up not expired; use withdraw_early",
            Refusal::WithdrawalNotRequested => "withdrawal not requested",
            Refusal::NoticePeriodOverflow => "notice period overflow",
            Refusal::NoticePeriodNotElapsed => "notice period not elapsed",
            Refusal::NotEligibleForLiquidation => "bond is not eligible for liquidation: must be fully slashed or expired (non-rolling) without renewal",
            Refusal::NegativeSlashAmount => "slash amount must be non-negative",
            Refusal::NegativeUnslashAmount => "unslash amount must be non-negative",
            Refusal::UnslashBelowZero => "unslashing would reduce below 0",
            Refusal::SlashedExceedsBonded => "slashed exceeds bonded",
            Refusal::SlashBlockedSameLedger => "slash blocked: collateral increased in this ledger",
            Refusal::NotInitialized => "not initialized",
            Refusal::NotAdmin => "not admin",
            Refusal::NoBond => "no bond",
            Refusal::AlreadyInitialized => "already initialized",
                                Refusal::OperationAlreadyExecuted => "operation already executed",
            Refusal::RecordNotFound => "record not found",
            Refusal::RecordExpired => "record expired",
            Refusal::ArithmeticOverflow => "arithmetic overflow",
        }
    }
}

/// Any way a contract call can be refused: an error code or a message.
#[derive(Clone, Copy, Debug, PartialEq, Eq, Structural)]
pub enum CallError {
    Code(ContractError),
    Refused(Refusal),
}

/// Distinct errors have distinct wire codes, so a code identifies its error.
pub proof fn lemma_error_codes_distinct(a: ContractError, b: ContractError)
    ensures
        error_code(a) == error_code(b) ==> a == b,
{
}

/// The category a code's range belongs to (1–99, 100–199, … 700–799).
pub open spec fn category_of_code(c: u32) -> ErrorCategory {
    if c <= 99 {
        ErrorCategory::Initialization
    } else if c <= 199 {
        ErrorCategory::Authorization
    } else if c <= 299 {
        ErrorCategory::Bond
    } else if c <= 399 {
        ErrorCategory::Attestation
    } else if c <= 499 {
        ErrorCategory::Registry
    } else if c <= 599 {
        ErrorCategory::Delegation
    } else if c <= 699 {
        ErrorCategory::Treasury
    } else {
        ErrorCategory::Arithmetic
    }
}

/// Every error's category is the one its code's range is laid out for.
pub proof fn lemma_category_follows_code(e: ContractError)
    ensures
        error_category(e) == category_of_code(error_code(e)),
        1 <= error_code(e) <= 799,
{
}

/// What tells the descriptions apart: the length and the characters at 0 and 5.
pub open spec fn description_key(s: Seq<char>) -> (nat, char, char) {
    (s.len(), s[0], s[5])
}

/// The code of the error whose description has key `k` (0 for no error).
pub open spec fn code_of_description_key(k: (nat, char, char)) -> u32 {
    if k == (33nat, 'C', 'a') {
        1
    } else if k == (37nat, 'C', 'a') {
        2
    } else if k == (23nat, 'C', 'r') {
        100
    } else if k == (28nat, 'C', 'r') {
        101
    } else if k == (36nat, 'C', 'r') {
        102
    } else if k == (37nat, 'O', 't') {
        103
    } else if k == (43nat, 'C', 'r') {
        104
    } else if k == (51nat, 'C', 'r') {
        105
    } else if k == (18nat, 'C', 'a') {
        106
    } else if k == (32nat, 'P', ' ') {
        107
    } else if k == (40nat, 'N', 'n') {
        108
    } else if k == (31nat, 'N', 'n') {
        200
    } else if k == (30nat, 'B', 'i') {
        201
    } else if k == (35nat, 'I', 'f') {
        202
    } else if k == (38nat, 'S', ' ') {
        203
    } else if k == (34nat, 'L', 'u') {
        204
    } else if k == (40nat, 'B', 'i') {
        205
    } else if k == (53nat, 'A', 'h') {
        206
    } else if k == (34nat, 'R', 'r') {
        207
    } else if k == (33nat, 'N', ' ') {
        208
    } else if k == (39nat, 'S', 't') {
        222
    } else if k == (33nat, 'A', 't') {
        209
    } else if k == (55nat, 'E', '-') {
        210
    } else if k == (36nat, 'P', 't') {
        211
    } else if k == (49nat, 'R', 't') {
        212
    } else if k == (97nat, 'T', ' ') {
        213
    } else if k == (43nat, 'B', 'a') {
        214
    } else if k == (45nat, 'B', 'd') {
        215
    } else if k == (63nat, 'R', 'n') {
        216
    } else if k == (37nat, 'B', 'a') {
        217
    } else if k == (40nat, 'B', 's') {
        223
    } else if k == (45nat, 'A', 't') {
        300
    } else if k == (38nat, 'N', 't') {
        301
    } else if k == (36nat, 'A', 't') {
        302
    } else if k == (35nat, 'A', 't') {
        303
    } else if k == (49nat, 'A', 't') {
        304
    } else if k == (52nat, 'I', 'i') {
        400
    } else if k == (49nat, 'B', 'c') {
        401
    } else if k == (42nat, 'I', 'i') {
        402
    } else if k == (47nat, 'B', 'c') {
        403
    } else if k == (42nat, 'R', 'd') {
        404
    } else if k == (37nat, 'R', 'd') {
        405
    } else if k == (52nat, 'P', 'd') {
        406
    } else if k == (39nat, 'D', 'a') {
        500
    } else if k == (37nat, 'N', 'l') {
        501
    } else if k == (35nat, 'D', 'a') {
        502
    } else if k == (54nat, 'D', 'a') {
        503
    } else if k == (43nat, 'U', 'w') {
        504
    } else if k == (52nat, 'V', 'i') {
        505
    } else if k == (47nat, 'N', 'r') {
        506
    } else if k == (62nat, 'S', 't') {
        507
    } else if k == (42nat, 'P', 'a') {
        218
    } else if k == (44nat, 'P', 'a') {
        219
    } else if k == (45nat, 'P', 'a') {
        220
    } else if k == (51nat, 'P', 'a') {
        221
    } else if k == (32nat, 'N', 'n') {
        109
    } else if k == (46nat, 'P', 's') {
        110
    } else if k == (47nat, 'P', 's') {
        111
    } else if k == (34nat, 'T', 'o') {
        112
    } else if k == (38nat, 'A', 't') {
        600
    } else if k == (48nat, 'T', 'h') {
        601
    } else if k == (47nat, 'T', 'u') {
        602
    } else if k == (29nat, 'W', 'r') {
        603
    } else if k == (45nat, 'W', 'r') {
        604
    } else if k == (50nat, 'P', 's') {
        605
    } else if k == (50nat, 'F', 'l') {
        606
    } else if k == (49nat, 'F', 'l') {
        607
    } else if k == (38nat, 'I', 'e') {
        700
    } else if k == (39nat, 'I', 'e') {
        701
    } else {
        0
    }
}

/// A description names its error's code, and is never empty.
pub proof fn lemma_description_names_code(e: ContractError)
    ensures
        code_of_description_key(description_key(error_description(e))) == error_code(e),
        error_description(e).len() > 0,
{
    match e {
        ContractError::NotInitialized => reveal_strlit("Contract has not been initialized"),
        ContractError::AlreadyInitialized => reveal_strlit("Contract has already been initialized"),
        ContractError::NotAdmin => reveal_strlit("Caller is not the admin"),
        ContractError::NotBondOwner => reveal_strlit("Caller is not the bond owner"),
        ContractError::UnauthorizedAttester => reveal_strlit("Caller is not an authorized attester"),
        ContractError::NotOriginalAttester => reveal_strlit("Only the original attester can revoke"),
        ContractError::NotSigner => reveal_strlit("Caller is not a registered multi-sig signer"),
        ContractError::UnauthorizedDepositor => reveal_strlit("Caller is neither admin nor an authorized depositor"),
        ContractError::ContractPaused => reveal_strlit("Contract is paused"),
        ContractError::InvalidPauseAction => reveal_strlit("Pause proposal action is invalid"),
        ContractError::InsufficientSignatures => reveal_strlit("Not enough approvals to execute proposal"),
        ContractError::BondNotFound => reveal_strlit("No bond found for the given key"),
        ContractError::BondNotActive => reveal_strlit("Bond is not in an active state"),
        ContractError::InsufficientBalance => reveal_strlit("Insufficient balance for withdrawal"),
        ContractError::SlashExceedsBond => reveal_strlit("Slash amount exceeds the bonded amount"),
        ContractError::LockupNotExpired => reveal_strlit("Lock-up period has not yet expired"),
        ContractError::NotRollingBond => reveal_strlit("Bond is not configured as a rolling bond"),
        ContractError::WithdrawalAlreadyRequested => reveal_strlit("A withdrawal has already been requested for this bond"),
        ContractError::ReentrancyDetected => reveal_strlit("Reentrancy detected; call rejected"),
        ContractError::InvalidNonce => reveal_strlit("Nonce is replayed or out of order"),
        ContractError::SignatureExpired => reveal_strlit("Signature/operation deadline has passed"),
        ContractError::NegativeStake => reveal_strlit("Attester stake cannot be negative"),
        ContractError::EarlyExitConfigNotSet => reveal_strlit("Early-exit configuration has not been set for this bond"),
        ContractError::InvalidPenaltyBps => reveal_strlit("Penalty bps must be in range 0-10000"),
        ContractError::LeverageExceeded => reveal_strlit("Resulting leverage exceeds the configured maximum"),
        ContractError::UnsupportedToken => reveal_strlit("Token transfer resulted in different amount than requested (fee-on-transfer tokens not supported)"),
        ContractError::InvalidBondAmount => reveal_strlit("Bond amount must be strictly positive (> 0)"),
        ContractError::InvalidBondDuration => reveal_strlit("Bond duration must be strictly positive (> 0)"),
        ContractError::InvalidNoticePeriod => reveal_strlit("Rolling-bond notice_period_duration must be > 0 and <= duration"),
        ContractError::BondAlreadyExists => reveal_strlit("Bond already exists for this identity"),
        ContractError::InvariantViolation => reveal_strlit("Bond state violates a protocol invariant"),
        ContractError::DuplicateAttestation => reveal_strlit("Attestation already exists from this attester"),
        ContractError::AttestationNotFound => reveal_strlit("No attestation found for the given key"),
        ContractError::AttestationAlreadyRevoked => reveal_strlit("Attestation has already been revoked"),
        ContractError::InvalidAttestationWeight => reveal_strlit("Attestation weight must be positive"),
        ContractError::AttestationWeightExceedsMax => reveal_strlit("Attestation weight exceeds the configured maximum"),
        ContractError::IdentityAlreadyRegistered => reveal_strlit("Identity has already been registered in the registry"),
        ContractError::BondContractAlreadyRegistered => reveal_strlit("Bond contract address has already been registered"),
        ContractError::IdentityNotRegistered => reveal_strlit("Identity is not registered in the registry"),
        ContractError::BondContractNotRegistered => reveal_strlit("Bond contract is not registered in the registry"),
        ContractError::AlreadyDeactivated => reveal_strlit("Record is already in the deactivated state"),
        ContractError::AlreadyActive => reveal_strlit("Record is already in the active state"),
        ContractError::InvalidContractAddress => reveal_strlit("Provided contract address is not a deployed contract"),
        ContractError::ExpiryInPast => reveal_strlit("Delegation expiry must be in the future"),
        ContractError::DelegationNotFound => reveal_strlit("No delegation found for the given key"),
        ContractError::AlreadyRevoked => reveal_strlit("Delegation has already been revoked"),
        ContractError::DelegationExpiryTooLong => reveal_strlit("Delegation expiry exceeds the maximum allowed lifetime"),
        ContractError::UnknownScheme => reveal_strlit("Unknown or unsupported signature scheme tag"),
        ContractError::VerifierAlreadyRegistered => reveal_strlit("Verifier already registered for the given scheme tag"),
        ContractError::VerifierNotRegistered => reveal_strlit("No verifier registered for the given scheme tag"),
        ContractError::VerificationFailed => reveal_strlit("Signature verification failed for the given scheme and payload"),
        ContractError::DomainMismatch => reveal_strlit("Payload domain tag does not match expected"),
        ContractError::OwnerMismatch => reveal_strlit("Payload owner does not match expected caller"),
        ContractError::TargetMismatch => reveal_strlit("Payload target does not match expected action"),
        ContractError::ContractIdMismatch => reveal_strlit("Payload contract_id does not match current contract"),
        ContractError::NoPendingAdmin => reveal_strlit("No pending admin transfer exists"),
        ContractError::InvalidAdminAddress => reveal_strlit("Proposed admin is the zero or identity address"),
        ContractError::AdminUnchanged => reveal_strlit("Proposed admin is the same as the current admin"),
        ContractError::TimelockNotReady => reveal_strlit("Timelock delay has not yet elapsed"),
        ContractError::AmountMustBePositive => reveal_strlit("Amount must be strictly positive (> 0)"),
        ContractError::ThresholdExceedsSigners => reveal_strlit("Threshold cannot exceed the current signer count"),
        ContractError::InsufficientTreasuryBalance => reveal_strlit("Treasury balance is insufficient for withdrawal"),
        ContractError::ProposalNotFound => reveal_strlit("Withdrawal proposal not found"),
        ContractError::ProposalAlreadyExecuted => reveal_strlit("Withdrawal proposal has already been executed"),
        ContractError::InsufficientApprovals => reveal_strlit("Proposal does not have enough approvals to execute"),
        ContractError::InvalidFlashLoanCallback => reveal_strlit("Flashloan callback returned an invalid magic value"),
        ContractError::FlashLoanRepaymentFailed => reveal_strlit("Flashloan principal plus fee was not fully repaid"),
        ContractError::Overflow => reveal_strlit("Integer overflow in checked arithmetic"),
        ContractError::Underflow => reveal_strlit("Integer underflow in checked arithmetic"),
    }
}

/// Distinct errors have distinct, non-empty descriptions.
pub proof fn lemma_descriptions_distinct(a: ContractError, b: ContractError)
    ensures
        error_description(a).len() > 0,
        error_description(a) == error_description(b) ==> a == b,
{
    lemma_description_names_code(a);
    lemma_description_names_code(b);
    lemma_error_codes_distinct(a, b);
}

} // verus!
