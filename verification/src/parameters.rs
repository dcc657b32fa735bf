//! Governance-controlled protocol parameters: fee rates (basis points),
//! cooldown periods (seconds), tier thresholds (token units) and the
//! max-leverage multiplier, each with fixed bounds and a default, plus the
//! borrow freeze.  Every write is admin-only, checked against a governance
//! approval, and refused when the value is out of bounds.
use vstd::prelude::*;
use crate::AccountId;

verus! {

/// Minimum protocol fee rate in basis points (0 bps = 0%).
pub const MIN_PROTOCOL_FEE_BPS: u32 = 0;
/// Maximum protocol fee rate in basis points (1000 bps = 10%).
pub const MAX_PROTOCOL_FEE_BPS: u32 = 1000;
/// Default protocol fee rate in basis points (50 bps = 0.5%).
pub const DEFAULT_PROTOCOL_FEE_BPS: u32 = 50;

/// Minimum attestation fee rate in basis points (0 bps = 0%).
pub const MIN_ATTESTATION_FEE_BPS: u32 = 0;
/// Maximum attestation fee rate in basis points (500 bps = 5%).
pub const MAX_ATTESTATION_FEE_BPS: u32 = 500;
/// Default attestation fee rate in basis points (10 bps = 0.1%).
pub const DEFAULT_ATTESTATION_FEE_BPS: u32 = 10;

/// Minimum withdrawal cooldown in seconds (0 = no cooldown).
pub const MIN_WITHDRAWAL_COOLDOWN_SECS: u64 = 0;
/// Maximum withdrawal cooldown in seconds (30 days).
pub const MAX_WITHDRAWAL_COOLDOWN_SECS: u64 = 2_592_000;
/// Default withdrawal cooldown in seconds (7 days).
pub const DEFAULT_WITHDRAWAL_COOLDOWN_SECS: u64 = 604_800;

/// Minimum slash cooldown in seconds (0 = no cooldown).
pub const MIN_SLASH_COOLDOWN_SECS: u64 = 0;
/// Maximum slash cooldown in seconds (7 days).
pub const MAX_SLASH_COOLDOWN_SECS: u64 = 604_800;
/// Default slash cooldown in seconds (24 hours).
pub const DEFAULT_SLASH_COOLDOWN_SECS: u64 = 86_400;

/// Maximum number of attestations per subject (ledger entry cap).
pub const MAX_ATTESTATIONS: u32 = 1_000;
/// Maximum number of slash history records per identity (ledger entry cap).
pub const MAX_SLASH_RECORDS: u32 = 1_000;

/// Minimum bronze tier threshold (0 = no minimum).
pub const MIN_BRONZE_THRESHOLD: i128 = 0;
/// Maximum bronze tier threshold (1 million tokens).
pub const MAX_BRONZE_THRESHOLD: i128 = 1_000_000_000_000;
/// Default bronze tier threshold (100 tokens).
pub const DEFAULT_BRONZE_THRESHOLD: i128 = 100_000_000;

/// Minimum silver tier threshold.
pub const MIN_SILVER_THRESHOLD: i128 = 100_000_000;
/// Maximum silver tier threshold (10 million tokens).
pub const MAX_SILVER_THRESHOLD: i128 = 10_000_000_000_000;
/// Default silver tier threshold (1000 tokens).
pub const DEFAULT_SILVER_THRESHOLD: i128 = 1_000_000_000;

/// Minimum gold tier threshold.
pub const MIN_GOLD_THRESHOLD: i128 = 1_000_000_000;
/// Maximum gold tier threshold (100 million tokens).
pub const MAX_GOLD_THRESHOLD: i128 = 100_000_000_000_000;
/// Default gold tier threshold (10000 tokens).
pub const DEFAULT_GOLD_THRESHOLD: i128 = 10_000_000_000;

/// Minimum platinum tier threshold.
pub const MIN_PLATINUM_THRESHOLD: i128 = 10_000_000_000;
/// Maximum platinum tier threshold (1 billion tokens).
pub const MAX_PLATINUM_THRESHOLD: i128 = 1_000_000_000_000_000;
/// Default platinum tier threshold (100000 tokens).
pub const DEFAULT_PLATINUM_THRESHOLD: i128 = 100_000_000_000;

/// Minimum max-leverage multiplier.
pub const MIN_MAX_LEVERAGE: u32 = 1;
/// Maximum max-leverage multiplier.
pub const MAX_MAX_LEVERAGE: u32 = 100_000_000;
/// Default max-leverage multiplier.
pub const DEFAULT_MAX_LEVERAGE: u32 = 100_000;

/// The governed parameters.
#[derive(Clone, Copy, Debug, PartialEq, Eq, Structural)]
pub enum ParameterKey {
    ProtocolFeeBps,
    AttestationFeeBps,
    WithdrawalCooldownSecs,
    SlashCooldownSecs,
    BronzeThreshold,
    SilverThreshold,
    GoldThreshold,
    PlatinumThreshold,
    MaxLeverage,
}

/// The category a governance approval is issued for.  Approvals name their
/// category by a symbol; every symbol other than the four categories is `Other`,
/// which no parameter accepts.
#[derive(Clone, Copy, Debug, PartialEq, Eq, Structural)]
pub enum ApprovalCategory {
    Fee,
    Cooldown,
    Tier,
    Risk,
    Other,
}

/// Governance approval envelope for a parameter change.
#[derive(Clone, Copy, Debug, PartialEq, Eq, Structural)]
pub struct GovernanceApproval {
    /// Governance actor authorizing the change.
    pub approver: AccountId,
    /// Expiration timestamp (0 = no expiry).
    pub expires_at: u64,
    /// Category the approval is valid for.
    pub category: ApprovalCategory,
}

/// Why a parameter call is refused.
#[derive(Clone, Copy, Debug, PartialEq, Eq, Structural)]
pub enum ParameterError {
    NotInitialized,
    NotAdmin,
    ApproverMismatch,
    ApprovalExpired,
    ApprovalCategoryMismatch,
    OutOfBounds(ParameterKey),
    BorrowFrozen,
}

pub open spec fn out_of_bounds_message(k: ParameterKey) -> Seq<char> {
    match k {
        ParameterKey::ProtocolFeeBps => "protocol_fee_bps out of bounds"@,
        ParameterKey::AttestationFeeBps => "attestation_fee_bps out of bounds"@,
        ParameterKey::WithdrawalCooldownSecs => "withdrawal_cooldown_secs out of bounds"@,
        ParameterKey::SlashCooldownSecs => "slash_cooldown_secs out of bounds"@,
        ParameterKey::BronzeThreshold => "bronze_threshold out of bounds"@,
        ParameterKey::SilverThreshold => "silver_threshold out of bounds"@,
        ParameterKey::GoldThreshold => "gold_threshold out of bounds"@,
        ParameterKey::PlatinumThreshold => "platinum_threshold out of bounds"@,
        ParameterKey::MaxLeverage => "max_leverage out of bounds"@,
    }
}

/// The message each refusal is reported with.
pub open spec fn parameter_error_message(e: ParameterError) -> Seq<char> {
    match e {
        ParameterError::NotInitialized => "not initialized"@,
        ParameterError::NotAdmin => "not admin"@,
        ParameterError::ApproverMismatch => "governance approver mismatch"@,
        ParameterError::ApprovalExpired => "governance approval expired"@,
        ParameterError::ApprovalCategoryMismatch => "governance approval category mismatch"@,
        ParameterError::OutOfBounds(k) => out_of_bounds_message(k),
        ParameterError::BorrowFrozen => "borrow frozen"@,
    }
}

impl ParameterError {
    /// The message this refusal is reported with.
    pub fn message(&self) -> (s: &'static str)
        ensures
            s@ == parameter_error_message(*self),
    {
        match self {
            ParameterError::NotInitialized => "not initialized",
            ParameterError::NotAdmin => "not admin",
            ParameterError::ApproverMismatch => "governance approver mismatch",
            ParameterError::ApprovalExpired => "governance approval expired",
            ParameterError::ApprovalCategoryMismatch => "governance approval category mismatch",
            ParameterError::OutOfBounds(k) => match k {
                ParameterKey::ProtocolFeeBps => "protocol_fee_bps out of bounds",
                ParameterKey::AttestationFeeBps => "attestation_fee_bps out of bounds",
                ParameterKey::WithdrawalCooldownSecs => "withdrawal_cooldown_secs out of bounds",
                ParameterKey::SlashCooldownSecs => "slash_cooldown_secs out of bounds",
                ParameterKey::BronzeThreshold => "bronze_threshold out of bounds",
                ParameterKey::SilverThreshold => "silver_threshold out of bounds",
                ParameterKey::GoldThreshold => "gold_threshold out of bounds",
                ParameterKey::PlatinumThreshold => "platinum_threshold out of bounds",
                ParameterKey::MaxLeverage => "max_leverage out of bounds",
            },
            ParameterError::BorrowFrozen => "borrow frozen",
        }
    }
}

/// Lower bound of a parameter.
pub open spec fn param_min(k: ParameterKey) -> int {
    match k {
        ParameterKey::ProtocolFeeBps => MIN_PROTOCOL_FEE_BPS as int,
        ParameterKey::AttestationFeeBps => MIN_ATTESTATION_FEE_BPS as int,
        ParameterKey::WithdrawalCooldownSecs => MIN_WITHDRAWAL_COOLDOWN_SECS as int,
        ParameterKey::SlashCooldownSecs => MIN_SLASH_COOLDOWN_SECS as int,
        ParameterKey::BronzeThreshold => MIN_BRONZE_THRESHOLD as int,
        ParameterKey::SilverThreshold => MIN_SILVER_THRESHOLD as int,
        ParameterKey::GoldThreshold => MIN_GOLD_THRESHOLD as int,
        ParameterKey::PlatinumThreshold => MIN_PLATINUM_THRESHOLD as int,
        ParameterKey::MaxLeverage => MIN_MAX_LEVERAGE as int,
    }
}

/// Upper bound of a parameter.
pub open spec fn param_max(k: ParameterKey) -> int {
    match k {
        ParameterKey::ProtocolFeeBps => MAX_PROTOCOL_FEE_BPS as int,
        ParameterKey::AttestationFeeBps => MAX_ATTESTATION_FEE_BPS as int,
        ParameterKey::WithdrawalCooldownSecs => MAX_WITHDRAWAL_COOLDOWN_SECS as int,
        ParameterKey::SlashCooldownSecs => MAX_SLASH_COOLDOWN_SECS as int,
        ParameterKey::BronzeThreshold => MAX_BRONZE_THRESHOLD as int,
        ParameterKey::SilverThreshold => MAX_SILVER_THRESHOLD as int,
        ParameterKey::GoldThreshold => MAX_GOLD_THRESHOLD as int,
        ParameterKey::PlatinumThreshold => MAX_PLATINUM_THRESHOLD as int,
        ParameterKey::MaxLeverage => MAX_MAX_LEVERAGE as int,
    }
}

/// Value of a parameter that was never set.
pub open spec fn param_default(k: ParameterKey) -> int {
    match k {
        ParameterKey::ProtocolFeeBps => DEFAULT_PROTOCOL_FEE_BPS as int,
        ParameterKey::AttestationFeeBps => DEFAULT_ATTESTATION_FEE_BPS as int,
        ParameterKey::WithdrawalCooldownSecs => DEFAULT_WITHDRAWAL_COOLDOWN_SECS as int,
        ParameterKey::SlashCooldownSecs => DEFAULT_SLASH_COOLDOWN_SECS as int,
        ParameterKey::BronzeThreshold => DEFAULT_BRONZE_THRESHOLD as int,
        ParameterKey::SilverThreshold => DEFAULT_SILVER_THRESHOLD as int,
        ParameterKey::GoldThreshold => DEFAULT_GOLD_THRESHOLD as int,
        ParameterKey::PlatinumThreshold => DEFAULT_PLATINUM_THRESHOLD as int,
        ParameterKey::MaxLeverage => DEFAULT_MAX_LEVERAGE as int,
    }
}

/// The approval category a parameter's writes require.
pub open spec fn param_category(k: ParameterKey) -> ApprovalCategory {
    match k {
        ParameterKey::ProtocolFeeBps | ParameterKey::AttestationFeeBps => ApprovalCategory::Fee,
        ParameterKey::WithdrawalCooldownSecs | ParameterKey::SlashCooldownSecs => ApprovalCategory::Cooldown,
        ParameterKey::BronzeThreshold | ParameterKey::SilverThreshold | ParameterKey::GoldThreshold
        | ParameterKey::PlatinumThreshold => ApprovalCategory::Tier,
        ParameterKey::MaxLeverage => ApprovalCategory::Risk,
    }
}

/// Stored parameters of the bond contract (`None` = never set).
#[derive(Clone, Copy, Debug, PartialEq, Eq, Structural)]
pub struct ProtocolParameters {
    /// The governance address (the contract admin); `None` before initialization.
    pub admin: Option<AccountId>,
    pub protocol_fee_bps: Option<u32>,
    pub attestation_fee_bps: Option<u32>,
    pub withdrawal_cooldown_secs: Option<u64>,
    pub slash_cooldown_secs: Option<u64>,
    pub bronze_threshold: Option<i128>,
    pub silver_threshold: Option<i128>,
    pub gold_threshold: Option<i128>,
    pub platinum_threshold: Option<i128>,
    pub max_leverage: Option<u32>,
    pub borrow_frozen: Option<bool>,
}

pub open spec fn opt_int_u32(o: Option<u32>) -> Option<int> {
    match o {
        Some(v) => Some(v as int),
        None => None,
    }
}

pub open spec fn opt_int_u64(o: Option<u64>) -> Option<int> {
    match o {
        Some(v) => Some(v as int),
        None => None,
    }
}

pub open spec fn opt_int_i128(o: Option<i128>) -> Option<int> {
    match o {
        Some(v) => Some(v as int),
        None => None,
    }
}

impl ProtocolParameters {
    /// The stored value of a parameter, if it was ever set.
    pub open spec fn stored(self, k: ParameterKey) -> Option<int> {
        match k {
            ParameterKey::ProtocolFeeBps => opt_int_u32(self.protocol_fee_bps),
            ParameterKey::AttestationFeeBps => opt_int_u32(self.attestation_fee_bps),
            ParameterKey::WithdrawalCooldownSecs => opt_int_u64(self.withdrawal_cooldown_secs),
            ParameterKey::SlashCooldownSecs => opt_int_u64(self.slash_cooldown_secs),
            ParameterKey::BronzeThreshold => opt_int_i128(self.bronze_threshold),
            ParameterKey::SilverThreshold => opt_int_i128(self.silver_threshold),
            ParameterKey::GoldThreshold => opt_int_i128(self.gold_threshold),
            ParameterKey::PlatinumThreshold => opt_int_i128(self.platinum_threshold),
            ParameterKey::MaxLeverage => opt_int_u32(self.max_leverage),
        }
    }

    /// The value a getter returns: the stored value, else the default.
    pub open spec fn value(self, k: ParameterKey) -> int {
        match self.stored(k) {
            Some(v) => v,
            None => param_default(k),
        }
    }

    /// Whether new borrows are frozen.
    pub open spec fn frozen(self) -> bool {
        match self.borrow_frozen {
            Some(b) => b,
            None => false,
        }
    }

    /// Every stored parameter lies within its bounds.
    pub open spec fn wf(self) -> bool {
        forall|k: ParameterKey| #[trigger] self.stored(k) is Some ==> param_min(k) <= self.stored(k).unwrap() <= param_max(k)
    }

    /// `self` with parameter `k` stored as `v` and nothing else changed.
    pub open spec fn with_value(self, k: ParameterKey, v: int) -> ProtocolParameters {
        match k {
            ParameterKey::ProtocolFeeBps => ProtocolParameters { protocol_fee_bps: Some(v as u32), ..self },
            ParameterKey::AttestationFeeBps => ProtocolParameters { attestation_fee_bps: Some(v as u32), ..self },
            ParameterKey::WithdrawalCooldownSecs => ProtocolParameters { withdrawal_cooldown_secs: Some(v as u64), ..self },
            ParameterKey::SlashCooldownSecs => ProtocolParameters { slash_cooldown_secs: Some(v as u64), ..self },
            ParameterKey::BronzeThreshold => ProtocolParameters { bronze_threshold: Some(v as i128), ..self },
            ParameterKey::SilverThreshold => ProtocolParameters { silver_threshold: Some(v as i128), ..self },
            ParameterKey::GoldThreshold => ProtocolParameters { gold_threshold: Some(v as i128), ..self },
            ParameterKey::PlatinumThreshold => ProtocolParameters { platinum_threshold: Some(v as i128), ..self },
            ParameterKey::MaxLeverage => ProtocolParameters { max_leverage: Some(v as u32), ..self },
        }
    }

    /// Storage with the given admin and no parameter set.
    pub fn new(admin: Option<AccountId>) -> (p: ProtocolParameters)
        ensures
            p.admin == admin,
            forall|k: ParameterKey| #[trigger] p.stored(k) is None,
            p.borrow_frozen is None,
    {
        ProtocolParameters {
            admin,
            protocol_fee_bps: None,
            attestation_fee_bps: None,
            withdrawal_cooldown_secs: None,
            slash_cooldown_secs: None,
            bronze_threshold: None,
            silver_threshold: None,
            gold_threshold: None,
            platinum_threshold: None,
            max_leverage: None,
            borrow_frozen: None,
        }
    }
}

/// Why a governance call by `admin` with `approval` at time `now` is refused,
/// when the parameter needs approvals of category `expected`.
pub open spec fn governance_error(
    p: ProtocolParameters,
    admin: AccountId,
    approval: GovernanceApproval,
    expected: ApprovalCategory,
    now: u64,
) -> Option<ParameterError> {
    match p.admin {
        None => Some(ParameterError::NotInitialized),
        Some(a) => if a != admin {
            Some(ParameterError::NotAdmin)
        } else if approval.approver != admin {
            Some(ParameterError::ApproverMismatch)
        } else if approval.expires_at > 0 && now > approval.expires_at {
            Some(ParameterError::ApprovalExpired)
        } else if approval.category != expected {
            Some(ParameterError::ApprovalCategoryMismatch)
        } else {
            None
        },
    }
}

/// Setting parameter `k` to `v`: the refusal, or the new storage.
pub open spec fn spec_set_parameter(
    p: ProtocolParameters,
    admin: AccountId,
    k: ParameterKey,
    v: int,
    approval: GovernanceApproval,
    now: u64,
) -> (Result<(), ParameterError>, ProtocolParameters) {
    match governance_error(p, admin, approval, param_category(k), now) {
        Some(e) => (Err(e), p),
        None => if v < param_min(k) || v > param_max(k) {
            (Err(ParameterError::OutOfBounds(k)), p)
        } else {
            (Ok(()), p.with_value(k, v))
        },
    }
}

/// Setting the borrow freeze: the refusal, or the new storage.
pub open spec fn spec_set_borrow_frozen(
    p: ProtocolParameters,
    admin: AccountId,
    frozen: bool,
    approval: GovernanceApproval,
    now: u64,
) -> (Result<(), ParameterError>, ProtocolParameters) {
    match governance_error(p, admin, approval, ApprovalCategory::Risk, now) {
        Some(e) => (Err(e), p),
        None => (Ok(()), ProtocolParameters { borrow_frozen: Some(frozen), ..p }),
    }
}

/// The approval a plain (approval-less) setter issues on the admin's behalf.
pub open spec fn self_approval(admin: AccountId, category: ApprovalCategory) -> GovernanceApproval {
    GovernanceApproval { approver: admin, expires_at: 0, category }
}

fn validate_governance(
    p: &ProtocolParameters,
    admin: AccountId,
    approval: &GovernanceApproval,
    expected: ApprovalCategory,
    now: u64,
) -> (r: Result<(), ParameterError>)
    ensures
        r == match governance_error(*p, admin, *approval, expected, now) {
            Some(e) => Err::<(), ParameterError>(e),
            None => Ok(()),
        },
{
    match p.admin {
        None => Err(ParameterError::NotInitialized),
        Some(a) => if a != admin {
            Err(ParameterError::NotAdmin)
        } else if approval.approver != admin {
            Err(ParameterError::ApproverMismatch)
        } else if approval.expires_at > 0 && now > approval.expires_at {
            Err(ParameterError::ApprovalExpired)
        } else if approval.category != expected {
            Err(ParameterError::ApprovalCategoryMismatch)
        } else {
            Ok(())
        },
    }
}

} // verus!

verus! {

/// Current protocol fee rate in basis points (the default when never set).
pub fn get_protocol_fee_bps(p: &ProtocolParameters) -> (r: u32)
    ensures
        r == p.value(ParameterKey::ProtocolFeeBps),
{
    match p.protocol_fee_bps {
        Some(v) => v,
        None => DEFAULT_PROTOCOL_FEE_BPS,
    }
}

/// Set the protocol fee rate in basis points; governance only, within bounds.
pub fn set_protocol_fee_bps(p: &mut ProtocolParameters, admin: AccountId, value: u32) -> (r: Result<(), ParameterError>)
    ensures
        (r, *final(p)) == spec_set_parameter(
            *old(p),
            admin,
            ParameterKey::ProtocolFeeBps,
            value as int,
            self_approval(admin, ApprovalCategory::Fee),
            0,
        ),
{
    let approval = GovernanceApproval { approver: admin, expires_at: 0, category: ApprovalCategory::Fee };
    set_protocol_fee_bps_with_approval(p, admin, value, &approval, 0)
}

/// Set the protocol fee rate in basis points under an explicit governance approval checked at time `now`.
pub fn set_protocol_fee_bps_with_approval(
    p: &mut ProtocolParameters,
    admin: AccountId,
    value: u32,
    approval: &GovernanceApproval,
    now: u64,
) -> (r: Result<(), ParameterError>)
    ensures
        (r, *final(p)) == spec_set_parameter(*old(p), admin, ParameterKey::ProtocolFeeBps, value as int, *approval, now),
{
    validate_governance(p, admin, approval, ApprovalCategory::Fee, now)?;
    if value < MIN_PROTOCOL_FEE_BPS || value > MAX_PROTOCOL_FEE_BPS {
        return Err(ParameterError::OutOfBounds(ParameterKey::ProtocolFeeBps));
    }
    p.protocol_fee_bps = Some(value);
    Ok(())
}

/// Current attestation fee rate in basis points (the default when never set).
pub fn get_attestation_fee_bps(p: &ProtocolParameters) -> (r: u32)
    ensures
        r == p.value(ParameterKey::AttestationFeeBps),
{
    match p.attestation_fee_bps {
        Some(v) => v,
        None => DEFAULT_ATTESTATION_FEE_BPS,
    }
}

/// Set the attestation fee rate in basis points; governance only, within bounds.
pub fn set_attestation_fee_bps(p: &mut ProtocolParameters, admin: AccountId, value: u32) -> (r: Result<(), ParameterError>)
    ensures
        (r, *final(p)) == spec_set_parameter(
            *old(p),
            admin,
            ParameterKey::AttestationFeeBps,
            value as int,
            self_approval(admin, ApprovalCategory::Fee),
            0,
        ),
{
    let approval = GovernanceApproval { approver: admin, expires_at: 0, category: ApprovalCategory::Fee };
    set_attestation_fee_bps_with_approval(p, admin, value, &approval, 0)
}

/// Set the attestation fee rate in basis points under an explicit governance approval checked at time `now`.
pub fn set_attestation_fee_bps_with_approval(
    p: &mut ProtocolParameters,
    admin: AccountId,
    value: u32,
    approval: &GovernanceApproval,
    now: u64,
) -> (r: Result<(), ParameterError>)
    ensures
        (r, *final(p)) == spec_set_parameter(*old(p), admin, ParameterKey::AttestationFeeBps, value as int, *approval, now),
{
    validate_governance(p, admin, approval, ApprovalCategory::Fee, now)?;
    if value < MIN_ATTESTATION_FEE_BPS || value > MAX_ATTESTATION_FEE_BPS {
        return Err(ParameterError::OutOfBounds(ParameterKey::AttestationFeeBps));
    }
    p.attestation_fee_bps = Some(value);
    Ok(())
}

/// Current withdrawal cooldown in seconds (the default when never set).
pub fn get_withdrawal_cooldown_secs(p: &ProtocolParameters) -> (r: u64)
    ensures
        r == p.value(ParameterKey::WithdrawalCooldownSecs),
{
    match p.withdrawal_cooldown_secs {
        Some(v) => v,
        None => DEFAULT_WITHDRAWAL_COOLDOWN_SECS,
    }
}

/// Set the withdrawal cooldown in seconds; governance only, within bounds.
pub fn set_withdrawal_cooldown_secs(p: &mut ProtocolParameters, admin: AccountId, value: u64) -> (r: Result<(), ParameterError>)
    ensures
        (r, *final(p)) == spec_set_parameter(
            *old(p),
            admin,
            ParameterKey::WithdrawalCooldownSecs,
            value as int,
            self_approval(admin, ApprovalCategory::Cooldown),
            0,
        ),
{
    let approval = GovernanceApproval { approver: admin, expires_at: 0, category: ApprovalCategory::Cooldown };
    set_withdrawal_cooldown_secs_with_approval(p, admin, value, &approval, 0)
}

/// Set the withdrawal cooldown in seconds under an explicit governance approval checked at time `now`.
pub fn set_withdrawal_cooldown_secs_with_approval(
    p: &mut ProtocolParameters,
    admin: AccountId,
    value: u64,
    approval: &GovernanceApproval,
    now: u64,
) -> (r: Result<(), ParameterError>)
    ensures
        (r, *final(p)) == spec_set_parameter(*old(p), admin, ParameterKey::WithdrawalCooldownSecs, value as int, *approval, now),
{
    validate_governance(p, admin, approval, ApprovalCategory::Cooldown, now)?;
    if value < MIN_WITHDRAWAL_COOLDOWN_SECS || value > MAX_WITHDRAWAL_COOLDOWN_SECS {
        return Err(ParameterError::OutOfBounds(ParameterKey::WithdrawalCooldownSecs));
    }
    p.withdrawal_cooldown_secs = Some(value);
    Ok(())
}

/// Current slash cooldown in seconds (the default when never set).
pub fn get_slash_cooldown_secs(p: &ProtocolParameters) -> (r: u64)
    ensures
        r == p.value(ParameterKey::SlashCooldownSecs),
{
    match p.slash_cooldown_secs {
        Some(v) => v,
        None => DEFAULT_SLASH_COOLDOWN_SECS,
    }
}

/// Set the slash cooldown in seconds; governance only, within bounds.
pub fn set_slash_cooldown_secs(p: &mut ProtocolParameters, admin: AccountId, value: u64) -> (r: Result<(), ParameterError>)
    ensures
        (r, *final(p)) == spec_set_parameter(
            *old(p),
            admin,
            ParameterKey::SlashCooldownSecs,
            value as int,
            self_approval(admin, ApprovalCategory::Cooldown),
            0,
        ),
{
    let approval = GovernanceApproval { approver: admin, expires_at: 0, category: ApprovalCategory::Cooldown };
    set_slash_cooldown_secs_with_approval(p, admin, value, &approval, 0)
}

/// Set the slash cooldown in seconds under an explicit governance approval checked at time `now`.
pub fn set_slash_cooldown_secs_with_approval(
    p: &mut ProtocolParameters,
    admin: AccountId,
    value: u64,
    approval: &GovernanceApproval,
    now: u64,
) -> (r: Result<(), ParameterError>)
    ensures
        (r, *final(p)) == spec_set_parameter(*old(p), admin, ParameterKey::SlashCooldownSecs, value as int, *approval, now),
{
    validate_governance(p, admin, approval, ApprovalCategory::Cooldown, now)?;
    if value < MIN_SLASH_COOLDOWN_SECS || value > MAX_SLASH_COOLDOWN_SECS {
        return Err(ParameterError::OutOfBounds(ParameterKey::SlashCooldownSecs));
    }
    p.slash_cooldown_secs = Some(value);
    Ok(())
}

/// Current bronze tier threshold in token units (the default when never set).
pub fn get_bronze_threshold(p: &ProtocolParameters) -> (r: i128)
    ensures
        r == p.value(ParameterKey::BronzeThreshold),
{
    match p.bronze_threshold {
        Some(v) => v,
        None => DEFAULT_BRONZE_THRESHOLD,
    }
}

/// Set the bronze tier threshold in token units; governance only, within bounds.
pub fn set_bronze_threshold(p: &mut ProtocolParameters, admin: AccountId, value: i128) -> (r: Result<(), ParameterError>)
    ensures
        (r, *final(p)) == spec_set_parameter(
            *old(p),
            admin,
            ParameterKey::BronzeThreshold,
            value as int,
            self_approval(admin, ApprovalCategory::Tier),
            0,
        ),
{
    let approval = GovernanceApproval { approver: admin, expires_at: 0, category: ApprovalCategory::Tier };
    set_bronze_threshold_with_approval(p, admin, value, &approval, 0)
}

/// Set the bronze tier threshold in token units under an explicit governance approval checked at time `now`.
pub fn set_bronze_threshold_with_approval(
    p: &mut ProtocolParameters,
    admin: AccountId,
    value: i128,
    approval: &GovernanceApproval,
    now: u64,
) -> (r: Result<(), ParameterError>)
    ensures
        (r, *final(p)) == spec_set_parameter(*old(p), admin, ParameterKey::BronzeThreshold, value as int, *approval, now),
{
    validate_governance(p, admin, approval, ApprovalCategory::Tier, now)?;
    if value < MIN_BRONZE_THRESHOLD || value > MAX_BRONZE_THRESHOLD {
        return Err(ParameterError::OutOfBounds(ParameterKey::BronzeThreshold));
    }
    p.bronze_threshold = Some(value);
    Ok(())
}

/// Current silver tier threshold in token units (the default when never set).
pub fn get_silver_threshold(p: &ProtocolParameters) -> (r: i128)
    ensures
        r == p.value(ParameterKey::SilverThreshold),
{
    match p.silver_threshold {
        Some(v) => v,
        None => DEFAULT_SILVER_THRESHOLD,
    }
}

/// Set the silver tier threshold in token units; governance only, within bounds.
pub fn set_silver_threshold(p: &mut ProtocolParameters, admin: AccountId, value: i128) -> (r: Result<(), ParameterError>)
    ensures
        (r, *final(p)) == spec_set_parameter(
            *old(p),
            admin,
            ParameterKey::SilverThreshold,
            value as int,
            self_approval(admin, ApprovalCategory::Tier),
            0,
        ),
{
    let approval = GovernanceApproval { approver: admin, expires_at: 0, category: ApprovalCategory::Tier };
    set_silver_threshold_with_approval(p, admin, value, &approval, 0)
}

/// Set the silver tier threshold in token units under an explicit governance approval checked at time `now`.
pub fn set_silver_threshold_with_approval(
    p: &mut ProtocolParameters,
    admin: AccountId,
    value: i128,
    approval: &GovernanceApproval,
    now: u64,
) -> (r: Result<(), ParameterError>)
    ensures
        (r, *final(p)) == spec_set_parameter(*old(p), admin, ParameterKey::SilverThreshold, value as int, *approval, now),
{
    validate_governance(p, admin, approval, ApprovalCategory::Tier, now)?;
    if value < MIN_SILVER_THRESHOLD || value > MAX_SILVER_THRESHOLD {
        return Err(ParameterError::OutOfBounds(ParameterKey::SilverThreshold));
    }
    p.silver_threshold = Some(value);
    Ok(())
}

/// Current gold tier threshold in token units (the default when never set).
pub fn get_gold_threshold(p: &ProtocolParameters) -> (r: i128)
    ensures
        r == p.value(ParameterKey::GoldThreshold),
{
    match p.gold_threshold {
        Some(v) => v,
        None => DEFAULT_GOLD_THRESHOLD,
    }
}

/// Set the gold tier threshold in token units; governance only, within bounds.
pub fn set_gold_threshold(p: &mut ProtocolParameters, admin: AccountId, value: i128) -> (r: Result<(), ParameterError>)
    ensures
        (r, *final(p)) == spec_set_parameter(
            *old(p),
            admin,
            ParameterKey::GoldThreshold,
            value as int,
            self_approval(admin, ApprovalCategory::Tier),
            0,
        ),
{
    let approval = GovernanceApproval { approver: admin, expires_at: 0, category: ApprovalCategory::Tier };
    set_gold_threshold_with_approval(p, admin, value, &approval, 0)
}

/// Set the gold tier threshold in token units under an explicit governance approval checked at time `now`.
pub fn set_gold_threshold_with_approval(
    p: &mut ProtocolParameters,
    admin: AccountId,
    value: i128,
    approval: &GovernanceApproval,
    now: u64,
) -> (r: Result<(), ParameterError>)
    ensures
        (r, *final(p)) == spec_set_parameter(*old(p), admin, ParameterKey::GoldThreshold, value as int, *approval, now),
{
    validate_governance(p, admin, approval, ApprovalCategory::Tier, now)?;
    if value < MIN_GOLD_THRESHOLD || value > MAX_GOLD_THRESHOLD {
        return Err(ParameterError::OutOfBounds(ParameterKey::GoldThreshold));
    }
    p.gold_threshold = Some(value);
    Ok(())
}

/// Current platinum tier threshold in token units (the default when never set).
pub fn get_platinum_threshold(p: &ProtocolParameters) -> (r: i128)
    ensures
        r == p.value(ParameterKey::PlatinumThreshold),
{
    match p.platinum_threshold {
        Some(v) => v,
        None => DEFAULT_PLATINUM_THRESHOLD,
    }
}

/// Set the platinum tier threshold in token units; governance only, within bounds.
pub fn set_platinum_threshold(p: &mut ProtocolParameters, admin: AccountId, value: i128) -> (r: Result<(), ParameterError>)
    ensures
        (r, *final(p)) == spec_set_parameter(
            *old(p),
            admin,
            ParameterKey::PlatinumThreshold,
            value as int,
            self_approval(admin, ApprovalCategory::Tier),
            0,
        ),
{
    let approval = GovernanceApproval { approver: admin, expires_at: 0, category: ApprovalCategory::Tier };
    set_platinum_threshold_with_approval(p, admin, value, &approval, 0)
}

/// Set the platinum tier threshold in token units under an explicit governance approval checked at time `now`.
pub fn set_platinum_threshold_with_approval(
    p: &mut ProtocolParameters,
    admin: AccountId,
    value: i128,
    approval: &GovernanceApproval,
    now: u64,
) -> (r: Result<(), ParameterError>)
    ensures
        (r, *final(p)) == spec_set_parameter(*old(p), admin, ParameterKey::PlatinumThreshold, value as int, *approval, now),
{
    validate_governance(p, admin, approval, ApprovalCategory::Tier, now)?;
    if value < MIN_PLATINUM_THRESHOLD || value > MAX_PLATINUM_THRESHOLD {
        return Err(ParameterError::OutOfBounds(ParameterKey::PlatinumThreshold));
    }
    p.platinum_threshold = Some(value);
    Ok(())
}

/// Current max-leverage multiplier (the default when never set).
pub fn get_max_leverage(p: &ProtocolParameters) -> (r: u32)
    ensures
        r == p.value(ParameterKey::MaxLeverage),
{
    match p.max_leverage {
        Some(v) => v,
        None => DEFAULT_MAX_LEVERAGE,
    }
}

/// Set the max-leverage multiplier; governance only, within bounds.
pub fn set_max_leverage(p: &mut ProtocolParameters, admin: AccountId, value: u32) -> (r: Result<(), ParameterError>)
    ensures
        (r, *final(p)) == spec_set_parameter(
            *old(p),
            admin,
            ParameterKey::MaxLeverage,
            value as int,
            self_approval(admin, ApprovalCategory::Risk),
            0,
        ),
{
    let approval = GovernanceApproval { approver: admin, expires_at: 0, category: ApprovalCategory::Risk };
    set_max_leverage_with_approval(p, admin, value, &approval, 0)
}

/// Set the max-leverage multiplier under an explicit governance approval checked at time `now`.
pub fn set_max_leverage_with_approval(
    p: &mut ProtocolParameters,
    admin: AccountId,
    value: u32,
    approval: &GovernanceApproval,
    now: u64,
) -> (r: Result<(), ParameterError>)
    ensures
        (r, *final(p)) == spec_set_parameter(*old(p), admin, ParameterKey::MaxLeverage, value as int, *approval, now),
{
    validate_governance(p, admin, approval, ApprovalCategory::Risk, now)?;
    if value < MIN_MAX_LEVERAGE || value > MAX_MAX_LEVERAGE {
        return Err(ParameterError::OutOfBounds(ParameterKey::MaxLeverage));
    }
    p.max_leverage = Some(value);
    Ok(())
}

/// Whether new bonds and top-ups are frozen.
pub fn is_borrow_frozen(p: &ProtocolParameters) -> (r: bool)
    ensures
        r == p.frozen(),
{
    match p.borrow_frozen {
        Some(b) => b,
        None => false,
    }
}

/// Refuse while borrowing is frozen.
pub fn require_not_borrow_frozen(p: &ProtocolParameters) -> (r: Result<(), ParameterError>)
    ensures
        r == if p.frozen() { Err::<(), ParameterError>(ParameterError::BorrowFrozen) } else { Ok(()) },
{
    if is_borrow_frozen(p) {
        Err(ParameterError::BorrowFrozen)
    } else {
        Ok(())
    }
}

/// Freeze or unfreeze new bond creation and top-ups; governance only.
pub fn set_borrow_frozen(p: &mut ProtocolParameters, admin: AccountId, frozen: bool) -> (r: Result<(), ParameterError>)
    ensures
        (r, *final(p)) == spec_set_borrow_frozen(*old(p), admin, frozen, self_approval(admin, ApprovalCategory::Risk), 0),
{
    let approval = GovernanceApproval { approver: admin, expires_at: 0, category: ApprovalCategory::Risk };
    set_borrow_frozen_with_approval(p, admin, frozen, &approval, 0)
}

/// Set the borrow freeze under an explicit governance approval checked at time `now`.
pub fn set_borrow_frozen_with_approval(
    p: &mut ProtocolParameters,
    admin: AccountId,
    frozen: bool,
    approval: &GovernanceApproval,
    now: u64,
) -> (r: Result<(), ParameterError>)
    ensures
        (r, *final(p)) == spec_set_borrow_frozen(*old(p), admin, frozen, *approval, now),
{
    validate_governance(p, admin, approval, ApprovalCategory::Risk, now)?;
    p.borrow_frozen = Some(frozen);
    Ok(())
}

// ---------------------------------------------------------------------------
// Laws
// ---------------------------------------------------------------------------

/// Every parameter a getter returns lies within its bounds, whatever sequence
/// of accepted and refused writes came before: fresh storage is within bounds,
/// and every write keeps it so.
pub proof fn lemma_parameters_stay_in_bounds(
    p: ProtocolParameters,
    admin: AccountId,
    k: ParameterKey,
    v: int,
    frozen: bool,
    approval: GovernanceApproval,
    now: u64,
    q: ParameterKey,
)
    requires
        p.wf(),
    ensures
        param_min(q) <= p.value(q) <= param_max(q),
        spec_set_parameter(p, admin, k, v, approval, now).1.wf(),
        spec_set_borrow_frozen(p, admin, frozen, approval, now).1.wf(),
{
    let n = spec_set_parameter(p, admin, k, v, approval, now).1;
    assert forall|j: ParameterKey| #[trigger] n.stored(j) is Some implies param_min(j) <= n.stored(j).unwrap() <= param_max(j) by {
        if n != p && j != k {
            assert(n.stored(j) == p.stored(j));
        }
    }
    let f = spec_set_borrow_frozen(p, admin, frozen, approval, now).1;
    assert forall|j: ParameterKey| #[trigger] f.stored(j) is Some implies param_min(j) <= f.stored(j).unwrap() <= param_max(j) by {
        assert(f.stored(j) == p.stored(j));
    }
}

/// Fresh storage is within bounds.
pub proof fn lemma_new_parameters_wf(p: ProtocolParameters)
    requires
        forall|k: ParameterKey| #[trigger] p.stored(k) is None,
    ensures
        p.wf(),
{
}

/// A write that is accepted is read back by the getter, and changes no other
/// parameter; a refused write changes nothing.
pub proof fn lemma_parameter_read_after_write(
    p: ProtocolParameters,
    admin: AccountId,
    k: ParameterKey,
    v: int,
    approval: GovernanceApproval,
    now: u64,
    other: ParameterKey,
)
    ensures
        ({
            let (r, n) = spec_set_parameter(p, admin, k, v, approval, now);
            &&& r is Ok ==> n.value(k) == v
            &&& other != k ==> n.value(other) == p.value(other)
            &&& n.admin == p.admin && n.frozen() == p.frozen()
            &&& r is Err ==> n == p
        }),
{
}

/// Only the stored admin, presenting its own unexpired approval of the right
/// category, can change anything; every other caller is refused.
pub proof fn lemma_only_governance_writes(
    p: ProtocolParameters,
    caller: AccountId,
    k: ParameterKey,
    v: int,
    frozen: bool,
    approval: GovernanceApproval,
    now: u64,
)
    requires
        p.admin != Some(caller) || approval.approver != caller || (approval.expires_at > 0 && now > approval.expires_at),
    ensures
        spec_set_parameter(p, caller, k, v, approval, now).0 is Err,
        spec_set_parameter(p, caller, k, v, approval, now).1 == p,
        spec_set_borrow_frozen(p, caller, frozen, approval, now).0 is Err,
        spec_set_borrow_frozen(p, caller, frozen, approval, now).1 == p,
{
}

} // verus!
