//! Records stored by the bond contract: the identity bond, attestations,
//! configuration entries, claims and slash history.
use vstd::prelude::*;
use crate::AccountId;
use crate::bond::BondTier;

verus! {

/// The bond held by one identity.
#[derive(Clone, Copy, Debug, PartialEq, Eq, Structural)]
pub struct IdentityBond {
    pub identity: AccountId,
    pub bonded_amount: i128,
    pub bond_start: u64,
    pub bond_duration: u64,
    pub slashed_amount: i128,
    pub active: bool,
    /// A rolling bond renews at each period end unless a withdrawal was requested.
    pub is_rolling: bool,
    /// When a withdrawal was requested (0 = not requested).
    pub withdrawal_requested_at: u64,
    /// Notice period of a rolling bond, in seconds.
    pub notice_period_duration: u64,
}

/// An attestation made by a registered attester about a subject.
#[derive(Debug)]
pub struct Attestation {
    pub id: u64,
    pub verifier: AccountId,
    pub identity: AccountId,
    pub timestamp: u64,
    pub weight: u32,
    pub attestation_data: Vec<u8>,
    pub revoked: bool,
}

/// Mathematical view of an [`Attestation`].
pub struct AttestationView {
    pub id: u64,
    pub verifier: AccountId,
    pub identity: AccountId,
    pub timestamp: u64,
    pub weight: u32,
    pub attestation_data: Seq<u8>,
    pub revoked: bool,
}

impl View for Attestation {
    type V = AttestationView;

    open spec fn view(&self) -> AttestationView {
        AttestationView {
            id: self.id,
            verifier: self.verifier,
            identity: self.identity,
            timestamp: self.timestamp,
            weight: self.weight,
            attestation_data: self.attestation_data@,
            revoked: self.revoked,
        }
    }
}

impl Clone for Attestation {
    fn clone(&self) -> (c: Self)
        ensures
            c@ == self@,
    {
        Attestation {
            id: self.id,
            verifier: self.verifier,
            identity: self.identity,
            timestamp: self.timestamp,
            weight: self.weight,
            attestation_data: self.attestation_data.clone(),
            revoked: self.revoked,
        }
    }
}

/// Early-exit penalty configuration: who receives penalties, at which rate.
#[derive(Clone, Copy, Debug, PartialEq, Eq, Structural)]
pub struct EarlyExitConfig {
    pub treasury: AccountId,
    pub penalty_bps: u32,
}

/// Weighted-attestation configuration.
#[derive(Clone, Copy, Debug, PartialEq, Eq, Structural)]
pub struct WeightConfig {
    /// Weight per unit of attester stake, in basis points.
    pub multiplier_bps: u32,
    /// Largest weight an attestation can carry.
    pub max_weight: u32,
}

/// Kind of a pull-payment claim.
#[derive(Clone, Copy, Debug, PartialEq, Eq, Structural)]
pub enum ClaimType {
    SlashingReward,
}

/// An amount a user may later claim.
#[derive(Clone, Copy, Debug, PartialEq, Eq, Structural)]
pub struct PendingClaim {
    pub recipient: AccountId,
    pub claim_type: ClaimType,
    pub amount: i128,
    /// Identifier of the operation that created the claim (the slash id).
    pub source_id: u64,
}

/// One entry of the slash history of a bond.
#[derive(Clone, Copy, Debug, PartialEq, Eq, Structural)]
pub struct SlashRecord {
    pub identity: AccountId,
    /// Amount actually slashed by this operation.
    pub slash_amount: i128,
    /// Cumulative slashed amount after this operation.
    pub total_slashed_after: i128,
    /// Ledger time of the slash.
    pub timestamp: u64,
}

/// Snapshot of the contract-level configuration.
#[derive(Clone, Copy, Debug, PartialEq, Eq, Structural)]
pub struct BondConfigView {
    pub admin: AccountId,
    pub early_exit_treasury: Option<AccountId>,
    pub early_exit_penalty_bps: Option<u32>,
    pub weight_multiplier_bps: u32,
    pub weight_max: u32,
}

/// Snapshot of one identity's bond, with its derived balance and tier.
#[derive(Clone, Copy, Debug, PartialEq, Eq, Structural)]
pub struct BondStateView {
    pub identity: AccountId,
    pub bonded_amount: i128,
    pub slashed_amount: i128,
    /// `bonded_amount - slashed_amount`, saturated to the `i128` range.
    pub available_amount: i128,
    pub bond_start: u64,
    pub bond_duration: u64,
    pub active: bool,
    pub is_rolling: bool,
    pub withdrawal_requested_at: u64,
    pub notice_period_duration: u64,
    pub tier: BondTier,
}

/// Why a bond was liquidated.
#[derive(Clone, Copy, Debug, PartialEq, Eq, Structural)]
pub enum LiquidationReason {
    /// Nothing withdrawable is left (`slashed_amount >= bonded_amount`).
    FullySlashed,
    /// A fixed-duration bond whose lock-up ended without being withdrawn.
    ExpiredUnrenewed,
}

/// Name of each liquidation reason, as published.
pub open spec fn reason_name(r: LiquidationReason) -> Seq<char> {
    match r {
        LiquidationReason::FullySlashed => "fully_slashed"@,
        LiquidationReason::ExpiredUnrenewed => "expired_unrenewed"@,
    }
}

impl LiquidationReason {
    pub fn name(&self) -> (s: &'static str)
        ensures
            s@ == reason_name(*self),
    {
        match self {
            LiquidationReason::FullySlashed => "fully_slashed",
            LiquidationReason::ExpiredUnrenewed => "expired_unrenewed",
        }
    }
}

/// Outcome of a liquidation: the closed bond, the residual left for the
/// treasury sweep, and the reason.
#[derive(Clone, Copy, Debug, PartialEq, Eq, Structural)]
pub struct Liquidation {
    pub bond: IdentityBond,
    pub residual: i128,
    pub reason: LiquidationReason,
}

/// An external contract call the host must make after a state change, while
/// the reentrancy lock is held.
#[derive(Clone, Copy, Debug, PartialEq, Eq, Structural)]
pub enum Callback {
    OnWithdraw { target: AccountId, amount: i128 },
    OnSlash { target: AccountId, amount: i128 },
    OnCollect { target: AccountId, amount: i128 },
}

/// The ledger a call executes in.
#[derive(Clone, Copy, Debug, PartialEq, Eq, Structural)]
pub struct Ledger {
    pub timestamp: u64,
    pub sequence: u32,
}

/// Source-level storage budget of a hot path: how many reads and writes of
/// each kind of storage entry the path makes.
#[derive(Clone, Copy, Debug, PartialEq, Eq, Structural)]
pub struct HotPathStorageBudget {
    pub bond_reads: u32,
    pub bond_writes: u32,
    pub admin_reads: u32,
    pub callback_reads: u32,
    pub lock_reads: u32,
    pub lock_writes: u32,
    pub config_reads: u32,
}

impl HotPathStorageBudget {
    /// Budget of `withdraw_early`: the bond read and written, the config read.
    pub fn withdraw_early() -> (b: HotPathStorageBudget)
        ensures
            b == (HotPathStorageBudget {
                bond_reads: 1,
                bond_writes: 1,
                admin_reads: 0,
                callback_reads: 0,
                lock_reads: 0,
                lock_writes: 0,
                config_reads: 1,
            }),
    {
        HotPathStorageBudget {
            bond_reads: 1,
            bond_writes: 1,
            admin_reads: 0,
            callback_reads: 0,
            lock_reads: 0,
            lock_writes: 0,
            config_reads: 1,
        }
    }

    /// Budget of `withdraw_bond`: the bond, the callback and the lock (taken and released).
    pub fn withdraw_bond() -> (b: HotPathStorageBudget)
        ensures
            b == (HotPathStorageBudget {
                bond_reads: 1,
                bond_writes: 1,
                admin_reads: 0,
                callback_reads: 1,
                lock_reads: 1,
                lock_writes: 2,
                config_reads: 0,
            }),
    {
        HotPathStorageBudget {
            bond_reads: 1,
            bond_writes: 1,
            admin_reads: 0,
            callback_reads: 1,
            lock_reads: 1,
            lock_writes: 2,
            config_reads: 0,
        }
    }

    /// Budget of `slash_bond`: as `withdraw_bond`, plus the admin read.
    pub fn slash_bond() -> (b: HotPathStorageBudget)
        ensures
            b == (HotPathStorageBudget {
                bond_reads: 1,
                bond_writes: 1,
                admin_reads: 1,
                callback_reads: 1,
                lock_reads: 1,
                lock_writes: 2,
                config_reads: 0,
            }),
    {
        HotPathStorageBudget {
            bond_reads: 1,
            bond_writes: 1,
            admin_reads: 1,
            callback_reads: 1,
            lock_reads: 1,
            lock_writes: 2,
            config_reads: 0,
        }
    }
}

} // verus!
