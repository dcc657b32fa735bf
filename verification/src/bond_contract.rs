//! The bond contract: a single identity bond with lock-up, rolling renewal,
//! withdrawals (regular, early with penalty, and full exit), slashing,
//! liquidation, fee collection, registered attesters and their attestations.
//!
//! Every entry point is a transition of [`CredenceBond`] whose contract states
//! its result and new state exactly, through the `spec_*` function of the same
//! name over [`BondModel`].  A refused call leaves the state unchanged.
use vstd::prelude::*;
use std::collections::HashMap;
use crate::AccountId;
use crate::bond::{
    BondTier, TierThresholds, default_thresholds, tier_spec, get_tier_for_amount,
    default_tier_thresholds, MAX_PENALTY_BPS,
};
use crate::bond_types::{
    Attestation, AttestationView, BondConfigView, BondStateView, Callback, ClaimType, EarlyExitConfig,
    IdentityBond, Ledger, Liquidation, LiquidationReason, PendingClaim, SlashRecord, WeightConfig,
};
use crate::errors::{CallError, ContractError, Refusal};

verus! {

broadcast use vstd::std_specs::hash::group_hash_axioms;

/// Weight multiplier used while no weight configuration is stored.
pub const DEFAULT_WEIGHT_MULTIPLIER_BPS: u32 = 100;

/// Maximum attestation weight used while no weight configuration is stored.
pub const DEFAULT_MAX_WEIGHT: u32 = 100_000;

/// Contract storage of the bond contract.
pub struct CredenceBond {
    pub admin: Option<AccountId>,
    pub bond: Option<IdentityBond>,
    /// Registered attesters (an entry exists only while registered).
    pub attesters: HashMap<AccountId, bool>,
    /// Every attestation ever added; the attestation with id `i` is at index `i`.
    pub attestations: Vec<Attestation>,
    /// Stored attestation count per subject.
    pub subject_counts: HashMap<AccountId, u32>,
    /// Next expected nonce per account.
    pub nonces: HashMap<AccountId, u64>,
    /// Attester stakes used to weight attestations.
    pub stakes: HashMap<AccountId, i128>,
    pub weight_config: Option<WeightConfig>,
    pub early_exit: Option<EarlyExitConfig>,
    pub tier_thresholds: Option<TierThresholds>,
    /// Deposited, not yet collected fees.
    pub fees: i128,
    /// Contract notified after withdrawals, slashes and fee collection.
    pub callback: Option<AccountId>,
    /// Reentrancy lock.
    pub locked: bool,
    pub liquidation_treasury: Option<AccountId>,
    /// Identities whose bond was liquidated.
    pub liquidated: HashMap<AccountId, bool>,
    /// Ledger sequence of the latest collateral increase.
    pub last_collateral_increase_ledger: Option<u32>,
    /// Number of slashes that produced a reward claim.
    pub slash_counter: u64,
    pub pending_claims: Vec<PendingClaim>,
    pub slash_history: Vec<SlashRecord>,
}

/// Mathematical view of [`CredenceBond`].
pub struct BondModel {
    pub admin: Option<AccountId>,
    pub bond: Option<IdentityBond>,
    pub attesters: Map<AccountId, bool>,
    pub attestations: Seq<AttestationView>,
    pub subject_counts: Map<AccountId, u32>,
    pub nonces: Map<AccountId, u64>,
    pub stakes: Map<AccountId, i128>,
    pub weight_config: Option<WeightConfig>,
    pub early_exit: Option<EarlyExitConfig>,
    pub tier_thresholds: Option<TierThresholds>,
    pub fees: i128,
    pub callback: Option<AccountId>,
    pub locked: bool,
    pub liquidation_treasury: Option<AccountId>,
    pub liquidated: Map<AccountId, bool>,
    pub last_collateral_increase_ledger: Option<u32>,
    pub slash_counter: u64,
    pub pending_claims: Seq<PendingClaim>,
    pub slash_history: Seq<SlashRecord>,
}

pub open spec fn att_views(atts: Seq<Attestation>) -> Seq<AttestationView> {
    atts.map_values(|a: Attestation| a@)
}

impl View for CredenceBond {
    type V = BondModel;

    open spec fn view(&self) -> BondModel {
        BondModel {
            admin: self.admin,
            bond: self.bond,
            attesters: self.attesters@,
            attestations: att_views(self.attestations@),
            subject_counts: self.subject_counts@,
            nonces: self.nonces@,
            stakes: self.stakes@,
            weight_config: self.weight_config,
            early_exit: self.early_exit,
            tier_thresholds: self.tier_thresholds,
            fees: self.fees,
            callback: self.callback,
            locked: self.locked,
            liquidation_treasury: self.liquidation_treasury,
            liquidated: self.liquidated@,
            last_collateral_increase_ledger: self.last_collateral_increase_ledger,
            slash_counter: self.slash_counter,
            pending_claims: self.pending_claims@,
            slash_history: self.slash_history@,
        }
    }
}

// ---------------------------------------------------------------------------
// Model-level helpers
// ---------------------------------------------------------------------------

pub open spec fn code<T>(e: ContractError) -> Result<T, CallError> {
    Err(CallError::Code(e))
}

pub open spec fn refused<T>(r: Refusal) -> Result<T, CallError> {
    Err(CallError::Refused(r))
}

/// The bond breaks the balance invariants (slashed within bonded, both non-negative).
pub open spec fn bond_drift(b: IdentityBond) -> bool {
    b.slashed_amount > b.bonded_amount || b.bonded_amount < 0 || b.slashed_amount < 0
}

/// Number of live (non-revoked) attestations about `subject`: the length of
/// its attestation list (see [`lemma_subject_list_len`]).
pub open spec fn active_count(atts: Seq<AttestationView>, subject: AccountId) -> nat
    decreases atts.len(),
{
    if atts.len() == 0 {
        0
    } else {
        active_count(atts.drop_last(), subject) + if atts.last().identity == subject && !atts.last().revoked {
            1nat
        } else {
            0nat
        }
    }
}

/// The attestation list of `subject`: the ids of its live attestations, in
/// the order they were added.  Revoking an attestation takes its id off the list.
pub open spec fn subject_ids(atts: Seq<AttestationView>, subject: AccountId) -> Seq<u64>
    decreases atts.len(),
{
    if atts.len() == 0 {
        Seq::empty()
    } else if atts.last().identity == subject && !atts.last().revoked {
        subject_ids(atts.drop_last(), subject).push(atts.last().id)
    } else {
        subject_ids(atts.drop_last(), subject)
    }
}

/// The attestation list of a subject is exactly as long as its count of live
/// attestations.
pub proof fn lemma_subject_list_len(atts: Seq<AttestationView>, subject: AccountId)
    ensures
        subject_ids(atts, subject).len() == active_count(atts, subject),
    decreases atts.len(),
{
    if atts.len() > 0 {
        lemma_subject_list_len(atts.drop_last(), subject);
    }
}

impl BondModel {
    pub open spec fn is_attester(self, a: AccountId) -> bool {
        self.attesters.contains_key(a) && self.attesters[a]
    }

    pub open spec fn nonce_of(self, a: AccountId) -> u64 {
        if self.nonces.contains_key(a) { self.nonces[a] } else { 0 }
    }

    pub open spec fn stake_of(self, a: AccountId) -> i128 {
        if self.stakes.contains_key(a) { self.stakes[a] } else { 0 }
    }

    pub open spec fn count_of(self, s: AccountId) -> u32 {
        if self.subject_counts.contains_key(s) { self.subject_counts[s] } else { 0 }
    }

    pub open spec fn is_liquidated(self, a: AccountId) -> bool {
        self.liquidated.contains_key(a) && self.liquidated[a]
    }

    pub open spec fn thresholds(self) -> TierThresholds {
        match self.tier_thresholds {
            Some(t) => t,
            None => default_thresholds(),
        }
    }

    pub open spec fn weights(self) -> WeightConfig {
        match self.weight_config {
            Some(w) => w,
            None => WeightConfig { multiplier_bps: DEFAULT_WEIGHT_MULTIPLIER_BPS, max_weight: DEFAULT_MAX_WEIGHT },
        }
    }

    /// The stored count of `subject` (when present) disagrees with the length
    /// of its attestation list, i.e. its number of live attestations (I7).
    pub open spec fn count_drift(self, subject: AccountId) -> bool {
        self.subject_counts.contains_key(subject) && self.subject_counts[subject] != active_count(self.attestations, subject)
    }

    /// The stored bond or its identity's attestation count has drifted.
    pub open spec fn inconsistent(self) -> bool {
        match self.bond {
            None => false,
            Some(b) => bond_drift(b) || self.count_drift(b.identity),
        }
    }

    /// Like [`Self::inconsistent`], also checking the count of `subject`.
    pub open spec fn inconsistent_for(self, subject: AccountId) -> bool {
        self.inconsistent() || self.count_drift(subject)
    }
}

/// Finish a state-changing call: keep the new state unless it breaks the
/// balance or count invariants, in which case the call is refused.
pub open spec fn commit<T>(old: BondModel, new: BondModel, value: T) -> (Result<T, CallError>, BondModel) {
    if new.inconsistent() {
        (code(ContractError::InvariantViolation), old)
    } else {
        (Ok(value), new)
    }
}

/// Like [`commit`], also checking the attestation count of `subject`.
pub open spec fn commit_for<T>(old: BondModel, new: BondModel, subject: AccountId, value: T) -> (
    Result<T, CallError>,
    BondModel,
) {
    if new.inconsistent_for(subject) {
        (code(ContractError::InvariantViolation), old)
    } else {
        (Ok(value), new)
    }
}

/// `bonded - slashed` saturated to the `i128` range.
pub open spec fn saturating_available(b: IdentityBond) -> i128 {
    let d = b.bonded_amount - b.slashed_amount;
    if d > i128::MAX {
        i128::MAX
    } else if d < i128::MIN {
        i128::MIN
    } else {
        d as i128
    }
}

pub open spec fn empty_bond_model() -> BondModel {
    BondModel {
        admin: None,
        bond: None,
        attesters: Map::empty(),
        attestations: Seq::empty(),
        subject_counts: Map::empty(),
        nonces: Map::empty(),
        stakes: Map::empty(),
        weight_config: None,
        early_exit: None,
        tier_thresholds: None,
        fees: 0,
        callback: None,
        locked: false,
        liquidation_treasury: None,
        liquidated: Map::empty(),
        last_collateral_increase_ledger: None,
        slash_counter: 0,
        pending_claims: Seq::empty(),
        slash_history: Seq::empty(),
    }
}

// ---------------------------------------------------------------------------
// Transitions (model level)
// ---------------------------------------------------------------------------

pub open spec fn spec_initialize(m: BondModel, admin: AccountId) -> (Result<(), CallError>, BondModel) {
    if m.admin is Some {
        (code(ContractError::AlreadyInitialized), m)
    } else {
        (Ok(()), BondModel { admin: Some(admin), ..m })
    }
}

pub open spec fn admin_code_error(m: BondModel, caller: AccountId) -> Option<ContractError> {
    match m.admin {
        None => Some(ContractError::NotInitialized),
        Some(a) => if a != caller { Some(ContractError::NotAdmin) } else { None },
    }
}

pub open spec fn spec_describe_config(m: BondModel) -> Result<BondConfigView, CallError> {
    match m.admin {
        None => code(ContractError::NotInitialized),
        Some(a) => Ok(BondConfigView {
            admin: a,
            early_exit_treasury: match m.early_exit { Some(c) => Some(c.treasury), None => None },
            early_exit_penalty_bps: match m.early_exit { Some(c) => Some(c.penalty_bps), None => None },
            weight_multiplier_bps: m.weights().multiplier_bps,
            weight_max: m.weights().max_weight,
        }),
    }
}

pub open spec fn spec_describe_bond(m: BondModel, identity: AccountId) -> Option<BondStateView> {
    match m.bond {
        None => None,
        Some(b) => if b.identity != identity {
            None
        } else {
            Some(BondStateView {
                identity: b.identity,
                bonded_amount: b.bonded_amount,
                slashed_amount: b.slashed_amount,
                available_amount: saturating_available(b),
                bond_start: b.bond_start,
                bond_duration: b.bond_duration,
                active: b.active,
                is_rolling: b.is_rolling,
                withdrawal_requested_at: b.withdrawal_requested_at,
                notice_period_duration: b.notice_period_duration,
                tier: tier_spec(m.thresholds(), b.bonded_amount),
            })
        },
    }
}

pub open spec fn spec_set_early_exit_config(m: BondModel, admin: AccountId, treasury: AccountId, penalty_bps: u32) -> (
    Result<(), CallError>,
    BondModel,
) {
    match admin_code_error(m, admin) {
        Some(e) => (code(e), m),
        None => if penalty_bps > MAX_PENALTY_BPS {
            (code(ContractError::InvalidPenaltyBps), m)
        } else {
            (Ok(()), BondModel { early_exit: Some(EarlyExitConfig { treasury, penalty_bps }), ..m })
        },
    }
}

pub open spec fn spec_register_attester(m: BondModel, attester: AccountId) -> (Result<(), CallError>, BondModel) {
    if m.admin is None {
        (code(ContractError::NotInitialized), m)
    } else {
        (Ok(()), BondModel { attesters: m.attesters.insert(attester, true), ..m })
    }
}

pub open spec fn spec_unregister_attester(m: BondModel, attester: AccountId) -> (Result<(), CallError>, BondModel) {
    if m.admin is None {
        (code(ContractError::NotInitialized), m)
    } else {
        (Ok(()), BondModel { attesters: m.attesters.remove(attester), ..m })
    }
}

pub open spec fn new_identity_bond(identity: AccountId, amount: i128, now: u64, duration: u64, is_rolling: bool, notice: u64) -> IdentityBond {
    IdentityBond {
        identity,
        bonded_amount: amount,
        bond_start: now,
        bond_duration: duration,
        slashed_amount: 0,
        active: true,
        is_rolling,
        withdrawal_requested_at: 0,
        notice_period_duration: notice,
    }
}

pub open spec fn spec_create_bond(
    m: BondModel,
    identity: AccountId,
    amount: i128,
    duration: u64,
    is_rolling: bool,
    notice: u64,
    ledger: Ledger,
) -> (Result<IdentityBond, CallError>, BondModel) {
    if ledger.timestamp + duration > u64::MAX {
        (refused(Refusal::BondEndWouldOverflow), m)
    } else {
        let b = new_identity_bond(identity, amount, ledger.timestamp, duration, is_rolling, notice);
        commit(m, BondModel { bond: Some(b), ..m }, b)
    }
}

pub open spec fn spec_get_identity_state(m: BondModel) -> Result<IdentityBond, CallError> {
    match m.bond {
        None => code(ContractError::BondNotFound),
        Some(b) => Ok(b),
    }
}

pub open spec fn spec_set_attester_stake(m: BondModel, admin: AccountId, attester: AccountId, amount: i128) -> (
    Result<(), CallError>,
    BondModel,
) {
    match admin_code_error(m, admin) {
        Some(e) => (code(e), m),
        None => if amount < 0 {
            (code(ContractError::NegativeStake), m)
        } else {
            (Ok(()), BondModel { stakes: m.stakes.insert(attester, amount), ..m })
        },
    }
}

pub open spec fn spec_set_weight_config(m: BondModel, admin: AccountId, multiplier_bps: u32, max_weight: u32) -> (
    Result<(), CallError>,
    BondModel,
) {
    match admin_code_error(m, admin) {
        Some(e) => (code(e), m),
        None => (Ok(()), BondModel { weight_config: Some(WeightConfig { multiplier_bps, max_weight }), ..m }),
    }
}

/// Apply `f` to the stored bond, or refuse with `BondNotFound`.
pub open spec fn spec_top_up(m: BondModel, amount: i128, ledger: Ledger) -> (Result<IdentityBond, CallError>, BondModel) {
    match m.bond {
        None => (code(ContractError::BondNotFound), m),
        Some(b) => if b.bonded_amount + amount > i128::MAX || b.bonded_amount + amount < i128::MIN {
            (code(ContractError::Overflow), m)
        } else {
            let nb = IdentityBond { bonded_amount: (b.bonded_amount + amount) as i128, ..b };
            commit(m, BondModel { bond: Some(nb), last_collateral_increase_ledger: Some(ledger.sequence), ..m }, nb)
        },
    }
}

pub open spec fn spec_extend_duration(m: BondModel, additional: u64) -> (Result<IdentityBond, CallError>, BondModel) {
    match m.bond {
        None => (code(ContractError::BondNotFound), m),
        Some(b) => if b.bond_duration + additional > u64::MAX {
            (code(ContractError::Overflow), m)
        } else if b.bond_start + b.bond_duration + additional > u64::MAX {
            (code(ContractError::Overflow), m)
        } else {
            let nb = IdentityBond { bond_duration: (b.bond_duration + additional) as u64, ..b };
            commit(m, BondModel { bond: Some(nb), ..m }, nb)
        },
    }
}

pub open spec fn spec_deposit_fees(m: BondModel, amount: i128) -> (Result<(), CallError>, BondModel) {
    if m.fees + amount > i128::MAX || m.fees + amount < i128::MIN {
        (refused(Refusal::ArithmeticOverflow), m)
    } else {
        (Ok(()), BondModel { fees: (m.fees + amount) as i128, ..m })
    }
}

pub open spec fn spec_set_liquidation_treasury(m: BondModel, admin: AccountId, treasury: AccountId) -> (
    Result<(), CallError>,
    BondModel,
) {
    match admin_code_error(m, admin) {
        Some(e) => (code(e), m),
        None => (Ok(()), BondModel { liquidation_treasury: Some(treasury), ..m }),
    }
}

} // verus!

verus! {

impl CredenceBond {
    /// Storage of a freshly deployed contract.
    pub fn new() -> (s: CredenceBond)
        ensures
            s@ == empty_bond_model(),
    {
        let s = CredenceBond {
            admin: None,
            bond: None,
            attesters: HashMap::new(),
            attestations: Vec::new(),
            subject_counts: HashMap::new(),
            nonces: HashMap::new(),
            stakes: HashMap::new(),
            weight_config: None,
            early_exit: None,
            tier_thresholds: None,
            fees: 0,
            callback: None,
            locked: false,
            liquidation_treasury: None,
            liquidated: HashMap::new(),
            last_collateral_increase_ledger: None,
            slash_counter: 0,
            pending_claims: Vec::new(),
            slash_history: Vec::new(),
        };
        proof {
            assert(att_views(s.attestations@) =~= Seq::<AttestationView>::empty());
        }
        s
    }

    /// Number of live attestations about `subject`.
    pub fn active_attestation_count(&self, subject: AccountId) -> (n: usize)
        ensures
            n == active_count(self@.attestations, subject),
    {
        let ghost views = self@.attestations;
        let mut n: usize = 0;
        let mut i: usize = 0;
        while i < self.attestations.len()
            invariant
                i <= self.attestations@.len(),
                views == att_views(self.attestations@),
                n <= i,
                n == active_count(views.take(i as int), subject),
            decreases self.attestations@.len() - i,
        {
            proof {
                assert(views.take(i + 1).drop_last() =~= views.take(i as int));
                assert(views.take(i + 1).last() == self.attestations@[i as int]@);
            }
            if self.attestations[i].identity == subject && !self.attestations[i].revoked {
                n = n + 1;
            }
            i = i + 1;
        }
        proof {
            assert(views.take(i as int) =~= views);
        }
        n
    }

    /// Whether the stored count of `subject` disagrees with its live attestations.
    pub fn count_drifted(&self, subject: AccountId) -> (r: bool)
        ensures
            r == self@.count_drift(subject),
    {
        match self.subject_counts.get(&subject) {
            None => false,
            Some(c) => {
                let n = self.active_attestation_count(subject);
                (*c as usize) != n
            },
        }
    }

    /// Whether storing `bond` (all else unchanged) would break the invariants.
    fn drift_with(&self, bond: Option<IdentityBond>) -> (r: bool)
        ensures
            r == (BondModel { bond, ..self@ }).inconsistent(),
    {
        match bond {
            None => false,
            Some(b) => {
                if b.slashed_amount > b.bonded_amount || b.bonded_amount < 0 || b.slashed_amount < 0 {
                    true
                } else {
                    self.count_drifted(b.identity)
                }
            },
        }
    }

    fn admin_check(&self, caller: AccountId) -> (r: Result<(), CallError>)
        ensures
            r == match admin_code_error(self@, caller) {
                Some(e) => code::<()>(e),
                None => Ok(()),
            },
    {
        match self.admin {
            None => Err(CallError::Code(ContractError::NotInitialized)),
            Some(a) => if a != caller {
                Err(CallError::Code(ContractError::NotAdmin))
            } else {
                Ok(())
            },
        }
    }

    /// Set the admin; refused once an admin is set.
    pub fn initialize(&mut self, admin: AccountId) -> (r: Result<(), CallError>)
        ensures
            (r, final(self)@) == spec_initialize(old(self)@, admin),
    {
        if self.admin.is_some() {
            return Err(CallError::Code(ContractError::AlreadyInitialized));
        }
        self.admin = Some(admin);
        Ok(())
    }

    /// The tier thresholds in force.
    pub fn thresholds(&self) -> (t: TierThresholds)
        ensures
            t == self@.thresholds(),
    {
        match self.tier_thresholds {
            Some(t) => t,
            None => default_tier_thresholds(),
        }
    }

    /// `(multiplier_bps, max_weight)` of the weighted-attestation configuration.
    pub fn get_weight_config(&self) -> (r: (u32, u32))
        ensures
            r == (self@.weights().multiplier_bps, self@.weights().max_weight),
    {
        match self.weight_config {
            Some(w) => (w.multiplier_bps, w.max_weight),
            None => (DEFAULT_WEIGHT_MULTIPLIER_BPS, DEFAULT_MAX_WEIGHT),
        }
    }

    /// Snapshot of the contract configuration; refused before initialization.
    pub fn describe_config(&self) -> (r: Result<BondConfigView, CallError>)
        ensures
            r == spec_describe_config(self@),
    {
        let admin = match self.admin {
            None => {
                return Err(CallError::Code(ContractError::NotInitialized));
            },
            Some(a) => a,
        };
        let (weight_multiplier_bps, weight_max) = self.get_weight_config();
        Ok(BondConfigView {
            admin,
            early_exit_treasury: match self.early_exit {
                Some(c) => Some(c.treasury),
                None => None,
            },
            early_exit_penalty_bps: match self.early_exit {
                Some(c) => Some(c.penalty_bps),
                None => None,
            },
            weight_multiplier_bps,
            weight_max,
        })
    }

    /// Snapshot of the bond of `identity`, or `None` when it holds no bond.
    pub fn describe_bond(&self, identity: AccountId) -> (r: Option<BondStateView>)
        ensures
            r == spec_describe_bond(self@, identity),
    {
        let b = match self.bond {
            None => {
                return None;
            },
            Some(b) => b,
        };
        if b.identity != identity {
            return None;
        }
        let available_amount = match b.bonded_amount.checked_sub(b.slashed_amount) {
            Some(v) => v,
            None => if b.slashed_amount < 0 {
                i128::MAX
            } else {
                i128::MIN
            },
        };
        let t = self.thresholds();
        let tier = get_tier_for_amount(&t, b.bonded_amount);
        Some(BondStateView {
            identity: b.identity,
            bonded_amount: b.bonded_amount,
            slashed_amount: b.slashed_amount,
            available_amount,
            bond_start: b.bond_start,
            bond_duration: b.bond_duration,
            active: b.active,
            is_rolling: b.is_rolling,
            withdrawal_requested_at: b.withdrawal_requested_at,
            notice_period_duration: b.notice_period_duration,
            tier,
        })
    }

    /// Configure the early-exit penalty; admin only, rate at most 10 000 bps.
    pub fn set_early_exit_config(&mut self, admin: AccountId, treasury: AccountId, penalty_bps: u32) -> (r: Result<
        (),
        CallError,
    >)
        ensures
            (r, final(self)@) == spec_set_early_exit_config(old(self)@, admin, treasury, penalty_bps),
    {
        self.admin_check(admin)?;
        if penalty_bps > MAX_PENALTY_BPS {
            return Err(CallError::Code(ContractError::InvalidPenaltyBps));
        }
        self.early_exit = Some(EarlyExitConfig { treasury, penalty_bps });
        Ok(())
    }

    /// Register an attester (authorized by the stored admin).
    pub fn register_attester(&mut self, attester: AccountId) -> (r: Result<(), CallError>)
        ensures
            (r, final(self)@) == spec_register_attester(old(self)@, attester),
    {
        if self.admin.is_none() {
            return Err(CallError::Code(ContractError::NotInitialized));
        }
        self.attesters.insert(attester, true);
        Ok(())
    }

    /// Remove an attester (authorized by the stored admin).
    pub fn unregister_attester(&mut self, attester: AccountId) -> (r: Result<(), CallError>)
        ensures
            (r, final(self)@) == spec_unregister_attester(old(self)@, attester),
    {
        if self.admin.is_none() {
            return Err(CallError::Code(ContractError::NotInitialized));
        }
        self.attesters.remove(&attester);
        Ok(())
    }

    pub fn is_attester(&self, attester: AccountId) -> (r: bool)
        ensures
            r == self@.is_attester(attester),
    {
        match self.attesters.get(&attester) {
            Some(v) => *v,
            None => false,
        }
    }

    /// Create (or replace) the bond of `identity`, starting now.
    pub fn create_bond(
        &mut self,
        identity: AccountId,
        amount: i128,
        duration: u64,
        is_rolling: bool,
        notice_period_duration: u64,
        ledger: Ledger,
    ) -> (r: Result<IdentityBond, CallError>)
        ensures
            (r, final(self)@) == spec_create_bond(
                old(self)@,
                identity,
                amount,
                duration,
                is_rolling,
                notice_period_duration,
                ledger,
            ),
    {
        if ledger.timestamp > u64::MAX - duration {
            return Err(CallError::Refused(Refusal::BondEndWouldOverflow));
        }
        let b = IdentityBond {
            identity,
            bonded_amount: amount,
            bond_start: ledger.timestamp,
            bond_duration: duration,
            slashed_amount: 0,
            active: true,
            is_rolling,
            withdrawal_requested_at: 0,
            notice_period_duration,
        };
        if self.drift_with(Some(b)) {
            return Err(CallError::Code(ContractError::InvariantViolation));
        }
        self.bond = Some(b);
        Ok(b)
    }

    /// The stored bond; refused with `BondNotFound` when there is none.
    pub fn get_identity_state(&self) -> (r: Result<IdentityBond, CallError>)
        ensures
            r == spec_get_identity_state(self@),
    {
        match self.bond {
            None => Err(CallError::Code(ContractError::BondNotFound)),
            Some(b) => Ok(b),
        }
    }

    /// Tier of the stored bond.
    pub fn get_tier(&self) -> (r: Result<BondTier, CallError>)
        ensures
            r == match spec_get_identity_state(self@) {
                Ok(b) => Ok(tier_spec(self@.thresholds(), b.bonded_amount)),
                Err(e) => Err::<BondTier, CallError>(e),
            },
    {
        let b = self.get_identity_state()?;
        let t = self.thresholds();
        Ok(get_tier_for_amount(&t, b.bonded_amount))
    }

    /// The next nonce `identity` must present.
    pub fn get_nonce(&self, identity: AccountId) -> (n: u64)
        ensures
            n == self@.nonce_of(identity),
    {
        match self.nonces.get(&identity) {
            Some(n) => *n,
            None => 0,
        }
    }

    pub fn get_stake(&self, attester: AccountId) -> (s: i128)
        ensures
            s == self@.stake_of(attester),
    {
        match self.stakes.get(&attester) {
            Some(s) => *s,
            None => 0,
        }
    }

    /// Set an attester's stake; admin only, non-negative.
    pub fn set_attester_stake(&mut self, admin: AccountId, attester: AccountId, amount: i128) -> (r: Result<
        (),
        CallError,
    >)
        ensures
            (r, final(self)@) == spec_set_attester_stake(old(self)@, admin, attester, amount),
    {
        self.admin_check(admin)?;
        if amount < 0 {
            return Err(CallError::Code(ContractError::NegativeStake));
        }
        self.stakes.insert(attester, amount);
        Ok(())
    }

    /// Set the weighted-attestation configuration; admin only.
    pub fn set_weight_config(&mut self, admin: AccountId, multiplier_bps: u32, max_weight: u32) -> (r: Result<
        (),
        CallError,
    >)
        ensures
            (r, final(self)@) == spec_set_weight_config(old(self)@, admin, multiplier_bps, max_weight),
    {
        self.admin_check(admin)?;
        self.weight_config = Some(WeightConfig { multiplier_bps, max_weight });
        Ok(())
    }

    /// Add to the bonded amount; records the ledger of this collateral increase.
    pub fn top_up(&mut self, amount: i128, ledger: Ledger) -> (r: Result<IdentityBond, CallError>)
        ensures
            (r, final(self)@) == spec_top_up(old(self)@, amount, ledger),
    {
        let b = self.get_identity_state()?;
        let bonded = match b.bonded_amount.checked_add(amount) {
            Some(v) => v,
            None => {
                return Err(CallError::Code(ContractError::Overflow));
            },
        };
        let nb = IdentityBond { bonded_amount: bonded, ..b };
        if self.drift_with(Some(nb)) {
            return Err(CallError::Code(ContractError::InvariantViolation));
        }
        self.bond = Some(nb);
        self.last_collateral_increase_ledger = Some(ledger.sequence);
        Ok(nb)
    }

    /// Lengthen the lock-up; the new end must still fit in a timestamp.
    pub fn extend_duration(&mut self, additional_duration: u64) -> (r: Result<IdentityBond, CallError>)
        ensures
            (r, final(self)@) == spec_extend_duration(old(self)@, additional_duration),
    {
        let b = self.get_identity_state()?;
        let duration = match b.bond_duration.checked_add(additional_duration) {
            Some(v) => v,
            None => {
                return Err(CallError::Code(ContractError::Overflow));
            },
        };
        if b.bond_start.checked_add(duration).is_none() {
            return Err(CallError::Code(ContractError::Overflow));
        }
        let nb = IdentityBond { bond_duration: duration, ..b };
        if self.drift_with(Some(nb)) {
            return Err(CallError::Code(ContractError::InvariantViolation));
        }
        self.bond = Some(nb);
        Ok(nb)
    }

    /// Add to the fee pool.
    pub fn deposit_fees(&mut self, amount: i128) -> (r: Result<(), CallError>)
        ensures
            (r, final(self)@) == spec_deposit_fees(old(self)@, amount),
    {
        match self.fees.checked_add(amount) {
            Some(v) => {
                self.fees = v;
                Ok(())
            },
            None => Err(CallError::Refused(Refusal::ArithmeticOverflow)),
        }
    }

    /// Register the contract notified after withdrawals, slashes and
    /// collections; admin only.
    pub fn set_callback(&mut self, admin: AccountId, addr: AccountId) -> (r: Result<(), CallError>)
        ensures
            (r, final(self)@) == spec_set_callback(old(self)@, admin, addr),
    {
        self.admin_refused(admin)?;
        self.callback = Some(addr);
        Ok(())
    }

    pub fn is_locked(&self) -> (r: bool)
        ensures
            r == self@.locked,
    {
        self.locked
    }

    /// Set the treasury receiving liquidation residuals; admin only.
    pub fn set_liquidation_treasury(&mut self, admin: AccountId, treasury: AccountId) -> (r: Result<(), CallError>)
        ensures
            (r, final(self)@) == spec_set_liquidation_treasury(old(self)@, admin, treasury),
    {
        self.admin_check(admin)?;
        self.liquidation_treasury = Some(treasury);
        Ok(())
    }

    pub fn get_liquidation_treasury(&self) -> (r: Option<AccountId>)
        ensures
            r == self@.liquidation_treasury,
    {
        self.liquidation_treasury
    }

    pub fn is_liquidated(&self, identity: AccountId) -> (r: bool)
        ensures
            r == self@.is_liquidated(identity),
    {
        match self.liquidated.get(&identity) {
            Some(v) => *v,
            None => false,
        }
    }
}

} // verus!

verus! {

/// `a + b` clamped to `u64::MAX`.
pub open spec fn sat_add(a: u64, b: u64) -> u64 {
    if a + b > u64::MAX { u64::MAX } else { (a + b) as u64 }
}

pub open spec fn in_i128(x: int) -> bool {
    i128::MIN <= x <= i128::MAX
}

/// Checks shared by the regular withdrawal of a rolling bond: a withdrawal
/// must have been requested and its notice period must have elapsed.
pub open spec fn notice_refusal(b: IdentityBond, now: u64) -> Option<Refusal> {
    if b.withdrawal_requested_at == 0 {
        Some(Refusal::WithdrawalNotRequested)
    } else if b.withdrawal_requested_at + b.notice_period_duration > u64::MAX {
        Some(Refusal::NoticePeriodOverflow)
    } else if now < b.withdrawal_requested_at + b.notice_period_duration {
        Some(Refusal::NoticePeriodNotElapsed)
    } else {
        None
    }
}

/// Decrease the bonded amount by `amount` after the balance checks.
pub open spec fn debit(m: BondModel, b: IdentityBond, amount: i128) -> (Result<IdentityBond, CallError>, BondModel) {
    if !in_i128(b.bonded_amount - b.slashed_amount) {
        (code(ContractError::SlashExceedsBond), m)
    } else if amount > b.bonded_amount - b.slashed_amount {
        (code(ContractError::InsufficientBalance), m)
    } else if !in_i128(b.bonded_amount - amount) {
        (code(ContractError::Underflow), m)
    } else if b.slashed_amount > b.bonded_amount - amount {
        (code(ContractError::SlashExceedsBond), m)
    } else {
        let nb = IdentityBond { bonded_amount: (b.bonded_amount - amount) as i128, ..b };
        commit(m, BondModel { bond: Some(nb), ..m }, nb)
    }
}

/// `withdraw`: after the lock-up (and, for a rolling bond, after the notice
/// period of a requested withdrawal) take `amount` out of the available balance.
/// An amount over the available balance is refused with `InsufficientBalance`
/// before the lock-up is looked at.
pub open spec fn spec_withdraw(m: BondModel, amount: i128, ledger: Ledger) -> (Result<IdentityBond, CallError>, BondModel) {
    match m.bond {
        None => (code(ContractError::BondNotFound), m),
        Some(b) => {
            let now = ledger.timestamp;
            if !in_i128(b.bonded_amount - b.slashed_amount) {
                (code(ContractError::SlashExceedsBond), m)
            } else if amount > b.bonded_amount - b.slashed_amount {
                (code(ContractError::InsufficientBalance), m)
            } else if b.bond_start + b.bond_duration > u64::MAX {
                (refused(Refusal::BondEndOverflow), m)
            } else if now < b.bond_start + b.bond_duration {
                (refused(Refusal::LockupNotExpiredUseWithdrawEarly), m)
            } else if b.is_rolling && notice_refusal(b, now) is Some {
                (refused(notice_refusal(b, now).unwrap()), m)
            } else {
                debit(m, b, amount)
            }
        },
    }
}

/// `withdraw_early`: during the lock-up, take `amount` out of the available
/// balance; the result carries the penalty owed to the early-exit treasury.
pub open spec fn spec_withdraw_early(m: BondModel, amount: i128, ledger: Ledger) -> (
    Result<(IdentityBond, i128), CallError>,
    BondModel,
) {
    match m.bond {
        None => (code(ContractError::BondNotFound), m),
        Some(b) => {
            let now = ledger.timestamp;
            let end = sat_add(b.bond_start, b.bond_duration);
            if !in_i128(b.bonded_amount - b.slashed_amount) {
                (code(ContractError::SlashExceedsBond), m)
            } else if amount > b.bonded_amount - b.slashed_amount {
                (code(ContractError::InsufficientBalance), m)
            } else if now >= end {
                (code(ContractError::LockupNotExpired), m)
            } else if m.early_exit is None {
                (code(ContractError::EarlyExitConfigNotSet), m)
            } else if !crate::bond::penalty_in_range(amount, (end - now) as u64, m.early_exit.unwrap().penalty_bps) {
                (refused(Refusal::ArithmeticOverflow), m)
            } else {
                let penalty = crate::bond::penalty_spec(
                    amount,
                    (end - now) as u64,
                    b.bond_duration,
                    m.early_exit.unwrap().penalty_bps,
                ) as i128;
                let (r, n) = debit(m, b, amount);
                match r {
                    Ok(nb) => (Ok((nb, penalty)), n),
                    Err(e) => (Err(e), n),
                }
            }
        },
    }
}

/// `request_withdrawal`: start the notice period of a rolling bond (once).
pub open spec fn spec_request_withdrawal(m: BondModel, ledger: Ledger) -> (Result<IdentityBond, CallError>, BondModel) {
    match m.bond {
        None => (code(ContractError::BondNotFound), m),
        Some(b) => if !b.is_rolling {
            (code(ContractError::NotRollingBond), m)
        } else if b.withdrawal_requested_at != 0 {
            (code(ContractError::WithdrawalAlreadyRequested), m)
        } else {
            let nb = IdentityBond { withdrawal_requested_at: ledger.timestamp, ..b };
            commit(m, BondModel { bond: Some(nb), ..m }, nb)
        },
    }
}

/// `renew_if_rolling`: a rolling bond without a withdrawal request whose
/// period has ended starts a new period now; any other bond is returned as is.
pub open spec fn spec_renew_if_rolling(m: BondModel, ledger: Ledger) -> (Result<IdentityBond, CallError>, BondModel) {
    match m.bond {
        None => (code(ContractError::BondNotFound), m),
        Some(b) => if !b.is_rolling || b.withdrawal_requested_at != 0 || ledger.timestamp < sat_add(
            b.bond_start,
            b.bond_duration,
        ) {
            (Ok(b), m)
        } else {
            let nb = IdentityBond { bond_start: ledger.timestamp, ..b };
            commit(m, BondModel { bond: Some(nb), ..m }, nb)
        },
    }
}

impl CredenceBond {
    fn debit(&mut self, b: IdentityBond, amount: i128) -> (r: Result<IdentityBond, CallError>)
        requires
            old(self)@.bond == Some(b),
        ensures
            (r, final(self)@) == debit(old(self)@, b, amount),
    {
        let available = match b.bonded_amount.checked_sub(b.slashed_amount) {
            Some(v) => v,
            None => {
                return Err(CallError::Code(ContractError::SlashExceedsBond));
            },
        };
        if amount > available {
            return Err(CallError::Code(ContractError::InsufficientBalance));
        }
        let bonded = match b.bonded_amount.checked_sub(amount) {
            Some(v) => v,
            None => {
                return Err(CallError::Code(ContractError::Underflow));
            },
        };
        if b.slashed_amount > bonded {
            return Err(CallError::Code(ContractError::SlashExceedsBond));
        }
        let nb = IdentityBond { bonded_amount: bonded, ..b };
        if self.drift_with(Some(nb)) {
            return Err(CallError::Code(ContractError::InvariantViolation));
        }
        self.bond = Some(nb);
        Ok(nb)
    }

    fn check_notice(b: &IdentityBond, now: u64) -> (r: Result<(), CallError>)
        ensures
            r == match notice_refusal(*b, now) {
                Some(x) => refused::<()>(x),
                None => Ok(()),
            },
    {
        if b.withdrawal_requested_at == 0 {
            return Err(CallError::Refused(Refusal::WithdrawalNotRequested));
        }
        let earliest = match b.withdrawal_requested_at.checked_add(b.notice_period_duration) {
            Some(v) => v,
            None => {
                return Err(CallError::Refused(Refusal::NoticePeriodOverflow));
            },
        };
        if now < earliest {
            return Err(CallError::Refused(Refusal::NoticePeriodNotElapsed));
        }
        Ok(())
    }

    /// Withdraw part of the available balance once the lock-up is over.  An
    /// amount over the available balance is refused with `InsufficientBalance`
    /// whether or not the lock-up is over.
    pub fn withdraw(&mut self, amount: i128, ledger: Ledger) -> (r: Result<IdentityBond, CallError>)
        ensures
            (r, final(self)@) == spec_withdraw(old(self)@, amount, ledger),
    {
        let b = self.get_identity_state()?;
        let available = match b.bonded_amount.checked_sub(b.slashed_amount) {
            Some(v) => v,
            None => {
                return Err(CallError::Code(ContractError::SlashExceedsBond));
            },
        };
        if amount > available {
            return Err(CallError::Code(ContractError::InsufficientBalance));
        }
        let now = ledger.timestamp;
        let end = match b.bond_start.checked_add(b.bond_duration) {
            Some(v) => v,
            None => {
                return Err(CallError::Refused(Refusal::BondEndOverflow));
            },
        };
        if now < end {
            return Err(CallError::Refused(Refusal::LockupNotExpiredUseWithdrawEarly));
        }
        if b.is_rolling {
            Self::check_notice(&b, now)?;
        }
        self.debit(b, amount)
    }

    /// Withdraw during the lock-up; returns the new bond and the penalty.
    pub fn withdraw_early(&mut self, amount: i128, ledger: Ledger) -> (r: Result<(IdentityBond, i128), CallError>)
        ensures
            (r, final(self)@) == spec_withdraw_early(old(self)@, amount, ledger),
    {
        let b = self.get_identity_state()?;
        let available = match b.bonded_amount.checked_sub(b.slashed_amount) {
            Some(v) => v,
            None => {
                return Err(CallError::Code(ContractError::SlashExceedsBond));
            },
        };
        if amount > available {
            return Err(CallError::Code(ContractError::InsufficientBalance));
        }
        let now = ledger.timestamp;
        let end = b.bond_start.saturating_add(b.bond_duration);
        if now >= end {
            return Err(CallError::Code(ContractError::LockupNotExpired));
        }
        let config = match self.early_exit {
            None => {
                return Err(CallError::Code(ContractError::EarlyExitConfigNotSet));
            },
            Some(c) => c,
        };
        let remaining = end - now;
        if !penalty_fits(amount, remaining, config.penalty_bps) {
            return Err(CallError::Refused(Refusal::ArithmeticOverflow));
        }
        let penalty = crate::bond::calculate_penalty(amount, remaining, b.bond_duration, config.penalty_bps);
        let nb = self.debit(b, amount)?;
        Ok((nb, penalty))
    }

    /// Start the notice period of a rolling bond.
    pub fn request_withdrawal(&mut self, ledger: Ledger) -> (r: Result<IdentityBond, CallError>)
        ensures
            (r, final(self)@) == spec_request_withdrawal(old(self)@, ledger),
    {
        let b = self.get_identity_state()?;
        if !b.is_rolling {
            return Err(CallError::Code(ContractError::NotRollingBond));
        }
        if b.withdrawal_requested_at != 0 {
            return Err(CallError::Code(ContractError::WithdrawalAlreadyRequested));
        }
        let nb = IdentityBond { withdrawal_requested_at: ledger.timestamp, ..b };
        if self.drift_with(Some(nb)) {
            return Err(CallError::Code(ContractError::InvariantViolation));
        }
        self.bond = Some(nb);
        Ok(nb)
    }

    /// Renew a rolling bond whose period has ended (and no withdrawal is pending).
    pub fn renew_if_rolling(&mut self, ledger: Ledger) -> (r: Result<IdentityBond, CallError>)
        ensures
            (r, final(self)@) == spec_renew_if_rolling(old(self)@, ledger),
    {
        let b = self.get_identity_state()?;
        if !b.is_rolling || b.withdrawal_requested_at != 0 || ledger.timestamp < b.bond_start.saturating_add(
            b.bond_duration,
        ) {
            return Ok(b);
        }
        let nb = IdentityBond { bond_start: ledger.timestamp, ..b };
        if self.drift_with(Some(nb)) {
            return Err(CallError::Code(ContractError::InvariantViolation));
        }
        self.bond = Some(nb);
        Ok(nb)
    }
}

/// Whether the penalty formula's intermediate products fit in an `i128`.
pub fn penalty_fits(amount: i128, remaining: u64, penalty_bps: u32) -> (r: bool)
    ensures
        r == crate::bond::penalty_in_range(amount, remaining, penalty_bps),
{
    let scaled = match amount.checked_mul(penalty_bps as i128) {
        Some(v) => v,
        None => {
            return false;
        },
    };
    if scaled == i128::MIN {
        return false;
    }
    let charge = if scaled >= 0 {
        ((scaled as u128) / 10_000u128) as i128
    } else {
        -((((-scaled) as u128) / 10_000u128) as i128)
    };
    match charge.checked_mul(remaining as i128) {
        Some(v) => v != i128::MIN,
        None => false,
    }
}

} // verus!

verus! {

/// The weight of a new attestation from an attester with the given stake:
/// `stake * multiplier_bps / 10 000`, raised to at least 1 and capped at the
/// configured maximum (a non-positive stake counts as no stake).
pub open spec fn weight_spec(stake: i128, w: WeightConfig) -> u32 {
    let raw: int = if stake <= 0 { 0 } else { (stake * w.multiplier_bps) / 10_000 };
    let lifted: int = if raw < 1 { 1 } else { raw };
    if lifted > w.max_weight { w.max_weight } else { lifted as u32 }
}

/// An attestation that duplicates a live one from the same attester about the
/// same subject with the same data.
pub open spec fn is_duplicate(a: AttestationView, attester: AccountId, subject: AccountId, data: Seq<u8>) -> bool {
    a.verifier == attester && a.identity == subject && a.attestation_data == data && !a.revoked
}

pub open spec fn has_duplicate(atts: Seq<AttestationView>, attester: AccountId, subject: AccountId, data: Seq<u8>) -> bool {
    exists|i: int| 0 <= i < atts.len() && is_duplicate(#[trigger] atts[i], attester, subject, data)
}

/// Why consuming `nonce` for `who` fails: it is not the expected nonce, or
/// the next nonce would not fit.
pub open spec fn nonce_error(m: BondModel, who: AccountId, nonce: u64) -> Option<ContractError> {
    if nonce != m.nonce_of(who) {
        Some(ContractError::InvalidNonce)
    } else if nonce == u64::MAX {
        Some(ContractError::Overflow)
    } else {
        None
    }
}

/// `add_attestation`: a registered attester with the expected nonce records a
/// new attestation about `subject`, unless a live identical one exists.
pub open spec fn spec_add_attestation(
    m: BondModel,
    attester: AccountId,
    subject: AccountId,
    data: Seq<u8>,
    nonce: u64,
    ledger: Ledger,
) -> (Result<AttestationView, CallError>, BondModel) {
    if !m.is_attester(attester) {
        (code(ContractError::UnauthorizedAttester), m)
    } else if nonce_error(m, attester, nonce) is Some {
        (code(nonce_error(m, attester, nonce).unwrap()), m)
    } else if has_duplicate(m.attestations, attester, subject, data) {
        (code(ContractError::DuplicateAttestation), m)
    } else if m.attestations.len() >= u64::MAX {
        (code(ContractError::Overflow), m)
    } else {
        let weight = weight_spec(m.stake_of(attester), m.weights());
        if weight == 0 {
            (code(ContractError::InvalidAttestationWeight), m)
        } else if weight > m.weights().max_weight {
            (code(ContractError::AttestationWeightExceedsMax), m)
        } else {
            let a = AttestationView {
                id: m.attestations.len() as u64,
                verifier: attester,
                identity: subject,
                timestamp: ledger.timestamp,
                weight,
                attestation_data: data,
                revoked: false,
            };
            let count = m.count_of(subject);
            let new = BondModel {
                nonces: m.nonces.insert(attester, (nonce + 1) as u64),
                attestations: m.attestations.push(a),
                subject_counts: m.subject_counts.insert(
                    subject,
                    if count == u32::MAX { u32::MAX } else { (count + 1) as u32 },
                ),
                ..m
            };
            commit_for(m, new, subject, a)
        }
    }
}

/// `revoke_attestation`: the original attester, with the expected nonce,
/// revokes one of its live attestations.  The attestation stays readable,
/// marked revoked; its id leaves the subject's attestation list (see
/// [`subject_ids`]) and the subject's count drops by one, so the count keeps
/// equal to the list's length (see `lemma_revocation_takes_id_off_list`).
pub open spec fn spec_revoke_attestation(m: BondModel, attester: AccountId, id: u64, nonce: u64) -> (
    Result<(), CallError>,
    BondModel,
) {
    if nonce_error(m, attester, nonce) is Some {
        (code(nonce_error(m, attester, nonce).unwrap()), m)
    } else if id >= m.attestations.len() {
        (code(ContractError::AttestationNotFound), m)
    } else if m.attestations[id as int].verifier != attester {
        (code(ContractError::NotOriginalAttester), m)
    } else if m.attestations[id as int].revoked {
        (code(ContractError::AttestationAlreadyRevoked), m)
    } else {
        let a = m.attestations[id as int];
        let count = m.count_of(a.identity);
        let new = BondModel {
            nonces: m.nonces.insert(attester, (nonce + 1) as u64),
            attestations: m.attestations.update(id as int, AttestationView { revoked: true, ..a }),
            subject_counts: m.subject_counts.insert(
                a.identity,
                if count == 0 { 0 } else { (count - 1) as u32 },
            ),
            ..m
        };
        commit_for(m, new, a.identity, ())
    }
}

proof fn lemma_att_views_push(s: Seq<Attestation>, a: Attestation)
    ensures
        att_views(s.push(a)) == att_views(s).push(a@),
{
    assert(att_views(s.push(a)) =~= att_views(s).push(a@));
}

proof fn lemma_att_views_update(s: Seq<Attestation>, i: int, a: Attestation)
    requires
        0 <= i < s.len(),
    ensures
        att_views(s.update(i, a)) == att_views(s).update(i, a@),
{
    assert(att_views(s.update(i, a)) =~= att_views(s).update(i, a@));
}

/// Byte-wise equality of two byte strings.
pub fn bytes_equal(a: &Vec<u8>, b: &Vec<u8>) -> (r: bool)
    ensures
        r == (a@ == b@),
{
    if a.len() != b.len() {
        return false;
    }
    let mut i: usize = 0;
    while i < a.len()
        invariant
            a@.len() == b@.len(),
            i <= a@.len(),
            forall|j: int| 0 <= j < i ==> a@[j] == b@[j],
        decreases a@.len() - i,
    {
        if a[i] != b[i] {
            return false;
        }
        i = i + 1;
    }
    assert(a@ =~= b@);
    true
}

proof fn lemma_weight_split(stake: int, mult: int)
    requires
        stake > 0,
        mult >= 0,
    ensures
        (stake * mult) / 10_000 == (stake / 10_000) * mult + ((stake % 10_000) * mult) / 10_000,
        (stake * mult) / 10_000 >= (stake / 10_000) * mult,
{
    let q = stake / 10_000;
    let r = stake % 10_000;
    vstd::arithmetic::div_mod::lemma_fundamental_div_mod(stake, 10_000);
    assert(stake * mult == 10_000 * (q * mult) + r * mult) by (nonlinear_arith)
        requires
            stake == 10_000 * q + r,
    ;
    assert(r * mult >= 0) by (nonlinear_arith)
        requires
            r >= 0,
            mult >= 0,
    ;
    let t = r * mult;
    vstd::arithmetic::div_mod::lemma_fundamental_div_mod(t, 10_000);
    assert((10_000 * (q * mult) + t) / 10_000 == q * mult + t / 10_000) by (nonlinear_arith)
        requires
            t == 10_000 * (t / 10_000) + t % 10_000,
            0 <= t % 10_000 < 10_000,
    {
        vstd::arithmetic::div_mod::lemma_div_multiples_vanish_fancy(q * mult + t / 10_000, t % 10_000, 10_000);
        assert(10_000 * (q * mult) + t == 10_000 * (q * mult + t / 10_000) + t % 10_000);
    }
    vstd::arithmetic::div_mod::lemma_div_pos_is_pos(t, 10_000);
}

/// Weight of a new attestation by an attester with `stake` under `w`.
pub fn compute_weight(stake: i128, w: WeightConfig) -> (weight: u32)
    ensures
        weight == weight_spec(stake, w),
{
    if stake <= 0 || w.multiplier_bps == 0 {
        proof {
            if stake > 0 {
                assert(stake * w.multiplier_bps == 0) by (nonlinear_arith)
                    requires
                        w.multiplier_bps == 0,
                ;
            }
        }
        return if w.max_weight < 1 { w.max_weight } else { 1 };
    }
    let q: i128 = stake / 10_000;
    let r: i128 = stake % 10_000;
    proof {
        lemma_weight_split(stake as int, w.multiplier_bps as int);
    }
    if q >= w.max_weight as i128 {
        proof {
            assert(q * w.multiplier_bps >= q) by (nonlinear_arith)
                requires
                    q >= 0,
                    w.multiplier_bps >= 1,
            ;
        }
        return w.max_weight;
    }
    let qq: u128 = q as u128;
    let rr: u128 = r as u128;
    proof {
        assert(qq * (w.multiplier_bps as int) <= 0xffff_ffff * 0xffff_ffff) by (nonlinear_arith)
            requires
                qq < 0x1_0000_0000,
                w.multiplier_bps <= 0xffff_ffff,
        ;
        assert(rr * (w.multiplier_bps as int) <= 10_000 * 0xffff_ffff) by (nonlinear_arith)
            requires
                rr < 10_000,
                w.multiplier_bps <= 0xffff_ffff,
        ;
    }
    let raw: u128 = qq * (w.multiplier_bps as u128) + (rr * (w.multiplier_bps as u128)) / 10_000;
    let lifted: u128 = if raw < 1 { 1 } else { raw };
    if lifted > w.max_weight as u128 {
        w.max_weight
    } else {
        lifted as u32
    }
}

impl CredenceBond {
    fn check_nonce(&self, who: AccountId, nonce: u64) -> (r: Result<(), CallError>)
        ensures
            r == match nonce_error(self@, who, nonce) {
                Some(e) => code::<()>(e),
                None => Ok(()),
            },
    {
        if nonce != self.get_nonce(who) {
            return Err(CallError::Code(ContractError::InvalidNonce));
        }
        if nonce == u64::MAX {
            return Err(CallError::Code(ContractError::Overflow));
        }
        Ok(())
    }

    fn find_duplicate(&self, attester: AccountId, subject: AccountId, data: &Vec<u8>) -> (r: bool)
        ensures
            r == has_duplicate(self@.attestations, attester, subject, data@),
    {
        let ghost views = self@.attestations;
        let mut i: usize = 0;
        while i < self.attestations.len()
            invariant
                i <= self.attestations@.len(),
                views == att_views(self.attestations@),
                forall|j: int| 0 <= j < i ==> !is_duplicate(#[trigger] views[j], attester, subject, data@),
            decreases self.attestations@.len() - i,
        {
            let a = &self.attestations[i];
            if a.verifier == attester && a.identity == subject && !a.revoked && bytes_equal(&a.attestation_data, data) {
                assert(is_duplicate(views[i as int], attester, subject, data@));
                return true;
            }
            i = i + 1;
        }
        false
    }

    fn stored_count(&self, subject: AccountId) -> (c: u32)
        ensures
            c == self@.count_of(subject),
    {
        match self.subject_counts.get(&subject) {
            Some(c) => *c,
            None => 0,
        }
    }

    /// Whether the current state (with the bond as stored) breaks the invariants
    /// for the bond's identity or `subject`.
    fn inconsistent_for(&self, subject: AccountId) -> (r: bool)
        ensures
            r == self@.inconsistent_for(subject),
    {
        let d = self.drift_with(self.bond);
        proof {
            assert((BondModel { bond: self.bond, ..self@ }) == self@);
        }
        d || self.count_drifted(subject)
    }

    /// Record an attestation by a registered attester about `subject`.
    pub fn add_attestation(
        &mut self,
        attester: AccountId,
        subject: AccountId,
        attestation_data: Vec<u8>,
        nonce: u64,
        ledger: Ledger,
    ) -> (r: Result<Attestation, CallError>)
        ensures
            ({
                let (sr, sm) = spec_add_attestation(old(self)@, attester, subject, attestation_data@, nonce, ledger);
                &&& final(self)@ == sm
                &&& match r {
                    Ok(a) => sr == Ok::<AttestationView, CallError>(a@),
                    Err(e) => sr == Err::<AttestationView, CallError>(e),
                }
            }),
    {
        if !self.is_attester(attester) {
            return Err(CallError::Code(ContractError::UnauthorizedAttester));
        }
        self.check_nonce(attester, nonce)?;
        if self.find_duplicate(attester, subject, &attestation_data) {
            return Err(CallError::Code(ContractError::DuplicateAttestation));
        }
        let len = self.attestations.len();
        if len as u64 >= u64::MAX {
            return Err(CallError::Code(ContractError::Overflow));
        }
        let stake = self.get_stake(attester);
        let (mult, max) = self.get_weight_config();
        let weight = compute_weight(stake, WeightConfig { multiplier_bps: mult, max_weight: max });
        if weight == 0 {
            return Err(CallError::Code(ContractError::InvalidAttestationWeight));
        }
        if weight > max {
            return Err(CallError::Code(ContractError::AttestationWeightExceedsMax));
        }
        let a = Attestation {
            id: len as u64,
            verifier: attester,
            identity: subject,
            timestamp: ledger.timestamp,
            weight,
            attestation_data,
            revoked: false,
        };
        let result = a.clone();
        let count = self.stored_count(subject);
        let ghost old_self = self@;
        let old_nonces = self.nonces.clone();
        let old_counts = self.subject_counts.clone();
        proof {
            lemma_att_views_push(self.attestations@, a);
        }
        self.nonces.insert(attester, nonce + 1);
        self.attestations.push(a);
        self.subject_counts.insert(subject, count.saturating_add(1));
        if self.inconsistent_for(subject) {
            self.nonces = old_nonces;
            self.attestations.pop();
            self.subject_counts = old_counts;
            proof {
                assert(self.attestations@ =~= old(self).attestations@);
            }
            return Err(CallError::Code(ContractError::InvariantViolation));
        }
        Ok(result)
    }

    /// Revoke a live attestation; only its original attester may do so.  Its
    /// id leaves the subject's attestation list and the subject's count drops
    /// by one.
    pub fn revoke_attestation(&mut self, attester: AccountId, attestation_id: u64, nonce: u64) -> (r: Result<
        (),
        CallError,
    >)
        ensures
            (r, final(self)@) == spec_revoke_attestation(old(self)@, attester, attestation_id, nonce),
    {
        self.check_nonce(attester, nonce)?;
        if attestation_id >= self.attestations.len() as u64 {
            return Err(CallError::Code(ContractError::AttestationNotFound));
        }
        let idx = attestation_id as usize;
        let old_att = self.attestations[idx].clone();
        if old_att.verifier != attester {
            return Err(CallError::Code(ContractError::NotOriginalAttester));
        }
        if old_att.revoked {
            return Err(CallError::Code(ContractError::AttestationAlreadyRevoked));
        }
        let subject = old_att.identity;
        let count = self.stored_count(subject);
        let old_nonces = self.nonces.clone();
        let old_counts = self.subject_counts.clone();
        let revoked_att = Attestation { revoked: true, ..old_att.clone() };
        proof {
            lemma_att_views_update(self.attestations@, idx as int, revoked_att);
        }
        self.nonces.insert(attester, nonce + 1);
        self.attestations.set(idx, revoked_att);
        self.subject_counts.insert(subject, count.saturating_sub(1));
        if self.inconsistent_for(subject) {
            self.nonces = old_nonces;
            proof {
                lemma_att_views_update(self.attestations@, idx as int, old_att);
            }
            self.attestations.set(idx, old_att);
            self.subject_counts = old_counts;
            proof {
                assert(att_views(self.attestations@) =~= att_views(old(self).attestations@));
            }
            return Err(CallError::Code(ContractError::InvariantViolation));
        }
        Ok(())
    }

    /// The attestation with the given id.
    pub fn get_attestation(&self, attestation_id: u64) -> (r: Result<Attestation, CallError>)
        ensures
            attestation_id < self@.attestations.len() ==> (r matches Ok(a) && a@ == self@.attestations[attestation_id as int]),
            attestation_id >= self@.attestations.len() ==> r == code::<Attestation>(ContractError::AttestationNotFound),
    {
        if attestation_id >= self.attestations.len() as u64 {
            return Err(CallError::Code(ContractError::AttestationNotFound));
        }
        Ok(self.attestations[attestation_id as usize].clone())
    }

    /// The attestation list of `subject`: ids of its live attestations, in the
    /// order they were added.
    pub fn get_subject_attestations(&self, subject: AccountId) -> (ids: Vec<u64>)
        ensures
            ids@ == subject_ids(self@.attestations, subject),
            ids@.len() == active_count(self@.attestations, subject),
    {
        let ghost views = self@.attestations;
        let mut ids: Vec<u64> = Vec::new();
        let mut i: usize = 0;
        while i < self.attestations.len()
            invariant
                i <= self.attestations@.len(),
                views == att_views(self.attestations@),
                ids@ == subject_ids(views.take(i as int), subject),
            decreases self.attestations@.len() - i,
        {
            proof {
                assert(views.take(i + 1).drop_last() =~= views.take(i as int));
                assert(views.take(i + 1).last() == self.attestations@[i as int]@);
            }
            if self.attestations[i].identity == subject && !self.attestations[i].revoked {
                ids.push(self.attestations[i].id);
            }
            i = i + 1;
        }
        proof {
            assert(views.take(i as int) =~= views);
            lemma_subject_list_len(views, subject);
        }
        ids
    }

    /// The stored attestation count of `subject`.
    pub fn get_subject_attestation_count(&self, subject: AccountId) -> (c: u32)
        ensures
            c == self@.count_of(subject),
    {
        self.stored_count(subject)
    }
}

} // verus!

verus! {

pub open spec fn admin_refusal(m: BondModel, caller: AccountId) -> Option<Refusal> {
    match m.admin {
        None => Some(Refusal::NotInitialized),
        Some(a) => if a != caller { Some(Refusal::NotAdmin) } else { None },
    }
}

/// The state after the host releases the reentrancy lock: only the lock changes.
pub open spec fn spec_release_lock(m: BondModel) -> BondModel {
    BondModel { locked: false, ..m }
}

/// Register `addr` as the callback contract: refused (state unchanged)
/// unless `admin` is the admin.
pub open spec fn spec_set_callback(m: BondModel, admin: AccountId, addr: AccountId) -> (Result<(), CallError>, BondModel) {
    match admin_refusal(m, admin) {
        Some(x) => (refused(x), m),
        None => (Ok(()), BondModel { callback: Some(addr), ..m }),
    }
}

pub open spec fn withdraw_callback(m: BondModel, amount: i128) -> Option<Callback> {
    match m.callback {
        Some(t) => Some(Callback::OnWithdraw { target: t, amount }),
        None => None,
    }
}

pub open spec fn slash_callback(m: BondModel, amount: i128) -> Option<Callback> {
    match m.callback {
        Some(t) => Some(Callback::OnSlash { target: t, amount }),
        None => None,
    }
}

pub open spec fn collect_callback(m: BondModel, amount: i128) -> Option<Callback> {
    match m.callback {
        Some(t) => Some(Callback::OnCollect { target: t, amount }),
        None => None,
    }
}

/// `withdraw_bond`: the owner of an active bond takes out everything that was
/// not slashed (`bonded - slashed`) and closes the bond, which keeps neither a
/// bonded nor a slashed amount.  The lock stays held while the callback (if
/// one is registered) runs, until the host calls `release_lock`.
pub open spec fn spec_withdraw_bond(m: BondModel, identity: AccountId, ledger: Ledger) -> (
    Result<(i128, Option<Callback>), CallError>,
    BondModel,
) {
    if m.locked {
        (code(ContractError::ReentrancyDetected), m)
    } else {
        match m.bond {
            None => (code(ContractError::BondNotFound), m),
            Some(b) => if b.identity != identity {
                (code(ContractError::NotBondOwner), m)
            } else if !b.active {
                (code(ContractError::BondNotActive), m)
            } else if b.is_rolling && notice_refusal(b, ledger.timestamp) is Some {
                (refused(notice_refusal(b, ledger.timestamp).unwrap()), m)
            } else if !in_i128(b.bonded_amount - b.slashed_amount) {
                (refused(Refusal::ArithmeticOverflow), m)
            } else {
                let amount = (b.bonded_amount - b.slashed_amount) as i128;
                let nb = IdentityBond { bonded_amount: 0, slashed_amount: 0, active: false, ..b };
                commit(
                    m,
                    BondModel { bond: Some(nb), locked: m.callback is Some, ..m },
                    (amount, withdraw_callback(m, amount)),
                )
            },
        }
    }
}

/// `slash_bond`: the admin adds `amount` to the slashed total of the active
/// bond, never beyond the bonded amount; returns the new total.
pub open spec fn spec_slash_bond(m: BondModel, admin: AccountId, amount: i128) -> (
    Result<(i128, Option<Callback>), CallError>,
    BondModel,
) {
    if m.locked {
        (code(ContractError::ReentrancyDetected), m)
    } else if admin_code_error(m, admin) is Some {
        (code(admin_code_error(m, admin).unwrap()), m)
    } else {
        match m.bond {
            None => (code(ContractError::BondNotFound), m),
            Some(b) => if !b.active {
                (code(ContractError::BondNotActive), m)
            } else if !in_i128(b.slashed_amount + amount) {
                (refused(Refusal::ArithmeticOverflow), m)
            } else if b.slashed_amount + amount > b.bonded_amount {
                (code(ContractError::SlashExceedsBond), m)
            } else {
                let total = (b.slashed_amount + amount) as i128;
                let nb = IdentityBond { slashed_amount: total, ..b };
                commit(
                    m,
                    BondModel { bond: Some(nb), locked: m.callback is Some, ..m },
                    (total, slash_callback(m, amount)),
                )
            },
        }
    }
}

/// `collect_fees`: the admin takes the whole fee pool.
pub open spec fn spec_collect_fees(m: BondModel, admin: AccountId) -> (
    Result<(i128, Option<Callback>), CallError>,
    BondModel,
) {
    if m.locked {
        (code(ContractError::ReentrancyDetected), m)
    } else if admin_code_error(m, admin) is Some {
        (code(admin_code_error(m, admin).unwrap()), m)
    } else {
        (Ok((m.fees, collect_callback(m, m.fees))), BondModel { fees: 0, locked: m.callback is Some, ..m })
    }
}

/// `liquidate`: the admin closes an active bond that is fully slashed or is a
/// fixed-duration bond past its lock-up, and marks its identity liquidated.
pub open spec fn spec_liquidate(m: BondModel, admin: AccountId, ledger: Ledger) -> (
    Result<Liquidation, CallError>,
    BondModel,
) {
    if m.locked {
        (code(ContractError::ReentrancyDetected), m)
    } else {
        match m.bond {
            None => (code(ContractError::BondNotFound), m),
            Some(b) => if admin_code_error(m, admin) is Some {
                (code(admin_code_error(m, admin).unwrap()), m)
            } else if !b.active {
                (code(ContractError::BondNotActive), m)
            } else {
                let fully_slashed = b.slashed_amount >= b.bonded_amount;
                let expired = !b.is_rolling && ledger.timestamp >= sat_add(b.bond_start, b.bond_duration);
                if !fully_slashed && !expired {
                    (refused(Refusal::NotEligibleForLiquidation), m)
                } else {
                    let nb = IdentityBond { active: false, ..b };
                    commit(
                        m,
                        BondModel { bond: Some(nb), liquidated: m.liquidated.insert(b.identity, true), ..m },
                        Liquidation {
                            bond: nb,
                            residual: saturating_available(b),
                            reason: if fully_slashed {
                                LiquidationReason::FullySlashed
                            } else {
                                LiquidationReason::ExpiredUnrenewed
                            },
                        },
                    )
                }
            },
        }
    }
}

/// The slashed total after slashing `actual`, with a residual of at most one
/// unit slashed as well.
pub open spec fn clamped_total(b: IdentityBond, actual: int) -> int {
    if b.bonded_amount - (b.slashed_amount + actual) <= 1 {
        b.bonded_amount as int
    } else {
        b.slashed_amount + actual
    }
}

/// `slash`: the admin slashes up to the available balance (never more),
/// except in the ledger of a collateral increase.  Each slash is appended to
/// the slash history, and a positive slash credits the admin a claim of a
/// tenth of it.
pub open spec fn spec_slash(m: BondModel, admin: AccountId, amount: i128, ledger: Ledger) -> (
    Result<IdentityBond, CallError>,
    BondModel,
) {
    if amount < 0 {
        (refused(Refusal::NegativeSlashAmount), m)
    } else if admin_refusal(m, admin) is Some {
        (refused(admin_refusal(m, admin).unwrap()), m)
    } else if m.last_collateral_increase_ledger == Some(ledger.sequence) {
        (refused(Refusal::SlashBlockedSameLedger), m)
    } else {
        match m.bond {
            None => (refused(Refusal::NoBond), m),
            Some(b) => if !in_i128(b.bonded_amount - b.slashed_amount) {
                (refused(Refusal::SlashedExceedsBonded), m)
            } else {
                let available = b.bonded_amount - b.slashed_amount;
                let actual: int = if amount > available { available } else { amount as int };
                if !in_i128(b.slashed_amount + actual) || !in_i128(b.bonded_amount - (b.slashed_amount + actual)) {
                    (refused(Refusal::ArithmeticOverflow), m)
                } else {
                    let total = clamped_total(b, actual) as i128;
                    let nb = IdentityBond { slashed_amount: total, ..b };
                    let record = SlashRecord {
                        identity: b.identity,
                        slash_amount: actual as i128,
                        total_slashed_after: total,
                        timestamp: ledger.timestamp,
                    };
                    let reward = actual / 10;
                    if actual > 0 && reward > 0 {
                        if m.slash_counter == u64::MAX {
                            (refused(Refusal::ArithmeticOverflow), m)
                        } else {
                            let claim = PendingClaim {
                                recipient: admin,
                                claim_type: ClaimType::SlashingReward,
                                amount: reward as i128,
                                source_id: (m.slash_counter + 1) as u64,
                            };
                            commit(
                                m,
                                BondModel {
                                    bond: Some(nb),
                                    slash_history: m.slash_history.push(record),
                                    slash_counter: (m.slash_counter + 1) as u64,
                                    pending_claims: m.pending_claims.push(claim),
                                    ..m
                                },
                                nb,
                            )
                        }
                    } else {
                        commit(m, BondModel { bond: Some(nb), slash_history: m.slash_history.push(record), ..m }, nb)
                    }
                }
            },
        }
    }
}

/// `unslash_bond`: the admin reverts `amount` of earlier slashing.
pub open spec fn spec_unslash_bond(m: BondModel, admin: AccountId, amount: i128) -> (
    Result<IdentityBond, CallError>,
    BondModel,
) {
    if amount < 0 {
        (refused(Refusal::NegativeUnslashAmount), m)
    } else if admin_refusal(m, admin) is Some {
        (refused(admin_refusal(m, admin).unwrap()), m)
    } else {
        match m.bond {
            None => (refused(Refusal::NoBond), m),
            Some(b) => if !in_i128(b.slashed_amount - amount) {
                (refused(Refusal::UnslashBelowZero), m)
            } else {
                let nb = IdentityBond { slashed_amount: (b.slashed_amount - amount) as i128, ..b };
                commit(m, BondModel { bond: Some(nb), ..m }, nb)
            },
        }
    }
}

impl CredenceBond {
    fn make_callback_withdraw(&self, amount: i128) -> (c: Option<Callback>)
        ensures
            c == withdraw_callback(self@, amount),
    {
        match self.callback {
            Some(t) => Some(Callback::OnWithdraw { target: t, amount }),
            None => None,
        }
    }

    fn admin_refused(&self, caller: AccountId) -> (r: Result<(), CallError>)
        ensures
            r == match admin_refusal(self@, caller) {
                Some(x) => refused::<()>(x),
                None => Ok(()),
            },
    {
        match self.admin {
            None => Err(CallError::Refused(Refusal::NotInitialized)),
            Some(a) => if a != caller {
                Err(CallError::Refused(Refusal::NotAdmin))
            } else {
                Ok(())
            },
        }
    }

    /// Withdraw everything that was not slashed and close the bond.  When a
    /// callback is returned the host must make it and then call
    /// [`Self::release_lock`].
    pub fn withdraw_bond(&mut self, identity: AccountId, ledger: Ledger) -> (r: Result<
        (i128, Option<Callback>),
        CallError,
    >)
        ensures
            (r, final(self)@) == spec_withdraw_bond(old(self)@, identity, ledger),
    {
        if self.locked {
            return Err(CallError::Code(ContractError::ReentrancyDetected));
        }
        let b = self.get_identity_state()?;
        if b.identity != identity {
            return Err(CallError::Code(ContractError::NotBondOwner));
        }
        if !b.active {
            return Err(CallError::Code(ContractError::BondNotActive));
        }
        if b.is_rolling {
            Self::check_notice(&b, ledger.timestamp)?;
        }
        let amount = match b.bonded_amount.checked_sub(b.slashed_amount) {
            Some(v) => v,
            None => {
                return Err(CallError::Refused(Refusal::ArithmeticOverflow));
            },
        };
        let nb = IdentityBond { bonded_amount: 0, slashed_amount: 0, active: false, ..b };
        if self.drift_with(Some(nb)) {
            return Err(CallError::Code(ContractError::InvariantViolation));
        }
        let cb = self.make_callback_withdraw(amount);
        self.bond = Some(nb);
        self.locked = self.callback.is_some();
        Ok((amount, cb))
    }

    /// Admin slash of the active bond, refused beyond the bonded amount.
    pub fn slash_bond(&mut self, admin: AccountId, slash_amount: i128) -> (r: Result<
        (i128, Option<Callback>),
        CallError,
    >)
        ensures
            (r, final(self)@) == spec_slash_bond(old(self)@, admin, slash_amount),
    {
        if self.locked {
            return Err(CallError::Code(ContractError::ReentrancyDetected));
        }
        self.admin_check(admin)?;
        let b = self.get_identity_state()?;
        if !b.active {
            return Err(CallError::Code(ContractError::BondNotActive));
        }
        let total = match b.slashed_amount.checked_add(slash_amount) {
            Some(v) => v,
            None => {
                return Err(CallError::Refused(Refusal::ArithmeticOverflow));
            },
        };
        if total > b.bonded_amount {
            return Err(CallError::Code(ContractError::SlashExceedsBond));
        }
        let nb = IdentityBond { slashed_amount: total, ..b };
        if self.drift_with(Some(nb)) {
            return Err(CallError::Code(ContractError::InvariantViolation));
        }
        let cb = match self.callback {
            Some(t) => Some(Callback::OnSlash { target: t, amount: slash_amount }),
            None => None,
        };
        self.bond = Some(nb);
        self.locked = self.callback.is_some();
        Ok((total, cb))
    }

    /// The admin collects the fee pool.
    pub fn collect_fees(&mut self, admin: AccountId) -> (r: Result<(i128, Option<Callback>), CallError>)
        ensures
            (r, final(self)@) == spec_collect_fees(old(self)@, admin),
    {
        if self.locked {
            return Err(CallError::Code(ContractError::ReentrancyDetected));
        }
        self.admin_check(admin)?;
        let fees = self.fees;
        let cb = match self.callback {
            Some(t) => Some(Callback::OnCollect { target: t, amount: fees }),
            None => None,
        };
        self.fees = 0;
        self.locked = self.callback.is_some();
        Ok((fees, cb))
    }

    /// Release the reentrancy lock once the host has made the callback.
    pub fn release_lock(&mut self)
        ensures
            final(self)@ == spec_release_lock(old(self)@),
    {
        self.locked = false;
    }

    /// Close a fully slashed or expired fixed-duration bond.
    pub fn liquidate(&mut self, admin: AccountId, ledger: Ledger) -> (r: Result<Liquidation, CallError>)
        ensures
            (r, final(self)@) == spec_liquidate(old(self)@, admin, ledger),
    {
        if self.locked {
            return Err(CallError::Code(ContractError::ReentrancyDetected));
        }
        let b = self.get_identity_state()?;
        self.admin_check(admin)?;
        if !b.active {
            return Err(CallError::Code(ContractError::BondNotActive));
        }
        let fully_slashed = b.slashed_amount >= b.bonded_amount;
        let expired = !b.is_rolling && ledger.timestamp >= b.bond_start.saturating_add(b.bond_duration);
        if !fully_slashed && !expired {
            return Err(CallError::Refused(Refusal::NotEligibleForLiquidation));
        }
        let residual = match b.bonded_amount.checked_sub(b.slashed_amount) {
            Some(v) => v,
            None => if b.slashed_amount < 0 {
                i128::MAX
            } else {
                i128::MIN
            },
        };
        let nb = IdentityBond { active: false, ..b };
        if self.drift_with(Some(nb)) {
            return Err(CallError::Code(ContractError::InvariantViolation));
        }
        self.bond = Some(nb);
        self.liquidated.insert(b.identity, true);
        Ok(Liquidation {
            bond: nb,
            residual,
            reason: if fully_slashed {
                LiquidationReason::FullySlashed
            } else {
                LiquidationReason::ExpiredUnrenewed
            },
        })
    }

    /// Admin slash capped at the available balance (see [`spec_slash`]).
    pub fn slash(&mut self, admin: AccountId, amount: i128, ledger: Ledger) -> (r: Result<IdentityBond, CallError>)
        ensures
            (r, final(self)@) == spec_slash(old(self)@, admin, amount, ledger),
    {
        if amount < 0 {
            return Err(CallError::Refused(Refusal::NegativeSlashAmount));
        }
        self.admin_refused(admin)?;
        if self.last_collateral_increase_ledger == Some(ledger.sequence) {
            return Err(CallError::Refused(Refusal::SlashBlockedSameLedger));
        }
        let b = match self.bond {
            None => {
                return Err(CallError::Refused(Refusal::NoBond));
            },
            Some(b) => b,
        };
        let available = match b.bonded_amount.checked_sub(b.slashed_amount) {
            Some(v) => v,
            None => {
                return Err(CallError::Refused(Refusal::SlashedExceedsBonded));
            },
        };
        let actual = if amount > available { available } else { amount };
        let summed = match b.slashed_amount.checked_add(actual) {
            Some(v) => v,
            None => {
                return Err(CallError::Refused(Refusal::ArithmeticOverflow));
            },
        };
        let residual = match b.bonded_amount.checked_sub(summed) {
            Some(v) => v,
            None => {
                return Err(CallError::Refused(Refusal::ArithmeticOverflow));
            },
        };
        let total = if residual <= 1 { b.bonded_amount } else { summed };
        let nb = IdentityBond { slashed_amount: total, ..b };
        let record = SlashRecord {
            identity: b.identity,
            slash_amount: actual,
            total_slashed_after: total,
            timestamp: ledger.timestamp,
        };
        let reward: i128 = if actual > 0 { actual / 10 } else { 0 };
        let pays = actual > 0 && reward > 0;
        if pays && self.slash_counter == u64::MAX {
            return Err(CallError::Refused(Refusal::ArithmeticOverflow));
        }
        if self.drift_with(Some(nb)) {
            return Err(CallError::Code(ContractError::InvariantViolation));
        }
        self.bond = Some(nb);
        self.slash_history.push(record);
        if pays {
            self.slash_counter = self.slash_counter + 1;
            self.pending_claims.push(
                PendingClaim {
                    recipient: admin,
                    claim_type: ClaimType::SlashingReward,
                    amount: reward,
                    source_id: self.slash_counter,
                },
            );
        }
        Ok(nb)
    }

    /// Admin revert of `amount` of earlier slashing.
    pub fn unslash_bond(&mut self, admin: AccountId, amount: i128) -> (r: Result<IdentityBond, CallError>)
        ensures
            (r, final(self)@) == spec_unslash_bond(old(self)@, admin, amount),
    {
        if amount < 0 {
            return Err(CallError::Refused(Refusal::NegativeUnslashAmount));
        }
        self.admin_refused(admin)?;
        let b = match self.bond {
            None => {
                return Err(CallError::Refused(Refusal::NoBond));
            },
            Some(b) => b,
        };
        let total = match b.slashed_amount.checked_sub(amount) {
            Some(v) => v,
            None => {
                return Err(CallError::Refused(Refusal::UnslashBelowZero));
            },
        };
        let nb = IdentityBond { slashed_amount: total, ..b };
        if self.drift_with(Some(nb)) {
            return Err(CallError::Code(ContractError::InvariantViolation));
        }
        self.bond = Some(nb);
        Ok(nb)
    }
}

} // verus!

verus! {

/// Which invariant a drift report is about.
#[derive(Clone, Copy, Debug, PartialEq, Eq, Structural)]
pub enum BondDriftKind {
    SlashedExceedsBonded,
    AttestationCountMismatch,
}

/// What is published when an invariant check fails.
#[derive(Clone, Copy, Debug, PartialEq, Eq, Structural)]
pub struct BondDriftDetails {
    pub kind: BondDriftKind,
    pub subject: AccountId,
    pub bonded_amount: i128,
    pub slashed_amount: i128,
    /// Stored attestation count (0 for a balance drift).
    pub attestation_count: u32,
    /// Length of the subject's attestation list (its live attestations),
    /// saturated to `u32::MAX` (0 for a balance drift).
    pub attestation_list_len: u32,
}

pub open spec fn sat_u32(n: nat) -> u32 {
    if n > u32::MAX { u32::MAX } else { n as u32 }
}

/// The count-mismatch report for `subject`, with the given bond amounts.
pub open spec fn count_report(m: BondModel, subject: AccountId, bonded: i128, slashed: i128) -> Option<BondDriftDetails> {
    if m.count_drift(subject) {
        Some(BondDriftDetails {
            kind: BondDriftKind::AttestationCountMismatch,
            subject,
            bonded_amount: bonded,
            slashed_amount: slashed,
            attestation_count: m.subject_counts[subject],
            attestation_list_len: sat_u32(active_count(m.attestations, subject)),
        })
    } else {
        None
    }
}

/// The first drift of the stored bond: its balances, then its identity's count.
pub open spec fn drift_report_spec(m: BondModel) -> Option<BondDriftDetails> {
    match m.bond {
        None => None,
        Some(b) => if bond_drift(b) {
            Some(BondDriftDetails {
                kind: BondDriftKind::SlashedExceedsBonded,
                subject: b.identity,
                bonded_amount: b.bonded_amount,
                slashed_amount: b.slashed_amount,
                attestation_count: 0,
                attestation_list_len: 0,
            })
        } else {
            count_report(m, b.identity, b.bonded_amount, b.slashed_amount)
        },
    }
}

/// The first drift of the stored bond or of `subject`'s count.
pub open spec fn drift_report_for_spec(m: BondModel, subject: AccountId) -> Option<BondDriftDetails> {
    match drift_report_spec(m) {
        Some(d) => Some(d),
        None => match m.bond {
            None => count_report(m, subject, 0, 0),
            Some(b) => if b.identity != subject {
                count_report(m, subject, b.bonded_amount, b.slashed_amount)
            } else {
                None
            },
        },
    }
}

impl CredenceBond {
    fn count_report(&self, subject: AccountId, bonded: i128, slashed: i128) -> (d: Option<BondDriftDetails>)
        ensures
            d == count_report(self@, subject, bonded, slashed),
    {
        match self.subject_counts.get(&subject) {
            None => None,
            Some(c) => {
                let n = self.active_attestation_count(subject);
                if (*c as usize) != n {
                    Some(BondDriftDetails {
                        kind: BondDriftKind::AttestationCountMismatch,
                        subject,
                        bonded_amount: bonded,
                        slashed_amount: slashed,
                        attestation_count: *c,
                        attestation_list_len: if n > u32::MAX as usize { u32::MAX } else { n as u32 },
                    })
                } else {
                    None
                }
            },
        }
    }

    /// Check the stored bond's invariants; `Some` describes the first drift found.
    fn drift_report(&self) -> (d: Option<BondDriftDetails>)
        ensures
            d == drift_report_spec(self@),
            d is None <==> !self@.inconsistent(),
    {
        match self.bond {
            None => None,
            Some(b) => if b.slashed_amount > b.bonded_amount || b.bonded_amount < 0 || b.slashed_amount < 0 {
                Some(BondDriftDetails {
                    kind: BondDriftKind::SlashedExceedsBonded,
                    subject: b.identity,
                    bonded_amount: b.bonded_amount,
                    slashed_amount: b.slashed_amount,
                    attestation_count: 0,
                    attestation_list_len: 0,
                })
            } else {
                self.count_report(b.identity, b.bonded_amount, b.slashed_amount)
            },
        }
    }
}

/// Post-write self-check of the stored bond: its slashed amount lies within
/// its bonded amount (both non-negative), and its identity's stored
/// attestation count matches the live attestations.  The error describes the
/// first drift found, which the contract reports as `InvariantViolation`.
pub fn assert_self_consistent(c: &CredenceBond) -> (r: Result<(), BondDriftDetails>)
    ensures
        r == match drift_report_spec(c@) {
            Some(d) => Err::<(), BondDriftDetails>(d),
            None => Ok(()),
        },
        r is Ok <==> !c@.inconsistent(),
{
    match c.drift_report() {
        Some(d) => Err(d),
        None => Ok(()),
    }
}

/// As [`assert_self_consistent`], also checking `subject`'s attestation count
/// when it is not the bond's identity (or when no bond exists).
pub fn assert_self_consistent_for_subject(c: &CredenceBond, subject: AccountId) -> (r: Result<
    (),
    BondDriftDetails,
>)
    ensures
        r == match drift_report_for_spec(c@, subject) {
            Some(d) => Err::<(), BondDriftDetails>(d),
            None => Ok(()),
        },
        r is Ok <==> !c@.inconsistent_for(subject),
{
    match c.drift_report() {
        Some(d) => Err(d),
        None => match c.bond {
            None => match c.count_report(subject, 0, 0) {
                Some(d) => Err(d),
                None => Ok(()),
            },
            Some(b) => if b.identity != subject {
                match c.count_report(subject, b.bonded_amount, b.slashed_amount) {
                    Some(d) => Err(d),
                    None => Ok(()),
                }
            } else {
                Ok(())
            },
        },
    }
}

/// The slash records of `identity`, oldest first.
pub open spec fn records_for(h: Seq<SlashRecord>, identity: AccountId) -> Seq<SlashRecord>
    decreases h.len(),
{
    if h.len() == 0 {
        Seq::empty()
    } else if h.last().identity == identity {
        records_for(h.drop_last(), identity).push(h.last())
    } else {
        records_for(h.drop_last(), identity)
    }
}

impl CredenceBond {
    /// The slash history of `identity`, oldest first.
    pub fn get_slash_history(&self, identity: AccountId) -> (v: Vec<SlashRecord>)
        ensures
            v@ == records_for(self@.slash_history, identity),
    {
        let mut out: Vec<SlashRecord> = Vec::new();
        let mut i: usize = 0;
        while i < self.slash_history.len()
            invariant
                i <= self@.slash_history.len(),
                self@.slash_history == self.slash_history@,
                out@ == records_for(self@.slash_history.take(i as int), identity),
            decreases self@.slash_history.len() - i,
        {
            let r = self.slash_history[i];
            proof {
                assert(self@.slash_history.take(i + 1).drop_last() =~= self@.slash_history.take(i as int));
                assert(self@.slash_history.take(i + 1).last() == r);
            }
            if r.identity == identity {
                out.push(r);
            }
            i = i + 1;
        }
        proof {
            assert(self@.slash_history.take(i as int) =~= self@.slash_history);
        }
        out
    }

    /// Number of slashes recorded for `identity`.
    pub fn get_slash_count(&self, identity: AccountId) -> (n: usize)
        ensures
            n == records_for(self@.slash_history, identity).len(),
    {
        self.get_slash_history(identity).len()
    }

    /// The `index`-th slash recorded for `identity` (oldest first), if any.
    pub fn get_slash_record(&self, identity: AccountId, index: usize) -> (r: Option<SlashRecord>)
        ensures
            r == if index < records_for(self@.slash_history, identity).len() {
                Some(records_for(self@.slash_history, identity)[index as int])
            } else {
                None::<SlashRecord>
            },
    {
        let h = self.get_slash_history(identity);
        if index < h.len() {
            Some(h[index])
        } else {
            None
        }
    }
}

} // verus!
