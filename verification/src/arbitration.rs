//! Arbitration: weighted arbitrators vote on disputes during a voting window;
//! after it closes a dispute resolves to the outcome with strictly the
//! greatest total weight (0 when there is none), subject to a quorum.
use vstd::prelude::*;
use std::collections::HashMap;
use crate::AccountId;
use crate::errors::ContractError;
use crate::pausable::{
    PauseModel, PauseState, initial_pause_model, spec_approve, spec_execute, spec_pause, spec_set_pause_signer,
    spec_set_pause_threshold, spec_unpause,
};

verus! {

broadcast use vstd::std_specs::hash::group_hash_axioms;

/// Longest cancellation reason accepted, in bytes.
pub const MAX_REASON_LEN: usize = 256;

/// Page size used when a page request gives a limit of 0.
pub const DEFAULT_MAX_ITER: u32 = 50;

/// Largest page size served.
pub const MAX_ITER_HARD_CAP: u32 = 200;

/// Lifecycle of a dispute.
#[derive(Clone, Copy, Debug, PartialEq, Eq, Structural)]
pub enum DisputeStatus {
    Open,
    Voting,
    Resolving,
    Resolved,
    Cancelled,
}

/// The lifecycle moves a dispute may make.
pub open spec fn allowed_transition(from: DisputeStatus, to: DisputeStatus) -> bool {
    match (from, to) {
        (DisputeStatus::Open, DisputeStatus::Voting) => true,
        (DisputeStatus::Voting, DisputeStatus::Resolving) => true,
        (DisputeStatus::Resolving, DisputeStatus::Resolved) => true,
        (DisputeStatus::Open, DisputeStatus::Cancelled) => true,
        (DisputeStatus::Voting, DisputeStatus::Cancelled) => true,
        _ => false,
    }
}

/// Errors specific to arbitration.
#[derive(Clone, Copy, Debug, PartialEq, Eq, Structural)]
pub enum ArbitrationError {
    AlreadyInitialized,
    NotInitialized,
    NotAdmin,
    NotAuthorized,
    WeightNotPositive,
    ReasonTooLong,
    DisputeNotFound,
    InvalidOutcome,
    NotArbitrator,
    VotingInactive,
    AlreadyVoted,
    VotingNotEnded,
    QuorumNotMet,
    InvalidTransition,
}

/// Any refusal of an arbitration call.
#[derive(Clone, Copy, Debug, PartialEq, Eq, Structural)]
pub enum ArbitrationFailure {
    Arbitration(ArbitrationError),
    Code(ContractError),
}

/// Refuse a lifecycle move that is not allowed.
pub fn require_transition(from: DisputeStatus, to: DisputeStatus) -> (r: Result<(), ArbitrationError>)
    ensures
        r == if allowed_transition(from, to) {
            Ok::<(), ArbitrationError>(())
        } else {
            Err(ArbitrationError::InvalidTransition)
        },
{
    match (from, to) {
        (DisputeStatus::Open, DisputeStatus::Voting) => Ok(()),
        (DisputeStatus::Voting, DisputeStatus::Resolving) => Ok(()),
        (DisputeStatus::Resolving, DisputeStatus::Resolved) => Ok(()),
        (DisputeStatus::Open, DisputeStatus::Cancelled) => Ok(()),
        (DisputeStatus::Voting, DisputeStatus::Cancelled) => Ok(()),
        _ => Err(ArbitrationError::InvalidTransition),
    }
}

/// Who cancelled a dispute.
#[derive(Clone, Copy, Debug, PartialEq, Eq, Structural)]
pub enum CancelRole {
    Creator,
    Admin,
}

/// A dispute.
#[derive(Debug)]
pub struct Dispute {
    pub id: u64,
    pub creator: AccountId,
    pub description: Vec<u8>,
    pub voting_start: u64,
    pub voting_end: u64,
    pub status: DisputeStatus,
    /// Winning outcome once resolved (0 = no winner).
    pub outcome: u32,
    pub cancellation_reason: Option<Vec<u8>>,
    pub cancelled_by_role: Option<CancelRole>,
}

/// Mathematical view of a [`Dispute`].
pub struct DisputeView {
    pub id: u64,
    pub creator: AccountId,
    pub description: Seq<u8>,
    pub voting_start: u64,
    pub voting_end: u64,
    pub status: DisputeStatus,
    pub outcome: u32,
    pub cancellation_reason: Option<Seq<u8>>,
    pub cancelled_by_role: Option<CancelRole>,
}

pub open spec fn opt_bytes_view(o: Option<Vec<u8>>) -> Option<Seq<u8>> {
    match o {
        Some(v) => Some(v@),
        None => None,
    }
}

impl View for Dispute {
    type V = DisputeView;

    open spec fn view(&self) -> DisputeView {
        DisputeView {
            id: self.id,
            creator: self.creator,
            description: self.description@,
            voting_start: self.voting_start,
            voting_end: self.voting_end,
            status: self.status,
            outcome: self.outcome,
            cancellation_reason: opt_bytes_view(self.cancellation_reason),
            cancelled_by_role: self.cancelled_by_role,
        }
    }
}

impl Clone for Dispute {
    fn clone(&self) -> (c: Self)
        ensures
            c@ == self@,
    {
        Dispute {
            id: self.id,
            creator: self.creator,
            description: self.description.clone(),
            voting_start: self.voting_start,
            voting_end: self.voting_end,
            status: self.status,
            outcome: self.outcome,
            cancellation_reason: match &self.cancellation_reason {
                Some(r) => Some(r.clone()),
                None => None,
            },
            cancelled_by_role: self.cancelled_by_role,
        }
    }
}

/// Arbitration contract storage.
pub struct CredenceArbitration {
    pub admin: Option<AccountId>,
    pub pause: PauseState,
    /// Registered arbitrators and their voting weight.
    pub arbitrators: HashMap<AccountId, i128>,
    /// Registered arbitrators in registration order (for pagination).
    pub registry: Vec<AccountId>,
    /// Every dispute; the dispute with id `i` is at index `i`.
    pub disputes: Vec<Dispute>,
    /// Per dispute: total weight per outcome, one entry per outcome voted for.
    pub tallies: HashMap<u64, Vec<(u32, i128)>>,
    /// Per dispute: the arbitrators that voted, in voting order.
    pub voters: HashMap<u64, Vec<AccountId>>,
    pub min_total_weight: i128,
    pub min_voters: u32,
}

/// Mathematical view of [`CredenceArbitration`].
pub struct ArbitrationModel {
    pub admin: Option<AccountId>,
    pub pause: PauseModel,
    pub arbitrators: Map<AccountId, i128>,
    pub registry: Seq<AccountId>,
    pub disputes: Seq<DisputeView>,
    pub tallies: Map<u64, Seq<(u32, i128)>>,
    pub voters: Map<u64, Seq<AccountId>>,
    pub min_total_weight: i128,
    pub min_voters: u32,
}

pub open spec fn dispute_views(d: Seq<Dispute>) -> Seq<DisputeView> {
    d.map_values(|x: Dispute| x@)
}

pub open spec fn tally_views(t: Map<u64, Vec<(u32, i128)>>) -> Map<u64, Seq<(u32, i128)>> {
    t.map_values(|v: Vec<(u32, i128)>| v@)
}

pub open spec fn voter_views(t: Map<u64, Vec<AccountId>>) -> Map<u64, Seq<AccountId>> {
    t.map_values(|v: Vec<AccountId>| v@)
}

impl View for CredenceArbitration {
    type V = ArbitrationModel;

    open spec fn view(&self) -> ArbitrationModel {
        ArbitrationModel {
            admin: self.admin,
            pause: self.pause@,
            arbitrators: self.arbitrators@,
            registry: self.registry@,
            disputes: dispute_views(self.disputes@),
            tallies: tally_views(self.tallies@),
            voters: voter_views(self.voters@),
            min_total_weight: self.min_total_weight,
            min_voters: self.min_voters,
        }
    }
}

// ---------------------------------------------------------------------------
// Tallies
// ---------------------------------------------------------------------------

/// The greatest total weight among the entries, and -1 when that is larger.
pub open spec fn max_w(s: Seq<(u32, i128)>) -> int
    decreases s.len(),
{
    if s.len() == 0 {
        -1
    } else {
        let m = max_w(s.drop_last());
        if s.last().1 > m { s.last().1 as int } else { m }
    }
}

/// Number of entries whose total weight is `w`.
pub open spec fn count_w(s: Seq<(u32, i128)>, w: int) -> nat
    decreases s.len(),
{
    if s.len() == 0 {
        0
    } else {
        count_w(s.drop_last(), w) + if s.last().1 == w { 1nat } else { 0nat }
    }
}

/// Outcome of the first entry whose total weight is `w`.
pub open spec fn first_at(s: Seq<(u32, i128)>, w: int) -> u32
    decreases s.len(),
{
    if s.len() == 0 {
        0
    } else if count_w(s.drop_last(), w) > 0 {
        first_at(s.drop_last(), w)
    } else {
        s.last().0
    }
}

/// The outcome whose total weight is strictly greater than every other's;
/// 0 when there is no vote or the greatest weight is shared.
pub open spec fn plurality(s: Seq<(u32, i128)>) -> u32 {
    let m = max_w(s);
    if m > -1 && count_w(s, m) == 1 {
        first_at(s, m)
    } else {
        0
    }
}

/// Sum of the total weights.
pub open spec fn total_w(s: Seq<(u32, i128)>) -> int
    decreases s.len(),
{
    if s.len() == 0 {
        0
    } else {
        total_w(s.drop_last()) + s.last().1
    }
}

/// Total weight recorded for `outcome` (0 when none).
pub open spec fn weight_of(s: Seq<(u32, i128)>, outcome: u32) -> int
    decreases s.len(),
{
    if s.len() == 0 {
        0
    } else if s.last().0 == outcome {
        s.last().1 as int
    } else {
        weight_of(s.drop_last(), outcome)
    }
}

proof fn lemma_max_w_bounds(s: Seq<(u32, i128)>)
    ensures
        forall|i: int| 0 <= i < s.len() ==> #[trigger] s[i].1 <= max_w(s),
        max_w(s) > -1 ==> count_w(s, max_w(s)) >= 1,
        max_w(s) >= -1,
    decreases s.len(),
{
    if s.len() > 0 {
        lemma_max_w_bounds(s.drop_last());
        assert forall|i: int| 0 <= i < s.len() implies #[trigger] s[i].1 <= max_w(s) by {
            if i < s.len() - 1 {
                assert(s[i] == s.drop_last()[i]);
            }
        }
        let m = max_w(s.drop_last());
        if s.last().1 <= m && m > -1 {
            lemma_count_w_mono(s, m);
        }
    }
}

proof fn lemma_count_w_mono(s: Seq<(u32, i128)>, w: int)
    requires
        s.len() > 0,
    ensures
        count_w(s, w) >= count_w(s.drop_last(), w),
{
}

proof fn lemma_count_zero_above_max(s: Seq<(u32, i128)>, w: int)
    requires
        w > max_w(s),
    ensures
        count_w(s, w) == 0,
    decreases s.len(),
{
    if s.len() > 0 {
        lemma_count_zero_above_max(s.drop_last(), w);
    }
}

/// The outcome with the strictly greatest total weight (see [`plurality`]).
pub fn tally_winner(votes: &Vec<(u32, i128)>) -> (w: u32)
    ensures
        w == plurality(votes@),
{
    let ghost s = votes@;
    let mut winning_outcome: u32 = 0;
    let mut max_weight: i128 = -1;
    let mut is_tie = false;
    let mut i: usize = 0;
    while i < votes.len()
        invariant
            s == votes@,
            i <= s.len(),
            max_weight == max_w(s.take(i as int)),
            winning_outcome == (if max_w(s.take(i as int)) > -1 { first_at(s.take(i as int), max_w(s.take(i as int))) } else { 0 }),
            is_tie == (if max_w(s.take(i as int)) > -1 {
                count_w(s.take(i as int), max_w(s.take(i as int))) >= 2
            } else {
                count_w(s.take(i as int), -1) >= 1
            }),
        decreases s.len() - i,
    {
        let (outcome, weight) = votes[i];
        let ghost p = s.take(i as int);
        let ghost q = s.take(i + 1);
        proof {
            assert(q.drop_last() =~= p);
            assert(q.last() == (outcome, weight));
            lemma_max_w_bounds(p);
        }
        if weight > max_weight {
            proof {
                lemma_count_zero_above_max(p, weight as int);
            }
            max_weight = weight;
            winning_outcome = outcome;
            is_tie = false;
        } else if weight == max_weight {
            is_tie = true;
        }
        i = i + 1;
    }
    proof {
        assert(s.take(i as int) =~= s);
        lemma_max_w_bounds(s);
    }
    if is_tie {
        winning_outcome = 0;
    }
    winning_outcome
}

} // verus!

verus! {

pub open spec fn arb_err<T>(e: ArbitrationError) -> Result<T, ArbitrationFailure> {
    Err(ArbitrationFailure::Arbitration(e))
}

pub open spec fn arb_code<T>(e: ContractError) -> Result<T, ArbitrationFailure> {
    Err(ArbitrationFailure::Code(e))
}

/// Index of the (last) entry for `outcome`, or -1.
pub open spec fn outcome_index(s: Seq<(u32, i128)>, outcome: u32) -> int
    decreases s.len(),
{
    if s.len() == 0 {
        -1
    } else if s.last().0 == outcome {
        s.len() - 1
    } else {
        outcome_index(s.drop_last(), outcome)
    }
}

/// Set the total weight of `outcome`, adding an entry when it has none.
pub open spec fn upsert(s: Seq<(u32, i128)>, outcome: u32, w: i128) -> Seq<(u32, i128)> {
    let i = outcome_index(s, outcome);
    if i >= 0 { s.update(i, (outcome, w)) } else { s.push((outcome, w)) }
}

/// Every prefix sum of the tally fits in an `i128`.
pub open spec fn sums_in_range(s: Seq<(u32, i128)>) -> bool {
    forall|k: int| 0 <= k <= s.len() ==> i128::MIN <= #[trigger] total_w(s.take(k)) <= i128::MAX
}

impl ArbitrationModel {
    pub open spec fn tally(self, id: u64) -> Seq<(u32, i128)> {
        if self.tallies.contains_key(id) { self.tallies[id] } else { Seq::empty() }
    }

    pub open spec fn voters_of(self, id: u64) -> Seq<AccountId> {
        if self.voters.contains_key(id) { self.voters[id] } else { Seq::empty() }
    }
}

/// Storage of a freshly deployed arbitration contract.
pub open spec fn initial_arbitration_model() -> ArbitrationModel {
    ArbitrationModel {
        admin: None,
        pause: initial_pause_model(),
        arbitrators: Map::empty(),
        registry: Seq::empty(),
        disputes: Seq::empty(),
        tallies: Map::empty(),
        voters: Map::empty(),
        min_total_weight: 0,
        min_voters: 0,
    }
}

pub open spec fn spec_arb_initialize(m: ArbitrationModel, admin: AccountId) -> (Result<(), ArbitrationFailure>, ArbitrationModel) {
    if m.admin is Some {
        (arb_err(ArbitrationError::AlreadyInitialized), m)
    } else {
        (
            Ok(()),
            ArbitrationModel {
                admin: Some(admin),
                pause: PauseModel { paused: false, signer_count: 0, threshold: 0, proposal_counter: 0, ..m.pause },
                ..m
            },
        )
    }
}

pub open spec fn spec_register_arbitrator(m: ArbitrationModel, arbitrator: AccountId, weight: i128) -> (
    Result<(), ArbitrationFailure>,
    ArbitrationModel,
) {
    if m.pause.paused {
        (arb_code(ContractError::ContractPaused), m)
    } else if m.admin is None {
        (arb_err(ArbitrationError::NotInitialized), m)
    } else if weight <= 0 {
        (arb_err(ArbitrationError::WeightNotPositive), m)
    } else {
        (
            Ok(()),
            ArbitrationModel {
                arbitrators: m.arbitrators.insert(arbitrator, weight),
                registry: if m.registry.contains(arbitrator) { m.registry } else { m.registry.push(arbitrator) },
                ..m
            },
        )
    }
}

/// The sequence with every occurrence of `a` taken out, order kept.
pub open spec fn without(s: Seq<AccountId>, a: AccountId) -> Seq<AccountId>
    decreases s.len(),
{
    if s.len() == 0 {
        s
    } else if s.last() == a {
        without(s.drop_last(), a)
    } else {
        without(s.drop_last(), a).push(s.last())
    }
}

pub open spec fn spec_unregister_arbitrator(m: ArbitrationModel, arbitrator: AccountId) -> (
    Result<(), ArbitrationFailure>,
    ArbitrationModel,
) {
    if m.pause.paused {
        (arb_code(ContractError::ContractPaused), m)
    } else if m.admin is None {
        (arb_err(ArbitrationError::NotInitialized), m)
    } else {
        (
            Ok(()),
            ArbitrationModel {
                arbitrators: m.arbitrators.remove(arbitrator),
                registry: without(m.registry, arbitrator),
                ..m
            },
        )
    }
}

pub open spec fn spec_create_dispute(m: ArbitrationModel, creator: AccountId, description: Seq<u8>, duration: u64, now: u64) -> (
    Result<u64, ArbitrationFailure>,
    ArbitrationModel,
) {
    if m.pause.paused {
        (arb_code(ContractError::ContractPaused), m)
    } else if m.disputes.len() >= u64::MAX {
        (arb_code(ContractError::Overflow), m)
    } else if now + duration > u64::MAX {
        (arb_code(ContractError::Overflow), m)
    } else {
        let id = m.disputes.len() as u64;
        let d = DisputeView {
            id,
            creator,
            description,
            voting_start: now,
            voting_end: (now + duration) as u64,
            status: DisputeStatus::Voting,
            outcome: 0,
            cancellation_reason: None,
            cancelled_by_role: None,
        };
        (Ok(id), ArbitrationModel { disputes: m.disputes.push(d), ..m })
    }
}

pub open spec fn spec_cancel_dispute(m: ArbitrationModel, caller: AccountId, id: u64, reason: Option<Seq<u8>>) -> (
    Result<(), ArbitrationFailure>,
    ArbitrationModel,
) {
    if m.pause.paused {
        (arb_code(ContractError::ContractPaused), m)
    } else if reason matches Some(r) && r.len() > MAX_REASON_LEN {
        (arb_err(ArbitrationError::ReasonTooLong), m)
    } else if id >= m.disputes.len() {
        (arb_err(ArbitrationError::DisputeNotFound), m)
    } else if m.admin is None {
        (arb_err(ArbitrationError::NotInitialized), m)
    } else {
        let d = m.disputes[id as int];
        if caller != d.creator && caller != m.admin.unwrap() {
            (arb_err(ArbitrationError::NotAuthorized), m)
        } else if !allowed_transition(d.status, DisputeStatus::Cancelled) {
            (arb_err(ArbitrationError::InvalidTransition), m)
        } else {
            let role = if caller == d.creator { CancelRole::Creator } else { CancelRole::Admin };
            (
                Ok(()),
                ArbitrationModel {
                    disputes: m.disputes.update(
                        id as int,
                        DisputeView {
                            status: DisputeStatus::Cancelled,
                            cancellation_reason: reason,
                            cancelled_by_role: Some(role),
                            ..d
                        },
                    ),
                    ..m
                },
            )
        }
    }
}

pub open spec fn spec_vote(m: ArbitrationModel, voter: AccountId, id: u64, outcome: u32, now: u64) -> (
    Result<(), ArbitrationFailure>,
    ArbitrationModel,
) {
    if m.pause.paused {
        (arb_code(ContractError::ContractPaused), m)
    } else if outcome == 0 {
        (arb_err(ArbitrationError::InvalidOutcome), m)
    } else if !m.arbitrators.contains_key(voter) {
        (arb_err(ArbitrationError::NotArbitrator), m)
    } else if id >= m.disputes.len() {
        (arb_err(ArbitrationError::DisputeNotFound), m)
    } else if m.disputes[id as int].status != DisputeStatus::Voting {
        (arb_err(ArbitrationError::VotingInactive), m)
    } else if now < m.disputes[id as int].voting_start || now > m.disputes[id as int].voting_end {
        (arb_err(ArbitrationError::VotingInactive), m)
    } else if m.voters_of(id).contains(voter) {
        (arb_err(ArbitrationError::AlreadyVoted), m)
    } else if m.voters_of(id).len() >= u32::MAX {
        (arb_code(ContractError::Overflow), m)
    } else {
        let w = m.arbitrators[voter];
        let t = m.tally(id);
        let current = weight_of(t, outcome);
        if current + w > i128::MAX || current + w < i128::MIN {
            (arb_code(ContractError::Overflow), m)
        } else {
            (
                Ok(()),
                ArbitrationModel {
                    voters: m.voters.insert(id, m.voters_of(id).push(voter)),
                    tallies: m.tallies.insert(id, upsert(t, outcome, (current + w) as i128)),
                    ..m
                },
            )
        }
    }
}

pub open spec fn spec_resolve_dispute(m: ArbitrationModel, id: u64, now: u64) -> (
    Result<u32, ArbitrationFailure>,
    ArbitrationModel,
) {
    if m.pause.paused {
        (arb_code(ContractError::ContractPaused), m)
    } else if id >= m.disputes.len() {
        (arb_err(ArbitrationError::DisputeNotFound), m)
    } else if !allowed_transition(m.disputes[id as int].status, DisputeStatus::Resolving) {
        (arb_err(ArbitrationError::InvalidTransition), m)
    } else if now <= m.disputes[id as int].voting_end {
        (arb_err(ArbitrationError::VotingNotEnded), m)
    } else if (m.min_total_weight > 0 || m.min_voters > 0) && !sums_in_range(m.tally(id)) {
        (arb_code(ContractError::Overflow), m)
    } else if (m.min_total_weight > 0 || m.min_voters > 0) && (total_w(m.tally(id)) < m.min_total_weight
        || m.voters_of(id).len() < m.min_voters) {
        (arb_err(ArbitrationError::QuorumNotMet), m)
    } else {
        let winner = plurality(m.tally(id));
        let d = m.disputes[id as int];
        (
            Ok(winner),
            ArbitrationModel {
                disputes: m.disputes.update(id as int, DisputeView { status: DisputeStatus::Resolved, outcome: winner, ..d }),
                ..m
            },
        )
    }
}

pub open spec fn spec_set_quorum(m: ArbitrationModel, admin: AccountId, min_total_weight: i128, min_voters: u32) -> (
    Result<(), ArbitrationFailure>,
    ArbitrationModel,
) {
    if m.pause.paused {
        (arb_code(ContractError::ContractPaused), m)
    } else if m.admin is None {
        (arb_err(ArbitrationError::NotInitialized), m)
    } else if m.admin.unwrap() != admin {
        (arb_err(ArbitrationError::NotAdmin), m)
    } else {
        (Ok(()), ArbitrationModel { min_total_weight, min_voters, ..m })
    }
}

/// One page of the registry starting at `cursor`, with the next cursor.
pub open spec fn page_spec(registry: Seq<AccountId>, cursor: u32, limit: u32) -> (Seq<AccountId>, Option<u32>) {
    if cursor >= registry.len() {
        (Seq::empty(), None)
    } else {
        let eff: int = if limit == 0 { DEFAULT_MAX_ITER as int } else if limit > MAX_ITER_HARD_CAP { MAX_ITER_HARD_CAP as int } else { limit as int };
        let end: int = if cursor + eff > registry.len() { registry.len() as int } else { cursor + eff };
        (registry.subrange(cursor as int, end), if end >= registry.len() { None } else { Some(end as u32) })
    }
}

proof fn lemma_dispute_views_push(s: Seq<Dispute>, d: Dispute)
    ensures
        dispute_views(s.push(d)) == dispute_views(s).push(d@),
{
    assert(dispute_views(s.push(d)) =~= dispute_views(s).push(d@));
}

proof fn lemma_dispute_views_update(s: Seq<Dispute>, i: int, d: Dispute)
    requires
        0 <= i < s.len(),
    ensures
        dispute_views(s.update(i, d)) == dispute_views(s).update(i, d@),
{
    assert(dispute_views(s.update(i, d)) =~= dispute_views(s).update(i, d@));
}

impl CredenceArbitration {
    /// Storage of a freshly deployed contract.
    pub fn new() -> (s: CredenceArbitration)
        ensures
            s@ == initial_arbitration_model(),
    {
        let s = CredenceArbitration {
            admin: None,
            pause: PauseState::new(),
            arbitrators: HashMap::new(),
            registry: Vec::new(),
            disputes: Vec::new(),
            tallies: HashMap::new(),
            voters: HashMap::new(),
            min_total_weight: 0,
            min_voters: 0,
        };
        proof {
            assert(tally_views(s.tallies@) =~= Map::<u64, Seq<(u32, i128)>>::empty());
            assert(voter_views(s.voters@) =~= Map::<u64, Seq<AccountId>>::empty());
            assert(dispute_views(s.disputes@) =~= Seq::<DisputeView>::empty());
        }
        s
    }

    fn not_paused(&self) -> (r: Result<(), ArbitrationFailure>)
        ensures
            r == if self@.pause.paused { arb_code::<()>(ContractError::ContractPaused) } else { Ok(()) },
    {
        if self.pause.paused {
            Err(ArbitrationFailure::Code(ContractError::ContractPaused))
        } else {
            Ok(())
        }
    }

    /// Set the admin and reset the pause configuration; refused once initialized.
    pub fn initialize(&mut self, admin: AccountId) -> (r: Result<(), ArbitrationFailure>)
        ensures
            (r, final(self)@) == spec_arb_initialize(old(self)@, admin),
    {
        if self.admin.is_some() {
            return Err(ArbitrationFailure::Arbitration(ArbitrationError::AlreadyInitialized));
        }
        self.admin = Some(admin);
        self.pause.paused = false;
        self.pause.signer_count = 0;
        self.pause.threshold = 0;
        self.pause.proposal_counter = 0;
        Ok(())
    }

    fn registry_contains(&self, a: AccountId) -> (r: bool)
        ensures
            r == self@.registry.contains(a),
    {
        let mut i: usize = 0;
        while i < self.registry.len()
            invariant
                i <= self.registry@.len(),
                forall|j: int| 0 <= j < i ==> self.registry@[j] != a,
            decreases self.registry@.len() - i,
        {
            if self.registry[i] == a {
                assert(self.registry@[i as int] == a);
                return true;
            }
            i = i + 1;
        }
        false
    }

    /// Register (or re-weight) an arbitrator; authorized by the stored admin.
    pub fn register_arbitrator(&mut self, arbitrator: AccountId, weight: i128) -> (r: Result<(), ArbitrationFailure>)
        ensures
            (r, final(self)@) == spec_register_arbitrator(old(self)@, arbitrator, weight),
    {
        self.not_paused()?;
        if self.admin.is_none() {
            return Err(ArbitrationFailure::Arbitration(ArbitrationError::NotInitialized));
        }
        if weight <= 0 {
            return Err(ArbitrationFailure::Arbitration(ArbitrationError::WeightNotPositive));
        }
        self.arbitrators.insert(arbitrator, weight);
        if !self.registry_contains(arbitrator) {
            self.registry.push(arbitrator);
        }
        Ok(())
    }

    /// Remove an arbitrator; authorized by the stored admin.
    pub fn unregister_arbitrator(&mut self, arbitrator: AccountId) -> (r: Result<(), ArbitrationFailure>)
        ensures
            (r, final(self)@) == spec_unregister_arbitrator(old(self)@, arbitrator),
    {
        self.not_paused()?;
        if self.admin.is_none() {
            return Err(ArbitrationFailure::Arbitration(ArbitrationError::NotInitialized));
        }
        self.arbitrators.remove(&arbitrator);
        let ghost old_reg = self.registry@;
        let mut kept: Vec<AccountId> = Vec::new();
        let mut i: usize = 0;
        while i < self.registry.len()
            invariant
                i <= old_reg.len(),
                self.registry@ == old_reg,
                kept@ == without(old_reg.take(i as int), arbitrator),
            decreases old_reg.len() - i,
        {
            let x = self.registry[i];
            proof {
                assert(old_reg.take(i + 1).drop_last() =~= old_reg.take(i as int));
                assert(old_reg.take(i + 1).last() == x);
            }
            if x != arbitrator {
                kept.push(x);
            }
            i = i + 1;
        }
        proof {
            assert(old_reg.take(i as int) =~= old_reg);
        }
        self.registry = kept;
        Ok(())
    }

    /// Open a dispute whose voting window starts now and lasts `duration` seconds.
    pub fn create_dispute(&mut self, creator: AccountId, description: Vec<u8>, duration: u64, now: u64) -> (r: Result<
        u64,
        ArbitrationFailure,
    >)
        ensures
            (r, final(self)@) == spec_create_dispute(old(self)@, creator, description@, duration, now),
    {
        self.not_paused()?;
        let len = self.disputes.len();
        if len as u64 >= u64::MAX {
            return Err(ArbitrationFailure::Code(ContractError::Overflow));
        }
        let end = match now.checked_add(duration) {
            Some(v) => v,
            None => {
                return Err(ArbitrationFailure::Code(ContractError::Overflow));
            },
        };
        let id = len as u64;
        let d = Dispute {
            id,
            creator,
            description,
            voting_start: now,
            voting_end: end,
            status: DisputeStatus::Voting,
            outcome: 0,
            cancellation_reason: None,
            cancelled_by_role: None,
        };
        proof {
            lemma_dispute_views_push(self.disputes@, d);
        }
        self.disputes.push(d);
        Ok(id)
    }

    /// Cancel a dispute; only its creator or the admin may.
    pub fn cancel_dispute(&mut self, caller: AccountId, dispute_id: u64, reason: Option<Vec<u8>>) -> (r: Result<
        (),
        ArbitrationFailure,
    >)
        ensures
            (r, final(self)@) == spec_cancel_dispute(old(self)@, caller, dispute_id, opt_bytes_view(reason)),
    {
        self.not_paused()?;
        match &reason {
            Some(rs) => if rs.len() > MAX_REASON_LEN {
                return Err(ArbitrationFailure::Arbitration(ArbitrationError::ReasonTooLong));
            },
            None => {},
        }
        if dispute_id >= self.disputes.len() as u64 {
            return Err(ArbitrationFailure::Arbitration(ArbitrationError::DisputeNotFound));
        }
        let admin = match self.admin {
            None => {
                return Err(ArbitrationFailure::Arbitration(ArbitrationError::NotInitialized));
            },
            Some(a) => a,
        };
        let idx = dispute_id as usize;
        let d = self.disputes[idx].clone();
        let role = if caller == d.creator {
            CancelRole::Creator
        } else if caller == admin {
            CancelRole::Admin
        } else {
            return Err(ArbitrationFailure::Arbitration(ArbitrationError::NotAuthorized));
        };
        match require_transition(d.status, DisputeStatus::Cancelled) {
            Ok(()) => {},
            Err(e) => {
                return Err(ArbitrationFailure::Arbitration(e));
            },
        }
        let nd = Dispute {
            status: DisputeStatus::Cancelled,
            cancellation_reason: reason,
            cancelled_by_role: Some(role),
            ..d
        };
        proof {
            lemma_dispute_views_update(self.disputes@, idx as int, nd);
        }
        self.disputes.set(idx, nd);
        Ok(())
    }

    fn voters_of(&self, id: u64) -> (v: Vec<AccountId>)
        ensures
            v@ == self@.voters_of(id),
    {
        match self.voters.get(&id) {
            Some(v) => {
                proof {
                    assert(self@.voters[id] == v@);
                }
                let c = v.clone();
                proof {
                    assert(c@ =~= v@);
                }
                c
            },
            None => Vec::new(),
        }
    }

    fn tally_of(&self, id: u64) -> (v: Vec<(u32, i128)>)
        ensures
            v@ == self@.tally(id),
    {
        match self.tallies.get(&id) {
            Some(t) => {
                proof {
                    assert(self@.tallies[id] == t@);
                }
                copy_tally(t)
            },
            None => Vec::new(),
        }
    }

    /// Whether `voter` voted on dispute `dispute_id`.
    pub fn has_voted(&self, dispute_id: u64, voter: AccountId) -> (r: bool)
        ensures
            r == self@.voters_of(dispute_id).contains(voter),
    {
        let vs = self.voters_of(dispute_id);
        let mut i: usize = 0;
        while i < vs.len()
            invariant
                i <= vs@.len(),
                vs@ == self@.voters_of(dispute_id),
                forall|j: int| 0 <= j < i ==> vs@[j] != voter,
            decreases vs@.len() - i,
        {
            if vs[i] == voter {
                assert(vs@[i as int] == voter);
                return true;
            }
            i = i + 1;
        }
        false
    }

    /// A registered arbitrator votes once for a non-zero outcome during the
    /// voting window; its weight is added to the outcome's total.
    pub fn vote(&mut self, voter: AccountId, dispute_id: u64, outcome: u32, now: u64) -> (r: Result<(), ArbitrationFailure>)
        ensures
            (r, final(self)@) == spec_vote(old(self)@, voter, dispute_id, outcome, now),
    {
        self.not_paused()?;
        if outcome == 0 {
            return Err(ArbitrationFailure::Arbitration(ArbitrationError::InvalidOutcome));
        }
        let weight: i128 = match self.arbitrators.get(&voter) {
            Some(w) => *w,
            None => {
                return Err(ArbitrationFailure::Arbitration(ArbitrationError::NotArbitrator));
            },
        };
        if dispute_id >= self.disputes.len() as u64 {
            return Err(ArbitrationFailure::Arbitration(ArbitrationError::DisputeNotFound));
        }
        let idx = dispute_id as usize;
        let status = self.disputes[idx].status;
        let start = self.disputes[idx].voting_start;
        let end = self.disputes[idx].voting_end;
        if status != DisputeStatus::Voting {
            return Err(ArbitrationFailure::Arbitration(ArbitrationError::VotingInactive));
        }
        if now < start || now > end {
            return Err(ArbitrationFailure::Arbitration(ArbitrationError::VotingInactive));
        }
        if self.has_voted(dispute_id, voter) {
            return Err(ArbitrationFailure::Arbitration(ArbitrationError::AlreadyVoted));
        }
        let mut vs = self.voters_of(dispute_id);
        if vs.len() as u64 >= u32::MAX as u64 {
            return Err(ArbitrationFailure::Code(ContractError::Overflow));
        }
        let mut t = self.tally_of(dispute_id);
        let found = find_outcome(&t, outcome);
        let current: i128 = match found {
            Some(i) => t[i].1,
            None => 0,
        };
        let total = match current.checked_add(weight) {
            Some(v) => v,
            None => {
                return Err(ArbitrationFailure::Code(ContractError::Overflow));
            },
        };
        match found {
            Some(i) => {
                t.set(i, (outcome, total));
            },
            None => {
                t.push((outcome, total));
            },
        }
        vs.push(voter);
        proof {
            assert(tally_views(self.tallies@.insert(dispute_id, t)) =~= tally_views(self.tallies@).insert(dispute_id, t@));
            assert(voter_views(self.voters@.insert(dispute_id, vs)) =~= voter_views(self.voters@).insert(dispute_id, vs@));
        }
        self.tallies.insert(dispute_id, t);
        self.voters.insert(dispute_id, vs);
        Ok(())
    }

    /// After the voting window, resolve a dispute in `Voting` to the
    /// plurality outcome, provided the configured quorum is met.
    pub fn resolve_dispute(&mut self, dispute_id: u64, now: u64) -> (r: Result<u32, ArbitrationFailure>)
        ensures
            (r, final(self)@) == spec_resolve_dispute(old(self)@, dispute_id, now),
    {
        self.not_paused()?;
        if dispute_id >= self.disputes.len() as u64 {
            return Err(ArbitrationFailure::Arbitration(ArbitrationError::DisputeNotFound));
        }
        let idx = dispute_id as usize;
        let d = self.disputes[idx].clone();
        match require_transition(d.status, DisputeStatus::Resolving) {
            Ok(()) => {},
            Err(e) => {
                return Err(ArbitrationFailure::Arbitration(e));
            },
        }
        if now <= d.voting_end {
            return Err(ArbitrationFailure::Arbitration(ArbitrationError::VotingNotEnded));
        }
        let t = self.tally_of(dispute_id);
        if self.min_total_weight > 0 || self.min_voters > 0 {
            let total = match checked_total(&t) {
                Some(v) => v,
                None => {
                    return Err(ArbitrationFailure::Code(ContractError::Overflow));
                },
            };
            let vs = self.voters_of(dispute_id);
            if total < self.min_total_weight || (vs.len() as u64) < (self.min_voters as u64) {
                return Err(ArbitrationFailure::Arbitration(ArbitrationError::QuorumNotMet));
            }
        }
        let winner = tally_winner(&t);
        let nd = Dispute { status: DisputeStatus::Resolved, outcome: winner, ..d };
        proof {
            lemma_dispute_views_update(self.disputes@, idx as int, nd);
        }
        self.disputes.set(idx, nd);
        Ok(winner)
    }

    /// Set the quorum required to resolve; admin only.
    pub fn set_quorum(&mut self, admin: AccountId, min_total_weight: i128, min_voters: u32) -> (r: Result<
        (),
        ArbitrationFailure,
    >)
        ensures
            (r, final(self)@) == spec_set_quorum(old(self)@, admin, min_total_weight, min_voters),
    {
        self.not_paused()?;
        let stored = match self.admin {
            None => {
                return Err(ArbitrationFailure::Arbitration(ArbitrationError::NotInitialized));
            },
            Some(a) => a,
        };
        if stored != admin {
            return Err(ArbitrationFailure::Arbitration(ArbitrationError::NotAdmin));
        }
        self.min_total_weight = min_total_weight;
        self.min_voters = min_voters;
        Ok(())
    }

    /// `(min_total_weight, min_voters)`.
    pub fn get_quorum(&self) -> (r: (i128, u32))
        ensures
            r == (self@.min_total_weight, self@.min_voters),
    {
        (self.min_total_weight, self.min_voters)
    }

    /// The dispute with the given id.
    pub fn get_dispute(&self, dispute_id: u64) -> (r: Result<Dispute, ArbitrationFailure>)
        ensures
            dispute_id < self@.disputes.len() ==> (r matches Ok(d) && d@ == self@.disputes[dispute_id as int]),
            dispute_id >= self@.disputes.len() ==> r == arb_err::<Dispute>(ArbitrationError::DisputeNotFound),
    {
        if dispute_id >= self.disputes.len() as u64 {
            return Err(ArbitrationFailure::Arbitration(ArbitrationError::DisputeNotFound));
        }
        Ok(self.disputes[dispute_id as usize].clone())
    }

    /// Total weight voted for `outcome` on a dispute (0 when none).
    pub fn get_tally(&self, dispute_id: u64, outcome: u32) -> (w: i128)
        ensures
            w == weight_of(self@.tally(dispute_id), outcome),
    {
        let t = self.tally_of(dispute_id);
        match find_outcome(&t, outcome) {
            Some(i) => t[i].1,
            None => 0,
        }
    }

    /// An arbitrator's weight, truncated to 32 bits.
    pub fn get_arbitrator_weight(&self, arbitrator: AccountId) -> (r: Result<u32, ArbitrationFailure>)
        ensures
            r == if self@.arbitrators.contains_key(arbitrator) {
                Ok::<u32, ArbitrationFailure>(self@.arbitrators[arbitrator] as u32)
            } else {
                arb_err(ArbitrationError::NotArbitrator)
            },
    {
        match self.arbitrators.get(&arbitrator) {
            Some(w) => Ok(*w as u32),
            None => Err(ArbitrationFailure::Arbitration(ArbitrationError::NotArbitrator)),
        }
    }

    /// A page of at most `limit` registered arbitrators (50 when `limit` is 0,
    /// never more than 200) starting at `cursor`, and the cursor of the next page.
    pub fn get_arbitrators_page(&self, cursor: u32, limit: u32) -> (r: (Vec<AccountId>, Option<u32>))
        requires
            self@.registry.len() <= u32::MAX,
        ensures
            (r.0@, r.1) == page_spec(self@.registry, cursor, limit),
    {
        let len = self.registry.len();
        if cursor as usize >= len {
            return (Vec::new(), None);
        }
        let eff: u32 = if limit == 0 {
            DEFAULT_MAX_ITER
        } else if limit > MAX_ITER_HARD_CAP {
            MAX_ITER_HARD_CAP
        } else {
            limit
        };
        let end: usize = if (cursor as u64) + (eff as u64) > len as u64 { len } else { (cursor + eff) as usize };
        let mut page: Vec<AccountId> = Vec::new();
        let mut i: usize = cursor as usize;
        while i < end
            invariant
                cursor <= i <= end,
                end <= self.registry@.len(),
                page@ == self.registry@.subrange(cursor as int, i as int),
            decreases end - i,
        {
            page.push(self.registry[i]);
            i = i + 1;
            proof {
                assert(page@ =~= self.registry@.subrange(cursor as int, i as int));
            }
        }
        let next = if end >= len { None } else { Some(end as u32) };
        (page, next)
    }

    /// Whether the contract is paused.
    pub fn is_paused(&self) -> (r: bool)
        ensures
            r == self@.pause.paused,
    {
        self.pause.is_paused()
    }

    /// Pause directly (admin, zero threshold) or open a pause proposal.
    pub fn pause(&mut self, caller: AccountId) -> (r: Result<Option<u64>, ContractError>)
        ensures
            (r, final(self)@.pause) == spec_pause(old(self)@.pause, old(self)@.admin, caller),
            final(self)@ == (ArbitrationModel { pause: final(self)@.pause, ..old(self)@ }),
    {
        let admin = self.admin;
        self.pause.pause(admin, caller)
    }

    /// Unpause directly (admin) or open an unpause proposal.
    pub fn unpause(&mut self, caller: AccountId) -> (r: Result<Option<u64>, ContractError>)
        ensures
            (r, final(self)@.pause) == spec_unpause(old(self)@.pause, old(self)@.admin, caller),
            final(self)@ == (ArbitrationModel { pause: final(self)@.pause, ..old(self)@ }),
    {
        let admin = self.admin;
        self.pause.unpause(admin, caller)
    }

    /// Enable or disable a pause signer; admin only.
    pub fn set_pause_signer(&mut self, admin: AccountId, signer: AccountId, enabled: bool) -> (r: Result<
        (),
        ContractError,
    >)
        ensures
            (r, final(self)@.pause) == spec_set_pause_signer(old(self)@.pause, old(self)@.admin, admin, signer, enabled),
            final(self)@ == (ArbitrationModel { pause: final(self)@.pause, ..old(self)@ }),
    {
        let stored = self.admin;
        self.pause.set_pause_signer(stored, admin, signer, enabled)
    }

    /// Set the pause approval threshold; admin only.
    pub fn set_pause_threshold(&mut self, admin: AccountId, threshold: u32) -> (r: Result<(), ContractError>)
        ensures
            (r, final(self)@.pause) == spec_set_pause_threshold(old(self)@.pause, old(self)@.admin, admin, threshold),
            final(self)@ == (ArbitrationModel { pause: final(self)@.pause, ..old(self)@ }),
    {
        let stored = self.admin;
        self.pause.set_pause_threshold(stored, admin, threshold)
    }

    /// A pause signer approves a live proposal.
    pub fn approve_pause_proposal(&mut self, signer: AccountId, proposal_id: u64) -> (r: Result<(), ContractError>)
        ensures
            (r, final(self)@.pause) == spec_approve(old(self)@.pause, signer, proposal_id),
            final(self)@ == (ArbitrationModel { pause: final(self)@.pause, ..old(self)@ }),
    {
        self.pause.approve_pause_proposal(signer, proposal_id)
    }

    /// Execute a proposal whose approvals reach the threshold.
    pub fn execute_pause_proposal(&mut self, proposal_id: u64) -> (r: Result<(), ContractError>)
        ensures
            (r, final(self)@.pause) == spec_execute(old(self)@.pause, proposal_id),
            final(self)@ == (ArbitrationModel { pause: final(self)@.pause, ..old(self)@ }),
    {
        self.pause.execute_pause_proposal(proposal_id)
    }
}

/// Position of the entry for `outcome` in a tally.
pub fn find_outcome(t: &Vec<(u32, i128)>, outcome: u32) -> (r: Option<usize>)
    ensures
        match r {
            Some(i) => i as int == outcome_index(t@, outcome) && i < t@.len() && t@[i as int].0 == outcome
                && t@[i as int].1 == weight_of(t@, outcome),
            None => outcome_index(t@, outcome) == -1 && weight_of(t@, outcome) == 0,
        },
{
    let ghost s = t@;
    let mut found: Option<usize> = None;
    let mut i: usize = 0;
    while i < t.len()
        invariant
            s == t@,
            i <= s.len(),
            match found {
                Some(k) => k as int == outcome_index(s.take(i as int), outcome) && k < i && s[k as int].0 == outcome
                    && s[k as int].1 == weight_of(s.take(i as int), outcome),
                None => outcome_index(s.take(i as int), outcome) == -1 && weight_of(s.take(i as int), outcome) == 0,
            },
        decreases s.len() - i,
    {
        proof {
            assert(s.take(i + 1).drop_last() =~= s.take(i as int));
            assert(s.take(i + 1).last() == s[i as int]);
        }
        if t[i].0 == outcome {
            found = Some(i);
        }
        i = i + 1;
    }
    proof {
        assert(s.take(i as int) =~= s);
    }
    found
}

/// A copy of a tally.
fn copy_tally(t: &Vec<(u32, i128)>) -> (c: Vec<(u32, i128)>)
    ensures
        c@ == t@,
{
    let mut c: Vec<(u32, i128)> = Vec::new();
    let mut i: usize = 0;
    while i < t.len()
        invariant
            i <= t@.len(),
            c@ == t@.take(i as int),
        decreases t@.len() - i,
    {
        c.push(t[i]);
        i = i + 1;
        proof {
            assert(c@ =~= t@.take(i as int));
        }
    }
    proof {
        assert(t@.take(i as int) =~= t@);
    }
    c
}

/// Sum of a tally, or `None` when a partial sum leaves the `i128` range.
pub fn checked_total(t: &Vec<(u32, i128)>) -> (r: Option<i128>)
    ensures
        match r {
            Some(v) => sums_in_range(t@) && v == total_w(t@),
            None => !sums_in_range(t@),
        },
{
    let ghost s = t@;
    let mut total: i128 = 0;
    let mut i: usize = 0;
    while i < t.len()
        invariant
            s == t@,
            i <= s.len(),
            total == total_w(s.take(i as int)),
            forall|k: int| 0 <= k <= i ==> i128::MIN <= #[trigger] total_w(s.take(k)) <= i128::MAX,
        decreases s.len() - i,
    {
        proof {
            assert(s.take(i + 1).drop_last() =~= s.take(i as int));
        }
        match total.checked_add(t[i].1) {
            Some(v) => {
                total = v;
            },
            None => {
                assert(!(i128::MIN <= total_w(s.take(i + 1)) <= i128::MAX));
                return None;
            },
        }
        i = i + 1;
    }
    proof {
        assert(s.take(i as int) =~= s);
    }
    Some(total)
}

} // verus!
