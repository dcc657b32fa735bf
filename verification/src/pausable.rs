//! Multi-signer emergency pause shared by the Credence contracts.
//!
//! With a zero threshold the admin pauses and unpauses directly.  Otherwise a
//! pause signer proposes an action, signers approve it, and anyone executes it
//! once the approvals reach the threshold; the admin can always unpause.
use vstd::prelude::*;
use std::collections::HashMap;
use crate::AccountId;
use crate::errors::ContractError;

verus! {

broadcast use vstd::std_specs::hash::group_hash_axioms;

/// The action a pause proposal carries.
#[derive(Clone, Copy, Debug, PartialEq, Eq, Structural)]
pub enum PauseAction {
    Pause,
    Unpause,
}

/// Wire code of a pause action (1 = pause, 2 = unpause).
pub open spec fn action_code(a: PauseAction) -> u32 {
    match a {
        PauseAction::Pause => 1,
        PauseAction::Unpause => 2,
    }
}

impl PauseAction {
    /// The wire code of this action.
    pub fn code(self) -> (c: u32)
        ensures
            c == action_code(self),
    {
        match self {
            PauseAction::Pause => 1,
            PauseAction::Unpause => 2,
        }
    }
}

/// Pause-related contract storage.
pub struct PauseState {
    /// Whether the contract is paused.
    pub paused: bool,
    /// Enabled pause signers (an entry exists only while the signer is enabled).
    pub signers: HashMap<AccountId, bool>,
    /// Stored number of enabled pause signers.
    pub signer_count: u32,
    /// Approvals needed to execute a proposal (0 = admin acts directly).
    pub threshold: u32,
    /// Next unused proposal id.
    pub proposal_counter: u64,
    /// Live proposals: id to action code.
    pub proposals: HashMap<u64, u32>,
    /// Approval tally of each live proposal.
    pub approval_counts: HashMap<u64, u32>,
    /// Recorded (proposal id, signer) approval flags.
    pub approvals: Vec<(u64, AccountId)>,
}

/// Mathematical view of [`PauseState`].
pub struct PauseModel {
    pub paused: bool,
    pub signers: Map<AccountId, bool>,
    pub signer_count: u32,
    pub threshold: u32,
    pub proposal_counter: u64,
    pub proposals: Map<u64, u32>,
    pub approval_counts: Map<u64, u32>,
    pub approvals: Seq<(u64, AccountId)>,
}

impl View for PauseState {
    type V = PauseModel;

    open spec fn view(&self) -> PauseModel {
        PauseModel {
            paused: self.paused,
            signers: self.signers@,
            signer_count: self.signer_count,
            threshold: self.threshold,
            proposal_counter: self.proposal_counter,
            proposals: self.proposals@,
            approval_counts: self.approval_counts@,
            approvals: self.approvals@,
        }
    }
}

/// Read-only summary of one pause proposal.
#[derive(Debug, PartialEq, Eq)]
pub struct PauseProposalView {
    /// The proposal id this view describes.
    pub proposal_id: u64,
    /// 1 = pause, 2 = unpause, 0 = no live proposal under this id.
    pub action: u32,
    /// Number of approvals recorded for the live proposal (0 once cleared).
    pub approvals: u32,
    /// The given candidate signers that approved the proposal, in the given order.
    pub approved_by: Vec<AccountId>,
    /// The id was allocated but its proposal is gone (it was executed).
    pub executed: bool,
}

/// Why an admin-only call is refused: no admin stored, or another caller.
pub open spec fn admin_error(stored_admin: Option<AccountId>, caller: AccountId) -> Option<ContractError> {
    match stored_admin {
        None => Some(ContractError::NotInitialized),
        Some(a) => if a != caller {
            Some(ContractError::NotAdmin)
        } else {
            None
        },
    }
}

/// Check that `caller` is the stored admin.
pub fn require_admin(stored_admin: Option<AccountId>, caller: AccountId) -> (r: Result<(), ContractError>)
    ensures
        r == match admin_error(stored_admin, caller) {
            Some(e) => Err::<(), ContractError>(e),
            None => Ok(()),
        },
{
    match stored_admin {
        None => Err(ContractError::NotInitialized),
        Some(a) => if a != caller {
            Err(ContractError::NotAdmin)
        } else {
            Ok(())
        },
    }
}

impl PauseModel {
    pub open spec fn is_signer(self, s: AccountId) -> bool {
        self.signers.contains_key(s) && self.signers[s]
    }

    pub open spec fn approved(self, id: u64, s: AccountId) -> bool {
        self.approvals.contains((id, s))
    }

    pub open spec fn approval_count(self, id: u64) -> u32 {
        if self.approval_counts.contains_key(id) {
            self.approval_counts[id]
        } else {
            0
        }
    }

    /// The pause invariants: the stored signer count is the number of enabled
    /// signers, the threshold never exceeds it, and a non-empty signer set
    /// always has a positive threshold (so the signers are never locked out).
    pub open spec fn wf(self) -> bool {
        &&& self.signers.dom().finite()
        &&& self.signer_count == self.signers.dom().len()
        &&& forall|s: AccountId| #[trigger] self.signers.contains_key(s) ==> self.signers[s]
        &&& self.threshold <= self.signer_count
        &&& (self.signer_count > 0 ==> self.threshold > 0)
        &&& forall|id: u64| #[trigger] self.proposals.contains_key(id) ==> id < self.proposal_counter
    }
}

/// The state of a freshly initialized contract: unpaused, no signers.
pub open spec fn initial_pause_model() -> PauseModel {
    PauseModel {
        paused: false,
        signers: Map::empty(),
        signer_count: 0,
        threshold: 0,
        proposal_counter: 0,
        proposals: Map::empty(),
        approval_counts: Map::empty(),
        approvals: Seq::empty(),
    }
}

/// Effect of enabling or disabling a pause signer (admin already checked).
pub open spec fn signer_updated(m: PauseModel, signer: AccountId, enabled: bool) -> PauseModel {
    if enabled && !m.is_signer(signer) {
        PauseModel {
            signers: m.signers.insert(signer, true),
            signer_count: if m.signer_count == u32::MAX { u32::MAX } else { (m.signer_count + 1) as u32 },
            threshold: if m.threshold == 0 { 1 } else { m.threshold },
            ..m
        }
    } else if !enabled && m.is_signer(signer) {
        let count: u32 = if m.signer_count == 0 { 0 } else { (m.signer_count - 1) as u32 };
        PauseModel {
            signers: m.signers.remove(signer),
            signer_count: count,
            threshold: if m.threshold > count { count } else { m.threshold },
            ..m
        }
    } else {
        m
    }
}

/// `set_pause_signer`: admin-only add or removal of a pause signer.
pub open spec fn spec_set_pause_signer(
    m: PauseModel,
    stored_admin: Option<AccountId>,
    admin: AccountId,
    signer: AccountId,
    enabled: bool,
) -> (Result<(), ContractError>, PauseModel) {
    match admin_error(stored_admin, admin) {
        Some(e) => (Err(e), m),
        None => (Ok(()), signer_updated(m, signer, enabled)),
    }
}

/// `set_pause_threshold`: admin-only; at most the signer count, and not zero
/// while signers exist.
pub open spec fn spec_set_pause_threshold(
    m: PauseModel,
    stored_admin: Option<AccountId>,
    admin: AccountId,
    threshold: u32,
) -> (Result<(), ContractError>, PauseModel) {
    match admin_error(stored_admin, admin) {
        Some(e) => (Err(e), m),
        None => if threshold > m.signer_count {
            (Err(ContractError::ThresholdExceedsSigners), m)
        } else if threshold == 0 && m.signer_count > 0 {
            (Err(ContractError::InvalidPauseAction), m)
        } else {
            (Ok(()), PauseModel { threshold, ..m })
        },
    }
}

/// A signer opens a proposal for `action`, which counts as its first approval.
pub open spec fn spec_propose(m: PauseModel, caller: AccountId, action: PauseAction) -> (
    Result<Option<u64>, ContractError>,
    PauseModel,
) {
    if !m.is_signer(caller) {
        (Err(ContractError::NotSigner), m)
    } else if m.proposal_counter == u64::MAX {
        (Err(ContractError::Overflow), m)
    } else {
        let id = m.proposal_counter;
        (
            Ok(Some(id)),
            PauseModel {
                proposal_counter: (id + 1) as u64,
                proposals: m.proposals.insert(id, action_code(action)),
                approval_counts: m.approval_counts.insert(id, 1),
                approvals: if m.approved(id, caller) { m.approvals } else { m.approvals.push((id, caller)) },
                ..m
            },
        )
    }
}

/// `pause`: direct admin pause with a zero threshold, otherwise a proposal.
pub open spec fn spec_pause(m: PauseModel, stored_admin: Option<AccountId>, caller: AccountId) -> (
    Result<Option<u64>, ContractError>,
    PauseModel,
) {
    if m.threshold == 0 {
        match admin_error(stored_admin, caller) {
            Some(e) => (Err(e), m),
            None => (Ok(None), PauseModel { paused: true, ..m }),
        }
    } else {
        spec_propose(m, caller, PauseAction::Pause)
    }
}

/// `unpause`: the admin always unpauses directly; with a positive threshold
/// any other caller opens a proposal.
pub open spec fn spec_unpause(m: PauseModel, stored_admin: Option<AccountId>, caller: AccountId) -> (
    Result<Option<u64>, ContractError>,
    PauseModel,
) {
    if m.threshold == 0 {
        match admin_error(stored_admin, caller) {
            Some(e) => (Err(e), m),
            None => (Ok(None), PauseModel { paused: false, ..m }),
        }
    } else {
        match stored_admin {
            None => (Err(ContractError::NotInitialized), m),
            Some(a) => if caller == a {
                (Ok(None), PauseModel { paused: false, ..m })
            } else {
                spec_propose(m, caller, PauseAction::Unpause)
            },
        }
    }
}

/// `approve_pause_proposal`: a signer approves a live proposal (once).
pub open spec fn spec_approve(m: PauseModel, signer: AccountId, id: u64) -> (
    Result<(), ContractError>,
    PauseModel,
) {
    if !m.is_signer(signer) {
        (Err(ContractError::NotSigner), m)
    } else if !m.proposals.contains_key(id) {
        (Err(ContractError::ProposalNotFound), m)
    } else if m.approved(id, signer) {
        (Ok(()), m)
    } else if m.approval_count(id) == u32::MAX {
        (Err(ContractError::Overflow), m)
    } else {
        (
            Ok(()),
            PauseModel {
                approvals: m.approvals.push((id, signer)),
                approval_counts: m.approval_counts.insert(id, (m.approval_count(id) + 1) as u32),
                ..m
            },
        )
    }
}

/// `execute_pause_proposal`: apply a live proposal whose approvals reach the
/// threshold, then clear it.
pub open spec fn spec_execute(m: PauseModel, id: u64) -> (Result<(), ContractError>, PauseModel) {
    if !m.proposals.contains_key(id) {
        (Err(ContractError::ProposalNotFound), m)
    } else if m.approval_count(id) < m.threshold {
        (Err(ContractError::InsufficientApprovals), m)
    } else if m.proposals[id] != 1 && m.proposals[id] != 2 {
        (Err(ContractError::InvalidPauseAction), m)
    } else {
        (
            Ok(()),
            PauseModel {
                paused: m.proposals[id] == 1,
                proposals: m.proposals.remove(id),
                approval_counts: m.approval_counts.remove(id),
                ..m
            },
        )
    }
}


/// A freshly initialized contract satisfies the pause invariants.
pub proof fn lemma_initial_pause_wf()
    ensures
        initial_pause_model().wf(),
{
}

/// Adding or removing a signer keeps the stored count equal to the number of
/// enabled signers and keeps the threshold within the no-lockout bounds
/// (while fewer than `u32::MAX` signers are enabled).
pub proof fn lemma_set_pause_signer_preserves_wf(
    m: PauseModel,
    stored_admin: Option<AccountId>,
    admin: AccountId,
    signer: AccountId,
    enabled: bool,
)
    requires
        m.wf(),
        m.signer_count < u32::MAX,
    ensures
        spec_set_pause_signer(m, stored_admin, admin, signer, enabled).1.wf(),
{
    let n = signer_updated(m, signer, enabled);
    if enabled && !m.is_signer(signer) {
        assert(!m.signers.contains_key(signer));
        assert(n.signers.dom() =~= m.signers.dom().insert(signer));
    } else if !enabled && m.is_signer(signer) {
        assert(n.signers.dom() =~= m.signers.dom().remove(signer));
    }
}

/// Setting the threshold keeps the pause invariants.
pub proof fn lemma_set_pause_threshold_preserves_wf(
    m: PauseModel,
    stored_admin: Option<AccountId>,
    admin: AccountId,
    threshold: u32,
)
    requires
        m.wf(),
    ensures
        spec_set_pause_threshold(m, stored_admin, admin, threshold).1.wf(),
{
}

/// Pausing, unpausing, approving and executing keep the pause invariants.
pub proof fn lemma_pause_actions_preserve_wf(m: PauseModel, stored_admin: Option<AccountId>, caller: AccountId, id: u64)
    requires
        m.wf(),
    ensures
        spec_pause(m, stored_admin, caller).1.wf(),
        spec_unpause(m, stored_admin, caller).1.wf(),
        spec_approve(m, caller, id).1.wf(),
        spec_execute(m, id).1.wf(),
{
}

/// The admin can always unpause, whatever the threshold and the signers.
pub proof fn lemma_admin_can_always_unpause(m: PauseModel, admin: AccountId)
    ensures
        spec_unpause(m, Some(admin), admin).0 == Ok::<Option<u64>, ContractError>(None),
        !spec_unpause(m, Some(admin), admin).1.paused,
{
}

/// A proposal only takes effect once its approvals reach the threshold.
pub proof fn lemma_execute_needs_threshold(m: PauseModel, id: u64)
    ensures
        spec_execute(m, id).0 is Ok ==> m.approval_count(id) >= m.threshold,
        spec_execute(m, id).0 is Err ==> spec_execute(m, id).1 == m,
{
}

/// A new proposal gets a fresh id: it was not live before, and the counter
/// moves past it so it is never handed out again.
pub proof fn lemma_proposal_ids_unique(m: PauseModel, caller: AccountId, action: PauseAction)
    requires
        m.wf(),
    ensures
        spec_propose(m, caller, action).0 matches Ok(Some(id)) ==> {
            &&& !m.proposals.contains_key(id)
            &&& spec_propose(m, caller, action).1.proposal_counter > id
        },
{
}

impl PauseState {
    /// The storage of a freshly initialized contract.
    pub fn new() -> (s: PauseState)
        ensures
            s@ == initial_pause_model(),
    {
        PauseState {
            paused: false,
            signers: HashMap::new(),
            signer_count: 0,
            threshold: 0,
            proposal_counter: 0,
            proposals: HashMap::new(),
            approval_counts: HashMap::new(),
            approvals: Vec::new(),
        }
    }

    pub fn is_paused(&self) -> (r: bool)
        ensures
            r == self@.paused,
    {
        self.paused
    }

    /// Refuse with `ContractPaused` while paused.
    pub fn require_not_paused(&self) -> (r: Result<(), ContractError>)
        ensures
            r == (if self@.paused { Err(ContractError::ContractPaused) } else { Ok::<(), ContractError>(()) }),
    {
        if self.paused {
            Err(ContractError::ContractPaused)
        } else {
            Ok(())
        }
    }

    pub fn is_signer(&self, s: AccountId) -> (r: bool)
        ensures
            r == self@.is_signer(s),
    {
        match self.signers.get(&s) {
            Some(v) => *v,
            None => false,
        }
    }

    /// Whether `signer` has approved proposal `id`.
    pub fn has_approved(&self, id: u64, signer: AccountId) -> (r: bool)
        ensures
            r == self@.approved(id, signer),
    {
        let mut i: usize = 0;
        while i < self.approvals.len()
            invariant
                i <= self.approvals@.len(),
                forall|j: int| 0 <= j < i ==> self.approvals@[j] != (id, signer),
            decreases self.approvals@.len() - i,
        {
            if self.approvals[i].0 == id && self.approvals[i].1 == signer {
                assert(self.approvals@[i as int] == (id, signer));
                return true;
            }
            i = i + 1;
        }
        false
    }

    pub fn approval_count(&self, id: u64) -> (r: u32)
        ensures
            r == self@.approval_count(id),
    {
        match self.approval_counts.get(&id) {
            Some(c) => *c,
            None => 0,
        }
    }

    /// Add (`enabled`) or remove a pause signer; admin only.
    pub fn set_pause_signer(
        &mut self,
        stored_admin: Option<AccountId>,
        admin: AccountId,
        signer: AccountId,
        enabled: bool,
    ) -> (r: Result<(), ContractError>)
        ensures
            (r, final(self)@) == spec_set_pause_signer(old(self)@, stored_admin, admin, signer, enabled),
    {
        require_admin(stored_admin, admin)?;
        let existing = self.is_signer(signer);
        if enabled {
            if !existing {
                self.signers.insert(signer, true);
                self.signer_count = self.signer_count.saturating_add(1);
                if self.threshold == 0 {
                    self.threshold = 1;
                }
            }
        } else if existing {
            self.signers.remove(&signer);
            self.signer_count = self.signer_count.saturating_sub(1);
            if self.threshold > self.signer_count {
                self.threshold = self.signer_count;
            }
        }
        proof {
            assert(self@ =~= signer_updated(old(self)@, signer, enabled));
        }
        Ok(())
    }

    /// Set the approval threshold; admin only.
    pub fn set_pause_threshold(
        &mut self,
        stored_admin: Option<AccountId>,
        admin: AccountId,
        threshold: u32,
    ) -> (r: Result<(), ContractError>)
        ensures
            (r, final(self)@) == spec_set_pause_threshold(old(self)@, stored_admin, admin, threshold),
    {
        require_admin(stored_admin, admin)?;
        if threshold > self.signer_count {
            return Err(ContractError::ThresholdExceedsSigners);
        }
        if threshold == 0 && self.signer_count > 0 {
            return Err(ContractError::InvalidPauseAction);
        }
        self.threshold = threshold;
        Ok(())
    }

    fn propose(&mut self, caller: AccountId, action: PauseAction) -> (r: Result<Option<u64>, ContractError>)
        ensures
            (r, final(self)@) == spec_propose(old(self)@, caller, action),
    {
        if !self.is_signer(caller) {
            return Err(ContractError::NotSigner);
        }
        if self.proposal_counter == u64::MAX {
            return Err(ContractError::Overflow);
        }
        let id = self.proposal_counter;
        self.proposal_counter = id + 1;
        self.proposals.insert(id, action.code());
        self.approval_counts.insert(id, 0);
        let already = self.has_approved(id, caller);
        if !already {
            self.approvals.push((id, caller));
        }
        self.approval_counts.insert(id, 1);
        proof {
            assert(self@.approval_counts =~= old(self)@.approval_counts.insert(id, 1));
        }
        Ok(Some(id))
    }

    /// Pause: directly by the admin when the threshold is zero, otherwise a
    /// proposal by a pause signer (whose id is returned).
    pub fn pause(&mut self, stored_admin: Option<AccountId>, caller: AccountId) -> (r: Result<Option<u64>, ContractError>)
        ensures
            (r, final(self)@) == spec_pause(old(self)@, stored_admin, caller),
    {
        if self.threshold == 0 {
            require_admin(stored_admin, caller)?;
            self.paused = true;
            Ok(None)
        } else {
            self.propose(caller, PauseAction::Pause)
        }
    }

    /// Unpause: the admin always unpauses directly; with a positive threshold
    /// a pause signer may instead open an unpause proposal.
    pub fn unpause(&mut self, stored_admin: Option<AccountId>, caller: AccountId) -> (r: Result<Option<u64>, ContractError>)
        ensures
            (r, final(self)@) == spec_unpause(old(self)@, stored_admin, caller),
    {
        if self.threshold == 0 {
            require_admin(stored_admin, caller)?;
            self.paused = false;
            Ok(None)
        } else {
            match stored_admin {
                None => Err(ContractError::NotInitialized),
                Some(a) => if caller == a {
                    self.paused = false;
                    Ok(None)
                } else {
                    self.propose(caller, PauseAction::Unpause)
                },
            }
        }
    }

    /// A pause signer approves a live proposal; a repeated approval is a no-op.
    pub fn approve_pause_proposal(&mut self, signer: AccountId, id: u64) -> (r: Result<(), ContractError>)
        ensures
            (r, final(self)@) == spec_approve(old(self)@, signer, id),
    {
        if !self.is_signer(signer) {
            return Err(ContractError::NotSigner);
        }
        if !self.proposals.contains_key(&id) {
            return Err(ContractError::ProposalNotFound);
        }
        if self.has_approved(id, signer) {
            return Ok(());
        }
        let count = self.approval_count(id);
        if count == u32::MAX {
            return Err(ContractError::Overflow);
        }
        self.approvals.push((id, signer));
        self.approval_counts.insert(id, count + 1);
        Ok(())
    }

    /// Execute a proposal whose approvals reach the threshold; anyone may call.
    pub fn execute_pause_proposal(&mut self, id: u64) -> (r: Result<(), ContractError>)
        ensures
            (r, final(self)@) == spec_execute(old(self)@, id),
    {
        let action: u32 = match self.proposals.get(&id) {
            Some(a) => *a,
            None => {
                return Err(ContractError::ProposalNotFound);
            },
        };
        let approvals = self.approval_count(id);
        if approvals < self.threshold {
            return Err(ContractError::InsufficientApprovals);
        }
        if action == 1 {
            self.paused = true;
        } else if action == 2 {
            self.paused = false;
        } else {
            return Err(ContractError::InvalidPauseAction);
        }
        self.proposals.remove(&id);
        self.approval_counts.remove(&id);
        Ok(())
    }

    /// Aggregate what is stored about proposal `id`; `signers` is the
    /// candidate set whose approvals are reported in `approved_by`.
    pub fn get_pause_proposal_state(&self, id: u64, signers: &Vec<AccountId>) -> (v: PauseProposalView)
        ensures
            v.proposal_id == id,
            v.action == (if self@.proposals.contains_key(id) { self@.proposals[id] } else { 0 }),
            v.approvals == self@.approval_count(id),
            v.approved_by@ == signers@.filter(|s: AccountId| self@.approved(id, s)),
            v.executed == (id < self@.proposal_counter && v.action == 0),
    {
        let action: u32 = match self.proposals.get(&id) {
            Some(a) => *a,
            None => 0,
        };
        let approvals = self.approval_count(id);
        let ghost pred = |s: AccountId| self@.approved(id, s);
        let mut approved_by: Vec<AccountId> = Vec::new();
        let mut i: usize = 0;
        while i < signers.len()
            invariant
                i <= signers@.len(),
                pred == (|s: AccountId| self@.approved(id, s)),
                approved_by@ == signers@.take(i as int).filter(pred),
            decreases signers@.len() - i,
        {
            let s = signers[i];
            proof {
                reveal_with_fuel(Seq::<_>::filter, 1);
                assert(signers@.take(i + 1).drop_last() =~= signers@.take(i as int));
                assert(signers@.take(i + 1).last() == s);
            }
            if self.has_approved(id, s) {
                approved_by.push(s);
            }
            i = i + 1;
        }
        assert(signers@.take(signers@.len() as int) =~= signers@);
        PauseProposalView {
            proposal_id: id,
            action,
            approvals,
            approved_by,
            executed: id < self.proposal_counter && action == 0,
        }
    }
}

/// A refused pause call leaves the pause state exactly as it was.
pub proof fn lemma_pause_refusals_change_nothing(
    m: PauseModel,
    stored_admin: Option<AccountId>,
    caller: AccountId,
    signer: AccountId,
    enabled: bool,
    threshold: u32,
    id: u64,
)
    ensures
        spec_set_pause_signer(m, stored_admin, caller, signer, enabled).0 is Err
            ==> spec_set_pause_signer(m, stored_admin, caller, signer, enabled).1 == m,
        spec_set_pause_threshold(m, stored_admin, caller, threshold).0 is Err
            ==> spec_set_pause_threshold(m, stored_admin, caller, threshold).1 == m,
        spec_pause(m, stored_admin, caller).0 is Err ==> spec_pause(m, stored_admin, caller).1 == m,
        spec_unpause(m, stored_admin, caller).0 is Err ==> spec_unpause(m, stored_admin, caller).1 == m,
        spec_approve(m, signer, id).0 is Err ==> spec_approve(m, signer, id).1 == m,
        spec_execute(m, id).0 is Err ==> spec_execute(m, id).1 == m,
{
}

} // verus!
