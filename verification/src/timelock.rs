//! Timelock: the admin queues an operation (identified by its 32-byte hash)
//! that anyone may execute between its ETA and the end of a grace period; an
//! executed hash can never be queued or executed again.
use vstd::prelude::*;
use crate::AccountId;
use crate::errors::{CallError, ContractError, Refusal};

verus! {

/// Minimum delay between queueing and execution (one day).
pub const MIN_DELAY_SECONDS: u64 = 86_400;

/// How long after its ETA an operation stays executable (24 hours).
pub const GRACE_PERIOD: u64 = 86_400;

/// The minimum queueing delay, in seconds.
pub fn min_delay_seconds() -> (d: u64)
    ensures
        d == MIN_DELAY_SECONDS,
{
    MIN_DELAY_SECONDS
}

/// An operation is ready once the ledger time reaches its ETA.
pub fn is_ready(eta: u64, now: u64) -> (r: bool)
    ensures
        r == (now >= eta),
{
    now >= eta
}

/// Lifecycle state of a queued operation.
#[derive(Clone, Copy, Debug, PartialEq, Eq, Structural)]
pub enum OperationStatus {
    Pending,
    Executed,
    Cancelled,
}

/// Wire code of an operation status.
pub open spec fn status_code(s: OperationStatus) -> u32 {
    match s {
        OperationStatus::Pending => 0,
        OperationStatus::Executed => 1,
        OperationStatus::Cancelled => 2,
    }
}

impl OperationStatus {
    pub fn code(self) -> (c: u32)
        ensures
            c == status_code(self),
    {
        match self {
            OperationStatus::Pending => 0,
            OperationStatus::Executed => 1,
            OperationStatus::Cancelled => 2,
        }
    }
}

/// A queued operation.
#[derive(Clone, Copy, Debug)]
pub struct QueuedOperation {
    pub id: u64,
    pub op_hash: [u8; 32],
    pub eta: u64,
    pub expires_at: u64,
    pub status: OperationStatus,
}

/// Mathematical view of a [`QueuedOperation`].
pub struct OperationView {
    pub id: u64,
    pub op_hash: Seq<u8>,
    pub eta: u64,
    pub expires_at: u64,
    pub status: OperationStatus,
}

impl View for QueuedOperation {
    type V = OperationView;

    open spec fn view(&self) -> OperationView {
        OperationView {
            id: self.id,
            op_hash: self.op_hash@,
            eta: self.eta,
            expires_at: self.expires_at,
            status: self.status,
        }
    }
}

/// Timelock contract storage.
pub struct TimelockContract {
    pub admin: Option<AccountId>,
    /// Every queued operation; the operation with id `i` is at index `i`.
    pub operations: Vec<QueuedOperation>,
    /// Hashes of executed operations.
    pub executed: Vec<[u8; 32]>,
}

/// Mathematical view of [`TimelockContract`].
pub struct TimelockModel {
    pub admin: Option<AccountId>,
    pub operations: Seq<OperationView>,
    pub executed: Seq<Seq<u8>>,
}

impl View for TimelockContract {
    type V = TimelockModel;

    open spec fn view(&self) -> TimelockModel {
        TimelockModel {
            admin: self.admin,
            operations: self.operations@.map_values(|o: QueuedOperation| o@),
            executed: self.executed@.map_values(|h: [u8; 32]| h@),
        }
    }
}

pub open spec fn tl_code<T>(e: ContractError) -> Result<T, CallError> {
    Err(CallError::Code(e))
}

impl TimelockModel {
    pub open spec fn is_executed(self, h: Seq<u8>) -> bool {
        self.executed.contains(h)
    }

    pub open spec fn admin_error(self, caller: AccountId) -> Option<ContractError> {
        match self.admin {
            None => Some(ContractError::NotInitialized),
            Some(a) => if a != caller { Some(ContractError::NotAdmin) } else { None },
        }
    }
}

pub open spec fn spec_tl_initialize(m: TimelockModel, admin: AccountId) -> (Result<(), CallError>, TimelockModel) {
    if m.admin is Some {
        (tl_code(ContractError::AlreadyInitialized), m)
    } else {
        (Ok(()), TimelockModel { admin: Some(admin), ..m })
    }
}

/// `queue_operation`: the admin queues `op_hash` for execution after at least
/// the minimum delay; returns its id.
pub open spec fn spec_queue_operation(m: TimelockModel, proposer: AccountId, op_hash: Seq<u8>, delay: u64, now: u64) -> (
    Result<u64, CallError>,
    TimelockModel,
) {
    if m.admin_error(proposer) is Some {
        (tl_code(m.admin_error(proposer).unwrap()), m)
    } else if delay < MIN_DELAY_SECONDS {
        (tl_code(ContractError::TimelockNotReady), m)
    } else if m.is_executed(op_hash) {
        (Err(CallError::Refused(Refusal::OperationAlreadyExecuted)), m)
    } else if m.operations.len() >= u64::MAX {
        (tl_code(ContractError::Overflow), m)
    } else if now + delay > u64::MAX || now + delay + GRACE_PERIOD > u64::MAX {
        (tl_code(ContractError::Overflow), m)
    } else {
        let id = m.operations.len() as u64;
        let op = OperationView {
            id,
            op_hash,
            eta: (now + delay) as u64,
            expires_at: (now + delay + GRACE_PERIOD) as u64,
            status: OperationStatus::Pending,
        };
        (Ok(id), TimelockModel { operations: m.operations.push(op), ..m })
    }
}

/// `execute_operation`: a pending operation executes between its ETA and its
/// expiry, once per hash.
pub open spec fn spec_execute_operation(m: TimelockModel, op_id: u64, now: u64) -> (Result<(), CallError>, TimelockModel) {
    if op_id >= m.operations.len() {
        (tl_code(ContractError::ProposalNotFound), m)
    } else {
        let op = m.operations[op_id as int];
        if op.status != OperationStatus::Pending {
            (tl_code(ContractError::ProposalAlreadyExecuted), m)
        } else if now < op.eta {
            (tl_code(ContractError::TimelockNotReady), m)
        } else if now > op.expires_at {
            (tl_code(ContractError::SignatureExpired), m)
        } else if m.is_executed(op.op_hash) {
            (Err(CallError::Refused(Refusal::OperationAlreadyExecuted)), m)
        } else {
            (
                Ok(()),
                TimelockModel {
                    executed: m.executed.push(op.op_hash),
                    operations: m.operations.update(op_id as int, OperationView { status: OperationStatus::Executed, ..op }),
                    ..m
                },
            )
        }
    }
}

/// `cancel_operation`: the admin cancels a pending operation.
pub open spec fn spec_cancel_operation(m: TimelockModel, admin: AccountId, op_id: u64) -> (Result<(), CallError>, TimelockModel) {
    if m.admin_error(admin) is Some {
        (tl_code(m.admin_error(admin).unwrap()), m)
    } else if op_id >= m.operations.len() {
        (tl_code(ContractError::ProposalNotFound), m)
    } else {
        let op = m.operations[op_id as int];
        if op.status != OperationStatus::Pending {
            (tl_code(ContractError::ProposalAlreadyExecuted), m)
        } else {
            (
                Ok(()),
                TimelockModel {
                    operations: m.operations.update(op_id as int, OperationView { status: OperationStatus::Cancelled, ..op }),
                    ..m
                },
            )
        }
    }
}

/// Equality of two 32-byte hashes.
pub fn hash_eq(a: &[u8; 32], b: &[u8; 32]) -> (r: bool)
    ensures
        r == (a@ == b@),
{
    let mut i: usize = 0;
    while i < 32
        invariant
            i <= 32,
            a@.len() == 32,
            b@.len() == 32,
            forall|j: int| 0 <= j < i ==> a@[j] == b@[j],
        decreases 32 - i,
    {
        if a[i] != b[i] {
            return false;
        }
        i = i + 1;
    }
    assert(a@ =~= b@);
    true
}

impl TimelockContract {
    pub fn new() -> (s: TimelockContract)
        ensures
            s@.admin is None,
            s@.operations.len() == 0,
            s@.executed.len() == 0,
    {
        TimelockContract { admin: None, operations: Vec::new(), executed: Vec::new() }
    }

    /// Set the admin; refused once an admin is set.
    pub fn initialize(&mut self, admin: AccountId) -> (r: Result<(), CallError>)
        ensures
            (r, final(self)@) == spec_tl_initialize(old(self)@, admin),
    {
        if self.admin.is_some() {
            return Err(CallError::Code(ContractError::AlreadyInitialized));
        }
        self.admin = Some(admin);
        Ok(())
    }

    fn admin_check(&self, caller: AccountId) -> (r: Result<(), CallError>)
        ensures
            r == match self@.admin_error(caller) {
                Some(e) => tl_code::<()>(e),
                None => Ok(()),
            },
    {
        match self.admin {
            None => Err(CallError::Code(ContractError::NotInitialized)),
            Some(a) => if a != caller {
                Err(CallError::Code(ContractError::NotAdmin))
            } else {
                Ok(())
            },
        }
    }

    /// Whether an operation with this hash was executed.
    pub fn is_operation_executed(&self, op_hash: &[u8; 32]) -> (r: bool)
        ensures
            r == self@.is_executed(op_hash@),
    {
        let ghost hs = self@.executed;
        let mut i: usize = 0;
        while i < self.executed.len()
            invariant
                i <= self.executed@.len(),
                hs == self.executed@.map_values(|h: [u8; 32]| h@),
                forall|j: int| 0 <= j < i ==> hs[j] != op_hash@,
            decreases self.executed@.len() - i,
        {
            if hash_eq(&self.executed[i], op_hash) {
                assert(hs[i as int] == op_hash@);
                return true;
            }
            i = i + 1;
        }
        false
    }

    /// Queue `op_hash` for execution `delay` seconds from now; admin only.
    pub fn queue_operation(&mut self, proposer: AccountId, op_hash: [u8; 32], delay: u64, now: u64) -> (r: Result<
        u64,
        CallError,
    >)
        ensures
            (r, final(self)@) == spec_queue_operation(old(self)@, proposer, op_hash@, delay, now),
    {
        self.admin_check(proposer)?;
        if delay < min_delay_seconds() {
            return Err(CallError::Code(ContractError::TimelockNotReady));
        }
        if self.is_operation_executed(&op_hash) {
            return Err(CallError::Refused(Refusal::OperationAlreadyExecuted));
        }
        let len = self.operations.len();
        if len as u64 >= u64::MAX {
            return Err(CallError::Code(ContractError::Overflow));
        }
        let eta = match now.checked_add(delay) {
            Some(v) => v,
            None => {
                return Err(CallError::Code(ContractError::Overflow));
            },
        };
        let expires_at = match eta.checked_add(GRACE_PERIOD) {
            Some(v) => v,
            None => {
                return Err(CallError::Code(ContractError::Overflow));
            },
        };
        let op = QueuedOperation {
            id: len as u64,
            op_hash,
            eta,
            expires_at,
            status: OperationStatus::Pending,
        };
        self.operations.push(op);
        proof {
            assert(self@.operations =~= old(self)@.operations.push(op@));
        }
        Ok(len as u64)
    }

    /// Execute a pending operation within its window.
    pub fn execute_operation(&mut self, op_id: u64, now: u64) -> (r: Result<(), CallError>)
        ensures
            (r, final(self)@) == spec_execute_operation(old(self)@, op_id, now),
    {
        if op_id >= self.operations.len() as u64 {
            return Err(CallError::Code(ContractError::ProposalNotFound));
        }
        let idx = op_id as usize;
        let op = self.operations[idx];
        if op.status != OperationStatus::Pending {
            return Err(CallError::Code(ContractError::ProposalAlreadyExecuted));
        }
        if !is_ready(op.eta, now) {
            return Err(CallError::Code(ContractError::TimelockNotReady));
        }
        if now > op.expires_at {
            return Err(CallError::Code(ContractError::SignatureExpired));
        }
        if self.is_operation_executed(&op.op_hash) {
            return Err(CallError::Refused(Refusal::OperationAlreadyExecuted));
        }
        self.executed.push(op.op_hash);
        let done = QueuedOperation { status: OperationStatus::Executed, ..op };
        self.operations.set(idx, done);
        proof {
            assert(self@.executed =~= old(self)@.executed.push(op.op_hash@));
            assert(self@.operations =~= old(self)@.operations.update(idx as int, done@));
        }
        Ok(())
    }

    /// Cancel a pending operation; admin only.
    pub fn cancel_operation(&mut self, admin: AccountId, op_id: u64) -> (r: Result<(), CallError>)
        ensures
            (r, final(self)@) == spec_cancel_operation(old(self)@, admin, op_id),
    {
        self.admin_check(admin)?;
        if op_id >= self.operations.len() as u64 {
            return Err(CallError::Code(ContractError::ProposalNotFound));
        }
        let idx = op_id as usize;
        let op = self.operations[idx];
        if op.status != OperationStatus::Pending {
            return Err(CallError::Code(ContractError::ProposalAlreadyExecuted));
        }
        let cancelled = QueuedOperation { status: OperationStatus::Cancelled, ..op };
        self.operations.set(idx, cancelled);
        proof {
            assert(self@.operations =~= old(self)@.operations.update(idx as int, cancelled@));
        }
        Ok(())
    }

    /// The operation with the given id, if any.
    pub fn get_operation(&self, op_id: u64) -> (r: Option<QueuedOperation>)
        ensures
            op_id < self@.operations.len() ==> (r matches Some(o) && o@ == self@.operations[op_id as int]),
            op_id >= self@.operations.len() ==> r is None,
    {
        if op_id >= self.operations.len() as u64 {
            return None;
        }
        Some(self.operations[op_id as usize])
    }

    /// The admin; refused before initialization.
    pub fn get_admin(&self) -> (r: Result<AccountId, CallError>)
        ensures
            r == match self@.admin {
                Some(a) => Ok(a),
                None => tl_code::<AccountId>(ContractError::NotInitialized),
            },
    {
        match self.admin {
            Some(a) => Ok(a),
            None => Err(CallError::Code(ContractError::NotInitialized)),
        }
    }
}

/// The ids of queued operations are their positions, and an executed
/// operation's hash is recorded as executed.
pub open spec fn timelock_wf(m: TimelockModel) -> bool {
    &&& forall|i: int| 0 <= i < m.operations.len() ==> #[trigger] m.operations[i].id == i
    &&& forall|i: int| 0 <= i < m.operations.len() && m.operations[i].status == OperationStatus::Executed
        ==> m.is_executed(#[trigger] m.operations[i].op_hash)
}

/// Queueing, executing and cancelling keep the timelock invariants.
pub proof fn lemma_timelock_ops_preserve_wf(m: TimelockModel, caller: AccountId, h: Seq<u8>, delay: u64, id: u64, now: u64)
    requires
        timelock_wf(m),
    ensures
        timelock_wf(spec_queue_operation(m, caller, h, delay, now).1),
        timelock_wf(spec_execute_operation(m, id, now).1),
        timelock_wf(spec_cancel_operation(m, caller, id).1),
{
    let n = spec_execute_operation(m, id, now).1;
    if spec_execute_operation(m, id, now).0 is Ok {
        assert forall|i: int| 0 <= i < n.operations.len() && n.operations[i].status == OperationStatus::Executed
            implies n.is_executed(#[trigger] n.operations[i].op_hash) by {
            if i != id {
                assert(m.is_executed(m.operations[i].op_hash));
                assert(n.executed.contains(m.operations[i].op_hash)) by {
                    let k = choose|k: int| 0 <= k < m.executed.len() && m.executed[k] == m.operations[i].op_hash;
                    assert(n.executed[k] == m.executed[k]);
                }
            } else {
                assert(n.executed[n.executed.len() - 1] == n.operations[i].op_hash);
            }
        }
    }
    let q = spec_queue_operation(m, caller, h, delay, now).1;
    if spec_queue_operation(m, caller, h, delay, now).0 is Ok {
        assert forall|i: int| 0 <= i < q.operations.len() && q.operations[i].status == OperationStatus::Executed
            implies q.is_executed(#[trigger] q.operations[i].op_hash) by {
            assert(i < m.operations.len());
        }
    }
}

/// An operation executes only inside its window, which opens no earlier
/// than the minimum delay after it was queued; it executes at most once, an
/// executed hash can never be queued again, and a cancelled operation never executes.
pub proof fn lemma_timelock_guarantees(m: TimelockModel, caller: AccountId, h: Seq<u8>, delay: u64, id: u64, now: u64, later: u64)
    ensures
        spec_queue_operation(m, caller, h, delay, now).0 matches Ok(qid) ==> {
            let op = spec_queue_operation(m, caller, h, delay, now).1.operations[qid as int];
            &&& op.eta >= now + MIN_DELAY_SECONDS
            &&& op.expires_at == op.eta + GRACE_PERIOD
            &&& op.status == OperationStatus::Pending
        },
        spec_execute_operation(m, id, now).0 is Ok ==> {
            &&& m.operations[id as int].eta <= now <= m.operations[id as int].expires_at
            &&& spec_execute_operation(spec_execute_operation(m, id, now).1, id, later).0 is Err
            &&& spec_queue_operation(spec_execute_operation(m, id, now).1, caller, m.operations[id as int].op_hash, delay, later).0 is Err
        },
        id < m.operations.len() && m.operations[id as int].status == OperationStatus::Cancelled
            ==> spec_execute_operation(m, id, now).0 is Err,
{
    if spec_execute_operation(m, id, now).0 is Ok {
        let n = spec_execute_operation(m, id, now).1;
        assert(n.executed[n.executed.len() - 1] == m.operations[id as int].op_hash);
        assert(n.is_executed(m.operations[id as int].op_hash));
    }
}

/// A refused timelock call leaves the contract exactly as it was.
pub proof fn lemma_timelock_refusals_change_nothing(
    m: TimelockModel,
    caller: AccountId,
    h: Seq<u8>,
    delay: u64,
    id: u64,
    now: u64,
)
    ensures
        spec_tl_initialize(m, caller).0 is Err ==> spec_tl_initialize(m, caller).1 == m,
        spec_queue_operation(m, caller, h, delay, now).0 is Err ==> spec_queue_operation(m, caller, h, delay, now).1 == m,
        spec_execute_operation(m, id, now).0 is Err ==> spec_execute_operation(m, id, now).1 == m,
        spec_cancel_operation(m, caller, id).0 is Err ==> spec_cancel_operation(m, caller, id).1 == m,
{
}

} // verus!
