//! Template contract: admin-managed records per owner with an optional expiry
//! (0 = never); an expired record reads as absent and is purged on lookup.
use vstd::prelude::*;
use std::collections::HashMap;
use crate::AccountId;
use crate::errors::{CallError, Refusal};

verus! {

broadcast use vstd::std_specs::hash::group_hash_axioms;

/// A stored record.
#[derive(Clone, Copy, Debug, PartialEq, Eq, Structural)]
pub struct Record {
    pub value: i128,
    pub updated_at: u64,
    /// Expiry timestamp; 0 means the record never expires.
    pub expires_at: u64,
}

/// Template contract storage.
pub struct TemplateContract {
    pub admin: Option<AccountId>,
    pub records: HashMap<AccountId, Record>,
}

/// Mathematical view of [`TemplateContract`].
pub struct TemplateModel {
    pub admin: Option<AccountId>,
    pub records: Map<AccountId, Record>,
}

impl View for TemplateContract {
    type V = TemplateModel;

    open spec fn view(&self) -> TemplateModel {
        TemplateModel { admin: self.admin, records: self.records@ }
    }
}

/// A record has expired at `now` when it has an expiry that is reached.
pub open spec fn expired(r: Record, now: u64) -> bool {
    r.expires_at != 0 && now >= r.expires_at
}

pub open spec fn spec_tpl_initialize(m: TemplateModel, admin: AccountId) -> (Result<(), CallError>, TemplateModel) {
    if m.admin is Some {
        (Err(CallError::Refused(Refusal::AlreadyInitialized)), m)
    } else {
        (Ok(()), TemplateModel { admin: Some(admin), ..m })
    }
}

pub open spec fn spec_set_record(m: TemplateModel, owner: AccountId, value: i128, expires_at: u64, now: u64) -> (
    Result<(), CallError>,
    TemplateModel,
) {
    if m.admin is None {
        (Err(CallError::Refused(Refusal::NotInitialized)), m)
    } else {
        (Ok(()), TemplateModel {
            records: m.records.insert(owner, Record { value, updated_at: now, expires_at }),
            ..m
        })
    }
}

pub open spec fn spec_remove_record(m: TemplateModel, owner: AccountId) -> (Result<(), CallError>, TemplateModel) {
    if m.admin is None {
        (Err(CallError::Refused(Refusal::NotInitialized)), m)
    } else {
        (Ok(()), TemplateModel { records: m.records.remove(owner), ..m })
    }
}

/// `get_record`: the stored record, refused when absent or expired.
pub open spec fn spec_get_record(m: TemplateModel, owner: AccountId, now: u64) -> Result<Record, CallError> {
    if !m.records.contains_key(owner) {
        Err(CallError::Refused(Refusal::RecordNotFound))
    } else if expired(m.records[owner], now) {
        Err(CallError::Refused(Refusal::RecordExpired))
    } else {
        Ok(m.records[owner])
    }
}

/// `has_record`: whether a live record exists; an expired one is purged.
pub open spec fn spec_has_record(m: TemplateModel, owner: AccountId, now: u64) -> (bool, TemplateModel) {
    if !m.records.contains_key(owner) {
        (false, m)
    } else if expired(m.records[owner], now) {
        (false, TemplateModel { records: m.records.remove(owner), ..m })
    } else {
        (true, m)
    }
}

impl TemplateContract {
    pub fn new() -> (s: TemplateContract)
        ensures
            s@.admin is None,
            s@.records == Map::<AccountId, Record>::empty(),
    {
        TemplateContract { admin: None, records: HashMap::new() }
    }

    /// Set the admin; refused once an admin is set.
    pub fn initialize(&mut self, admin: AccountId) -> (r: Result<(), CallError>)
        ensures
            (r, final(self)@) == spec_tpl_initialize(old(self)@, admin),
    {
        if self.admin.is_some() {
            return Err(CallError::Refused(Refusal::AlreadyInitialized));
        }
        self.admin = Some(admin);
        Ok(())
    }

    /// Store a record for `owner` (authorized by the stored admin).
    pub fn set_record(&mut self, owner: AccountId, value: i128, expires_at: u64, now: u64) -> (r: Result<
        (),
        CallError,
    >)
        ensures
            (r, final(self)@) == spec_set_record(old(self)@, owner, value, expires_at, now),
    {
        if self.admin.is_none() {
            return Err(CallError::Refused(Refusal::NotInitialized));
        }
        self.records.insert(owner, Record { value, updated_at: now, expires_at });
        Ok(())
    }

    /// Delete `owner`'s record (authorized by the stored admin).
    pub fn remove_record(&mut self, owner: AccountId) -> (r: Result<(), CallError>)
        ensures
            (r, final(self)@) == spec_remove_record(old(self)@, owner),
    {
        if self.admin.is_none() {
            return Err(CallError::Refused(Refusal::NotInitialized));
        }
        self.records.remove(&owner);
        Ok(())
    }

    /// The live record of `owner`.
    pub fn get_record(&self, owner: AccountId, now: u64) -> (r: Result<Record, CallError>)
        ensures
            r == spec_get_record(self@, owner, now),
    {
        match self.records.get(&owner) {
            None => Err(CallError::Refused(Refusal::RecordNotFound)),
            Some(rec) => if rec.expires_at != 0 && now >= rec.expires_at {
                Err(CallError::Refused(Refusal::RecordExpired))
            } else {
                Ok(*rec)
            },
        }
    }

    /// Whether `owner` has a live record; an expired one is removed.
    pub fn has_record(&mut self, owner: AccountId, now: u64) -> (r: bool)
        ensures
            (r, final(self)@) == spec_has_record(old(self)@, owner, now),
    {
        let rec = match self.records.get(&owner) {
            None => {
                return false;
            },
            Some(rec) => *rec,
        };
        if rec.expires_at != 0 && now >= rec.expires_at {
            self.records.remove(&owner);
            return false;
        }
        true
    }

    /// Whether `owner`'s record exists and has expired.
    pub fn is_expired(&self, owner: AccountId, now: u64) -> (r: bool)
        ensures
            r == (self@.records.contains_key(owner) && expired(self@.records[owner], now)),
    {
        match self.records.get(&owner) {
            None => false,
            Some(rec) => rec.expires_at != 0 && now >= rec.expires_at,
        }
    }

    /// The admin; refused before initialization.
    pub fn get_admin(&self) -> (r: Result<AccountId, CallError>)
        ensures
            r == match self@.admin {
                Some(a) => Ok(a),
                None => Err::<AccountId, CallError>(CallError::Refused(Refusal::NotInitialized)),
            },
    {
        match self.admin {
            Some(a) => Ok(a),
            None => Err(CallError::Refused(Refusal::NotInitialized)),
        }
    }
}

/// Reading a record back gives what was written, until it expires; other
/// owners' records are untouched by the write.
pub proof fn lemma_record_read_after_write(
    m: TemplateModel,
    owner: AccountId,
    other: AccountId,
    value: i128,
    expires_at: u64,
    now: u64,
    later: u64,
)
    requires
        m.admin is Some,
        other != owner,
    ensures
        ({
            let n = spec_set_record(m, owner, value, expires_at, now).1;
            &&& (expires_at == 0 || later < expires_at) ==> spec_get_record(n, owner, later) == Ok::<Record, CallError>(
                Record { value, updated_at: now, expires_at },
            )
            &&& (expires_at != 0 && later >= expires_at) ==> spec_get_record(n, owner, later) == Err::<Record, CallError>(
                CallError::Refused(Refusal::RecordExpired),
            )
            &&& spec_get_record(n, other, later) == spec_get_record(m, other, later)
        }),
{
}

/// After removal a record is gone.
pub proof fn lemma_record_removed(m: TemplateModel, owner: AccountId, now: u64)
    requires
        m.admin is Some,
    ensures
        spec_get_record(spec_remove_record(m, owner).1, owner, now) == Err::<Record, CallError>(
            CallError::Refused(Refusal::RecordNotFound),
        ),
{
}

/// A refused template call leaves the contract exactly as it was.
pub proof fn lemma_template_refusals_change_nothing(
    m: TemplateModel,
    caller: AccountId,
    value: i128,
    expires_at: u64,
    now: u64,
)
    ensures
        spec_tpl_initialize(m, caller).0 is Err ==> spec_tpl_initialize(m, caller).1 == m,
        spec_set_record(m, caller, value, expires_at, now).0 is Err ==> spec_set_record(m, caller, value, expires_at, now).1 == m,
        spec_remove_record(m, caller).0 is Err ==> spec_remove_record(m, caller).1 == m,
{
}

} // verus!
