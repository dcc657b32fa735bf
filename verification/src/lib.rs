//! Verified core of the Credence protocol contracts: bonds, slashing,
//! attestations, protocol parameters, multi-signer pausing, arbitration,
//! timelocked operations, delegated-action payloads and the shared error codes.
//!
//! Every contract is modelled as a plain state value whose entry points are
//! verified transitions from (state, caller, ledger time, arguments) to a new
//! state and a result.  A rejected call returns an error and leaves the state
//! exactly as it was, which is how a failed contract invocation behaves on the
//! ledger.
use vstd::prelude::*;

pub mod errors;
pub mod bond;
pub mod pausable;
pub mod bond_types;
pub mod bond_contract;
pub mod bond_laws;
pub mod bond_invariants;
pub mod timelock;
pub mod templates;
pub mod delegation;
pub mod arbitration;
pub mod arbitration_laws;
pub mod parameters;
pub mod admin;

verus! {

/// Account identifier: every on-ledger address is represented by a stable id.
pub type AccountId = u64;

} // verus!
