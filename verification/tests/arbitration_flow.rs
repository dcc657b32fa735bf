use credence::arbitration::{
    checked_total, find_outcome, tally_winner, ArbitrationError, ArbitrationFailure, CancelRole, CredenceArbitration,
    DisputeStatus, require_transition,
};
use credence::errors::ContractError;

const ADMIN: u64 = 1;
const CREATOR: u64 = 2;
const A1: u64 = 10;
const A2: u64 = 11;
const A3: u64 = 12;

fn arb(e: ArbitrationError) -> ArbitrationFailure {
    ArbitrationFailure::Arbitration(e)
}

fn setup() -> CredenceArbitration {
    let mut c = CredenceArbitration::new();
    c.initialize(ADMIN).unwrap();
    c.register_arbitrator(A1, 5).unwrap();
    c.register_arbitrator(A2, 3).unwrap();
    c.register_arbitrator(A3, 3).unwrap();
    c
}

#[test]
fn initialize_once() {
    let mut c = setup();
    assert_eq!(c.initialize(ADMIN), Err(arb(ArbitrationError::AlreadyInitialized)));
}

#[test]
fn weights_must_be_positive() {
    let mut c = setup();
    assert_eq!(c.register_arbitrator(A1, 0), Err(arb(ArbitrationError::WeightNotPositive)));
    assert_eq!(c.get_arbitrator_weight(A1), Ok(5));
    assert_eq!(c.get_arbitrator_weight(99), Err(arb(ArbitrationError::NotArbitrator)));
}

#[test]
fn heaviest_outcome_wins() {
    let mut c = setup();
    let id = c.create_dispute(CREATOR, b"late delivery".to_vec(), 100, 1_000).unwrap();
    assert_eq!(id, 0);
    c.vote(A1, id, 1, 1_010).unwrap();
    c.vote(A2, id, 2, 1_020).unwrap();
    c.vote(A3, id, 2, 1_030).unwrap();
    assert_eq!(c.get_tally(id, 1), 5);
    assert_eq!(c.get_tally(id, 2), 6);
    assert_eq!(c.resolve_dispute(id, 1_100), Err(arb(ArbitrationError::VotingNotEnded)));
    assert_eq!(c.resolve_dispute(id, 1_101), Ok(2));
    let d = c.get_dispute(id).unwrap();
    assert_eq!(d.status, DisputeStatus::Resolved);
    assert_eq!(d.outcome, 2);
}

#[test]
fn a_tie_resolves_to_no_winner() {
    let mut c = setup();
    let id = c.create_dispute(CREATOR, vec![], 10, 0).unwrap();
    c.vote(A2, id, 1, 5).unwrap();
    c.vote(A3, id, 2, 5).unwrap();
    assert_eq!(c.resolve_dispute(id, 11), Ok(0));
}

#[test]
fn each_arbitrator_votes_once_within_the_window() {
    let mut c = setup();
    let id = c.create_dispute(CREATOR, vec![], 10, 100).unwrap();
    assert_eq!(c.vote(A1, id, 1, 99), Err(arb(ArbitrationError::VotingInactive)));
    assert_eq!(c.vote(A1, id, 0, 100), Err(arb(ArbitrationError::InvalidOutcome)));
    assert_eq!(c.vote(99, id, 1, 100), Err(arb(ArbitrationError::NotArbitrator)));
    c.vote(A1, id, 1, 100).unwrap();
    assert!(c.has_voted(id, A1));
    assert!(!c.has_voted(id, A2));
    assert_eq!(c.vote(A1, id, 2, 101), Err(arb(ArbitrationError::AlreadyVoted)));
    assert_eq!(c.vote(A2, id, 1, 111), Err(arb(ArbitrationError::VotingInactive)));
    assert_eq!(c.get_tally(id, 1), 5);
}

#[test]
fn cancellation_by_creator_or_admin_only() {
    let mut c = setup();
    let id = c.create_dispute(CREATOR, vec![], 10, 0).unwrap();
    assert_eq!(c.cancel_dispute(77, id, None), Err(arb(ArbitrationError::NotAuthorized)));
    assert_eq!(c.cancel_dispute(CREATOR, id, Some(vec![0u8; 257])), Err(arb(ArbitrationError::ReasonTooLong)));
    c.cancel_dispute(CREATOR, id, Some(b"settled".to_vec())).unwrap();
    let d = c.get_dispute(id).unwrap();
    assert_eq!(d.status, DisputeStatus::Cancelled);
    assert_eq!(d.cancelled_by_role, Some(CancelRole::Creator));
    assert_eq!(d.cancellation_reason, Some(b"settled".to_vec()));
    // a cancelled dispute cannot be resolved or voted on
    assert_eq!(c.resolve_dispute(id, 100), Err(arb(ArbitrationError::InvalidTransition)));
    assert_eq!(c.vote(A1, id, 1, 5), Err(arb(ArbitrationError::VotingInactive)));

    let id2 = c.create_dispute(CREATOR, vec![], 10, 0).unwrap();
    c.cancel_dispute(ADMIN, id2, None).unwrap();
    assert_eq!(c.get_dispute(id2).unwrap().cancelled_by_role, Some(CancelRole::Admin));
}

#[test]
fn quorum_is_enforced() {
    let mut c = setup();
    assert_eq!(c.set_quorum(A1, 10, 2), Err(arb(ArbitrationError::NotAdmin)));
    c.set_quorum(ADMIN, 10, 2).unwrap();
    assert_eq!(c.get_quorum(), (10, 2));
    let id = c.create_dispute(CREATOR, vec![], 10, 0).unwrap();
    c.vote(A1, id, 1, 1).unwrap();
    c.vote(A2, id, 1, 1).unwrap();
    assert_eq!(c.resolve_dispute(id, 11), Err(arb(ArbitrationError::QuorumNotMet)));
    c.set_quorum(ADMIN, 8, 2).unwrap();
    assert_eq!(c.resolve_dispute(id, 11), Ok(1));
}

#[test]
fn unknown_dispute() {
    let mut c = setup();
    assert_eq!(c.get_dispute(4).unwrap_err(), arb(ArbitrationError::DisputeNotFound));
    assert_eq!(c.resolve_dispute(4, 0), Err(arb(ArbitrationError::DisputeNotFound)));
}

#[test]
fn registry_pages() {
    let mut c = CredenceArbitration::new();
    c.initialize(ADMIN).unwrap();
    for a in 100..105u64 {
        c.register_arbitrator(a, 1).unwrap();
    }
    c.register_arbitrator(100, 4).unwrap();
    assert_eq!(c.get_arbitrators_page(0, 2), (vec![100, 101], Some(2)));
    assert_eq!(c.get_arbitrators_page(4, 2), (vec![104], None));
    assert_eq!(c.get_arbitrators_page(9, 2), (vec![], None));
    c.unregister_arbitrator(102).unwrap();
    assert_eq!(c.get_arbitrators_page(0, 0), (vec![100, 101, 103, 104], None));
    assert_eq!(c.get_arbitrator_weight(100), Ok(4));
}

#[test]
fn paused_contract_refuses_changes() {
    let mut c = setup();
    assert_eq!(c.pause(ADMIN), Ok(None));
    assert!(c.is_paused());
    assert_eq!(c.create_dispute(CREATOR, vec![], 1, 0), Err(ArbitrationFailure::Code(ContractError::ContractPaused)));
    assert_eq!(c.unpause(ADMIN), Ok(None));
    assert!(c.create_dispute(CREATOR, vec![], 1, 0).is_ok());
}

#[test]
fn lifecycle_moves() {
    assert_eq!(require_transition(DisputeStatus::Open, DisputeStatus::Voting), Ok(()));
    assert_eq!(require_transition(DisputeStatus::Voting, DisputeStatus::Resolving), Ok(()));
    assert_eq!(require_transition(DisputeStatus::Resolved, DisputeStatus::Voting), Err(ArbitrationError::InvalidTransition));
    assert_eq!(require_transition(DisputeStatus::Cancelled, DisputeStatus::Cancelled), Err(ArbitrationError::InvalidTransition));
}

#[test]
fn tally_helpers() {
    let t = vec![(1u32, 5i128), (2, 7), (3, 7)];
    assert_eq!(tally_winner(&t), 0);
    assert_eq!(tally_winner(&vec![(1u32, 5i128), (2, 7)]), 2);
    assert_eq!(tally_winner(&vec![]), 0);
    assert_eq!(find_outcome(&t, 2), Some(1));
    assert_eq!(find_outcome(&t, 9), None);
    assert_eq!(checked_total(&t), Some(19));
    assert_eq!(checked_total(&vec![(1u32, i128::MAX), (2, 1)]), None);
}
