use credence::errors::ContractError;
use credence::pausable::{PauseAction, PauseState};

const ADMIN: u64 = 1;

/// Pause storage of an initialized contract whose admin is `ADMIN`.
struct Setup {
    pause: PauseState,
    admin: Option<u64>,
}

fn setup() -> Setup {
    Setup { pause: PauseState::new(), admin: Some(ADMIN) }
}

/// Two pause signers with a 2-of-2 threshold.
fn setup_two_signers() -> (Setup, [u64; 2]) {
    let mut s = setup();
    let (s1, s2) = (11u64, 12u64);
    s.pause.set_pause_signer(s.admin, ADMIN, s1, true).unwrap();
    s.pause.set_pause_signer(s.admin, ADMIN, s2, true).unwrap();
    s.pause.set_pause_threshold(s.admin, ADMIN, 2).unwrap();
    (s, [s1, s2])
}

fn assert_pause_invariant(p: &PauseState, addrs: &[u64]) {
    let counted = addrs.iter().filter(|a| p.is_signer(**a)).count() as u32;
    assert_eq!(counted, p.signer_count, "PauseSignerCount mismatch");
}

#[test]
fn view_matches_per_key_reads() {
    let (mut s, [s1, s2]) = setup_two_signers();
    let id = s.pause.pause(s.admin, s1).unwrap().unwrap();
    s.pause.approve_pause_proposal(s2, id).unwrap();
    let all = vec![s1, s2];
    let view = s.pause.get_pause_proposal_state(id, &all);
    assert_eq!(view.proposal_id, id);
    assert_eq!(view.action, *s.pause.proposals.get(&id).unwrap_or(&0));
    assert_eq!(view.approvals, s.pause.approval_count(id));
    let expected: Vec<u64> = all.iter().copied().filter(|x| s.pause.has_approved(id, *x)).collect();
    assert_eq!(view.approved_by, expected);
}

#[test]
fn view_tracks_state_transitions() {
    let (mut s, [s1, s2]) = setup_two_signers();
    let all = vec![s1, s2];

    let before = s.pause.get_pause_proposal_state(0, &all);
    assert_eq!(before.action, 0);
    assert_eq!(before.approvals, 0);
    assert_eq!(before.approved_by.len(), 0);
    assert!(!before.executed);

    let id = s.pause.pause(s.admin, s1).unwrap().unwrap();
    let proposed = s.pause.get_pause_proposal_state(id, &all);
    assert_eq!(proposed.action, PauseAction::Pause.code());
    assert_eq!(proposed.approvals, 1);
    assert_eq!(proposed.approved_by, vec![s1]);
    assert!(!proposed.executed);

    s.pause.approve_pause_proposal(s2, id).unwrap();
    let approved = s.pause.get_pause_proposal_state(id, &all);
    assert_eq!(approved.approvals, 2);
    assert_eq!(approved.approved_by, vec![s1, s2]);
    assert!(!approved.executed);

    s.pause.execute_pause_proposal(id).unwrap();
    assert!(s.pause.is_paused());
    let executed = s.pause.get_pause_proposal_state(id, &all);
    assert_eq!(executed.action, 0);
    assert_eq!(executed.approvals, 0);
    assert!(executed.executed);
}

#[test]
fn approved_by_is_scoped_to_supplied_signers() {
    let (mut s, [s1, s2]) = setup_two_signers();
    let id = s.pause.pause(s.admin, s1).unwrap().unwrap();
    s.pause.approve_pause_proposal(s2, id).unwrap();
    let view = s.pause.get_pause_proposal_state(id, &vec![s2]);
    assert_eq!(view.approvals, 2);
    assert_eq!(view.approved_by, vec![s2]);
    let empty = s.pause.get_pause_proposal_state(id, &Vec::new());
    assert_eq!(empty.approved_by.len(), 0);
    assert_eq!(empty.action, PauseAction::Pause.code());
}

#[test]
fn view_requires_no_auth() {
    let (mut s, [s1, s2]) = setup_two_signers();
    let id = s.pause.pause(s.admin, s1).unwrap().unwrap();
    let view = s.pause.get_pause_proposal_state(id, &vec![s1, s2]);
    assert_eq!(view.proposal_id, id);
    assert_eq!(view.action, PauseAction::Pause.code());
}

#[test]
fn test_idempotent_add_remove_pause_signer_invariant() {
    let mut s = setup();
    let s1 = 11u64;
    for enabled in [true, true, false, false] {
        s.pause.set_pause_signer(s.admin, ADMIN, s1, enabled).unwrap();
        assert_pause_invariant(&s.pause, &[s1]);
    }
}

#[test]
fn test_alternating_sequence_pause_signer_invariant() {
    let mut s = setup();
    let signers: Vec<u64> = (20..25).collect();
    let steps = [(0, true), (1, true), (0, false), (2, true), (1, false), (3, true)];
    for (i, enabled) in steps {
        s.pause.set_pause_signer(s.admin, ADMIN, signers[i], enabled).unwrap();
        assert_pause_invariant(&s.pause, &signers);
    }
}

#[test]
fn test_edge_cases_adding_removing_nonexistent() {
    let mut s = setup();
    let (s1, s2) = (11u64, 12u64);
    s.pause.set_pause_signer(s.admin, ADMIN, s1, false).unwrap();
    assert_pause_invariant(&s.pause, &[s1, s2]);
    s.pause.set_pause_signer(s.admin, ADMIN, s2, true).unwrap();
    assert_pause_invariant(&s.pause, &[s1, s2]);
    s.pause.set_pause_signer(s.admin, ADMIN, s2, false).unwrap();
    assert_pause_invariant(&s.pause, &[s1, s2]);
}

#[test]
fn test_pause_proposal_lifecycle_snapshots() {
    let mut s = setup();
    let (signer1, signer2, signer3) = (11u64, 12u64, 13u64);

    // Initial state.
    assert!(!s.pause.paused);
    assert_eq!((s.pause.signer_count, s.pause.threshold, s.pause.proposal_counter), (0, 0, 0));

    // Signers and threshold.
    for x in [signer1, signer2, signer3] {
        s.pause.set_pause_signer(s.admin, ADMIN, x, true).unwrap();
    }
    s.pause.set_pause_threshold(s.admin, ADMIN, 2).unwrap();
    assert_eq!((s.pause.signer_count, s.pause.threshold), (3, 2));

    // Pause proposed, approved, executed.
    let prop_id = s.pause.pause(s.admin, signer1).unwrap().unwrap();
    assert_eq!(prop_id, 0);
    assert_eq!(s.pause.proposals.get(&prop_id), Some(&1));
    assert_eq!(s.pause.approval_count(prop_id), 1);
    s.pause.approve_pause_proposal(signer2, prop_id).unwrap();
    assert_eq!(s.pause.approval_count(prop_id), 2);
    s.pause.execute_pause_proposal(prop_id).unwrap();
    assert!(s.pause.paused);
    assert!(s.pause.proposals.get(&prop_id).is_none());
    assert_eq!(s.pause.approval_count(prop_id), 0);

    // Unpause proposed, approved, executed.
    let unpause_id = s.pause.unpause(s.admin, signer3).unwrap().unwrap();
    assert_eq!(unpause_id, 1);
    assert_eq!(s.pause.proposals.get(&unpause_id), Some(&2));
    s.pause.approve_pause_proposal(signer1, unpause_id).unwrap();
    assert_eq!(s.pause.approval_count(unpause_id), 2);
    s.pause.execute_pause_proposal(unpause_id).unwrap();
    assert!(!s.pause.paused);
    assert_eq!(s.pause.proposal_counter, 2);

    // Signer removal keeps the threshold reachable.
    s.pause.set_pause_signer(s.admin, ADMIN, signer2, false).unwrap();
    assert_eq!((s.pause.signer_count, s.pause.threshold), (2, 2));
    assert!(!s.pause.is_signer(signer2));
}

#[test]
fn execute_below_threshold_is_refused() {
    let (mut s, [s1, _s2]) = setup_two_signers();
    let id = s.pause.pause(s.admin, s1).unwrap().unwrap();
    assert_eq!(s.pause.execute_pause_proposal(id), Err(ContractError::InsufficientApprovals));
    assert!(!s.pause.is_paused());
}

#[test]
fn admin_unpauses_directly_even_with_a_threshold() {
    let (mut s, [s1, s2]) = setup_two_signers();
    let id = s.pause.pause(s.admin, s1).unwrap().unwrap();
    s.pause.approve_pause_proposal(s2, id).unwrap();
    s.pause.execute_pause_proposal(id).unwrap();
    assert_eq!(s.pause.unpause(s.admin, ADMIN), Ok(None));
    assert!(!s.pause.is_paused());
}

#[test]
fn non_signer_cannot_propose_and_threshold_is_bounded() {
    let (mut s, _) = setup_two_signers();
    assert_eq!(s.pause.pause(s.admin, 99), Err(ContractError::NotSigner));
    assert_eq!(s.pause.set_pause_threshold(s.admin, ADMIN, 3), Err(ContractError::ThresholdExceedsSigners));
    assert_eq!(s.pause.set_pause_threshold(s.admin, ADMIN, 0), Err(ContractError::InvalidPauseAction));
    assert_eq!(s.pause.set_pause_signer(s.admin, 99, 5, true), Err(ContractError::NotAdmin));
}
