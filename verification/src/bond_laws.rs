//! Properties of the bond contract that span its operations: the protocol
//! invariants every entry point maintains, the reentrancy lock, slashing
//! bounds, the permanence of liquidation and nonce replay protection.
use vstd::prelude::*;
use crate::AccountId;
use crate::bond_contract::{
    active_count, bond_drift, code, has_duplicate, is_duplicate, lemma_subject_list_len, nonce_error, notice_refusal,
    subject_ids,
    withdraw_callback, BondModel,
    empty_bond_model, spec_add_attestation, spec_collect_fees, spec_create_bond, spec_deposit_fees,
    spec_extend_duration, spec_initialize, spec_liquidate, spec_register_attester, spec_renew_if_rolling,
    spec_request_withdrawal, spec_revoke_attestation, spec_set_attester_stake, spec_set_early_exit_config,
    spec_release_lock, spec_set_callback, spec_set_liquidation_treasury, spec_set_weight_config, spec_slash, spec_slash_bond, spec_top_up,
    spec_unregister_attester, spec_unslash_bond, spec_withdraw, spec_withdraw_bond, spec_withdraw_early, weight_spec,
};
use crate::bond_types::{AttestationView, IdentityBond, Ledger, LiquidationReason, WeightConfig};
use crate::errors::ContractError;

verus! {

/// The bond invariants: no drift of the balances, a pending withdrawal only on
/// a rolling bond, and a rolling bond's notice period within its duration.
pub open spec fn bond_ok(b: IdentityBond) -> bool {
    &&& !bond_drift(b)
    &&& (b.withdrawal_requested_at == 0 || b.is_rolling)
    &&& (b.is_rolling && b.notice_period_duration != 0 ==> b.notice_period_duration <= b.bond_duration)
}

/// The protocol invariants of the bond contract: the stored bond satisfies
/// [`bond_ok`], every attestation sits at the position of its id, and every
/// subject's stored count equals its number of live attestations.
pub open spec fn bond_wf(m: BondModel) -> bool {
    &&& match m.bond {
        None => true,
        Some(b) => bond_ok(b),
    }
    &&& ids_ok(m.attestations)
    &&& counts_ok(m.attestations, m.subject_counts)
}

/// Every attestation sits at the position of its id.
pub open spec fn ids_ok(atts: Seq<AttestationView>) -> bool {
    forall|i: int| 0 <= i < atts.len() ==> #[trigger] atts[i].id == i
}

/// Every subject's stored count (0 when absent) equals its live attestations.
pub open spec fn counts_ok(atts: Seq<AttestationView>, counts: Map<AccountId, u32>) -> bool {
    forall|s: AccountId| #[trigger] count_in(counts, s) == active_count(atts, s)
}

pub open spec fn count_in(counts: Map<AccountId, u32>, s: AccountId) -> u32 {
    if counts.contains_key(s) { counts[s] } else { 0 }
}

proof fn lemma_active_count_push(atts: Seq<AttestationView>, a: AttestationView, s: AccountId)
    ensures
        active_count(atts.push(a), s) == active_count(atts, s) + if a.identity == s && !a.revoked { 1nat } else { 0nat },
{
    assert(atts.push(a).drop_last() =~= atts);
}

proof fn lemma_active_count_update(atts: Seq<AttestationView>, i: int, a: AttestationView, s: AccountId)
    requires
        0 <= i < atts.len(),
    ensures
        active_count(atts.update(i, a), s) + (if atts[i].identity == s && !atts[i].revoked { 1nat } else { 0nat })
            == active_count(atts, s) + (if a.identity == s && !a.revoked { 1nat } else { 0nat }),
    decreases atts.len(),
{
    if i == atts.len() - 1 {
        assert(atts.update(i, a).drop_last() =~= atts.drop_last());
    } else {
        lemma_active_count_update(atts.drop_last(), i, a, s);
        assert(atts.update(i, a).drop_last() =~= atts.drop_last().update(i, a));
    }
}

proof fn lemma_active_count_positive(atts: Seq<AttestationView>, i: int)
    requires
        0 <= i < atts.len(),
        !atts[i].revoked,
    ensures
        active_count(atts, atts[i].identity) >= 1,
    decreases atts.len(),
{
    if i < atts.len() - 1 {
        lemma_active_count_positive(atts.drop_last(), i);
    }
}

/// A freshly deployed contract satisfies the invariants.
pub proof fn lemma_empty_bond_wf()
    ensures
        bond_wf(empty_bond_model()),
{
}

/// Creating a bond keeps the invariants whenever the requested notice period
/// of a rolling bond fits in its duration.
pub proof fn lemma_create_bond_preserves_wf(
    m: BondModel,
    identity: AccountId,
    amount: i128,
    duration: u64,
    is_rolling: bool,
    notice: u64,
    ledger: Ledger,
)
    requires
        bond_wf(m),
        is_rolling && notice != 0 ==> notice <= duration,
    ensures
        bond_wf(spec_create_bond(m, identity, amount, duration, is_rolling, notice, ledger).1),
{
}

/// Every balance-changing entry point keeps the invariants.
pub proof fn lemma_balance_ops_preserve_wf(
    m: BondModel,
    caller: AccountId,
    amount: i128,
    additional: u64,
    ledger: Ledger,
)
    requires
        bond_wf(m),
    ensures
        bond_wf(spec_top_up(m, amount, ledger).1),
        bond_wf(spec_extend_duration(m, additional).1),
        bond_wf(spec_withdraw(m, amount, ledger).1),
        bond_wf(spec_withdraw_early(m, amount, ledger).1),
        bond_wf(spec_request_withdrawal(m, ledger).1),
        bond_wf(spec_renew_if_rolling(m, ledger).1),
        bond_wf(spec_withdraw_bond(m, caller, ledger).1),
        bond_wf(spec_slash_bond(m, caller, amount).1),
        bond_wf(spec_collect_fees(m, caller).1),
        bond_wf(spec_liquidate(m, caller, ledger).1),
        bond_wf(spec_slash(m, caller, amount, ledger).1),
        bond_wf(spec_unslash_bond(m, caller, amount).1),
        bond_wf(spec_deposit_fees(m, amount).1),
{
}

/// Adding an attestation keeps the invariants: its id is its position and
/// the subject's count grows with its live attestations.
pub proof fn lemma_add_attestation_preserves_wf(
    m: BondModel,
    attester: AccountId,
    subject: AccountId,
    data: Seq<u8>,
    nonce: u64,
    ledger: Ledger,
)
    requires
        bond_wf(m),
    ensures
        bond_wf(spec_add_attestation(m, attester, subject, data, nonce, ledger).1),
{
    let (r, n) = spec_add_attestation(m, attester, subject, data, nonce, ledger);
    if r is Ok {
        let a = n.attestations.last();
        assert(n.attestations == m.attestations.push(a));
        assert forall|s: AccountId| #[trigger] count_in(n.subject_counts, s) == active_count(n.attestations, s) by {
            lemma_active_count_push(m.attestations, a, s);
            assert(count_in(m.subject_counts, s) == active_count(m.attestations, s));
            if s == subject {
                assert(!n.count_drift(s));
            }
        }
        assert forall|i: int| 0 <= i < n.attestations.len() implies #[trigger] n.attestations[i].id == i by {
            if i < m.attestations.len() {
                assert(n.attestations[i] == m.attestations[i]);
            }
        }
    }
}

/// Revoking an attestation keeps the invariants: the subject's count drops
/// with its live attestations.
pub proof fn lemma_revoke_attestation_preserves_wf(m: BondModel, attester: AccountId, id: u64, nonce: u64)
    requires
        bond_wf(m),
    ensures
        bond_wf(spec_revoke_attestation(m, attester, id, nonce).1),
{
    let (r, n) = spec_revoke_attestation(m, attester, id, nonce);
    if r is Ok {
        let i = id as int;
        let a = m.attestations[i];
        let na = AttestationView { revoked: true, ..a };
        assert(n.attestations == m.attestations.update(i, na));
        lemma_active_count_positive(m.attestations, i);
        assert forall|s: AccountId| #[trigger] count_in(n.subject_counts, s) == active_count(n.attestations, s) by {
            lemma_active_count_update(m.attestations, i, na, s);
            assert(count_in(m.subject_counts, s) == active_count(m.attestations, s));
        }
        assert forall|j: int| 0 <= j < n.attestations.len() implies #[trigger] n.attestations[j].id == j by {
            assert(m.attestations[j].id == j);
        }
    }
}

/// The configuration entry points keep the invariants.
pub proof fn lemma_config_ops_preserve_wf(m: BondModel, caller: AccountId, other: AccountId, x: u32, y: u32, amount: i128)
    requires
        bond_wf(m),
    ensures
        bond_wf(spec_initialize(m, caller).1),
        bond_wf(spec_set_early_exit_config(m, caller, other, x).1),
        bond_wf(spec_register_attester(m, other).1),
        bond_wf(spec_unregister_attester(m, other).1),
        bond_wf(spec_set_attester_stake(m, caller, other, amount).1),
        bond_wf(spec_set_weight_config(m, caller, x, y).1),
        bond_wf(spec_set_liquidation_treasury(m, caller, other).1),
        bond_wf(spec_set_callback(m, caller, other).1),
{
}

/// While the reentrancy lock is held (a callback is running), every
/// lock-taking entry point is refused with `ReentrancyDetected` and changes nothing.
pub proof fn lemma_reentrancy_blocked(m: BondModel, caller: AccountId, amount: i128, ledger: Ledger)
    requires
        m.locked,
    ensures
        spec_withdraw_bond(m, caller, ledger) == (code::<(i128, Option<crate::bond_types::Callback>)>(
            ContractError::ReentrancyDetected,
        ), m),
        spec_slash_bond(m, caller, amount) == (code::<(i128, Option<crate::bond_types::Callback>)>(
            ContractError::ReentrancyDetected,
        ), m),
        spec_collect_fees(m, caller) == (code::<(i128, Option<crate::bond_types::Callback>)>(
            ContractError::ReentrancyDetected,
        ), m),
        spec_liquidate(m, caller, ledger) == (code::<crate::bond_types::Liquidation>(ContractError::ReentrancyDetected), m),
{
}

/// After an accepted full withdrawal, slash or fee collection the lock is
/// held exactly when a callback must be made, and the callback carries the
/// amount; without a callback the lock is already released.
pub proof fn lemma_lock_held_only_for_callback(m: BondModel, caller: AccountId, amount: i128, ledger: Ledger)
    ensures
        spec_withdraw_bond(m, caller, ledger).0 matches Ok((v, cb)) ==> {
            &&& spec_withdraw_bond(m, caller, ledger).1.locked == cb is Some
            &&& cb is Some ==> cb == withdraw_callback(m, v)
        },
        spec_slash_bond(m, caller, amount).0 matches Ok((v, cb)) ==> spec_slash_bond(m, caller, amount).1.locked
            == cb is Some,
        spec_collect_fees(m, caller).0 matches Ok((v, cb)) ==> {
            &&& spec_collect_fees(m, caller).1.locked == cb is Some
            &&& spec_collect_fees(m, caller).1.fees == 0
        },
{
}

/// Once the host has made the callback of a guarded call and released the
/// lock, the lock is free, nothing else has changed, and no guarded entry
/// point is refused for reentrancy.
pub proof fn lemma_release_lock_frees_guarded_calls(m: BondModel, caller: AccountId, amount: i128, ledger: Ledger)
    ensures
        ({
            let n = spec_release_lock(m);
            &&& !n.locked
            &&& n == (BondModel { locked: false, ..m })
            &&& spec_withdraw_bond(n, caller, ledger).0 != code::<(i128, Option<crate::bond_types::Callback>)>(
                ContractError::ReentrancyDetected,
            )
            &&& spec_slash_bond(n, caller, amount).0 != code::<(i128, Option<crate::bond_types::Callback>)>(
                ContractError::ReentrancyDetected,
            )
            &&& spec_collect_fees(n, caller).0 != code::<(i128, Option<crate::bond_types::Callback>)>(
                ContractError::ReentrancyDetected,
            )
            &&& spec_liquidate(n, caller, ledger).0 != code::<crate::bond_types::Liquidation>(
                ContractError::ReentrancyDetected,
            )
        }),
{
}

/// A withdrawal of more than the available balance (bonded minus slashed) is
/// refused with `InsufficientBalance`, in or after the lock-up, and changes
/// nothing; an accepted one takes exactly `amount` off the bonded amount.
pub proof fn lemma_withdraw_within_available(m: BondModel, amount: i128, ledger: Ledger)
    requires
        bond_wf(m),
        m.bond is Some,
    ensures
        ({
            let b = m.bond.unwrap();
            let (r, n) = spec_withdraw(m, amount, ledger);
            &&& amount > b.bonded_amount - b.slashed_amount ==> r == code::<IdentityBond>(
                ContractError::InsufficientBalance,
            ) && n == m
            &&& r is Ok ==> {
                &&& amount <= b.bonded_amount - b.slashed_amount
                &&& r->Ok_0 == IdentityBond { bonded_amount: (b.bonded_amount - amount) as i128, ..b }
                &&& n.bond == Some(r->Ok_0)
            }
        }),
{
}

/// Slashing never decreases the slashed total and never takes it beyond the
/// bonded amount.
pub proof fn lemma_slash_monotone_and_bounded(m: BondModel, admin: AccountId, amount: i128, ledger: Ledger)
    requires
        bond_wf(m),
        m.bond is Some,
    ensures
        spec_slash(m, admin, amount, ledger).0 matches Ok(nb) ==> {
            &&& nb.slashed_amount >= m.bond.unwrap().slashed_amount
            &&& nb.slashed_amount <= nb.bonded_amount
            &&& nb.bonded_amount == m.bond.unwrap().bonded_amount
        },
        spec_slash_bond(m, admin, amount).0 matches Ok((total, cb)) ==> total <= m.bond.unwrap().bonded_amount,
{
}

/// A liquidated identity stays liquidated: no entry point resets the flag.
pub proof fn lemma_liquidation_is_permanent(
    m: BondModel,
    who: AccountId,
    caller: AccountId,
    other: AccountId,
    amount: i128,
    additional: u64,
    nonce: u64,
    data: Seq<u8>,
    ledger: Ledger,
)
    requires
        m.is_liquidated(who),
    ensures
        spec_create_bond(m, caller, amount, additional, true, nonce, ledger).1.is_liquidated(who),
        spec_top_up(m, amount, ledger).1.is_liquidated(who),
        spec_withdraw(m, amount, ledger).1.is_liquidated(who),
        spec_withdraw_early(m, amount, ledger).1.is_liquidated(who),
        spec_withdraw_bond(m, caller, ledger).1.is_liquidated(who),
        spec_slash(m, caller, amount, ledger).1.is_liquidated(who),
        spec_slash_bond(m, caller, amount).1.is_liquidated(who),
        spec_liquidate(m, caller, ledger).1.is_liquidated(who),
        spec_add_attestation(m, caller, other, data, nonce, ledger).1.is_liquidated(who),
        spec_revoke_attestation(m, caller, nonce, nonce).1.is_liquidated(who),
{
}

/// A bond is liquidated at most once: liquidation closes it, and an inactive
/// bond is refused with `BondNotActive`.
pub proof fn lemma_liquidation_at_most_once(m: BondModel, admin: AccountId, l1: Ledger, l2: Ledger)
    requires
        spec_liquidate(m, admin, l1).0 is Ok,
    ensures
        spec_liquidate(spec_liquidate(m, admin, l1).1, admin, l2).0 == code::<crate::bond_types::Liquidation>(
            ContractError::BondNotActive,
        ),
{
}

/// An accepted attestation or revocation consumes the attester's nonce, so
/// replaying the same nonce is refused.
pub proof fn lemma_nonce_replay_refused(
    m: BondModel,
    attester: AccountId,
    subject: AccountId,
    data: Seq<u8>,
    nonce: u64,
    ledger: Ledger,
    id: u64,
)
    ensures
        spec_add_attestation(m, attester, subject, data, nonce, ledger).0 is Ok ==> {
            let n = spec_add_attestation(m, attester, subject, data, nonce, ledger).1;
            &&& n.nonce_of(attester) == nonce + 1
            &&& spec_add_attestation(n, attester, subject, data, nonce, ledger).0 == code::<AttestationView>(
                ContractError::InvalidNonce,
            )
        },
        spec_revoke_attestation(m, attester, id, nonce).0 is Ok ==> {
            let n = spec_revoke_attestation(m, attester, id, nonce).1;
            &&& n.nonce_of(attester) == nonce + 1
            &&& spec_revoke_attestation(n, attester, id, nonce).0 == code::<()>(ContractError::InvalidNonce)
        },
{
}

/// An accepted attestation had no live duplicate, and the same attestation
/// cannot be added twice while it is live.
pub proof fn lemma_no_live_duplicates(
    m: BondModel,
    attester: AccountId,
    subject: AccountId,
    data: Seq<u8>,
    nonce: u64,
    ledger: Ledger,
)
    ensures
        spec_add_attestation(m, attester, subject, data, nonce, ledger).0 is Ok ==> {
            let n = spec_add_attestation(m, attester, subject, data, nonce, ledger).1;
            &&& !has_duplicate(m.attestations, attester, subject, data)
            &&& has_duplicate(n.attestations, attester, subject, data)
        },
{
    let (r, n) = spec_add_attestation(m, attester, subject, data, nonce, ledger);
    if r is Ok {
        let k = n.attestations.len() - 1;
        assert(is_duplicate(n.attestations[k], attester, subject, data));
    }
}

/// A slash in the same ledger as a top-up of the collateral is refused and
/// changes nothing; in any later ledger the top-up no longer blocks it.
pub proof fn lemma_slash_blocked_in_top_up_ledger(
    m: BondModel,
    amount: i128,
    admin: AccountId,
    slash_amount: i128,
    ledger: Ledger,
    later: Ledger,
)
    requires
        spec_top_up(m, amount, ledger).0 is Ok,
    ensures
        ({
            let n = spec_top_up(m, amount, ledger).1;
            &&& spec_slash(n, admin, slash_amount, ledger).0 is Err
            &&& spec_slash(n, admin, slash_amount, ledger).1 == n
            &&& later.sequence != ledger.sequence ==> n.last_collateral_increase_ledger != Some(later.sequence)
        }),
{
}

/// A refused call leaves the contract exactly as it was: every entry point
/// either succeeds or changes nothing.
pub proof fn lemma_refused_calls_change_nothing(
    m: BondModel,
    caller: AccountId,
    other: AccountId,
    amount: i128,
    x: u32,
    y: u32,
    duration: u64,
    flag: bool,
    nonce: u64,
    id: u64,
    data: Seq<u8>,
    ledger: Ledger,
)
    ensures
        spec_initialize(m, caller).0 is Err ==> spec_initialize(m, caller).1 == m,
        spec_set_early_exit_config(m, caller, other, x).0 is Err ==> spec_set_early_exit_config(m, caller, other, x).1 == m,
        spec_register_attester(m, other).0 is Err ==> spec_register_attester(m, other).1 == m,
        spec_unregister_attester(m, other).0 is Err ==> spec_unregister_attester(m, other).1 == m,
        spec_create_bond(m, caller, amount, duration, flag, nonce, ledger).0 is Err
            ==> spec_create_bond(m, caller, amount, duration, flag, nonce, ledger).1 == m,
        spec_set_attester_stake(m, caller, other, amount).0 is Err ==> spec_set_attester_stake(m, caller, other, amount).1 == m,
        spec_set_weight_config(m, caller, x, y).0 is Err ==> spec_set_weight_config(m, caller, x, y).1 == m,
        spec_top_up(m, amount, ledger).0 is Err ==> spec_top_up(m, amount, ledger).1 == m,
        spec_extend_duration(m, duration).0 is Err ==> spec_extend_duration(m, duration).1 == m,
        spec_deposit_fees(m, amount).0 is Err ==> spec_deposit_fees(m, amount).1 == m,
        spec_set_liquidation_treasury(m, caller, other).0 is Err ==> spec_set_liquidation_treasury(m, caller, other).1 == m,
        spec_set_callback(m, caller, other).0 is Err ==> spec_set_callback(m, caller, other).1 == m,
        spec_withdraw(m, amount, ledger).0 is Err ==> spec_withdraw(m, amount, ledger).1 == m,
        spec_withdraw_early(m, amount, ledger).0 is Err ==> spec_withdraw_early(m, amount, ledger).1 == m,
        spec_request_withdrawal(m, ledger).0 is Err ==> spec_request_withdrawal(m, ledger).1 == m,
        spec_renew_if_rolling(m, ledger).0 is Err ==> spec_renew_if_rolling(m, ledger).1 == m,
        spec_add_attestation(m, caller, other, data, nonce, ledger).0 is Err
            ==> spec_add_attestation(m, caller, other, data, nonce, ledger).1 == m,
        spec_revoke_attestation(m, caller, id, nonce).0 is Err ==> spec_revoke_attestation(m, caller, id, nonce).1 == m,
        spec_withdraw_bond(m, caller, ledger).0 is Err ==> spec_withdraw_bond(m, caller, ledger).1 == m,
        spec_slash_bond(m, caller, amount).0 is Err ==> spec_slash_bond(m, caller, amount).1 == m,
        spec_collect_fees(m, caller).0 is Err ==> spec_collect_fees(m, caller).1 == m,
        spec_liquidate(m, caller, ledger).0 is Err ==> spec_liquidate(m, caller, ledger).1 == m,
        spec_slash(m, caller, amount, ledger).0 is Err ==> spec_slash(m, caller, amount, ledger).1 == m,
        spec_unslash_bond(m, caller, amount).0 is Err ==> spec_unslash_bond(m, caller, amount).1 == m,
{
}

proof fn lemma_subject_ids_members(atts: Seq<AttestationView>, subject: AccountId, x: u64)
    requires
        ids_ok(atts),
        subject_ids(atts, subject).contains(x),
    ensures
        x < atts.len(),
        atts[x as int].identity == subject,
        !atts[x as int].revoked,
    decreases atts.len(),
{
    let p = atts.drop_last();
    assert forall|i: int| 0 <= i < p.len() implies #[trigger] p[i].id == i by {
        assert(p[i] == atts[i]);
    }
    let last = atts.last();
    if last.identity == subject && !last.revoked {
        let q = subject_ids(p, subject);
        let k = choose|k: int| 0 <= k < q.push(last.id).len() && q.push(last.id)[k] == x;
        if k < q.len() {
            assert(q[k] == x);
            lemma_subject_ids_members(p, subject, x);
            assert(atts[x as int] == p[x as int]);
        } else {
            assert(atts[atts.len() - 1].id == atts.len() - 1);
        }
    } else {
        lemma_subject_ids_members(p, subject, x);
        assert(atts[x as int] == p[x as int]);
    }
}

/// Revoking a live attestation succeeds (when the invariants hold and the
/// nonce is the expected one): it marks the attestation revoked, takes its id
/// off the subject's attestation list, lowers the subject's count by one so
/// that the count still equals the list's length (I7), and consumes the nonce.
pub proof fn lemma_revocation_takes_id_off_list(m: BondModel, attester: AccountId, id: u64, nonce: u64)
    requires
        bond_wf(m),
        nonce_error(m, attester, nonce) is None,
        id < m.attestations.len(),
        m.attestations[id as int].verifier == attester,
        !m.attestations[id as int].revoked,
    ensures
        ({
            let (r, n) = spec_revoke_attestation(m, attester, id, nonce);
            let s = m.attestations[id as int].identity;
            &&& r is Ok
            &&& n.attestations[id as int].revoked
            &&& !subject_ids(n.attestations, s).contains(id)
            &&& subject_ids(n.attestations, s).len() + 1 == subject_ids(m.attestations, s).len()
            &&& n.count_of(s) == subject_ids(n.attestations, s).len()
            &&& n.nonce_of(attester) == nonce + 1
        }),
{
    lemma_revoke_attestation_preserves_wf(m, attester, id, nonce);
    let i = id as int;
    let a = m.attestations[i];
    let s = a.identity;
    let na = AttestationView { revoked: true, ..a };
    let atts2 = m.attestations.update(i, na);
    lemma_active_count_update(m.attestations, i, na, s);
    lemma_active_count_positive(m.attestations, i);
    lemma_subject_list_len(m.attestations, s);
    lemma_subject_list_len(atts2, s);
    assert(count_in(m.subject_counts, s) == active_count(m.attestations, s));
    let count = m.count_of(s);
    let new = BondModel {
        nonces: m.nonces.insert(attester, (nonce + 1) as u64),
        attestations: atts2,
        subject_counts: m.subject_counts.insert(s, if count == 0 { 0 } else { (count - 1) as u32 }),
        ..m
    };
    assert(count_in(new.subject_counts, s) == active_count(atts2, s));
    if m.bond is Some {
        let t = m.bond.unwrap().identity;
        lemma_active_count_update(m.attestations, i, na, t);
        assert(count_in(m.subject_counts, t) == active_count(m.attestations, t));
        assert(!new.count_drift(t));
    }
    assert(!new.inconsistent_for(s));
    let (r, n) = spec_revoke_attestation(m, attester, id, nonce);
    assert(n == new);
    assert(ids_ok(atts2)) by {
        assert forall|j: int| 0 <= j < atts2.len() implies #[trigger] atts2[j].id == j by {
            assert(m.attestations[j].id == j);
        }
    }
    if subject_ids(atts2, s).contains(id) {
        lemma_subject_ids_members(atts2, s, id);
    }
    assert(count_in(n.subject_counts, s) == active_count(n.attestations, s));
}

/// A full withdrawal by the owner of an active bond (with the lock free, the
/// invariants holding and, for a rolling bond, the notice period served)
/// succeeds and pays `bonded - slashed`, also after slashing; the closed bond
/// keeps neither a bonded nor a slashed amount.
pub proof fn lemma_withdraw_bond_pays_available(m: BondModel, identity: AccountId, ledger: Ledger)
    requires
        bond_wf(m),
        !m.locked,
        m.bond is Some,
        m.bond.unwrap().identity == identity,
        m.bond.unwrap().active,
        m.bond.unwrap().is_rolling ==> notice_refusal(m.bond.unwrap(), ledger.timestamp) is None,
    ensures
        ({
            let b = m.bond.unwrap();
            let amount = (b.bonded_amount - b.slashed_amount) as i128;
            let (r, n) = spec_withdraw_bond(m, identity, ledger);
            &&& r == Ok::<(i128, Option<crate::bond_types::Callback>), crate::errors::CallError>(
                (amount, withdraw_callback(m, amount)),
            )
            &&& n.bond == Some(IdentityBond { bonded_amount: 0, slashed_amount: 0, active: false, ..b })
        }),
{
    let b = m.bond.unwrap();
    assert(count_in(m.subject_counts, b.identity) == active_count(m.attestations, b.identity));
}

/// The end of a bond's lock-up, saturated at the largest timestamp.
pub open spec fn lockup_end(b: IdentityBond) -> int {
    if b.bond_start + b.bond_duration > u64::MAX { u64::MAX as int } else { b.bond_start + b.bond_duration }
}

/// The early-exit penalty is charged on the withdrawn amount alone: for a
/// non-negative amount it is `floor(floor(amount * bps / 10 000) * remaining /
/// duration)` with `remaining` the time left of the lock-up, so it never
/// exceeds `amount * bps / 10 000` once the bond has started, and it does not
/// depend on what stays bonded.  The withdrawn amount leaves the bond.
pub proof fn lemma_early_exit_penalty_on_withdrawn_amount(m: BondModel, amount: i128, ledger: Ledger)
    requires
        m.bond is Some,
        amount >= 0,
    ensures
        spec_withdraw_early(m, amount, ledger).0 matches Ok((nb, p)) ==> {
            let b = m.bond.unwrap();
            let bps = m.early_exit.unwrap().penalty_bps;
            let remaining = lockup_end(b) - ledger.timestamp;
            let charge = (amount * bps) / 10_000;
            &&& m.early_exit is Some
            &&& 0 < remaining
            &&& b.bond_duration > 0 ==> p == (charge * remaining) / (b.bond_duration as int)
            &&& b.bond_duration == 0 ==> p == 0
            &&& 0 <= p
            &&& ledger.timestamp >= b.bond_start ==> p <= charge
            &&& bps <= 10_000 && ledger.timestamp >= b.bond_start ==> p <= amount
            &&& nb.bonded_amount == b.bonded_amount - amount
            &&& nb == IdentityBond { bonded_amount: nb.bonded_amount, ..b }
        },
{
    let (r, n) = spec_withdraw_early(m, amount, ledger);
    if r is Ok {
        let b = m.bond.unwrap();
        let bps = m.early_exit.unwrap().penalty_bps;
        let remaining = lockup_end(b) - ledger.timestamp;
        let charge = (amount * bps) / 10_000;
        assert(amount * bps >= 0) by (nonlinear_arith)
            requires
                amount >= 0,
                bps >= 0,
        ;
        assert(charge >= 0);
        assert(charge * remaining >= 0) by (nonlinear_arith)
            requires
                charge >= 0,
                remaining >= 0,
        ;
        if b.bond_duration > 0 {
            assert((charge * remaining) / (b.bond_duration as int) >= 0) by (nonlinear_arith)
                requires
                    charge * remaining >= 0,
                    b.bond_duration > 0,
            ;
            if ledger.timestamp >= b.bond_start {
                assert(remaining <= b.bond_duration);
                assert(charge * remaining <= charge * b.bond_duration) by (nonlinear_arith)
                    requires
                        charge >= 0,
                        remaining <= b.bond_duration,
                ;
                assert((charge * remaining) / (b.bond_duration as int) <= charge) by (nonlinear_arith)
                    requires
                        charge * remaining <= charge * b.bond_duration,
                        b.bond_duration > 0,
                        charge >= 0,
                        remaining >= 0,
                ;
            }
        }
        if bps <= 10_000 {
            assert(amount * bps <= amount * 10_000) by (nonlinear_arith)
                requires
                    amount >= 0,
                    bps <= 10_000,
            ;
        }
    }
}

/// An early withdrawal of a non-negative amount within the available balance,
/// during the lock-up and with an early-exit configuration, succeeds whenever
/// the penalty arithmetic fits in an `i128`, whatever else is bonded.
pub proof fn lemma_early_exit_succeeds(m: BondModel, amount: i128, ledger: Ledger)
    requires
        bond_wf(m),
        m.bond is Some,
        m.early_exit is Some,
        0 <= amount <= m.bond.unwrap().bonded_amount - m.bond.unwrap().slashed_amount,
        ledger.timestamp < lockup_end(m.bond.unwrap()),
        amount * m.early_exit.unwrap().penalty_bps <= i128::MAX,
        (amount * m.early_exit.unwrap().penalty_bps) / 10_000 * (lockup_end(m.bond.unwrap()) - ledger.timestamp)
            <= i128::MAX,
    ensures
        spec_withdraw_early(m, amount, ledger).0 is Ok,
{
    let b = m.bond.unwrap();
    let bps = m.early_exit.unwrap().penalty_bps;
    let remaining = lockup_end(b) - ledger.timestamp;
    let charge = (amount * bps) / 10_000;
    assert(amount * bps >= 0) by (nonlinear_arith)
        requires
            amount >= 0,
            bps >= 0,
    ;
    assert(charge * remaining >= 0) by (nonlinear_arith)
        requires
            charge >= 0,
            remaining >= 0,
    ;
    assert(count_in(m.subject_counts, b.identity) == active_count(m.attestations, b.identity));
}

/// An attestation's weight, for a configured maximum of at least 1, lies
/// between 1 and that maximum: it is `stake * multiplier / 10 000` (1 for a
/// stake that is not positive) lifted to at least 1 and capped at the maximum,
/// and it never decreases as the stake grows.
pub proof fn lemma_weight_capped(stake: i128, other: i128, w: WeightConfig)
    requires
        w.max_weight >= 1,
    ensures
        1 <= weight_spec(stake, w) <= w.max_weight,
        stake <= 0 ==> weight_spec(stake, w) == 1,
        stake > 0 && (stake * w.multiplier_bps) / 10_000 >= w.max_weight ==> weight_spec(stake, w) == w.max_weight,
        stake > 0 && 1 <= (stake * w.multiplier_bps) / 10_000 < w.max_weight ==> weight_spec(stake, w) == (stake
            * w.multiplier_bps) / 10_000,
        stake > 0 && (stake * w.multiplier_bps) / 10_000 < 1 ==> weight_spec(stake, w) == 1,
        stake <= other ==> weight_spec(stake, w) <= weight_spec(other, w),
{
    if 0 < stake <= other {
        assert(stake * w.multiplier_bps <= other * w.multiplier_bps) by (nonlinear_arith)
            requires
                0 < stake <= other,
                w.multiplier_bps >= 0,
        ;
        assert((stake * w.multiplier_bps) / 10_000 <= (other * w.multiplier_bps) / 10_000) by (nonlinear_arith)
            requires
                stake * w.multiplier_bps <= other * w.multiplier_bps,
        ;
    }
}

/// An accepted attestation carries its attester's weight: at least 1, at most
/// the configured maximum weight.  No attestation is ever refused for a weight
/// over the maximum, and one is refused as of invalid weight only under a
/// configured maximum of 0.
pub proof fn lemma_attestation_weight_within_max(
    m: BondModel,
    attester: AccountId,
    subject: AccountId,
    data: Seq<u8>,
    nonce: u64,
    ledger: Ledger,
)
    ensures
        ({
            let (r, n) = spec_add_attestation(m, attester, subject, data, nonce, ledger);
            &&& r != code::<AttestationView>(ContractError::AttestationWeightExceedsMax)
            &&& r == code::<AttestationView>(ContractError::InvalidAttestationWeight) ==> m.weights().max_weight == 0
            &&& m.weights().max_weight == 0 ==> r is Err
            &&& r matches Ok(a) ==> {
                &&& 1 <= a.weight <= m.weights().max_weight
                &&& a.weight == weight_spec(m.stake_of(attester), m.weights())
            }
        }),
{
    if m.weights().max_weight >= 1 {
        lemma_weight_capped(m.stake_of(attester), m.stake_of(attester), m.weights());
    }
}

/// A bond is liquidated only when it is fully slashed or is a fixed-duration
/// bond past its lock-up: a rolling bond with something left unslashed is
/// never liquidated, and the reason given says which of the two holds.
pub proof fn lemma_liquidation_only_when_eligible(m: BondModel, admin: AccountId, ledger: Ledger)
    requires
        m.bond is Some,
    ensures
        spec_liquidate(m, admin, ledger).0 matches Ok(l) ==> {
            let b = m.bond.unwrap();
            &&& b.slashed_amount >= b.bonded_amount || (!b.is_rolling && ledger.timestamp >= lockup_end(b))
            &&& l.reason == LiquidationReason::FullySlashed <==> b.slashed_amount >= b.bonded_amount
            &&& l.reason == LiquidationReason::ExpiredUnrenewed ==> !b.is_rolling && ledger.timestamp >= lockup_end(b)
        },
        m.bond.unwrap().is_rolling && m.bond.unwrap().slashed_amount < m.bond.unwrap().bonded_amount
            ==> spec_liquidate(m, admin, ledger).0 is Err,
{
}

/// The admin liquidates an active bond (with the lock free and the
/// invariants holding) whenever it is fully slashed or a fixed-duration bond
/// past its lock-up; the bond is closed and its identity marked liquidated.
pub proof fn lemma_eligible_bond_is_liquidated(m: BondModel, admin: AccountId, ledger: Ledger)
    requires
        bond_wf(m),
        !m.locked,
        m.admin == Some(admin),
        m.bond is Some,
        m.bond.unwrap().active,
        m.bond.unwrap().slashed_amount >= m.bond.unwrap().bonded_amount || (!m.bond.unwrap().is_rolling
            && ledger.timestamp >= lockup_end(m.bond.unwrap())),
    ensures
        spec_liquidate(m, admin, ledger).0 is Ok,
        spec_liquidate(m, admin, ledger).1.bond == Some(IdentityBond { active: false, ..m.bond.unwrap() }),
        spec_liquidate(m, admin, ledger).1.is_liquidated(m.bond.unwrap().identity),
{
    let b = m.bond.unwrap();
    assert(count_in(m.subject_counts, b.identity) == active_count(m.attestations, b.identity));
}

} // verus!
