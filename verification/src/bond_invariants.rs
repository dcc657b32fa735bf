//! The seven protocol invariants of the bond contract as executable checks:
//!
//! * I1 – the attestation weights of a subject sum to a non-negative value;
//! * I2 – the slashed amount never exceeds the bonded amount;
//! * I3 – a withdrawal request implies a rolling bond;
//! * I4 – the bonded amount is non-negative;
//! * I5 – the slashed amount is non-negative;
//! * I6 – a rolling bond's notice period (when set) is within its duration;
//! * I7 – a subject's stored attestation count, when present, equals the
//!   length of its attestation list (the ids of its live attestations).
//!
//! Each check reports the first invariant that fails.
use vstd::prelude::*;
use crate::AccountId;
use crate::bond_contract::{active_count, lemma_subject_list_len, subject_ids, BondModel, CredenceBond};
use crate::bond_laws::{bond_ok, bond_wf, count_in};
use crate::bond_types::{AttestationView, IdentityBond};

verus! {

/// The invariant a check found broken.
#[derive(Clone, Copy, Debug, PartialEq, Eq, Structural)]
pub enum InvariantViolation {
    AttestationWeightSumNegative,
    SlashedExceedsBonded,
    WithdrawalRequestNotRolling,
    BondedNegative,
    SlashedNegative,
    NoticePeriodExceedsDuration,
    AttestationCountMismatch,
}

/// The first of I2–I6 that `b` breaks.
pub open spec fn bond_violation(b: IdentityBond) -> Option<InvariantViolation> {
    if b.slashed_amount > b.bonded_amount {
        Some(InvariantViolation::SlashedExceedsBonded)
    } else if !(b.withdrawal_requested_at == 0 || b.is_rolling) {
        Some(InvariantViolation::WithdrawalRequestNotRolling)
    } else if b.bonded_amount < 0 {
        Some(InvariantViolation::BondedNegative)
    } else if b.slashed_amount < 0 {
        Some(InvariantViolation::SlashedNegative)
    } else if b.is_rolling && b.notice_period_duration != 0 && b.notice_period_duration > b.bond_duration {
        Some(InvariantViolation::NoticePeriodExceedsDuration)
    } else {
        None
    }
}

pub open spec fn as_result(v: Option<InvariantViolation>) -> Result<(), InvariantViolation> {
    match v {
        Some(e) => Err(e),
        None => Ok(()),
    }
}

/// Sum of the weights of the attestations on the list of `subject`.
pub open spec fn weight_total(atts: Seq<AttestationView>, subject: AccountId) -> int
    decreases atts.len(),
{
    if atts.len() == 0 {
        0
    } else {
        weight_total(atts.drop_last(), subject) + if atts.last().identity == subject && !atts.last().revoked {
            atts.last().weight as int
        } else {
            0
        }
    }
}

proof fn lemma_weight_total_bounds(atts: Seq<AttestationView>, subject: AccountId)
    ensures
        0 <= weight_total(atts, subject) <= atts.len() * (u32::MAX as int),
    decreases atts.len(),
{
    if atts.len() > 0 {
        lemma_weight_total_bounds(atts.drop_last(), subject);
    }
}

/// I2: the slashed amount never exceeds the bonded amount.
pub fn assert_slashed_within_bonded(bond: &IdentityBond) -> (r: Result<(), InvariantViolation>)
    ensures
        r == if bond.slashed_amount <= bond.bonded_amount {
            Ok::<(), InvariantViolation>(())
        } else {
            Err(InvariantViolation::SlashedExceedsBonded)
        },
{
    if bond.slashed_amount <= bond.bonded_amount {
        Ok(())
    } else {
        Err(InvariantViolation::SlashedExceedsBonded)
    }
}

/// I3: only a rolling bond carries a withdrawal request.
pub fn assert_withdrawal_request_requires_rolling(bond: &IdentityBond) -> (r: Result<(), InvariantViolation>)
    ensures
        r == if bond.withdrawal_requested_at == 0 || bond.is_rolling {
            Ok::<(), InvariantViolation>(())
        } else {
            Err(InvariantViolation::WithdrawalRequestNotRolling)
        },
{
    if bond.withdrawal_requested_at == 0 || bond.is_rolling {
        Ok(())
    } else {
        Err(InvariantViolation::WithdrawalRequestNotRolling)
    }
}

/// I4: the bonded amount is non-negative.
pub fn assert_bonded_non_negative(bond: &IdentityBond) -> (r: Result<(), InvariantViolation>)
    ensures
        r == if bond.bonded_amount >= 0 {
            Ok::<(), InvariantViolation>(())
        } else {
            Err(InvariantViolation::BondedNegative)
        },
{
    if bond.bonded_amount >= 0 {
        Ok(())
    } else {
        Err(InvariantViolation::BondedNegative)
    }
}

/// I5: the slashed amount is non-negative.
pub fn assert_slashed_non_negative(bond: &IdentityBond) -> (r: Result<(), InvariantViolation>)
    ensures
        r == if bond.slashed_amount >= 0 {
            Ok::<(), InvariantViolation>(())
        } else {
            Err(InvariantViolation::SlashedNegative)
        },
{
    if bond.slashed_amount >= 0 {
        Ok(())
    } else {
        Err(InvariantViolation::SlashedNegative)
    }
}

/// I6: a rolling bond's notice period, when set, is within its duration.
pub fn assert_notice_period_bounded(bond: &IdentityBond) -> (r: Result<(), InvariantViolation>)
    ensures
        r == if bond.is_rolling && bond.notice_period_duration != 0 && bond.notice_period_duration > bond.bond_duration {
            Err::<(), InvariantViolation>(InvariantViolation::NoticePeriodExceedsDuration)
        } else {
            Ok(())
        },
{
    if bond.is_rolling && bond.notice_period_duration != 0 && bond.notice_period_duration > bond.bond_duration {
        Err(InvariantViolation::NoticePeriodExceedsDuration)
    } else {
        Ok(())
    }
}

/// I2–I6 of one bond, in that order.
pub fn assert_bond_invariants(bond: &IdentityBond) -> (r: Result<(), InvariantViolation>)
    ensures
        r == as_result(bond_violation(*bond)),
        r is Ok <==> bond_ok(*bond),
{
    if let Err(e) = assert_slashed_within_bonded(bond) {
        return Err(e);
    }
    if let Err(e) = assert_withdrawal_request_requires_rolling(bond) {
        return Err(e);
    }
    if let Err(e) = assert_bonded_non_negative(bond) {
        return Err(e);
    }
    if let Err(e) = assert_slashed_non_negative(bond) {
        return Err(e);
    }
    assert_notice_period_bounded(bond)
}

/// The stored bond, if any.
pub fn try_load_bond(c: &CredenceBond) -> (b: Option<IdentityBond>)
    ensures
        b == c@.bond,
{
    c.bond
}

/// The stored bond; a bond must exist.
pub fn load_bond(c: &CredenceBond) -> (b: IdentityBond)
    requires
        c@.bond is Some,
    ensures
        b == c@.bond.unwrap(),
{
    c.bond.unwrap()
}

/// Sum of the weights of the attestations on the list of `subject`.
pub fn attestation_weight_sum(c: &CredenceBond, subject: AccountId) -> (s: i128)
    ensures
        s == weight_total(c@.attestations, subject),
        s >= 0,
{
    let ghost views = c@.attestations;
    let mut sum: i128 = 0;
    let mut i: usize = 0;
    while i < c.attestations.len()
        invariant
            i <= c.attestations@.len(),
            views == c@.attestations,
            views.len() == c.attestations@.len(),
            forall|k: int| 0 <= k < views.len() ==> #[trigger] views[k] == c.attestations@[k]@,
            sum == weight_total(views.take(i as int), subject),
        decreases c.attestations@.len() - i,
    {
        proof {
            assert(views.take(i + 1).drop_last() =~= views.take(i as int));
            assert(views.take(i + 1).last() == views[i as int]);
            lemma_weight_total_bounds(views.take(i + 1), subject);
            assert(i + 1 <= usize::MAX);
            assert((i + 1) * (u32::MAX as int) <= usize::MAX * (u32::MAX as int)) by (nonlinear_arith)
                requires
                    i + 1 <= usize::MAX,
            ;
        }
        if c.attestations[i].identity == subject && !c.attestations[i].revoked {
            sum = sum + c.attestations[i].weight as i128;
        }
        i = i + 1;
    }
    proof {
        assert(views.take(i as int) =~= views);
        lemma_weight_total_bounds(views, subject);
    }
    sum
}

/// I1: the attestation weights of `subject` sum to a non-negative value.
pub fn assert_attestation_weight_sum_non_negative(c: &CredenceBond, subject: AccountId) -> (r: Result<
    (),
    InvariantViolation,
>)
    ensures
        r == Ok::<(), InvariantViolation>(()),
{
    if attestation_weight_sum(c, subject) >= 0 {
        Ok(())
    } else {
        Err(InvariantViolation::AttestationWeightSumNegative)
    }
}

/// I7: the stored attestation count of `subject`, when present, equals the
/// length of its attestation list.
pub fn assert_attestation_count_consistent(c: &CredenceBond, subject: AccountId) -> (r: Result<
    (),
    InvariantViolation,
>)
    ensures
        r == if c@.count_drift(subject) {
            Err::<(), InvariantViolation>(InvariantViolation::AttestationCountMismatch)
        } else {
            Ok(())
        },
        r is Ok <==> !(c@.subject_counts.contains_key(subject) && c@.subject_counts[subject]
            != subject_ids(c@.attestations, subject).len()),
{
    proof {
        lemma_subject_list_len(c@.attestations, subject);
    }
    if c.count_drifted(subject) {
        Err(InvariantViolation::AttestationCountMismatch)
    } else {
        Ok(())
    }
}

/// I2–I6 of the stored bond (nothing to check when there is none).
pub fn assert_all_bond_invariants(c: &CredenceBond) -> (r: Result<(), InvariantViolation>)
    ensures
        r == match c@.bond {
            Some(b) => as_result(bond_violation(b)),
            None => Ok(()),
        },
{
    match try_load_bond(c) {
        Some(b) => assert_bond_invariants(&b),
        None => Ok(()),
    }
}

/// All seven invariants for the stored bond and its identity.
pub fn assert_all_invariants(c: &CredenceBond) -> (r: Result<(), InvariantViolation>)
    ensures
        r == match c@.bond {
            Some(b) => match bond_violation(b) {
                Some(e) => Err(e),
                None => if c@.count_drift(b.identity) {
                    Err(InvariantViolation::AttestationCountMismatch)
                } else {
                    Ok(())
                },
            },
            None => Ok(()),
        },
        r is Ok <==> match c@.bond {
            Some(b) => bond_ok(b) && !c@.count_drift(b.identity),
            None => true,
        },
{
    match try_load_bond(c) {
        Some(b) => {
            if let Err(e) = assert_bond_invariants(&b) {
                return Err(e);
            }
            if let Err(e) = assert_attestation_weight_sum_non_negative(c, b.identity) {
                return Err(e);
            }
            assert_attestation_count_consistent(c, b.identity)
        },
        None => Ok(()),
    }
}

/// All seven invariants, the attestation ones for `subject`.
pub fn assert_all_invariants_for_subject(c: &CredenceBond, subject: AccountId) -> (r: Result<
    (),
    InvariantViolation,
>)
    ensures
        r == match c@.bond {
            Some(b) if bond_violation(b) is Some => Err(bond_violation(b).unwrap()),
            _ => if c@.count_drift(subject) {
                Err(InvariantViolation::AttestationCountMismatch)
            } else {
                Ok(())
            },
        },
        r is Ok <==> (match c@.bond {
            Some(b) => bond_ok(b),
            None => true,
        }) && !c@.count_drift(subject),
{
    if let Err(e) = assert_all_bond_invariants(c) {
        return Err(e);
    }
    if let Err(e) = assert_attestation_weight_sum_non_negative(c, subject) {
        return Err(e);
    }
    assert_attestation_count_consistent(c, subject)
}

/// In any state satisfying the protocol invariants — which every entry point
/// keeps (see the preservation lemmas) — all seven checks pass, for every subject.
pub proof fn lemma_wf_passes_all_checks(m: BondModel, subject: AccountId)
    requires
        bond_wf(m),
    ensures
        match m.bond {
            Some(b) => bond_ok(b) && !m.count_drift(b.identity),
            None => true,
        },
        !m.count_drift(subject),
        count_in(m.subject_counts, subject) == subject_ids(m.attestations, subject).len(),
{
    lemma_subject_list_len(m.attestations, subject);
    assert(count_in(m.subject_counts, subject) == active_count(m.attestations, subject));
    if m.bond is Some {
        let b = m.bond.unwrap();
        assert(count_in(m.subject_counts, b.identity) == active_count(m.attestations, b.identity));
    }
}

} // verus!
