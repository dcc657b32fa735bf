//! What arbitration keeps across calls: tallies hold one positive total per
//! non-zero outcome, each arbitrator votes at most once per dispute, the
//! registry lists exactly the registered arbitrators, settled disputes never
//! change, and resolution picks the strictly heaviest outcome.
use vstd::prelude::*;
use crate::AccountId;
use crate::arbitration::{
    ArbitrationModel, DisputeStatus, count_w, first_at, initial_arbitration_model, max_w, outcome_index, plurality,
    spec_arb_initialize, spec_cancel_dispute, spec_create_dispute, spec_register_arbitrator, spec_resolve_dispute,
    spec_set_quorum, spec_unregister_arbitrator, spec_vote, upsert, weight_of, without, sums_in_range, total_w,
    ArbitrationError, ArbitrationFailure,
};

verus! {

/// A tally names each outcome at most once, never outcome 0, with a positive total.
pub open spec fn tally_ok(s: Seq<(u32, i128)>) -> bool {
    &&& forall|i: int, j: int| 0 <= i < j < s.len() ==> #[trigger] s[i].0 != #[trigger] s[j].0
    &&& forall|i: int| 0 <= i < s.len() ==> (#[trigger] s[i]).0 != 0 && s[i].1 > 0
}

/// No account occurs twice.
pub open spec fn no_dup(s: Seq<AccountId>) -> bool {
    forall|i: int, j: int| 0 <= i < j < s.len() ==> #[trigger] s[i] != #[trigger] s[j]
}

/// The arbitration invariants.
pub open spec fn arb_wf(m: ArbitrationModel) -> bool {
    &&& forall|id: u64| #[trigger] tally_ok(m.tally(id))
    &&& forall|id: u64| #[trigger] no_dup(m.voters_of(id))
    &&& forall|a: AccountId| #[trigger] m.arbitrators.contains_key(a) ==> m.arbitrators[a] > 0
    &&& forall|a: AccountId| #[trigger] m.registry.contains(a) <==> m.arbitrators.contains_key(a)
    &&& no_dup(m.registry)
    &&& forall|i: int| 0 <= i < m.disputes.len() ==> (#[trigger] m.disputes[i]).id == i
}

// ---------------------------------------------------------------------------
// Facts about tallies
// ---------------------------------------------------------------------------

proof fn lemma_index_weight(s: Seq<(u32, i128)>, o: u32)
    ensures
        -1 <= outcome_index(s, o) < s.len(),
        outcome_index(s, o) >= 0 ==> s[outcome_index(s, o)].0 == o,
        forall|k: int| outcome_index(s, o) < k < s.len() ==> #[trigger] s[k].0 != o,
        weight_of(s, o) == if outcome_index(s, o) >= 0 { s[outcome_index(s, o)].1 as int } else { 0 },
    decreases s.len(),
{
    if s.len() > 0 {
        let p = s.drop_last();
        lemma_index_weight(p, o);
        assert forall|k: int| outcome_index(s, o) < k < s.len() implies #[trigger] s[k].0 != o by {
            if k < s.len() - 1 {
                assert(s[k] == p[k]);
            }
        }
        if s.last().0 != o && outcome_index(p, o) >= 0 {
            assert(s[outcome_index(p, o)] == p[outcome_index(p, o)]);
        }
    }
}

proof fn lemma_same_pattern(s: Seq<(u32, i128)>, t: Seq<(u32, i128)>, o: u32)
    requires
        s.len() == t.len(),
        forall|k: int| 0 <= k < s.len() ==> (s[k].0 == o) == (t[k].0 == o),
    ensures
        outcome_index(s, o) == outcome_index(t, o),
    decreases s.len(),
{
    if s.len() > 0 {
        let (p, q) = (s.drop_last(), t.drop_last());
        assert forall|k: int| 0 <= k < p.len() implies (p[k].0 == o) == (q[k].0 == o) by {
            assert(p[k] == s[k] && q[k] == t[k]);
        }
        lemma_same_pattern(p, q, o);
    }
}

proof fn lemma_unique_index(s: Seq<(u32, i128)>, i: int)
    requires
        tally_ok(s),
        0 <= i < s.len(),
    ensures
        outcome_index(s, s[i].0) == i,
        weight_of(s, s[i].0) == s[i].1,
{
    lemma_index_weight(s, s[i].0);
    let idx = outcome_index(s, s[i].0);
    if idx != i {
        if idx < i {
            assert(s[i].0 != s[i].0);
        } else {
            assert(s[i].0 != s[idx].0);
        }
    }
}

/// Recording a total for an outcome changes that outcome's total only.
pub proof fn lemma_upsert(s: Seq<(u32, i128)>, o: u32, w: i128)
    ensures
        weight_of(upsert(s, o, w), o) == w,
        forall|o2: u32| o2 != o ==> #[trigger] weight_of(upsert(s, o, w), o2) == weight_of(s, o2),
        tally_ok(s) && o != 0 && w > 0 ==> tally_ok(upsert(s, o, w)),
{
    lemma_index_weight(s, o);
    let i = outcome_index(s, o);
    let t = upsert(s, o, w);
    if i >= 0 {
        assert forall|k: int| 0 <= k < s.len() implies (s[k].0 == o) == (t[k].0 == o) by {}
        lemma_same_pattern(s, t, o);
        lemma_index_weight(t, o);
        assert forall|o2: u32| o2 != o implies #[trigger] weight_of(t, o2) == weight_of(s, o2) by {
            assert forall|k: int| 0 <= k < s.len() implies (s[k].0 == o2) == (t[k].0 == o2) by {}
            lemma_same_pattern(s, t, o2);
            lemma_index_weight(s, o2);
            lemma_index_weight(t, o2);
        }
        if tally_ok(s) && o != 0 && w > 0 {
            assert forall|a: int, b: int| 0 <= a < b < t.len() implies #[trigger] t[a].0 != #[trigger] t[b].0 by {
                assert(s[a].0 != s[b].0);
            }
        }
    } else {
        assert(t.drop_last() =~= s);
        assert forall|o2: u32| o2 != o implies #[trigger] weight_of(t, o2) == weight_of(s, o2) by {}
        if tally_ok(s) && o != 0 && w > 0 {
            assert forall|a: int, b: int| 0 <= a < b < t.len() implies #[trigger] t[a].0 != #[trigger] t[b].0 by {
                if b < s.len() {
                    assert(s[a].0 != s[b].0);
                }
            }
        }
    }
}

proof fn lemma_count_pos(s: Seq<(u32, i128)>, i: int)
    requires
        0 <= i < s.len(),
    ensures
        count_w(s, s[i].1 as int) >= 1,
    decreases s.len(),
{
    if i < s.len() - 1 {
        assert(s[i] == s.drop_last()[i]);
        lemma_count_pos(s.drop_last(), i);
    }
}

proof fn lemma_count_two(s: Seq<(u32, i128)>, i: int, j: int)
    requires
        0 <= i < j < s.len(),
        s[i].1 == s[j].1,
    ensures
        count_w(s, s[i].1 as int) >= 2,
    decreases s.len(),
{
    let p = s.drop_last();
    assert(s[i] == p[i]);
    if j == s.len() - 1 {
        lemma_count_pos(p, i);
    } else {
        assert(s[j] == p[j]);
        lemma_count_two(p, i, j);
    }
}

proof fn lemma_first_at(s: Seq<(u32, i128)>, w: int)
    requires
        count_w(s, w) >= 1,
    ensures
        exists|i: int| 0 <= i < s.len() && #[trigger] s[i].1 == w && s[i].0 == first_at(s, w),
    decreases s.len(),
{
    let p = s.drop_last();
    if count_w(p, w) > 0 {
        lemma_first_at(p, w);
        let i = choose|i: int| 0 <= i < p.len() && #[trigger] p[i].1 == w && p[i].0 == first_at(p, w);
        assert(s[i] == p[i]);
    } else {
        assert(s[s.len() - 1].1 == w);
    }
}

proof fn lemma_max_bounds(s: Seq<(u32, i128)>)
    requires
        forall|i: int| 0 <= i < s.len() ==> (#[trigger] s[i]).1 > 0,
    ensures
        forall|i: int| 0 <= i < s.len() ==> #[trigger] s[i].1 <= max_w(s),
        s.len() > 0 ==> exists|i: int| 0 <= i < s.len() && #[trigger] s[i].1 == max_w(s),
        s.len() == 0 ==> max_w(s) == -1,
    decreases s.len(),
{
    if s.len() > 0 {
        let p = s.drop_last();
        assert forall|i: int| 0 <= i < p.len() implies (#[trigger] p[i]).1 > 0 by {
            assert(p[i] == s[i]);
        }
        lemma_max_bounds(p);
        assert forall|i: int| 0 <= i < s.len() implies #[trigger] s[i].1 <= max_w(s) by {
            if i < s.len() - 1 {
                assert(s[i] == p[i]);
            }
        }
        if s.last().1 > max_w(p) {
            assert(s[s.len() - 1].1 == max_w(s));
        } else {
            let i = choose|i: int| 0 <= i < p.len() && #[trigger] p[i].1 == max_w(p);
            assert(s[i] == p[i]);
        }
    }
}

/// Resolution picks the outcome whose total is strictly greater than every
/// other outcome's; when none is (no vote, or a tie at the top) it gives 0.
pub proof fn lemma_plurality_is_strict_winner(s: Seq<(u32, i128)>)
    requires
        tally_ok(s),
    ensures
        plurality(s) != 0 ==> weight_of(s, plurality(s)) > 0 && forall|o: u32|
            o != plurality(s) ==> #[trigger] weight_of(s, o) < weight_of(s, plurality(s)),
        plurality(s) == 0 && s.len() > 0 ==> exists|i: int, j: int|
            0 <= i < j < s.len() && #[trigger] s[i].1 == max_w(s) && #[trigger] s[j].1 == max_w(s),
        forall|i: int| 0 <= i < s.len() ==> #[trigger] s[i].1 <= max_w(s),
{
    lemma_max_bounds(s);
    let m = max_w(s);
    if s.len() > 0 {
        let k = choose|i: int| 0 <= i < s.len() && #[trigger] s[i].1 == max_w(s);
        lemma_count_pos(s, k);
        lemma_first_at(s, m);
        let i = choose|i: int| 0 <= i < s.len() && #[trigger] s[i].1 == m && s[i].0 == first_at(s, m);
        if count_w(s, m) == 1 {
            let p = plurality(s);
            assert(p == s[i].0);
            lemma_unique_index(s, i);
            assert forall|o: u32| o != p implies #[trigger] weight_of(s, o) < weight_of(s, p) by {
                lemma_index_weight(s, o);
                let idx = outcome_index(s, o);
                if idx >= 0 {
                    if s[idx].1 == m {
                        if idx < i {
                            lemma_count_two(s, idx, i);
                        } else if idx > i {
                            lemma_count_two(s, i, idx);
                        }
                    }
                }
            }
        } else {
            assert(count_w(s, m) >= 2);
            assert(plurality(s) == 0);
            // a second entry at the top weight
            if forall|j: int| 0 <= j < s.len() && j != i ==> #[trigger] s[j].1 != m {
                lemma_count_only(s, i, m);
            }
            let j = choose|j: int| 0 <= j < s.len() && j != i && #[trigger] s[j].1 == m;
            if i < j {
                assert(s[i].1 == max_w(s) && s[j].1 == max_w(s));
            } else {
                assert(s[j].1 == max_w(s) && s[i].1 == max_w(s));
            }
        }
    }
}

proof fn lemma_count_only(s: Seq<(u32, i128)>, i: int, w: int)
    requires
        0 <= i < s.len(),
        forall|j: int| 0 <= j < s.len() && j != i ==> #[trigger] s[j].1 != w,
    ensures
        count_w(s, w) <= 1,
    decreases s.len(),
{
    let p = s.drop_last();
    if s.len() == 1 {
        assert(count_w(p, w) == 0);
    } else {
        if i < s.len() - 1 {
            assert forall|j: int| 0 <= j < p.len() && j != i implies #[trigger] p[j].1 != w by {
                assert(p[j] == s[j]);
            }
            lemma_count_only(p, i, w);
            assert(s[s.len() - 1].1 != w);
        } else {
            lemma_count_none(p, w, s);
        }
    }
}

proof fn lemma_count_none(p: Seq<(u32, i128)>, w: int, s: Seq<(u32, i128)>)
    requires
        p.len() + 1 == s.len(),
        forall|j: int| 0 <= j < p.len() ==> p[j] == s[j],
        forall|j: int| 0 <= j < s.len() && j != p.len() ==> #[trigger] s[j].1 != w,
    ensures
        count_w(p, w) == 0,
    decreases p.len(),
{
    if p.len() > 0 {
        let q = p.drop_last();
        let s2 = s.drop_last().drop_last().push(s.last());
        assert forall|j: int| 0 <= j < s2.len() && j != q.len() implies #[trigger] s2[j].1 != w by {
            assert(s2[j] == s[j]);
        }
        assert forall|j: int| 0 <= j < q.len() implies q[j] == s2[j] by {
            assert(q[j] == p[j]);
        }
        lemma_count_none(q, w, s2);
        assert(p[p.len() - 1] == s[p.len() - 1]);
    }
}

} // verus!

verus! {

// ---------------------------------------------------------------------------
// Laws over the contract's calls
// ---------------------------------------------------------------------------

proof fn lemma_without(s: Seq<AccountId>, a: AccountId)
    ensures
        forall|x: AccountId| #[trigger] without(s, a).contains(x) <==> (s.contains(x) && x != a),
        no_dup(s) ==> no_dup(without(s, a)),
    decreases s.len(),
{
    if s.len() > 0 {
        let p = s.drop_last();
        lemma_without(p, a);
        assert forall|x: AccountId| #[trigger] s.contains(x) <==> (p.contains(x) || x == s.last()) by {
            if s.contains(x) {
                let k = choose|k: int| 0 <= k < s.len() && s[k] == x;
                if k < s.len() - 1 {
                    assert(p[k] == x);
                }
            }
            if p.contains(x) {
                let k = choose|k: int| 0 <= k < p.len() && p[k] == x;
                assert(s[k] == x);
            }
            if x == s.last() {
                assert(s[s.len() - 1] == x);
            }
        }
        let w = without(p, a);
        if s.last() != a {
            assert forall|x: AccountId| #[trigger] w.push(s.last()).contains(x) <==> (w.contains(x) || x == s.last()) by {
                if w.push(s.last()).contains(x) {
                    let k = choose|k: int| 0 <= k < w.len() + 1 && w.push(s.last())[k] == x;
                    if k < w.len() {
                        assert(w[k] == x);
                    }
                }
                if w.contains(x) {
                    let k = choose|k: int| 0 <= k < w.len() && w[k] == x;
                    assert(w.push(s.last())[k] == x);
                }
                if x == s.last() {
                    assert(w.push(s.last())[w.len() as int] == x);
                }
            }
            if no_dup(s) {
                assert forall|i: int, j: int| 0 <= i < j < p.len() implies #[trigger] p[i] != #[trigger] p[j] by {
                    assert(s[i] == p[i] && s[j] == p[j]);
                }
                if p.contains(s.last()) {
                    let k = choose|k: int| 0 <= k < p.len() && p[k] == s.last();
                    assert(s[k] == s[s.len() - 1]);
                }
                let v = w.push(s.last());
                assert forall|i: int, j: int| 0 <= i < j < v.len() implies #[trigger] v[i] != #[trigger] v[j] by {
                    if j == w.len() {
                        assert(w.contains(v[i]));
                    } else {
                        assert(v[i] == w[i] && v[j] == w[j]);
                    }
                }
            }
        } else if no_dup(s) {
            assert forall|i: int, j: int| 0 <= i < j < p.len() implies #[trigger] p[i] != #[trigger] p[j] by {
                assert(s[i] == p[i] && s[j] == p[j]);
            }
        }
    }
}

/// A freshly deployed contract satisfies the arbitration invariants.
pub proof fn lemma_initial_arbitration_wf()
    ensures
        arb_wf(initial_arbitration_model()),
{
    let m = initial_arbitration_model();
    assert forall|id: u64| #[trigger] tally_ok(m.tally(id)) by {}
    assert forall|id: u64| #[trigger] no_dup(m.voters_of(id)) by {}
}

/// Registering, unregistering, initializing and setting the quorum keep the
/// arbitration invariants; in particular the registry always lists exactly
/// the registered arbitrators, each once.
pub proof fn lemma_admin_calls_preserve_wf(
    m: ArbitrationModel,
    admin: AccountId,
    arbitrator: AccountId,
    weight: i128,
    min_total_weight: i128,
    min_voters: u32,
)
    requires
        arb_wf(m),
    ensures
        arb_wf(spec_arb_initialize(m, admin).1),
        arb_wf(spec_register_arbitrator(m, arbitrator, weight).1),
        arb_wf(spec_unregister_arbitrator(m, arbitrator).1),
        arb_wf(spec_set_quorum(m, admin, min_total_weight, min_voters).1),
{
    let r = spec_register_arbitrator(m, arbitrator, weight);
    if r.0 is Ok {
        let n = r.1;
        assert forall|id: u64| #[trigger] tally_ok(n.tally(id)) by {
            assert(n.tally(id) == m.tally(id));
        }
        assert forall|id: u64| #[trigger] no_dup(n.voters_of(id)) by {
            assert(n.voters_of(id) == m.voters_of(id));
        }
        if !m.registry.contains(arbitrator) {
            let v = m.registry.push(arbitrator);
            assert forall|i: int, j: int| 0 <= i < j < v.len() implies #[trigger] v[i] != #[trigger] v[j] by {
                if j == m.registry.len() {
                    assert(m.registry[i] == v[i]);
                } else {
                    assert(v[i] == m.registry[i] && v[j] == m.registry[j]);
                }
            }
            assert forall|a: AccountId| #[trigger] v.contains(a) <==> (m.registry.contains(a) || a == arbitrator) by {
                if v.contains(a) {
                    let k = choose|k: int| 0 <= k < v.len() && v[k] == a;
                    if k < m.registry.len() {
                        assert(m.registry[k] == a);
                    }
                }
                if m.registry.contains(a) {
                    let k = choose|k: int| 0 <= k < m.registry.len() && m.registry[k] == a;
                    assert(v[k] == a);
                }
                if a == arbitrator {
                    assert(v[m.registry.len() as int] == a);
                }
            }
        }
    }
    let u = spec_unregister_arbitrator(m, arbitrator);
    if u.0 is Ok {
        let n = u.1;
        lemma_without(m.registry, arbitrator);
        assert forall|id: u64| #[trigger] tally_ok(n.tally(id)) by {
            assert(n.tally(id) == m.tally(id));
        }
        assert forall|id: u64| #[trigger] no_dup(n.voters_of(id)) by {
            assert(n.voters_of(id) == m.voters_of(id));
        }
    }
    let i = spec_arb_initialize(m, admin).1;
    assert forall|id: u64| #[trigger] tally_ok(i.tally(id)) by {
        assert(i.tally(id) == m.tally(id));
    }
    assert forall|id: u64| #[trigger] no_dup(i.voters_of(id)) by {
        assert(i.voters_of(id) == m.voters_of(id));
    }
    let q = spec_set_quorum(m, admin, min_total_weight, min_voters).1;
    assert forall|id: u64| #[trigger] tally_ok(q.tally(id)) by {
        assert(q.tally(id) == m.tally(id));
    }
    assert forall|id: u64| #[trigger] no_dup(q.voters_of(id)) by {
        assert(q.voters_of(id) == m.voters_of(id));
    }
}

/// Opening, cancelling and resolving disputes keep the arbitration invariants.
pub proof fn lemma_dispute_calls_preserve_wf(
    m: ArbitrationModel,
    caller: AccountId,
    description: Seq<u8>,
    duration: u64,
    now: u64,
    id: u64,
    reason: Option<Seq<u8>>,
)
    requires
        arb_wf(m),
    ensures
        arb_wf(spec_create_dispute(m, caller, description, duration, now).1),
        arb_wf(spec_cancel_dispute(m, caller, id, reason).1),
        arb_wf(spec_resolve_dispute(m, id, now).1),
{
    let c = spec_create_dispute(m, caller, description, duration, now).1;
    assert forall|k: u64| #[trigger] tally_ok(c.tally(k)) by {
        assert(c.tally(k) == m.tally(k));
    }
    assert forall|k: u64| #[trigger] no_dup(c.voters_of(k)) by {
        assert(c.voters_of(k) == m.voters_of(k));
    }
    assert forall|i: int| 0 <= i < c.disputes.len() implies (#[trigger] c.disputes[i]).id == i by {
        if i < m.disputes.len() {
            assert(c.disputes[i] == m.disputes[i]);
        }
    }
    let x = spec_cancel_dispute(m, caller, id, reason).1;
    assert forall|k: u64| #[trigger] tally_ok(x.tally(k)) by {
        assert(x.tally(k) == m.tally(k));
    }
    assert forall|k: u64| #[trigger] no_dup(x.voters_of(k)) by {
        assert(x.voters_of(k) == m.voters_of(k));
    }
    assert forall|i: int| 0 <= i < x.disputes.len() implies (#[trigger] x.disputes[i]).id == i by {
        assert(m.disputes[i].id == i);
    }
    let r = spec_resolve_dispute(m, id, now).1;
    assert forall|k: u64| #[trigger] tally_ok(r.tally(k)) by {
        assert(r.tally(k) == m.tally(k));
    }
    assert forall|k: u64| #[trigger] no_dup(r.voters_of(k)) by {
        assert(r.voters_of(k) == m.voters_of(k));
    }
    assert forall|i: int| 0 <= i < r.disputes.len() implies (#[trigger] r.disputes[i]).id == i by {
        assert(m.disputes[i].id == i);
    }
}

/// A vote adds the voter's weight to the chosen outcome's total, leaves every
/// other total (of this and every other dispute) unchanged, and records the
/// voter once; it keeps the arbitration invariants.
pub proof fn lemma_vote_effect(m: ArbitrationModel, voter: AccountId, id: u64, outcome: u32, now: u64)
    requires
        arb_wf(m),
        spec_vote(m, voter, id, outcome, now).0 is Ok,
    ensures
        ({
            let n = spec_vote(m, voter, id, outcome, now).1;
            &&& weight_of(n.tally(id), outcome) == weight_of(m.tally(id), outcome) + m.arbitrators[voter]
            &&& forall|o: u32| o != outcome ==> #[trigger] weight_of(n.tally(id), o) == weight_of(m.tally(id), o)
            &&& forall|k: u64| k != id ==> #[trigger] n.tally(k) == m.tally(k)
            &&& n.voters_of(id) == m.voters_of(id).push(voter)
            &&& n.disputes == m.disputes
            &&& arb_wf(n)
        }),
{
    let n = spec_vote(m, voter, id, outcome, now).1;
    let t = m.tally(id);
    let w = (weight_of(t, outcome) + m.arbitrators[voter]) as i128;
    lemma_upsert(t, outcome, w);
    assert(tally_ok(t));
    assert(n.tally(id) == upsert(t, outcome, w));
    assert forall|o: u32| o != outcome implies #[trigger] weight_of(n.tally(id), o) == weight_of(t, o) by {}
    // the previous total of `outcome` is 0 or positive, so the new one is positive
    lemma_index_weight(t, outcome);
    assert(w > 0);
    assert forall|k: u64| #[trigger] tally_ok(n.tally(k)) by {
        if k != id {
            assert(n.tally(k) == m.tally(k));
        }
    }
    let vs = m.voters_of(id);
    let v2 = vs.push(voter);
    assert(no_dup(vs));
    assert forall|i: int, j: int| 0 <= i < j < v2.len() implies #[trigger] v2[i] != #[trigger] v2[j] by {
        if j == vs.len() {
            assert(vs[i] == v2[i]);
            assert(vs.contains(vs[i]));
        } else {
            assert(v2[i] == vs[i] && v2[j] == vs[j]);
        }
    }
    assert forall|k: u64| #[trigger] no_dup(n.voters_of(k)) by {
        if k != id {
            assert(n.voters_of(k) == m.voters_of(k));
        }
    }
}

/// An arbitrator votes at most once on a dispute: once a vote is recorded,
/// every further vote by the same arbitrator on it is refused and changes nothing.
pub proof fn lemma_vote_at_most_once(
    m: ArbitrationModel,
    voter: AccountId,
    id: u64,
    outcome: u32,
    now: u64,
    outcome2: u32,
    now2: u64,
)
    requires
        spec_vote(m, voter, id, outcome, now).0 is Ok,
    ensures
        ({
            let n = spec_vote(m, voter, id, outcome, now).1;
            &&& spec_vote(n, voter, id, outcome2, now2).0 is Err
            &&& spec_vote(n, voter, id, outcome2, now2).1 == n
        }),
{
    let n = spec_vote(m, voter, id, outcome, now).1;
    let vs = m.voters_of(id).push(voter);
    assert(n.voters_of(id) == vs);
    assert(vs[vs.len() - 1] == voter);
    assert(n.voters_of(id).contains(voter));
}

/// A resolved or cancelled dispute never changes again, whatever is called.
pub proof fn lemma_settled_disputes_are_final(
    m: ArbitrationModel,
    caller: AccountId,
    description: Seq<u8>,
    duration: u64,
    now: u64,
    id: u64,
    outcome: u32,
    reason: Option<Seq<u8>>,
    j: int,
)
    requires
        0 <= j < m.disputes.len(),
        m.disputes[j].status == DisputeStatus::Resolved || m.disputes[j].status == DisputeStatus::Cancelled,
    ensures
        spec_create_dispute(m, caller, description, duration, now).1.disputes[j] == m.disputes[j],
        spec_cancel_dispute(m, caller, id, reason).1.disputes[j] == m.disputes[j],
        spec_resolve_dispute(m, id, now).1.disputes[j] == m.disputes[j],
        spec_vote(m, caller, id, outcome, now).1.disputes[j] == m.disputes[j],
{
}

/// Only a dispute in `Voting` is resolved or cancelled, and a resolved
/// dispute records the strictly heaviest outcome of its tally (0 when none).
pub proof fn lemma_resolution_outcome(m: ArbitrationModel, caller: AccountId, id: u64, now: u64, reason: Option<Seq<u8>>)
    requires
        arb_wf(m),
    ensures
        spec_resolve_dispute(m, id, now).0 is Ok ==> {
            let n = spec_resolve_dispute(m, id, now).1;
            let w = spec_resolve_dispute(m, id, now).0->Ok_0;
            &&& m.disputes[id as int].status == DisputeStatus::Voting
            &&& n.disputes[id as int].status == DisputeStatus::Resolved
            &&& n.disputes[id as int].outcome == w
            &&& w == plurality(m.tally(id))
            &&& (w != 0 ==> forall|o: u32| o != w ==> #[trigger] weight_of(m.tally(id), o) < weight_of(m.tally(id), w))
        },
        spec_cancel_dispute(m, caller, id, reason).0 is Ok ==> {
            &&& m.disputes[id as int].status == DisputeStatus::Voting || m.disputes[id as int].status == DisputeStatus::Open
            &&& spec_cancel_dispute(m, caller, id, reason).1.disputes[id as int].status == DisputeStatus::Cancelled
        },
{
    lemma_plurality_is_strict_winner(m.tally(id));
}

/// A refused arbitration call leaves the contract exactly as it was.
pub proof fn lemma_arbitration_refusals_change_nothing(
    m: ArbitrationModel,
    caller: AccountId,
    arbitrator: AccountId,
    weight: i128,
    description: Seq<u8>,
    duration: u64,
    now: u64,
    id: u64,
    outcome: u32,
    reason: Option<Seq<u8>>,
    min_voters: u32,
)
    ensures
        spec_arb_initialize(m, caller).0 is Err ==> spec_arb_initialize(m, caller).1 == m,
        spec_register_arbitrator(m, arbitrator, weight).0 is Err ==> spec_register_arbitrator(m, arbitrator, weight).1 == m,
        spec_unregister_arbitrator(m, arbitrator).0 is Err ==> spec_unregister_arbitrator(m, arbitrator).1 == m,
        spec_create_dispute(m, caller, description, duration, now).0 is Err
            ==> spec_create_dispute(m, caller, description, duration, now).1 == m,
        spec_cancel_dispute(m, caller, id, reason).0 is Err ==> spec_cancel_dispute(m, caller, id, reason).1 == m,
        spec_vote(m, caller, id, outcome, now).0 is Err ==> spec_vote(m, caller, id, outcome, now).1 == m,
        spec_resolve_dispute(m, id, now).0 is Err ==> spec_resolve_dispute(m, id, now).1 == m,
        spec_set_quorum(m, caller, weight, min_voters).0 is Err ==> spec_set_quorum(m, caller, weight, min_voters).1 == m,
{
}

/// A dispute is resolved under a configured quorum only when the quorum is
/// met: at least `min_voters` distinct arbitrators voted on it and its tally
/// weighs at least `min_total_weight` in all.  Where the voting is over and
/// either falls short, resolution is refused with `QuorumNotMet`.
pub proof fn lemma_resolution_meets_quorum(m: ArbitrationModel, id: u64, now: u64)
    requires
        arb_wf(m),
    ensures
        spec_resolve_dispute(m, id, now).0 is Ok && (m.min_total_weight > 0 || m.min_voters > 0) ==> {
            &&& m.voters_of(id).to_set().len() >= m.min_voters
            &&& total_w(m.tally(id)) >= m.min_total_weight
        },
        ({
            let r = spec_resolve_dispute(m, id, now).0;
            &&& !m.pause.paused
            &&& id < m.disputes.len()
            &&& m.disputes[id as int].status == DisputeStatus::Voting
            &&& now > m.disputes[id as int].voting_end
            &&& sums_in_range(m.tally(id))
            &&& (m.min_total_weight > 0 || m.min_voters > 0)
            &&& (m.voters_of(id).to_set().len() < m.min_voters || total_w(m.tally(id)) < m.min_total_weight)
        }) ==> spec_resolve_dispute(m, id, now).0 == Err::<u32, ArbitrationFailure>(
            ArbitrationFailure::Arbitration(ArbitrationError::QuorumNotMet),
        ),
        ({
            &&& !m.pause.paused
            &&& id < m.disputes.len()
            &&& m.disputes[id as int].status == DisputeStatus::Voting
            &&& now > m.disputes[id as int].voting_end
            &&& (m.min_total_weight > 0 || m.min_voters > 0) ==> {
                &&& sums_in_range(m.tally(id))
                &&& m.voters_of(id).to_set().len() >= m.min_voters
                &&& total_w(m.tally(id)) >= m.min_total_weight
            }
        }) ==> spec_resolve_dispute(m, id, now).0 is Ok,
{
    let v = m.voters_of(id);
    assert(no_dup(v));
    assert(v.no_duplicates());
    v.unique_seq_to_set();
}

} // verus!
