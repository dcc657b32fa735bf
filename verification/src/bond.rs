//! Pure bond arithmetic: validation of new bonds, available balance and
//! slashing predicates, the early-exit penalty and the tier of an amount.
use vstd::prelude::*;
use crate::errors::ContractError;

verus! {

/// Basis-point denominator (10 000 bps = 100 %).
pub const BPS_DENOMINATOR: i128 = 10_000;

/// Largest penalty rate an early-exit configuration may carry.
pub const MAX_PENALTY_BPS: u32 = 10_000;

/// Default upper bound (exclusive) of the Bronze tier.
pub const TIER_BRONZE_MAX: i128 = 1_000_000_000_000_000_000_000;

/// Default upper bound (exclusive) of the Silver tier.
pub const TIER_SILVER_MAX: i128 = 5_000_000_000_000_000_000_000;

/// Default upper bound (exclusive) of the Gold tier.
pub const TIER_GOLD_MAX: i128 = 20_000_000_000_000_000_000_000;

/// A validated bond request.
#[derive(Clone, Copy, Debug, PartialEq, Eq, Structural)]
pub struct Bond {
    pub amount: i128,
    pub bond_start: u64,
    pub duration: u64,
    pub is_rolling: bool,
    pub notice_period_duration: u64,
}

/// Identity tier based on the bonded amount (Bronze < Silver < Gold < Platinum).
#[derive(Clone, Copy, Debug, PartialEq, Eq, Structural)]
pub enum BondTier {
    Bronze,
    Silver,
    Gold,
    Platinum,
}

/// Upper bounds (exclusive) of the first three tiers.
#[derive(Clone, Copy, Debug, PartialEq, Eq, Structural)]
pub struct TierThresholds {
    pub bronze_max: i128,
    pub silver_max: i128,
    pub gold_max: i128,
}

/// Why a new bond is refused, in the order the checks are made.
pub open spec fn create_bond_error(
    amount: i128,
    bond_start: u64,
    duration: u64,
    is_rolling: bool,
    notice_period_duration: u64,
) -> Option<ContractError> {
    if amount <= 0 {
        Some(ContractError::InvalidBondAmount)
    } else if duration == 0 {
        Some(ContractError::InvalidBondDuration)
    } else if is_rolling && (notice_period_duration == 0 || notice_period_duration > duration) {
        Some(ContractError::InvalidNoticePeriod)
    } else if bond_start + duration > u64::MAX {
        Some(ContractError::Overflow)
    } else {
        None
    }
}

/// A bond amount is valid when it is strictly positive.
pub fn is_valid_bond(amount: i128) -> (r: bool)
    ensures
        r == (amount > 0),
{
    amount > 0
}

/// Validate the parameters of a new bond and build it.
///
/// Refuses a non-positive amount, a zero duration, a rolling bond whose notice
/// period is zero or longer than the duration, and a bond whose end
/// (`bond_start + duration`) does not fit in a `u64`, checked in that order.
/// The notice period of a non-rolling bond is kept as given and not checked.
pub fn create_bond(
    amount: i128,
    bond_start: u64,
    duration: u64,
    is_rolling: bool,
    notice_period_duration: u64,
) -> (r: Result<Bond, ContractError>)
    ensures
        match create_bond_error(amount, bond_start, duration, is_rolling, notice_period_duration) {
            Some(err) => r == Err::<Bond, ContractError>(err),
            None => r == Ok::<Bond, ContractError>(Bond {
                amount,
                bond_start,
                duration,
                is_rolling,
                notice_period_duration,
            }),
        },
{
    if !is_valid_bond(amount) {
        return Err(ContractError::InvalidBondAmount);
    }
    if duration == 0 {
        return Err(ContractError::InvalidBondDuration);
    }
    if is_rolling {
        if notice_period_duration == 0 {
            return Err(ContractError::InvalidNoticePeriod);
        }
        if notice_period_duration > duration {
            return Err(ContractError::InvalidNoticePeriod);
        }
    }
    if bond_start > u64::MAX - duration {
        return Err(ContractError::Overflow);
    }
    Ok(Bond { amount, bond_start, duration, is_rolling, notice_period_duration })
}

/// The withdrawable balance `bonded_amount - slashed_amount`.
///
/// The difference must fit in an `i128` (otherwise the computation aborts).
pub fn get_available_balance(bonded_amount: i128, slashed_amount: i128) -> (r: i128)
    requires
        i128::MIN <= bonded_amount - slashed_amount <= i128::MAX,
    ensures
        r == bonded_amount - slashed_amount,
{
    bonded_amount - slashed_amount
}

/// A bond is fully slashed when nothing withdrawable is left.
pub fn is_fully_slashed(bonded_amount: i128, slashed_amount: i128) -> (r: bool)
    ensures
        r == (slashed_amount >= bonded_amount),
{
    slashed_amount >= bonded_amount
}

/// A slash is partial when it takes less than the whole bonded amount.
pub fn is_partial_slash(slash_amount: i128, bonded_amount: i128) -> (r: bool)
    ensures
        r == (slash_amount < bonded_amount),
{
    slash_amount < bonded_amount
}

/// Integer division rounding toward zero, as machine division does.
pub open spec fn trunc_div(a: int, b: int) -> int {
    if a >= 0 {
        a / b
    } else {
        -((-a) / b)
    }
}

/// Division rounding toward zero of a value that is not `i128::MIN`.
fn div_toward_zero(a: i128, b: u64) -> (q: i128)
    requires
        b > 0,
        a > i128::MIN,
    ensures
        q == trunc_div(a as int, b as int),
{
    if a >= 0 {
        let q: u128 = (a as u128) / (b as u128);
        q as i128
    } else {
        let na: i128 = -a;
        let q: u128 = (na as u128) / (b as u128);
        -(q as i128)
    }
}

/// The first truncation of the penalty formula: the full-period charge.
pub open spec fn penalty_charge(amount: i128, penalty_bps: u32) -> int {
    trunc_div(amount * penalty_bps, 10_000)
}

/// The early-exit penalty for withdrawing `amount` while `remaining` of
/// `duration` seconds of the lock-up are left:
/// `floor(floor(amount * bps / 10 000) * remaining / duration)`, and 0 for a
/// zero duration.
pub open spec fn penalty_spec(amount: i128, remaining: u64, duration: u64, penalty_bps: u32) -> int {
    if duration == 0 {
        0
    } else {
        trunc_div(penalty_charge(amount, penalty_bps) * remaining, duration as int)
    }
}

/// The intermediate products of the penalty formula fit in an `i128`.
pub open spec fn penalty_in_range(amount: i128, remaining: u64, penalty_bps: u32) -> bool {
    &&& i128::MIN < amount * penalty_bps <= i128::MAX
    &&& i128::MIN < penalty_charge(amount, penalty_bps) * remaining <= i128::MAX
}

/// Early-exit penalty with the two truncating divisions of the formula.
pub fn calculate_penalty(amount: i128, remaining: u64, duration: u64, penalty_bps: u32) -> (p: i128)
    requires
        penalty_in_range(amount, remaining, penalty_bps),
    ensures
        p == penalty_spec(amount, remaining, duration, penalty_bps),
{
    if duration == 0 {
        return 0;
    }
    let scaled: i128 = amount * (penalty_bps as i128);
    let charge: i128 = div_toward_zero(scaled, 10_000);
    let weighted: i128 = charge * (remaining as i128);
    div_toward_zero(weighted, duration)
}

/// The rounded-up penalty `ceil(amount * bps * remaining / (10 000 * duration))`,
/// and 0 when the duration, the amount or the rate is zero.
pub open spec fn penalty_ceil_spec(amount: i128, remaining: u64, duration: u64, penalty_bps: u32) -> int {
    if duration == 0 || amount == 0 || penalty_bps == 0 {
        0
    } else {
        (amount * penalty_bps * remaining + 10_000 * duration - 1) / (10_000 * duration)
    }
}

/// Early-exit penalty rounded up in a single division, so that no positive
/// withdrawal escapes the penalty by being split into dust.  The product
/// `amount * bps * remaining` must fit in an `i128`.
pub fn calculate_penalty_ceil(amount: i128, remaining: u64, duration: u64, penalty_bps: u32) -> (p: i128)
    requires
        i128::MIN <= amount * penalty_bps * remaining <= i128::MAX,
    ensures
        p == penalty_ceil_spec(amount, remaining, duration, penalty_bps),
{
    if duration == 0 || amount == 0 || penalty_bps == 0 {
        return 0;
    }
    assert((penalty_bps as int) * (remaining as int) <= u128::MAX) by (nonlinear_arith)
        requires
            penalty_bps <= u32::MAX,
            remaining <= u64::MAX,
    ;
    let rate: u128 = (penalty_bps as u128) * (remaining as u128);
    assert(amount * penalty_bps * remaining == amount * rate) by (nonlinear_arith)
        requires
            rate == (penalty_bps as int) * (remaining as int),
    ;
    let den: u128 = 10_000u128 * (duration as u128);
    if amount > 0 {
        assert(amount * rate >= 0) by (nonlinear_arith)
            requires
                amount >= 0,
                rate >= 0,
        ;
        let num: u128 = (amount as u128) * rate;
        let q: u128 = num / den;
        let r: u128 = num % den;
        let res: u128 = if r == 0 { q } else { q + 1 };
        proof {
            lemma_ceil_div(num as int, den as int);
        }
        res as i128
    } else {
        // amount < 0: ceil(-n / den) = -floor(n / den) for the magnitude n
        let mag: u128 = if amount == i128::MIN { 170141183460469231731687303715884105728u128 } else { (-amount) as u128 };
        assert(mag * rate == -(amount * rate)) by (nonlinear_arith)
            requires
                mag == -amount,
        ;
        let num: u128 = mag * rate;
        let q: u128 = num / den;
        proof {
            lemma_ceil_div_negative(num as int, den as int);
            assert(q <= num);
        }
        if q == 170141183460469231731687303715884105728u128 {
            i128::MIN
        } else {
            -(q as i128)
        }
    }
}

proof fn lemma_ceil_div(num: int, den: int)
    requires
        num >= 0,
        den > 0,
    ensures
        (num + den - 1) / den == if num % den == 0 { num / den } else { num / den + 1 },
        (num + den - 1) / den <= num,
{
    vstd::arithmetic::div_mod::lemma_fundamental_div_mod(num, den);
    vstd::arithmetic::div_mod::lemma_fundamental_div_mod(num + den - 1, den);
    assert((num + den - 1) / den == if num % den == 0 { num / den } else { num / den + 1 }) by (nonlinear_arith)
        requires
            num >= 0,
            den > 0,
            num == den * (num / den) + num % den,
            0 <= num % den < den,
            num + den - 1 == den * ((num + den - 1) / den) + (num + den - 1) % den,
            0 <= (num + den - 1) % den < den,
    ;
    assert((if num % den == 0 { num / den } else { num / den + 1 }) <= num) by (nonlinear_arith)
        requires
            num >= 0,
            den > 0,
            num == den * (num / den) + num % den,
            0 <= num % den < den,
    {
        assert(num / den >= 0);
        assert(den * (num / den) >= num / den);
    }
}


proof fn lemma_ceil_div_negative(num: int, den: int)
    requires
        num >= 0,
        den > 0,
    ensures
        (-num + den - 1) / den == -(num / den),
        num / den <= num,
{
    vstd::arithmetic::div_mod::lemma_fundamental_div_mod(num, den);
    vstd::arithmetic::div_mod::lemma_div_pos_is_pos(num, den);
    let q = num / den;
    let r = num % den;
    assert(-num + den - 1 == den * (-q) + (den - 1 - r)) by (nonlinear_arith)
        requires
            num == den * q + r,
    ;
    vstd::arithmetic::div_mod::lemma_fundamental_div_mod_converse(-num + den - 1, den, -q, den - 1 - r);
    assert(q <= num) by (nonlinear_arith)
        requires
            num == den * q + r,
            0 <= r,
            q >= 0,
            den > 0,
    ;
}

/// For a non-negative amount, a rate of at most 100 % and a remaining time no
/// longer than the lock-up, the early-exit penalty lies between 0 and the amount.
pub proof fn lemma_penalty_bounded(amount: i128, remaining: u64, duration: u64, penalty_bps: u32)
    requires
        amount >= 0,
        penalty_bps <= MAX_PENALTY_BPS,
        remaining <= duration,
    ensures
        0 <= penalty_spec(amount, remaining, duration, penalty_bps) <= amount,
{
    if duration > 0 {
        let x: int = amount * penalty_bps;
        vstd::arithmetic::mul::lemma_mul_nonnegative(amount as int, penalty_bps as int);
        vstd::arithmetic::mul::lemma_mul_inequality(penalty_bps as int, 10_000, amount as int);
        vstd::arithmetic::div_mod::lemma_div_is_ordered(x, amount * 10_000, 10_000);
        vstd::arithmetic::div_mod::lemma_div_multiples_vanish(amount as int, 10_000);
        assert(amount * 10_000 == 10_000 * amount) by (nonlinear_arith);
        vstd::arithmetic::div_mod::lemma_div_pos_is_pos(x, 10_000);
        let c: int = x / 10_000;
        assert(c == penalty_charge(amount, penalty_bps));
        vstd::arithmetic::mul::lemma_mul_nonnegative(c, remaining as int);
        vstd::arithmetic::mul::lemma_mul_inequality(remaining as int, duration as int, c);
        assert(remaining * c == c * remaining && duration * c == c * duration) by (nonlinear_arith);
        vstd::arithmetic::div_mod::lemma_div_is_ordered(c * remaining, c * duration, duration as int);
        assert(c * duration == duration * c) by (nonlinear_arith);
        vstd::arithmetic::div_mod::lemma_div_multiples_vanish(c, duration as int);
        vstd::arithmetic::div_mod::lemma_div_pos_is_pos(c * remaining, duration as int);
    }
}

/// Splitting a withdrawal into `n` equal slices never pays more penalty in
/// total than withdrawing the whole amount at once.
pub proof fn lemma_penalty_split_never_exceeds_whole(
    slice: i128,
    n: nat,
    remaining: u64,
    duration: u64,
    penalty_bps: u32,
)
    requires
        slice >= 0,
        n * slice <= i128::MAX,
    ensures
        n * penalty_spec(slice, remaining, duration, penalty_bps)
            <= penalty_spec((n * slice) as i128, remaining, duration, penalty_bps),
{
    if duration > 0 {
        let whole: int = n * slice;
        let x: int = slice * penalty_bps;
        vstd::arithmetic::mul::lemma_mul_nonnegative(slice as int, penalty_bps as int);
        vstd::arithmetic::mul::lemma_mul_nonnegative(n as int, slice as int);
        assert(whole * penalty_bps == n * x) by (nonlinear_arith)
            requires
                whole == n * slice,
                x == slice * penalty_bps,
        ;
        let c1: int = x / 10_000;
        let cn: int = (n * x) / 10_000;
        vstd::arithmetic::div_mod::lemma_mul_hoist_inequality(n as int, x, 10_000);
        assert(n * c1 <= cn);
        vstd::arithmetic::div_mod::lemma_div_pos_is_pos(x, 10_000);
        assert(penalty_charge(slice, penalty_bps) == c1);
        assert(penalty_charge(whole as i128, penalty_bps) == cn);
        vstd::arithmetic::mul::lemma_mul_inequality(n * c1, cn, remaining as int);
        vstd::arithmetic::div_mod::lemma_div_is_ordered((n * c1) * remaining, cn * remaining, duration as int);
        vstd::arithmetic::mul::lemma_mul_nonnegative(c1, remaining as int);
        assert((n * c1) * remaining == n * (c1 * remaining)) by (nonlinear_arith);
        vstd::arithmetic::div_mod::lemma_mul_hoist_inequality(n as int, c1 * remaining, duration as int);
        vstd::arithmetic::div_mod::lemma_div_pos_is_pos(cn * remaining, duration as int);
        vstd::arithmetic::mul::lemma_mul_nonnegative(cn, remaining as int);
    }
}

/// The rounded-up penalty is never below the truncated penalty, for any
/// non-negative amount.
pub proof fn lemma_penalty_ceil_at_least_floor(amount: i128, remaining: u64, duration: u64, penalty_bps: u32)
    requires
        amount >= 0,
    ensures
        penalty_ceil_spec(amount, remaining, duration, penalty_bps)
            >= penalty_spec(amount, remaining, duration, penalty_bps),
{
    if duration > 0 {
        let x: int = amount * penalty_bps;
        vstd::arithmetic::mul::lemma_mul_nonnegative(amount as int, penalty_bps as int);
        let c: int = x / 10_000;
        vstd::arithmetic::div_mod::lemma_div_pos_is_pos(x, 10_000);
        if amount == 0 || penalty_bps == 0 {
            assert(x == 0) by (nonlinear_arith)
                requires
                    x == amount * penalty_bps,
                    amount == 0 || penalty_bps == 0,
            ;
            assert(c == 0);
            assert(c * remaining == 0);
        } else {
            let d: int = duration as int;
            let den: int = 10_000 * d;
            vstd::arithmetic::mul::lemma_mul_nonnegative(x, remaining as int);
            vstd::arithmetic::div_mod::lemma_mul_hoist_inequality(remaining as int, x, 10_000);
            assert(remaining * c == c * remaining && remaining * x == x * remaining) by (nonlinear_arith);
            vstd::arithmetic::div_mod::lemma_div_is_ordered(c * remaining, (x * remaining) / 10_000, d);
            vstd::arithmetic::div_mod::lemma_div_pos_is_pos(x * remaining, 10_000);
            vstd::arithmetic::div_mod::lemma_div_denominator(x * remaining, 10_000, d);
            assert(den > 0) by (nonlinear_arith)
                requires
                    den == 10_000 * d,
                    d > 0,
            ;
            vstd::arithmetic::div_mod::lemma_div_is_ordered(x * remaining, x * remaining + den - 1, den);
            assert(amount * penalty_bps * remaining == x * remaining);
        }
    }
}

/// The default tier thresholds, used while none are configured.
pub open spec fn default_thresholds() -> TierThresholds {
    TierThresholds { bronze_max: TIER_BRONZE_MAX, silver_max: TIER_SILVER_MAX, gold_max: TIER_GOLD_MAX }
}

/// The tier of an amount under the given thresholds.
pub open spec fn tier_spec(t: TierThresholds, amount: i128) -> BondTier {
    if amount < t.bronze_max {
        BondTier::Bronze
    } else if amount < t.silver_max {
        BondTier::Silver
    } else if amount < t.gold_max {
        BondTier::Gold
    } else {
        BondTier::Platinum
    }
}

/// The default thresholds.
pub fn default_tier_thresholds() -> (t: TierThresholds)
    ensures
        t == default_thresholds(),
{
    TierThresholds { bronze_max: TIER_BRONZE_MAX, silver_max: TIER_SILVER_MAX, gold_max: TIER_GOLD_MAX }
}

/// Map a bonded amount to its tier.
pub fn get_tier_for_amount(thresholds: &TierThresholds, amount: i128) -> (tier: BondTier)
    ensures
        tier == tier_spec(*thresholds, amount),
{
    if amount < thresholds.bronze_max {
        BondTier::Bronze
    } else if amount < thresholds.silver_max {
        BondTier::Silver
    } else if amount < thresholds.gold_max {
        BondTier::Gold
    } else {
        BondTier::Platinum
    }
}

/// Rank of a tier (Bronze = 0 up to Platinum = 3).
pub open spec fn tier_rank(t: BondTier) -> int {
    match t {
        BondTier::Bronze => 0,
        BondTier::Silver => 1,
        BondTier::Gold => 2,
        BondTier::Platinum => 3,
    }
}

/// A larger bond never has a lower tier (under ordered thresholds), and the
/// default thresholds are ordered.
pub proof fn lemma_tier_monotone(t: TierThresholds, a: i128, b: i128)
    requires
        t.bronze_max <= t.silver_max <= t.gold_max,
        a <= b,
    ensures
        tier_rank(tier_spec(t, a)) <= tier_rank(tier_spec(t, b)),
        default_thresholds().bronze_max <= default_thresholds().silver_max <= default_thresholds().gold_max,
{
}

/// Under ordered thresholds the tier of an amount is decided by the band it
/// falls in: Bronze below `bronze_max`, Silver from `bronze_max` up to (not
/// including) `silver_max`, Gold from `silver_max` up to `gold_max`, and
/// Platinum from `gold_max` on.
pub proof fn lemma_tier_bands(t: TierThresholds, amount: i128)
    requires
        t.bronze_max <= t.silver_max <= t.gold_max,
    ensures
        tier_spec(t, amount) == BondTier::Bronze <==> amount < t.bronze_max,
        tier_spec(t, amount) == BondTier::Silver <==> t.bronze_max <= amount < t.silver_max,
        tier_spec(t, amount) == BondTier::Gold <==> t.silver_max <= amount < t.gold_max,
        tier_spec(t, amount) == BondTier::Platinum <==> t.gold_max <= amount,
{
}

} // verus!
