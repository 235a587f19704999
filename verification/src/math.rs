//! Fixed-point accumulator math.
//!
//! All ratio and reward computations widen their operands to a 128-bit
//! intermediate before multiplying, and divide only after multiplying, so no
//! precision is lost before the final floor.

use vstd::prelude::*;
use vstd::arithmetic::div_mod::lemma_div_by_multiple;
use vstd::arithmetic::div_mod::lemma_div_is_ordered;
use vstd::arithmetic::div_mod::lemma_fundamental_div_mod;
use vstd::arithmetic::div_mod::lemma_mod_bound;
use vstd::arithmetic::mul::lemma_mul_is_distributive_add;
use vstd::arithmetic::mul::lemma_mul_upper_bound;

verus! {

/// One whole, expressed in basis points: ratios are integers out of 10000.
pub const MAX_RATIO_BPS: u16 = 10000;

/// Scale of the reward-per-share accumulator: fixed-point values carry
/// twelve decimal places.
pub const PRECISION: u128 = 1_000_000_000_000;

/// The share of `amount` that `bps` basis points select, rounded down.
pub open spec fn spec_scale_by_ratio(amount: int, bps: int) -> int {
    amount * bps / (MAX_RATIO_BPS as int)
}

/// How far the reward-per-share accumulator advances when `reward_amount` is
/// spread over `total_weight` units of staked weight, rounded down at the
/// fixed-point scale.
pub open spec fn spec_reward_per_share_delta(reward_amount: int, total_weight: int) -> int
    recommends
        total_weight > 0,
{
    reward_amount * (PRECISION as int) / total_weight
}

/// The reward newly accrued to a position of weight `weight` whose last
/// settlement snapshot is `debt`, now that the accumulator stands at
/// `cumulative`.  A snapshot at or ahead of the accumulator accrues nothing.
pub open spec fn spec_pending_reward(weight: int, cumulative: int, debt: int) -> int {
    if cumulative <= debt {
        0
    } else {
        weight * (cumulative - debt) / (PRECISION as int)
    }
}

/// A basis-point share never exceeds the amount it is taken from.
pub proof fn lemma_scale_by_ratio_bounds(amount: int, bps: int)
    requires
        0 <= amount,
        0 <= bps <= MAX_RATIO_BPS as int,
    ensures
        0 <= spec_scale_by_ratio(amount, bps) <= amount,
{
    let m = MAX_RATIO_BPS as int;
    lemma_mul_upper_bound(amount, amount, bps, m);
    lemma_div_is_ordered(0, amount * bps, m);
    lemma_div_is_ordered(amount * bps, amount * m, m);
    lemma_div_by_multiple(amount, m);
}

/// Two floored shares of one denominator never exceed the floored share of
/// their sum.
proof fn lemma_div_sum_le(x: int, y: int, m: int)
    requires
        0 <= x,
        0 <= y,
        0 < m,
    ensures
        x / m + y / m <= (x + y) / m,
{
    lemma_fundamental_div_mod(x, m);
    lemma_fundamental_div_mod(y, m);
    lemma_fundamental_div_mod(x + y, m);
    lemma_mod_bound(x, m);
    lemma_mod_bound(y, m);
    lemma_mod_bound(x + y, m);
    let gap = x / m + y / m - (x + y) / m;
    assert(m * gap == (x + y) % m - x % m - y % m) by (nonlinear_arith)
        requires
            x == m * (x / m) + x % m,
            y == m * (y / m) + y % m,
            x + y == m * ((x + y) / m) + (x + y) % m,
            gap == x / m + y / m - (x + y) / m,
    ;
    if gap > 0 {
        assert(m * gap >= m) by (nonlinear_arith)
            requires
                0 < m,
                gap >= 1,
        ;
    }
}

/// The three ratio shares of one amount together never exceed the amount,
/// as long as the ratios sum to at most the full 10000 basis points.
pub proof fn lemma_shares_within_revenue(
    amount: int,
    staking_bps: int,
    dao_bps: int,
    developer_bps: int,
)
    requires
        0 <= amount,
        0 <= staking_bps,
        0 <= dao_bps,
        0 <= developer_bps,
        staking_bps + dao_bps + developer_bps <= MAX_RATIO_BPS as int,
    ensures
        0 <= spec_scale_by_ratio(amount, staking_bps) + spec_scale_by_ratio(amount, dao_bps)
            + spec_scale_by_ratio(amount, developer_bps) <= amount,
{
    let m = MAX_RATIO_BPS as int;
    lemma_scale_by_ratio_bounds(amount, staking_bps);
    lemma_scale_by_ratio_bounds(amount, dao_bps);
    lemma_scale_by_ratio_bounds(amount, developer_bps);
    lemma_mul_upper_bound(amount, amount, staking_bps, m);
    lemma_mul_upper_bound(amount, amount, dao_bps, m);
    lemma_mul_upper_bound(amount, amount, developer_bps, m);
    lemma_div_sum_le(amount * staking_bps, amount * dao_bps, m);
    lemma_div_sum_le(amount * staking_bps + amount * dao_bps, amount * developer_bps, m);
    lemma_mul_is_distributive_add(amount, staking_bps, dao_bps);
    lemma_mul_is_distributive_add(amount, staking_bps + dao_bps, developer_bps);
    lemma_scale_by_ratio_bounds(amount, staking_bps + dao_bps + developer_bps);
}

/// A position settled at the current accumulator value has nothing pending:
/// settlement advances the snapshot to `cumulative`, after which no reward
/// accrues until the accumulator itself advances.
pub proof fn lemma_settled_position_pending_zero(weight: int, cumulative: int)
    ensures
        spec_pending_reward(weight, cumulative, cumulative) == 0,
{
}

/// Computes the share of `amount` that `bps` basis points select, rounding
/// down, through a 128-bit widened intermediate.
pub fn scale_by_ratio(amount: u64, bps: u16) -> (r: u64)
    requires
        bps <= MAX_RATIO_BPS,
    ensures
        r == spec_scale_by_ratio(amount as int, bps as int),
        r <= amount,
{
    proof {
        lemma_mul_upper_bound(amount as int, u64::MAX as int, bps as int, MAX_RATIO_BPS as int);
        lemma_scale_by_ratio_bounds(amount as int, bps as int);
    }
    let wide: u128 = (amount as u128) * (bps as u128);
    (wide / (MAX_RATIO_BPS as u128)) as u64
}

/// Computes how far the accumulator advances when `reward_amount` is spread
/// over `total_weight` units of weight, at the fixed-point scale.  A zero
/// total weight means no distribution is owed, so callers branch before
/// dividing.
pub fn reward_per_share_delta(reward_amount: u64, total_weight: u64) -> (r: u128)
    requires
        total_weight >= 1,
    ensures
        r == spec_reward_per_share_delta(reward_amount as int, total_weight as int),
{
    proof {
        lemma_mul_upper_bound(
            reward_amount as int,
            u64::MAX as int,
            PRECISION as int,
            PRECISION as int,
        );
    }
    ((reward_amount as u128) * PRECISION) / (total_weight as u128)
}

} // verus!
