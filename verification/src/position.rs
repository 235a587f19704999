//! Per-position stake records and the stake / unstake / claim algorithms.
//!
//! Each staked item owns one record.  A record moves `Active → settled →
//! closed`: staking snapshots the engine's accumulator as the position's
//! reward debt, claiming pays the newly accrued reward and advances the debt,
//! unstaking pays it and deactivates the record.  Reward payouts are returned
//! as plain amounts; the caller moves them from the reward pool to the owner,
//! authorized by the pool's derived authority.  The engine's aggregate weight
//! is adjusted through its guarded mutators, with the staking component
//! presenting its own executable identity as the capability.

use vstd::prelude::*;
use vstd::arithmetic::div_mod::lemma_div_by_multiple;
use vstd::arithmetic::div_mod::lemma_div_is_ordered;
use vstd::arithmetic::mul::lemma_mul_is_commutative;
use crate::account::AccountId;
use crate::engine::EngineState;
use crate::errors::StakingError;
use crate::math::PRECISION;
use crate::math::spec_pending_reward;

verus! {

/// One staked item's record, bound to the engine record it accrues under.
#[derive(Clone, Copy, PartialEq, Eq, Structural, Debug)]
pub struct NftStakeState {
    /// Identity entitled to unstake and claim.
    pub user_wallet: AccountId,
    /// Identifier of the staked unit.
    pub nft_mint: AccountId,
    /// Staked weight; one unit per position in this design.
    pub staked_amount: u64,
    /// Snapshot of the engine's accumulator at the last settlement point.
    pub reward_debt: u128,
    /// When the item was staked.
    pub last_staked_timestamp: i64,
    /// Whether the record still holds an actively staked item.
    pub is_staked: bool,
    /// Back-reference to the engine record this position is bound to.
    pub engine_state_ref: AccountId,
}

/// The reward newly accrued to `stake_state` now that the engine's
/// accumulator stands where it does: its weight times the accumulator's
/// advance since the position's last settlement, floored at the fixed-point
/// scale.
pub open spec fn spec_position_pending(engine: EngineState, stake_state: NftStakeState) -> int {
    spec_pending_reward(
        stake_state.staked_amount as int,
        engine.reward_per_token_cumulative as int,
        stake_state.reward_debt as int,
    )
}

/// Computes the reward newly accrued to `stake_state`, through a 128-bit
/// widened multiply before the fixed-point divide.  An accumulator at or
/// behind the position's snapshot yields zero; a pending reward beyond the
/// 64-bit range is a calculation error.
pub fn calculate_rewards_from_state(
    engine: &EngineState,
    stake_state: &NftStakeState,
) -> (r: Result<u64, StakingError>)
    ensures
        r is Err <==> spec_position_pending(*engine, *stake_state) > u64::MAX,
        r is Err ==> r == Err::<u64, StakingError>(StakingError::CalculationError),
        r matches Ok(v) ==> v == spec_position_pending(*engine, *stake_state),
{
    let current = engine.reward_per_token_cumulative;
    let last = stake_state.reward_debt;
    if current <= last {
        return Ok(0);
    }
    let diff = match current.checked_sub(last) {
        Some(diff) => diff,
        None => {
            return Err(StakingError::CalculationError);
        },
    };
    let reward_wide = match diff.checked_mul(stake_state.staked_amount as u128) {
        Some(wide) => wide,
        None => {
            proof {
                let weight = stake_state.staked_amount as int;
                let gap = diff as int;
                lemma_mul_is_commutative(gap, weight);
                lemma_div_is_ordered(
                    ((u64::MAX as int) + 1) * (PRECISION as int),
                    weight * gap,
                    PRECISION as int,
                );
                lemma_div_by_multiple((u64::MAX as int) + 1, PRECISION as int);
            }
            return Err(StakingError::CalculationError);
        },
    };
    let reward = match reward_wide.checked_div(PRECISION) {
        Some(reward) => reward,
        None => {
            return Err(StakingError::CalculationError);
        },
    };
    proof {
        lemma_mul_is_commutative(diff as int, stake_state.staked_amount as int);
    }
    if reward > u64::MAX as u128 {
        return Err(StakingError::CalculationError);
    }
    Ok(reward as u64)
}

/// Everything `unstake` demands: an actively staked record, the owner
/// calling, a pending reward that fits the payout range, the staking
/// component's own identity presented to the engine, and weight left to
/// give back.
pub open spec fn spec_unstake_allowed(
    engine: EngineState,
    stake_state: NftStakeState,
    user_wallet: AccountId,
    caller_program: AccountId,
) -> bool {
    &&& stake_state.is_staked
    &&& stake_state.user_wallet == user_wallet
    &&& spec_position_pending(engine, stake_state) <= u64::MAX
    &&& caller_program == engine.staking_program
    &&& engine.total_staked_amount >= 1
}

/// Stakes one item: creates its record with one unit of weight and a reward
/// debt snapshotted at the engine's current accumulator — the position
/// accrues nothing retroactively — and grows the engine's total staked
/// weight by one, presenting `caller_program` as the capability.
///
/// No token moves on stake.  A rejected or overflowing call creates nothing
/// and changes nothing.
pub fn stake(
    engine: &mut EngineState,
    user_wallet: AccountId,
    nft_mint: AccountId,
    engine_state_ref: AccountId,
    caller_program: AccountId,
    now: i64,
) -> (r: Result<NftStakeState, StakingError>)
    ensures
        final(engine).same_accounts(*old(engine)),
        final(engine).same_ratios(*old(engine)),
        final(engine).reward_per_token_cumulative == old(engine).reward_per_token_cumulative,
        final(engine).last_distribution_timestamp == old(engine).last_distribution_timestamp,
        r is Ok <==> caller_program == old(engine).staking_program && old(
            engine,
        ).total_staked_amount < u64::MAX,
        r is Err ==> *final(engine) == *old(engine),
        caller_program != old(engine).staking_program ==> r == Err::<NftStakeState, StakingError>(
            StakingError::Unauthorized,
        ),
        caller_program == old(engine).staking_program && old(engine).total_staked_amount
            == u64::MAX ==> r == Err::<NftStakeState, StakingError>(StakingError::CalculationError),
        r matches Ok(p) ==> {
            &&& p.user_wallet == user_wallet
            &&& p.nft_mint == nft_mint
            &&& p.staked_amount == 1
            &&& p.reward_debt == old(engine).reward_per_token_cumulative
            &&& p.last_staked_timestamp == now
            &&& p.is_staked
            &&& p.engine_state_ref == engine_state_ref
            &&& final(engine).total_staked_amount == old(engine).total_staked_amount + 1
        },
{
    let new_position = NftStakeState {
        user_wallet,
        nft_mint,
        staked_amount: 1,
        reward_debt: engine.reward_per_token_cumulative,
        last_staked_timestamp: now,
        is_staked: true,
        engine_state_ref,
    };
    match engine.increase_total_staked(caller_program, 1) {
        Ok(()) => Ok(new_position),
        Err(code) => Err(
            match code {
                crate::errors::ErrorCode::Unauthorized => StakingError::Unauthorized,
                _ => StakingError::CalculationError,
            },
        ),
    }
}

/// Unstakes an item: pays the pending reward exactly once, gives one unit of
/// weight back to the engine, and deactivates the record.
///
/// The returned amount is what the caller must move from the reward pool to
/// the owner's reward account (nothing moves when it is zero).  Only the
/// owner may unstake, and only an actively staked record.  A failed call
/// pays nothing and changes neither record.
pub fn unstake(
    engine: &mut EngineState,
    stake_state: &mut NftStakeState,
    user_wallet: AccountId,
    caller_program: AccountId,
) -> (r: Result<u64, StakingError>)
    ensures
        r is Ok <==> spec_unstake_allowed(*old(engine), *old(stake_state), user_wallet,
            caller_program,
        ),
        r is Err ==> *final(engine) == *old(engine) && *final(stake_state) == *old(stake_state),
        !old(stake_state).is_staked ==> r == Err::<u64, StakingError>(StakingError::NftNotStaked),
        old(stake_state).is_staked && old(stake_state).user_wallet != user_wallet ==> r == Err::<
            u64,
            StakingError,
        >(StakingError::Unauthorized),
        old(stake_state).is_staked && old(stake_state).user_wallet == user_wallet
            && spec_position_pending(*old(engine), *old(stake_state)) > u64::MAX ==> r == Err::<
            u64,
            StakingError,
        >(StakingError::CalculationError),
        old(stake_state).is_staked && old(stake_state).user_wallet == user_wallet
            && spec_position_pending(*old(engine), *old(stake_state)) <= u64::MAX
            && caller_program != old(engine).staking_program ==> r == Err::<u64, StakingError>(
            StakingError::Unauthorized,
        ),
        old(stake_state).is_staked && old(stake_state).user_wallet == user_wallet
            && spec_position_pending(*old(engine), *old(stake_state)) <= u64::MAX
            && caller_program == old(engine).staking_program && old(engine).total_staked_amount
            == 0 ==> r == Err::<u64, StakingError>(StakingError::CalculationError),
        r matches Ok(paid) ==> {
            &&& paid == spec_position_pending(*old(engine), *old(stake_state))
            &&& final(engine).same_accounts(*old(engine))
            &&& final(engine).same_ratios(*old(engine))
            &&& final(engine).reward_per_token_cumulative == old(
                engine,
            ).reward_per_token_cumulative
            &&& final(engine).last_distribution_timestamp == old(
                engine,
            ).last_distribution_timestamp
            &&& final(engine).total_staked_amount == old(engine).total_staked_amount - 1
            &&& !final(stake_state).is_staked
            &&& final(stake_state).user_wallet == old(stake_state).user_wallet
            &&& final(stake_state).nft_mint == old(stake_state).nft_mint
            &&& final(stake_state).staked_amount == old(stake_state).staked_amount
            &&& final(stake_state).reward_debt == old(stake_state).reward_debt
            &&& final(stake_state).last_staked_timestamp == old(
                stake_state,
            ).last_staked_timestamp
            &&& final(stake_state).engine_state_ref == old(stake_state).engine_state_ref
        },
{
    if !stake_state.is_staked {
        return Err(StakingError::NftNotStaked);
    }
    if stake_state.user_wallet != user_wallet {
        return Err(StakingError::Unauthorized);
    }
    let claimable_reward = match calculate_rewards_from_state(engine, stake_state) {
        Ok(pending) => pending,
        Err(failure) => {
            return Err(failure);
        },
    };
    match engine.decrease_total_staked(caller_program, 1) {
        Ok(()) => {},
        Err(code) => {
            return Err(
                match code {
                    crate::errors::ErrorCode::Unauthorized => StakingError::Unauthorized,
                    _ => StakingError::CalculationError,
                },
            );
        },
    }
    stake_state.is_staked = false;
    Ok(claimable_reward)
}

/// Claims the pending reward without closing the position: pays it exactly
/// once and advances the reward debt to the engine's current accumulator, so
/// nothing further is pending until the accumulator advances again.
///
/// The returned amount is what the caller must move from the reward pool to
/// the owner's reward account.  Only the owner may claim, only an actively
/// staked record, and only when something is pending.  A failed call pays
/// nothing and changes nothing.
pub fn claim_rewards(
    engine: &EngineState,
    stake_state: &mut NftStakeState,
    user_wallet: AccountId,
) -> (r: Result<u64, StakingError>)
    ensures
        r is Ok <==> old(stake_state).is_staked && old(stake_state).user_wallet == user_wallet && 0
            < spec_position_pending(*engine, *old(stake_state)) <= u64::MAX,
        r is Err ==> *final(stake_state) == *old(stake_state),
        !old(stake_state).is_staked ==> r == Err::<u64, StakingError>(StakingError::NftNotStaked),
        old(stake_state).is_staked && old(stake_state).user_wallet != user_wallet ==> r == Err::<
            u64,
            StakingError,
        >(StakingError::Unauthorized),
        old(stake_state).is_staked && old(stake_state).user_wallet == user_wallet
            && spec_position_pending(*engine, *old(stake_state)) > u64::MAX ==> r == Err::<
            u64,
            StakingError,
        >(StakingError::CalculationError),
        old(stake_state).is_staked && old(stake_state).user_wallet == user_wallet
            && spec_position_pending(*engine, *old(stake_state)) == 0 ==> r == Err::<
            u64,
            StakingError,
        >(StakingError::NoRewardsToClaim),
        r matches Ok(paid) ==> {
            &&& paid == spec_position_pending(*engine, *old(stake_state))
            &&& paid > 0
            &&& final(stake_state).reward_debt == engine.reward_per_token_cumulative
            &&& final(stake_state).user_wallet == old(stake_state).user_wallet
            &&& final(stake_state).nft_mint == old(stake_state).nft_mint
            &&& final(stake_state).staked_amount == old(stake_state).staked_amount
            &&& final(stake_state).last_staked_timestamp == old(
                stake_state,
            ).last_staked_timestamp
            &&& final(stake_state).is_staked == old(stake_state).is_staked
            &&& final(stake_state).engine_state_ref == old(stake_state).engine_state_ref
        },
        r is Ok ==> spec_position_pending(*engine, *final(stake_state)) == 0,
{
    if !stake_state.is_staked {
        return Err(StakingError::NftNotStaked);
    }
    if stake_state.user_wallet != user_wallet {
        return Err(StakingError::Unauthorized);
    }
    let claimable_reward = match calculate_rewards_from_state(engine, stake_state) {
        Ok(pending) => pending,
        Err(failure) => {
            return Err(failure);
        },
    };
    if claimable_reward == 0 {
        return Err(StakingError::NoRewardsToClaim);
    }
    stake_state.reward_debt = engine.reward_per_token_cumulative;
    Ok(claimable_reward)
}

/// How many of the given positions hold an actively staked item.
pub open spec fn count_active(positions: Seq<NftStakeState>) -> int
    decreases positions.len(),
{
    if positions.len() == 0 {
        0
    } else {
        count_active(positions.drop_last()) + if positions.last().is_staked {
            1int
        } else {
            0int
        }
    }
}

/// Appending a position adds its activity to the count.
proof fn lemma_count_active_push(positions: Seq<NftStakeState>, p: NftStakeState)
    ensures
        count_active(positions.push(p)) == count_active(positions) + if p.is_staked {
            1int
        } else {
            0int
        },
{
    assert(positions.push(p).drop_last() =~= positions);
}

/// Replacing one position adjusts the count by the change in its activity.
proof fn lemma_count_active_update(positions: Seq<NftStakeState>, i: int, p: NftStakeState)
    requires
        0 <= i < positions.len(),
    ensures
        count_active(positions.update(i, p)) == count_active(positions) - (if positions[i].is_staked {
            1int
        } else {
            0int
        }) + (if p.is_staked {
            1int
        } else {
            0int
        }),
    decreases positions.len(),
{
    let updated = positions.update(i, p);
    if i == positions.len() - 1 {
        assert(updated.drop_last() =~= positions.drop_last());
    } else {
        assert(updated.drop_last() =~= positions.drop_last().update(i, p));
        lemma_count_active_update(positions.drop_last(), i, p);
    }
}

/// The staked-weight invariant survives staking: when the engine's total
/// equals the number of active positions, adding the freshly created active
/// position while the total grows by one keeps them equal.
pub proof fn lemma_total_weight_tracks_stake(
    positions: Seq<NftStakeState>,
    p: NftStakeState,
    total_staked_amount: u64,
)
    requires
        total_staked_amount as int == count_active(positions),
        p.is_staked,
    ensures
        total_staked_amount + 1 == count_active(positions.push(p)),
{
    lemma_count_active_push(positions, p);
}

/// The staked-weight invariant survives unstaking: when the engine's total
/// equals the number of active positions, deactivating one active position
/// while the total shrinks by one keeps them equal.
pub proof fn lemma_total_weight_tracks_unstake(
    positions: Seq<NftStakeState>,
    i: int,
    p: NftStakeState,
    total_staked_amount: u64,
)
    requires
        total_staked_amount as int == count_active(positions),
        0 <= i < positions.len(),
        positions[i].is_staked,
        !p.is_staked,
    ensures
        total_staked_amount - 1 == count_active(positions.update(i, p)),
{
    lemma_count_active_update(positions, i, p);
}

} // verus!
