//! The global revenue engine: one record holding the split ratios, the total
//! staked weight and the reward-per-share accumulator, together with the
//! distribution algorithm and the guarded mutators of the aggregate counter.
//!
//! The engine performs no ledger work itself.  `distribute_revenue` takes the
//! freshly read balance of the revenue safe and returns the exact transfer
//! amounts the caller must move out of it; the record's own derived authority
//! is the mover of those funds, so no external signature is involved.

use vstd::prelude::*;
use crate::account::AccountId;
use crate::errors::ErrorCode;
use crate::math::MAX_RATIO_BPS;
use crate::math::lemma_shares_within_revenue;
use crate::math::reward_per_share_delta;
use crate::math::scale_by_ratio;
use crate::math::spec_reward_per_share_delta;
use crate::math::spec_scale_by_ratio;

verus! {

/// The transfers one successful distribution dictates: each share moves from
/// the revenue safe to its destination (reward pool, DAO treasury, developer
/// treasury), and the remainder stays in the safe for the next period.
#[derive(Clone, Copy, PartialEq, Eq, Structural, Debug)]
pub struct DistributionOutcome {
    /// Amount owed to the staking reward pool.
    pub staker_share: u64,
    /// Amount owed to the DAO treasury.
    pub dao_share: u64,
    /// Amount owed to the developer treasury.
    pub developer_share: u64,
    /// Rounding dust left in the revenue safe, carried to the next period.
    pub remaining: u64,
}

/// The global engine record: created once, never destroyed.
#[derive(Clone, Copy, PartialEq, Eq, Structural, Debug)]
pub struct EngineState {
    /// Identity permitted to change the split ratios.
    pub authority: AccountId,
    /// Token account the periodic revenue accrues in.
    pub revenue_safe: AccountId,
    /// Token account holding undistributed staker rewards.
    pub reward_pool_pda: AccountId,
    /// Token account of the DAO treasury.
    pub dao_treasury_pda: AccountId,
    /// Token account of the developer treasury.
    pub developer_treasury_pda: AccountId,
    /// Basis points of each revenue period owed to stakers.
    pub staking_ratio_bps: u16,
    /// Basis points of each revenue period owed to the DAO treasury.
    pub dao_ratio_bps: u16,
    /// Basis points of each revenue period owed to the developer treasury.
    pub developer_ratio_bps: u16,
    /// Sum of the weights of all active positions.
    pub total_staked_amount: u64,
    /// Cumulative reward per unit of staked weight since genesis, fixed-point
    /// at the [`crate::math::PRECISION`] scale; never decreases.
    pub reward_per_token_cumulative: u128,
    /// Timestamp of the last successful distribution over a non-empty safe.
    pub last_distribution_timestamp: i64,
    /// The one executable identity allowed to adjust `total_staked_amount`:
    /// the staking component, configured at initialization.
    pub staking_program: AccountId,
}

impl EngineState {
    /// The record's invariant: the three ratios never claim more than the
    /// whole.  Established at initialization and preserved by every write.
    pub open spec fn wf(self) -> bool {
        self.staking_ratio_bps + self.dao_ratio_bps + self.developer_ratio_bps
            <= MAX_RATIO_BPS as int
    }

    /// The five coordinated identities and the trusted adjuster are the same
    /// in both records.
    pub open spec fn same_accounts(self, other: EngineState) -> bool {
        &&& self.authority == other.authority
        &&& self.revenue_safe == other.revenue_safe
        &&& self.reward_pool_pda == other.reward_pool_pda
        &&& self.dao_treasury_pda == other.dao_treasury_pda
        &&& self.developer_treasury_pda == other.developer_treasury_pda
        &&& self.staking_program == other.staking_program
    }

    /// The three split ratios are the same in both records.
    pub open spec fn same_ratios(self, other: EngineState) -> bool {
        &&& self.staking_ratio_bps == other.staking_ratio_bps
        &&& self.dao_ratio_bps == other.dao_ratio_bps
        &&& self.developer_ratio_bps == other.developer_ratio_bps
    }

    /// The staker share a distribution of `revenue_amount` owes the reward
    /// pool under this record's ratios.
    pub open spec fn spec_staker_share(self, revenue_amount: int) -> int {
        spec_scale_by_ratio(revenue_amount, self.staking_ratio_bps as int)
    }

    /// The share a distribution of `revenue_amount` owes the DAO treasury.
    pub open spec fn spec_dao_share(self, revenue_amount: int) -> int {
        spec_scale_by_ratio(revenue_amount, self.dao_ratio_bps as int)
    }

    /// The share a distribution of `revenue_amount` owes the developer
    /// treasury.
    pub open spec fn spec_developer_share(self, revenue_amount: int) -> int {
        spec_scale_by_ratio(revenue_amount, self.developer_ratio_bps as int)
    }

    /// How far a distribution of `revenue_amount` advances the accumulator:
    /// nothing unless some weight is staked and the staker share is positive,
    /// in which case the staker share is spread over the staked weight.
    pub open spec fn spec_accumulator_gain(self, revenue_amount: int) -> int {
        if self.total_staked_amount > 0 && self.spec_staker_share(revenue_amount) > 0 {
            spec_reward_per_share_delta(
                self.spec_staker_share(revenue_amount),
                self.total_staked_amount as int,
            )
        } else {
            0
        }
    }

    /// Creates the engine record: all counters zeroed, ratios validated.
    ///
    /// Succeeds exactly when the three ratios sum to at most 10000 basis
    /// points; a sum beyond the checked 16-bit add is a calculation error,
    /// any other excess an invalid ratio sum.
    pub fn initialize_engine_state(
        authority: AccountId,
        staking_ratio_bps: u16,
        dao_ratio_bps: u16,
        developer_ratio_bps: u16,
        revenue_safe: AccountId,
        reward_pool_pda: AccountId,
        dao_treasury_pda: AccountId,
        developer_treasury_pda: AccountId,
        staking_program: AccountId,
    ) -> (r: Result<EngineState, ErrorCode>)
        ensures
            r is Ok <==> staking_ratio_bps + dao_ratio_bps + developer_ratio_bps
                <= MAX_RATIO_BPS as int,
            staking_ratio_bps + dao_ratio_bps + developer_ratio_bps > u16::MAX
                ==> r == Err::<EngineState, ErrorCode>(ErrorCode::CalculationError),
            staking_ratio_bps + dao_ratio_bps + developer_ratio_bps > MAX_RATIO_BPS as int
                && staking_ratio_bps + dao_ratio_bps + developer_ratio_bps <= u16::MAX
                ==> r == Err::<EngineState, ErrorCode>(ErrorCode::InvalidRatioSum),
            r matches Ok(e) ==> {
                &&& e.wf()
                &&& e.authority == authority
                &&& e.revenue_safe == revenue_safe
                &&& e.reward_pool_pda == reward_pool_pda
                &&& e.dao_treasury_pda == dao_treasury_pda
                &&& e.developer_treasury_pda == developer_treasury_pda
                &&& e.staking_program == staking_program
                &&& e.staking_ratio_bps == staking_ratio_bps
                &&& e.dao_ratio_bps == dao_ratio_bps
                &&& e.developer_ratio_bps == developer_ratio_bps
                &&& e.total_staked_amount == 0
                &&& e.reward_per_token_cumulative == 0
                &&& e.last_distribution_timestamp == 0
            },
    {
        let total_ratio = match staking_ratio_bps.checked_add(dao_ratio_bps) {
            Some(partial) => match partial.checked_add(developer_ratio_bps) {
                Some(total) => total,
                None => {
                    return Err(ErrorCode::CalculationError);
                },
            },
            None => {
                return Err(ErrorCode::CalculationError);
            },
        };
        if total_ratio > MAX_RATIO_BPS {
            return Err(ErrorCode::InvalidRatioSum);
        }
        Ok(
            EngineState {
                authority,
                revenue_safe,
                reward_pool_pda,
                dao_treasury_pda,
                developer_treasury_pda,
                staking_ratio_bps,
                dao_ratio_bps,
                developer_ratio_bps,
                total_staked_amount: 0,
                reward_per_token_cumulative: 0,
                last_distribution_timestamp: 0,
                staking_program,
            },
        )
    }

    /// Splits one period's revenue and advances the accumulator.
    ///
    /// `revenue_amount` must be the live balance of the revenue safe, read
    /// fresh by the caller at the moment of the call — never a snapshot taken
    /// earlier in the same execution context.  An empty safe is a no-op
    /// success.  Otherwise the three shares are floored basis-point cuts of
    /// the revenue, together never exceeding it; the dust stays in the safe.
    /// The accumulator advances by the staker share spread over the staked
    /// weight — unchanged when no weight is staked or the staker share is
    /// zero, the undistributed share parking in the reward pool for later.
    /// The only failure is overflow of the checked accumulator add, and a
    /// failed call changes nothing.
    pub fn distribute_revenue(&mut self, revenue_amount: u64, now: i64) -> (r: Result<
        DistributionOutcome,
        ErrorCode,
    >)
        requires
            old(self).wf(),
        ensures
            final(self).wf(),
            final(self).same_accounts(*old(self)),
            final(self).same_ratios(*old(self)),
            final(self).total_staked_amount == old(self).total_staked_amount,
            r is Err <==> old(self).reward_per_token_cumulative
                + old(self).spec_accumulator_gain(revenue_amount as int) > u128::MAX,
            r is Err ==> r == Err::<DistributionOutcome, ErrorCode>(ErrorCode::CalculationError)
                && *final(self) == *old(self),
            revenue_amount == 0 ==> *final(self) == *old(self),
            r matches Ok(o) ==> {
                &&& o.staker_share == old(self).spec_staker_share(revenue_amount as int)
                &&& o.dao_share == old(self).spec_dao_share(revenue_amount as int)
                &&& o.developer_share == old(self).spec_developer_share(revenue_amount as int)
                &&& o.staker_share + o.dao_share + o.developer_share <= revenue_amount
                &&& o.remaining == revenue_amount - (o.staker_share + o.dao_share
                    + o.developer_share)
                &&& final(self).reward_per_token_cumulative == old(self).reward_per_token_cumulative + old(self).spec_accumulator_gain(
                    revenue_amount as int,
                )
                &&& revenue_amount > 0 ==> final(self).last_distribution_timestamp == now
            },
            old(self).total_staked_amount == 0 ==> final(self).reward_per_token_cumulative == old(self).reward_per_token_cumulative,
            final(self).reward_per_token_cumulative >= old(self).reward_per_token_cumulative,
    {
        if revenue_amount == 0 {
            return Ok(
                DistributionOutcome {
                    staker_share: 0,
                    dao_share: 0,
                    developer_share: 0,
                    remaining: 0,
                },
            );
        }
        let total_staked = self.total_staked_amount;

        let staker_reward_total = scale_by_ratio(revenue_amount, self.staking_ratio_bps);
        let dao_reward_total = scale_by_ratio(revenue_amount, self.dao_ratio_bps);
        let developer_reward_total = scale_by_ratio(revenue_amount, self.developer_ratio_bps);
        proof {
            lemma_shares_within_revenue(
                revenue_amount as int,
                self.staking_ratio_bps as int,
                self.dao_ratio_bps as int,
                self.developer_ratio_bps as int,
            );
        }

        let distributed_total = match staker_reward_total.checked_add(dao_reward_total) {
            Some(partial) => match partial.checked_add(developer_reward_total) {
                Some(total) => total,
                None => {
                    return Err(ErrorCode::CalculationError);
                },
            },
            None => {
                return Err(ErrorCode::CalculationError);
            },
        };
        if distributed_total > revenue_amount {
            return Err(ErrorCode::CalculationError);
        }
        // Deliberately saturating, never checked: rounding dust must not be
        // able to block a distribution.
        let remaining_in_safe = revenue_amount.saturating_sub(distributed_total);

        let new_cumulative = if total_staked > 0 && staker_reward_total > 0 {
            let delta = reward_per_share_delta(staker_reward_total, total_staked);
            match self.reward_per_token_cumulative.checked_add(delta) {
                Some(advanced) => advanced,
                None => {
                    return Err(ErrorCode::CalculationError);
                },
            }
        } else {
            self.reward_per_token_cumulative
        };

        self.reward_per_token_cumulative = new_cumulative;
        self.last_distribution_timestamp = now;
        Ok(
            DistributionOutcome {
                staker_share: staker_reward_total,
                dao_share: dao_reward_total,
                developer_share: developer_reward_total,
                remaining: remaining_in_safe,
            },
        )
    }

    /// Adds `amount` to the total staked weight.
    ///
    /// Exposed only to the trusted staking component: any other presented
    /// caller identity is rejected, and a rejected or overflowing call
    /// changes nothing.
    pub fn increase_total_staked(&mut self, caller_program: AccountId, amount: u64) -> (r: Result<
        (),
        ErrorCode,
    >)
        ensures
            final(self).same_accounts(*old(self)),
            final(self).same_ratios(*old(self)),
            final(self).reward_per_token_cumulative == old(self).reward_per_token_cumulative,
            final(self).last_distribution_timestamp == old(self).last_distribution_timestamp,
            caller_program != old(self).staking_program ==> r == Err::<(), ErrorCode>(
                ErrorCode::Unauthorized,
            ) && *final(self) == *old(self),
            caller_program == old(self).staking_program && old(self).total_staked_amount + amount
                > u64::MAX ==> r == Err::<(), ErrorCode>(ErrorCode::CalculationError) && *final(self)
                == *old(self),
            caller_program == old(self).staking_program && old(self).total_staked_amount + amount
                <= u64::MAX ==> r == Ok::<(), ErrorCode>(()) && final(self).total_staked_amount
                == old(self).total_staked_amount + amount,
    {
        if caller_program != self.staking_program {
            return Err(ErrorCode::Unauthorized);
        }
        match self.total_staked_amount.checked_add(amount) {
            Some(total) => {
                self.total_staked_amount = total;
                Ok(())
            },
            None => Err(ErrorCode::CalculationError),
        }
    }

    /// Subtracts `amount` from the total staked weight.
    ///
    /// Exposed only to the trusted staking component: any other presented
    /// caller identity is rejected, and a rejected or underflowing call
    /// changes nothing.
    pub fn decrease_total_staked(&mut self, caller_program: AccountId, amount: u64) -> (r: Result<
        (),
        ErrorCode,
    >)
        ensures
            final(self).same_accounts(*old(self)),
            final(self).same_ratios(*old(self)),
            final(self).reward_per_token_cumulative == old(self).reward_per_token_cumulative,
            final(self).last_distribution_timestamp == old(self).last_distribution_timestamp,
            caller_program != old(self).staking_program ==> r == Err::<(), ErrorCode>(
                ErrorCode::Unauthorized,
            ) && *final(self) == *old(self),
            caller_program == old(self).staking_program && amount > old(self).total_staked_amount ==> r == Err::<(), ErrorCode>(ErrorCode::CalculationError)
                && *final(self) == *old(self),
            caller_program == old(self).staking_program && amount <= old(self).total_staked_amount ==> r == Ok::<(), ErrorCode>(()) && final(self).total_staked_amount == old(self).total_staked_amount - amount,
    {
        if caller_program != self.staking_program {
            return Err(ErrorCode::Unauthorized);
        }
        match self.total_staked_amount.checked_sub(amount) {
            Some(total) => {
                self.total_staked_amount = total;
                Ok(())
            },
            None => Err(ErrorCode::CalculationError),
        }
    }

    /// Replaces the three split ratios atomically.
    ///
    /// Only the configured authority may call; the new ratios must sum to at
    /// most 10000 basis points.  A rejected call changes nothing.
    pub fn update_ratios(
        &mut self,
        caller: AccountId,
        new_staking_ratio: u16,
        new_dao_ratio: u16,
        new_dev_ratio: u16,
    ) -> (r: Result<(), ErrorCode>)
        ensures
            final(self).same_accounts(*old(self)),
            final(self).total_staked_amount == old(self).total_staked_amount,
            final(self).reward_per_token_cumulative == old(self).reward_per_token_cumulative,
            final(self).last_distribution_timestamp == old(self).last_distribution_timestamp,
            r is Ok <==> caller == old(self).authority && new_staking_ratio + new_dao_ratio
                + new_dev_ratio <= MAX_RATIO_BPS as int,
            caller != old(self).authority ==> r == Err::<(), ErrorCode>(ErrorCode::Unauthorized)
                && *final(self) == *old(self),
            caller == old(self).authority && new_staking_ratio + new_dao_ratio + new_dev_ratio
                > u16::MAX ==> r == Err::<(), ErrorCode>(ErrorCode::CalculationError) && *final(self)
                == *old(self),
            caller == old(self).authority && new_staking_ratio + new_dao_ratio + new_dev_ratio
                > MAX_RATIO_BPS as int && new_staking_ratio + new_dao_ratio + new_dev_ratio
                <= u16::MAX ==> r == Err::<(), ErrorCode>(ErrorCode::InvalidRatioSum) && *final(self)
                == *old(self),
            r is Ok ==> {
                &&& final(self).wf()
                &&& final(self).staking_ratio_bps == new_staking_ratio
                &&& final(self).dao_ratio_bps == new_dao_ratio
                &&& final(self).developer_ratio_bps == new_dev_ratio
            },
    {
        if caller != self.authority {
            return Err(ErrorCode::Unauthorized);
        }
        let total_ratio = match new_staking_ratio.checked_add(new_dao_ratio) {
            Some(partial) => match partial.checked_add(new_dev_ratio) {
                Some(total) => total,
                None => {
                    return Err(ErrorCode::CalculationError);
                },
            },
            None => {
                return Err(ErrorCode::CalculationError);
            },
        };
        if total_ratio > MAX_RATIO_BPS {
            return Err(ErrorCode::InvalidRatioSum);
        }
        self.staking_ratio_bps = new_staking_ratio;
        self.dao_ratio_bps = new_dao_ratio;
        self.developer_ratio_bps = new_dev_ratio;
        Ok(())
    }
}

} // verus!
