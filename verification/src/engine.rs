//! The reward engine: bringing the global accumulator up to the current
//! height and settling one account's position against it.
//!
//! `spec_update` and `spec_settle` are the mathematical transitions; the
//! executable functions return exactly those results. Every overflow of the
//! fixed-width representation is reported as `ArithmeticOverflow` and leaves
//! the caller's state untouched (the functions are pure: an `Err` carries no
//! new state).

use vstd::prelude::*;
use vstd::arithmetic::mul::{lemma_mul_inequality, lemma_mul_nonnegative};
use crate::error::ContractError;
use crate::state::{position_synced, RewardAccumulator, StakedPosition, StakingConfig};

verus! {

/// Value of `acc_reward_per_unit` once the accumulator reaches height
/// `now`: while anything is staked, every elapsed block adds the full
/// per-unit rate; while nothing is staked, no reward accrues and only the
/// height advances.
pub open spec fn acc_after_spec(cfg: StakingConfig, acc: RewardAccumulator, now: u64) -> int
    recommends
        acc.last_update_height <= now,
{
    if acc.total_staked > 0 {
        acc.acc_reward_per_unit + cfg.reward_rate * (now - acc.last_update_height)
    } else {
        acc.acc_reward_per_unit as int
    }
}

/// The accumulator update transition: the per-unit counter grows to
/// `acc_after_spec`, the height moves to `now`, the total stays; the whole
/// update fails if the counter would overflow.
pub open spec fn spec_update(cfg: StakingConfig, acc: RewardAccumulator, now: u64) -> Result<
    RewardAccumulator,
    ContractError,
>
    recommends
        acc.last_update_height <= now,
{
    if acc_after_spec(cfg, acc, now) > u128::MAX {
        Err(ContractError::ArithmeticOverflow)
    } else {
        Ok(
            RewardAccumulator {
                acc_reward_per_unit: acc_after_spec(cfg, acc, now) as u128,
                last_update_height: now,
                total_staked: acc.total_staked,
            },
        )
    }
}

/// The settlement transition: update the accumulator, move the newly
/// accrued reward `acc_reward_per_unit * amount - reward_debt` into
/// `pending_reward`, and checkpoint the debt at the new accumulator value.
/// The staked amount itself never changes here.
pub open spec fn spec_settle(
    cfg: StakingConfig,
    acc: RewardAccumulator,
    pos: StakedPosition,
    now: u64,
) -> Result<(RewardAccumulator, StakedPosition), ContractError>
    recommends
        acc.last_update_height <= now,
        position_synced(acc, pos),
{
    match spec_update(cfg, acc, now) {
        Err(e) => Err(e),
        Ok(a) => {
            let new_debt = a.acc_reward_per_unit * pos.amount;
            let earned = new_debt - pos.reward_debt;
            if new_debt > u128::MAX || pos.pending_reward + earned > u128::MAX {
                Err(ContractError::ArithmeticOverflow)
            } else {
                Ok(
                    (
                        a,
                        StakedPosition {
                            amount: pos.amount,
                            reward_debt: new_debt as u128,
                            pending_reward: (pos.pending_reward + earned) as u128,
                        },
                    ),
                )
            }
        },
    }
}

/// If `now > last_update_height` and anything is staked, add
/// `reward_rate * (now - last_update_height)` to the per-unit accumulator;
/// otherwise only advance the height. Runs before any mutation of
/// `total_staked` or of an individual position.
pub fn update_accumulator(cfg: &StakingConfig, acc: &RewardAccumulator, now: u64) -> (r: Result<
    RewardAccumulator,
    ContractError,
>)
    requires
        acc.last_update_height <= now,
    ensures
        r == spec_update(*cfg, *acc, now),
{
    if acc.total_staked > 0 {
        let delta: u64 = now - acc.last_update_height;
        match cfg.reward_rate.checked_mul(delta as u128) {
            None => Err(ContractError::ArithmeticOverflow),
            Some(increment) => match acc.acc_reward_per_unit.checked_add(increment) {
                None => Err(ContractError::ArithmeticOverflow),
                Some(per_unit) => Ok(
                    RewardAccumulator {
                        acc_reward_per_unit: per_unit,
                        last_update_height: now,
                        total_staked: acc.total_staked,
                    },
                ),
            },
        }
    } else {
        Ok(
            RewardAccumulator {
                acc_reward_per_unit: acc.acc_reward_per_unit,
                last_update_height: now,
                total_staked: acc.total_staked,
            },
        )
    }
}

/// Settle `pos` against the accumulator at height `now`. Returns the
/// updated accumulator and position; on any overflow, the error and no new
/// state. Calling it a second time at the same height accrues nothing more.
pub fn settle(
    cfg: &StakingConfig,
    acc: &RewardAccumulator,
    pos: &StakedPosition,
    now: u64,
) -> (r: Result<(RewardAccumulator, StakedPosition), ContractError>)
    requires
        acc.last_update_height <= now,
        position_synced(*acc, *pos),
    ensures
        r == spec_settle(*cfg, *acc, *pos, now),
        r matches Ok(sp) ==> {
            &&& position_synced(sp.0, sp.1)
            &&& sp.1.amount == pos.amount
            &&& sp.0.total_staked == acc.total_staked
            &&& sp.0.last_update_height == now
            &&& sp.0.acc_reward_per_unit >= acc.acc_reward_per_unit
        },
{
    match update_accumulator(cfg, acc, now) {
        Err(e) => Err(e),
        Ok(a) => {
            proof {
                if acc.total_staked > 0 {
                    lemma_mul_nonnegative(
                        cfg.reward_rate as int,
                        now - acc.last_update_height,
                    );
                }
                // The debt checkpoint never exceeds the current product:
                // the accumulator only grew since it was taken.
                lemma_mul_inequality(
                    acc.acc_reward_per_unit as int,
                    a.acc_reward_per_unit as int,
                    pos.amount as int,
                );
            }
            match a.acc_reward_per_unit.checked_mul(pos.amount) {
                None => Err(ContractError::ArithmeticOverflow),
                Some(new_debt) => {
                    let earned: u128 = new_debt - pos.reward_debt;
                    match pos.pending_reward.checked_add(earned) {
                        None => Err(ContractError::ArithmeticOverflow),
                        Some(pending) => Ok(
                            (
                                a,
                                StakedPosition {
                                    amount: pos.amount,
                                    reward_debt: new_debt,
                                    pending_reward: pending,
                                },
                            ),
                        ),
                    }
                },
            }
        },
    }
}

} // verus!
