//! Read-only staking queries. None of them mutates state: the reward query
//! computes what a settlement at the current height would leave pending,
//! without performing it.

use vstd::prelude::*;
use crate::engine::{settle, spec_settle};
use crate::error::ContractError;
use crate::helpers::available_balance;
use crate::state::{
    account_invariant, available_spec, position_synced, LockedEntry, RewardAccumulator,
    StakedPosition, StakingConfig,
};

verus! {

/// Pending plus unsettled accrued reward at height `now`: exactly the
/// `pending_reward` a settlement at `now` would leave.
pub open spec fn spec_query_reward(
    cfg: StakingConfig,
    acc: RewardAccumulator,
    pos: StakedPosition,
    now: u64,
) -> Result<u128, ContractError> {
    match spec_settle(cfg, acc, pos, now) {
        Ok(sp) => Ok(sp.1.pending_reward),
        Err(e) => Err(e),
    }
}

/// The account's current staked amount.
pub fn query_staked_balance(pos: &StakedPosition) -> (r: u128)
    ensures
        r == pos.amount,
{
    pos.amount
}

/// The account's total reward at height `now`: already-settled pending
/// reward plus what has accrued since the last settlement. Computed, not
/// mutating.
pub fn query_reward(
    cfg: &StakingConfig,
    acc: &RewardAccumulator,
    pos: &StakedPosition,
    now: u64,
) -> (r: Result<u128, ContractError>)
    requires
        acc.last_update_height <= now,
        position_synced(*acc, *pos),
    ensures
        r == spec_query_reward(*cfg, *acc, *pos, now),
{
    match settle(cfg, acc, pos, now) {
        Ok(sp) => Ok(sp.1.pending_reward),
        Err(e) => Err(e),
    }
}

/// The account's available balance: total minus staked minus all locked
/// amounts, matured or not.
pub fn query_available_balance(
    total_balance: u128,
    pos: &StakedPosition,
    locked: &Vec<LockedEntry>,
) -> (r: u128)
    requires
        account_invariant(total_balance, *pos, locked@),
    ensures
        r == available_spec(total_balance, *pos, locked@),
{
    available_balance(total_balance, pos, locked)
}

} // verus!
