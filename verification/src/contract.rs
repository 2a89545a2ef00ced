//! The staking transitions and the message dispatchers.
//!
//! Every handler is a pure transition: it takes the state an operation may
//! touch and returns either the complete new state or an error, never a
//! partially mutated one. The host commits the returned state atomically,
//! which gives the all-or-nothing behavior a failed operation must have.
//!
//! Every balance-mutating staking operation settles the calling account
//! first (`settle` runs inside `stake`, `unstake` and `claim_rewards`
//! before any amount changes), so no path reads a stale reward figure.

use vstd::prelude::*;
use crate::engine::{settle, spec_settle};
use crate::error::ContractError;
use crate::helpers::{available_balance, check_available_balance, spec_check_available};
use crate::msg::{
    ExecuteMsg, ExecuteOutcome, InstantiateMsg, QueryAnswer, QueryMsg, RewardResponse,
    StakedBalanceResponse,
};
use crate::query::{query_available_balance, query_reward, query_staked_balance, spec_query_reward};
use crate::state::{
    account_invariant, available_spec, lemma_locked_sum_nonneg, lemma_locked_sum_push,
    lemma_locked_sum_split, lemma_locked_sum_take_le, lemma_locked_sum_take_succ,
    lemma_matured_prefix_len_bounds, lemma_matured_prefix_len_from, locked_sum,
    matured_prefix_len, position_synced, queue_bounded,
    queue_sorted, LockedEntry, RewardAccumulator, StakedPosition, StakingConfig,
};

verus! {

/// The stake transition: settle, then move `amount` of available balance
/// into the position. Staking is an encumbrance, not a balance movement:
/// the ledger total is read for the guard and never changed. The reward
/// debt is recomputed against the post-increment amount, so the new stake
/// earns nothing retroactively.
pub open spec fn spec_stake(
    cfg: StakingConfig,
    acc: RewardAccumulator,
    pos: StakedPosition,
    locked: Seq<LockedEntry>,
    total_balance: u128,
    now: u64,
    amount: u128,
) -> Result<(RewardAccumulator, StakedPosition), ContractError> {
    if amount == 0 {
        Err(ContractError::InvalidAmount)
    } else if amount > available_spec(total_balance, pos, locked) {
        Err(ContractError::InsufficientAvailableBalance)
    } else {
        match spec_settle(cfg, acc, pos, now) {
            Err(e) => Err(e),
            Ok(sp) => {
                let a = sp.0;
                let p = sp.1;
                if a.total_staked + amount > u128::MAX || a.acc_reward_per_unit * (p.amount
                    + amount) > u128::MAX {
                    Err(ContractError::ArithmeticOverflow)
                } else {
                    Ok(
                        (
                            RewardAccumulator {
                                acc_reward_per_unit: a.acc_reward_per_unit,
                                last_update_height: a.last_update_height,
                                total_staked: (a.total_staked + amount) as u128,
                            },
                            StakedPosition {
                                amount: (p.amount + amount) as u128,
                                reward_debt: (a.acc_reward_per_unit * (p.amount
                                    + amount)) as u128,
                                pending_reward: p.pending_reward,
                            },
                        ),
                    )
                }
            },
        }
    }
}

/// The unstake transition: settle, shrink the position, and append the
/// amount to the lock queue with maturity `now + unlock_delay`. The funds
/// migrate from the staked tally to the locked tally; the ledger total is
/// untouched. Pending reward already settled stays claimable.
pub open spec fn spec_unstake(
    cfg: StakingConfig,
    acc: RewardAccumulator,
    pos: StakedPosition,
    locked: Seq<LockedEntry>,
    now: u64,
    amount: u128,
) -> Result<(RewardAccumulator, StakedPosition, Seq<LockedEntry>), ContractError> {
    if amount == 0 {
        Err(ContractError::InvalidAmount)
    } else if amount > pos.amount {
        Err(ContractError::InsufficientStaked)
    } else if now + cfg.unlock_delay > u64::MAX {
        Err(ContractError::ArithmeticOverflow)
    } else {
        match spec_settle(cfg, acc, pos, now) {
            Err(e) => Err(e),
            Ok(sp) => {
                let a = sp.0;
                let p = sp.1;
                Ok(
                    (
                        RewardAccumulator {
                            acc_reward_per_unit: a.acc_reward_per_unit,
                            last_update_height: a.last_update_height,
                            total_staked: (a.total_staked - amount) as u128,
                        },
                        StakedPosition {
                            amount: (p.amount - amount) as u128,
                            reward_debt: (a.acc_reward_per_unit * (p.amount - amount)) as u128,
                            pending_reward: p.pending_reward,
                        },
                        locked.push(
                            LockedEntry {
                                amount,
                                maturity_height: (now + cfg.unlock_delay) as u64,
                            },
                        ),
                    ),
                )
            },
        }
    }
}

/// The claim transition: settle, then pay out the requested sub-amount of
/// the pending reward (`0` requests all of it), leaving the remainder
/// pending. The payout is newly minted supply: it is credited to the
/// account's ledger total. Returns the new accumulator, position, ledger
/// total and the credited amount.
pub open spec fn spec_claim(
    cfg: StakingConfig,
    acc: RewardAccumulator,
    pos: StakedPosition,
    total_balance: u128,
    now: u64,
    amount: u128,
) -> Result<(RewardAccumulator, StakedPosition, u128, u128), ContractError> {
    match spec_settle(cfg, acc, pos, now) {
        Err(e) => Err(e),
        Ok(sp) => {
            let a = sp.0;
            let p = sp.1;
            let pay: int = if amount == 0 {
                p.pending_reward as int
            } else {
                amount as int
            };
            if pay > p.pending_reward {
                Err(ContractError::InsufficientReward)
            } else if total_balance + pay > u128::MAX {
                Err(ContractError::ArithmeticOverflow)
            } else {
                Ok(
                    (
                        a,
                        StakedPosition {
                            amount: p.amount,
                            reward_debt: p.reward_debt,
                            pending_reward: (p.pending_reward - pay) as u128,
                        },
                        (total_balance + pay) as u128,
                        pay as u128,
                    ),
                )
            }
        },
    }
}

/// Encumber `amount` of the caller's available balance as stake.
pub fn stake(
    cfg: &StakingConfig,
    acc: &RewardAccumulator,
    pos: &StakedPosition,
    locked: &Vec<LockedEntry>,
    total_balance: u128,
    now: u64,
    amount: u128,
) -> (r: Result<(RewardAccumulator, StakedPosition), ContractError>)
    requires
        acc.last_update_height <= now,
        position_synced(*acc, *pos),
        account_invariant(total_balance, *pos, locked@),
    ensures
        r == spec_stake(*cfg, *acc, *pos, locked@, total_balance, now, amount),
        r matches Ok(ap) ==> {
            &&& position_synced(ap.0, ap.1)
            &&& account_invariant(total_balance, ap.1, locked@)
            &&& ap.1.amount == pos.amount + amount
            &&& ap.0.total_staked == acc.total_staked + amount
            &&& ap.0.last_update_height == now
            &&& ap.0.acc_reward_per_unit >= acc.acc_reward_per_unit
        },
{
    if amount == 0 {
        return Err(ContractError::InvalidAmount);
    }
    proof {
        lemma_locked_sum_nonneg(locked@);
    }
    let avail = available_balance(total_balance, pos, locked);
    if amount > avail {
        return Err(ContractError::InsufficientAvailableBalance);
    }
    match settle(cfg, acc, pos, now) {
        Err(e) => Err(e),
        Ok((a, p)) => match a.total_staked.checked_add(amount) {
            None => Err(ContractError::ArithmeticOverflow),
            Some(new_total_staked) => {
                let new_amount: u128 = pos.amount + amount;
                match a.acc_reward_per_unit.checked_mul(new_amount) {
                    None => Err(ContractError::ArithmeticOverflow),
                    Some(new_debt) => Ok(
                        (
                            RewardAccumulator {
                                acc_reward_per_unit: a.acc_reward_per_unit,
                                last_update_height: a.last_update_height,
                                total_staked: new_total_staked,
                            },
                            StakedPosition {
                                amount: new_amount,
                                reward_debt: new_debt,
                                pending_reward: p.pending_reward,
                            },
                        ),
                    ),
                }
            },
        },
    }
}

/// Move `amount` from the caller's stake into its lock queue, maturing
/// `unlock_delay` blocks from now.
pub fn unstake(
    cfg: &StakingConfig,
    acc: &RewardAccumulator,
    pos: &StakedPosition,
    locked: &Vec<LockedEntry>,
    now: u64,
    amount: u128,
) -> (r: Result<(RewardAccumulator, StakedPosition, Vec<LockedEntry>), ContractError>)
    requires
        acc.last_update_height <= now,
        position_synced(*acc, *pos),
        queue_sorted(locked@),
        queue_bounded(locked@, now, cfg.unlock_delay),
    ensures
        r matches Ok(apq) ==> spec_unstake(*cfg, *acc, *pos, locked@, now, amount) == Ok::<
            (RewardAccumulator, StakedPosition, Seq<LockedEntry>),
            ContractError,
        >((apq.0, apq.1, apq.2@)),
        r matches Err(e) ==> spec_unstake(*cfg, *acc, *pos, locked@, now, amount) == Err::<
            (RewardAccumulator, StakedPosition, Seq<LockedEntry>),
            ContractError,
        >(e),
        r matches Ok(apq) ==> {
            &&& position_synced(apq.0, apq.1)
            &&& apq.1.amount + locked_sum(apq.2@) == pos.amount + locked_sum(locked@)
            &&& queue_sorted(apq.2@)
            &&& queue_bounded(apq.2@, now, cfg.unlock_delay)
            &&& apq.0.total_staked == acc.total_staked - amount
            &&& apq.0.last_update_height == now
            &&& apq.0.acc_reward_per_unit >= acc.acc_reward_per_unit
        },
{
    if amount == 0 {
        return Err(ContractError::InvalidAmount);
    }
    if amount > pos.amount {
        return Err(ContractError::InsufficientStaked);
    }
    let maturity = match now.checked_add(cfg.unlock_delay) {
        None => {
            return Err(ContractError::ArithmeticOverflow);
        },
        Some(m) => m,
    };
    match settle(cfg, acc, pos, now) {
        Err(e) => Err(e),
        Ok((a, p)) => {
            proof {
                assert(a.acc_reward_per_unit * pos.amount <= u128::MAX);
                assert(a.acc_reward_per_unit * (pos.amount - amount) <= a.acc_reward_per_unit
                    * pos.amount) by (nonlinear_arith)
                    requires
                        amount <= pos.amount,
                ;
                assert(a.acc_reward_per_unit * (pos.amount - amount) <= u128::MAX);
                lemma_locked_sum_push(
                    locked@,
                    LockedEntry { amount, maturity_height: maturity },
                );
            }
            let new_amount: u128 = pos.amount - amount;
            let new_debt: u128 = a.acc_reward_per_unit * new_amount;
            let mut queue = copy_queue(locked);
            queue.push(LockedEntry { amount, maturity_height: maturity });
            Ok(
                (
                    RewardAccumulator {
                        acc_reward_per_unit: a.acc_reward_per_unit,
                        last_update_height: a.last_update_height,
                        total_staked: a.total_staked - amount,
                    },
                    StakedPosition {
                        amount: new_amount,
                        reward_debt: new_debt,
                        pending_reward: p.pending_reward,
                    },
                    queue,
                ),
            )
        },
    }
}

/// Pay out `amount` of the caller's pending reward (`0` claims all),
/// crediting it to the caller's ledger total as new supply.
pub fn claim_rewards(
    cfg: &StakingConfig,
    acc: &RewardAccumulator,
    pos: &StakedPosition,
    total_balance: u128,
    now: u64,
    amount: u128,
) -> (r: Result<(RewardAccumulator, StakedPosition, u128, u128), ContractError>)
    requires
        acc.last_update_height <= now,
        position_synced(*acc, *pos),
    ensures
        r == spec_claim(*cfg, *acc, *pos, total_balance, now, amount),
        r matches Ok(t) ==> {
            &&& position_synced(t.0, t.1)
            &&& t.1.amount == pos.amount
            &&& t.2 == total_balance + t.3
            &&& t.0.last_update_height == now
            &&& t.0.acc_reward_per_unit >= acc.acc_reward_per_unit
        },
{
    match settle(cfg, acc, pos, now) {
        Err(e) => Err(e),
        Ok((a, p)) => {
            let pay: u128 = if amount == 0 {
                p.pending_reward
            } else {
                amount
            };
            if pay > p.pending_reward {
                return Err(ContractError::InsufficientReward);
            }
            match total_balance.checked_add(pay) {
                None => Err(ContractError::ArithmeticOverflow),
                Some(new_total) => Ok(
                    (
                        a,
                        StakedPosition {
                            amount: p.amount,
                            reward_debt: p.reward_debt,
                            pending_reward: p.pending_reward - pay,
                        },
                        new_total,
                        pay,
                    ),
                ),
            }
        },
    }
}

/// Release every matured entry at the front of the caller's lock queue.
/// Returns the remaining queue and the released amount; a no-op (released
/// `0`) when nothing has matured. The ledger total never changes: removing
/// the entries merely widens the available balance.
pub fn unlock(locked: &Vec<LockedEntry>, now: u64) -> (r: (Vec<LockedEntry>, u128))
    requires
        queue_sorted(locked@),
        locked_sum(locked@) <= u128::MAX,
    ensures
        r.0@ == locked@.skip(matured_prefix_len(locked@, now)),
        r.1 == locked_sum(locked@.take(matured_prefix_len(locked@, now))),
        locked_sum(r.0@) == locked_sum(locked@) - r.1,
        queue_sorted(r.0@),
        forall|i: int| 0 <= i < r.0@.len() ==> r.0@[i].maturity_height > now,
{
    let n = locked.len();
    let mut i: usize = 0;
    let mut released: u128 = 0;
    while i < n && locked[i].maturity_height <= now
        invariant
            0 <= i <= n,
            n == locked@.len(),
            locked_sum(locked@) <= u128::MAX,
            queue_sorted(locked@),
            released == locked_sum(locked@.take(i as int)),
            forall|j: int| 0 <= j < i ==> locked@[j].maturity_height <= now,
        decreases n - i,
    {
        proof {
            lemma_locked_sum_take_succ(locked@, i as int);
            lemma_locked_sum_take_le(locked@, i as int + 1);
            lemma_locked_sum_nonneg(locked@.take(i as int));
        }
        released = released + locked[i].amount;
        i = i + 1;
    }
    proof {
        lemma_matured_prefix_len_from(locked@, now, i as int);
        lemma_locked_sum_split(locked@, i as int);
    }
    let mut rest: Vec<LockedEntry> = Vec::new();
    let mut j: usize = i;
    while j < n
        invariant
            i <= j <= n,
            n == locked@.len(),
            rest@ == locked@.subrange(i as int, j as int),
        decreases n - j,
    {
        rest.push(locked[j]);
        proof {
            assert(locked@.subrange(i as int, j as int + 1) =~= locked@.subrange(
                i as int,
                j as int,
            ).push(locked@[j as int]));
        }
        j = j + 1;
    }
    proof {
        assert(rest@ =~= locked@.skip(i as int));
        if i < n {
            assert(forall|k: int| 0 <= k < rest@.len() ==> rest@[k] == locked@[k + i]);
            assert(forall|k: int|
                0 <= k < rest@.len() ==> rest@[k].maturity_height
                    >= locked@[i as int].maturity_height);
        }
    }
    (rest, released)
}

/// Set up the two singletons. The accumulator starts at zero with nothing
/// staked, anchored at the instantiation height; the configuration is
/// immutable thereafter. The token metadata and initial supply in the
/// message go to the base token ledger, not to the core.
pub fn instantiate(msg: &InstantiateMsg, now: u64) -> (r: (StakingConfig, RewardAccumulator))
    ensures
        r.0 == (StakingConfig {
            reward_rate: msg.reward_per_block,
            unlock_delay: msg.unlock_delay,
        }),
        r.1 == (RewardAccumulator {
            acc_reward_per_unit: 0u128,
            last_update_height: now,
            total_staked: 0u128,
        }),
        position_synced(r.1, StakedPosition { amount: 0u128, reward_debt: 0u128, pending_reward: 0u128 }),
{
    (
        StakingConfig { reward_rate: msg.reward_per_block, unlock_delay: msg.unlock_delay },
        RewardAccumulator { acc_reward_per_unit: 0, last_update_height: now, total_staked: 0 },
    )
}

/// Routing of a guarded ledger operation: it may proceed exactly when the
/// debited amount does not exceed the owner's available balance.
pub open spec fn spec_guard_route(
    total_balance: u128,
    pos: StakedPosition,
    locked: Seq<LockedEntry>,
    amount: u128,
) -> Result<ExecuteOutcome, ContractError> {
    match spec_check_available(total_balance, pos, locked, amount) {
        Ok(u) => Ok(ExecuteOutcome::Guarded),
        Err(e) => Err(e),
    }
}

/// Route one executable message. Staking messages are handled here and
/// return the complete new state for the host to commit; balance-reducing
/// ledger messages pass the available-balance guard on the owner's state
/// and are then forwarded; the remaining ledger messages are forwarded
/// untouched. `pos`, `locked` and `total_balance` belong to the account
/// whose balance the message affects: the sender, or for the `*From`
/// messages the owner.
pub fn execute(
    cfg: &StakingConfig,
    acc: &RewardAccumulator,
    pos: &StakedPosition,
    locked: &Vec<LockedEntry>,
    total_balance: u128,
    now: u64,
    msg: ExecuteMsg,
) -> (r: Result<ExecuteOutcome, ContractError>)
    requires
        acc.last_update_height <= now,
        position_synced(*acc, *pos),
        account_invariant(total_balance, *pos, locked@),
        queue_sorted(locked@),
        queue_bounded(locked@, now, cfg.unlock_delay),
    ensures
        match msg {
            ExecuteMsg::Stake { amount } => match spec_stake(
                *cfg,
                *acc,
                *pos,
                locked@,
                total_balance,
                now,
                amount,
            ) {
                Ok(ap) => staking_outcome(
                    r,
                    ap.0,
                    ap.1,
                    locked@,
                    total_balance,
                    0u128,
                    0u128,
                ),
                Err(e) => r == Err::<ExecuteOutcome, ContractError>(e),
            },
            ExecuteMsg::Unstake { amount } => match spec_unstake(
                *cfg,
                *acc,
                *pos,
                locked@,
                now,
                amount,
            ) {
                Ok(apq) => staking_outcome(
                    r,
                    apq.0,
                    apq.1,
                    apq.2,
                    total_balance,
                    0u128,
                    0u128,
                ),
                Err(e) => r == Err::<ExecuteOutcome, ContractError>(e),
            },
            ExecuteMsg::ClaimRewards { amount } => match spec_claim(
                *cfg,
                *acc,
                *pos,
                total_balance,
                now,
                amount,
            ) {
                Ok(t) => staking_outcome(r, t.0, t.1, locked@, t.2, t.3, 0u128),
                Err(e) => r == Err::<ExecuteOutcome, ContractError>(e),
            },
            ExecuteMsg::Unlock {  } => staking_outcome(
                r,
                *acc,
                *pos,
                locked@.skip(matured_prefix_len(locked@, now)),
                total_balance,
                0u128,
                (locked_sum(locked@) - locked_sum(
                    locked@.skip(matured_prefix_len(locked@, now)),
                )) as u128,
            ),
            ExecuteMsg::Transfer { amount } => r == spec_guard_route(
                total_balance,
                *pos,
                locked@,
                amount,
            ),
            ExecuteMsg::Burn { amount } => r == spec_guard_route(
                total_balance,
                *pos,
                locked@,
                amount,
            ),
            ExecuteMsg::Send { amount } => r == spec_guard_route(
                total_balance,
                *pos,
                locked@,
                amount,
            ),
            ExecuteMsg::TransferFrom { amount } => r == spec_guard_route(
                total_balance,
                *pos,
                locked@,
                amount,
            ),
            ExecuteMsg::BurnFrom { amount } => r == spec_guard_route(
                total_balance,
                *pos,
                locked@,
                amount,
            ),
            ExecuteMsg::SendFrom { amount } => r == spec_guard_route(
                total_balance,
                *pos,
                locked@,
                amount,
            ),
            ExecuteMsg::IncreaseAllowance {  } => r == Ok::<ExecuteOutcome, ContractError>(
                ExecuteOutcome::Forward,
            ),
            ExecuteMsg::DecreaseAllowance {  } => r == Ok::<ExecuteOutcome, ContractError>(
                ExecuteOutcome::Forward,
            ),
            ExecuteMsg::UpdateMarketing {  } => r == Ok::<ExecuteOutcome, ContractError>(
                ExecuteOutcome::Forward,
            ),
            ExecuteMsg::UploadLogo {  } => r == Ok::<ExecuteOutcome, ContractError>(
                ExecuteOutcome::Forward,
            ),
        },
        // Whatever the message, a committed staking outcome keeps the
        // account's encumbrance covered by its total balance and its
        // position consistent with the accumulator.
        match r {
            Ok(o) => match o {
                ExecuteOutcome::Staking {
                    accumulator,
                    position,
                    locked: l2,
                    total_balance: t2,
                    credited,
                    released,
                } => {
                    &&& position_synced(accumulator, position)
                    &&& account_invariant(t2, position, l2@)
                    &&& queue_sorted(l2@)
                    &&& queue_bounded(l2@, now, cfg.unlock_delay)
                },
                _ => true,
            },
            Err(e) => true,
        },
{
    match msg {
        ExecuteMsg::Stake { amount } => match stake(
            cfg,
            acc,
            pos,
            locked,
            total_balance,
            now,
            amount,
        ) {
            Err(e) => Err(e),
            Ok((a, p)) => {
                let queue = copy_queue(locked);
                Ok(
                    ExecuteOutcome::Staking {
                        accumulator: a,
                        position: p,
                        locked: queue,
                        total_balance,
                        credited: 0,
                        released: 0,
                    },
                )
            },
        },
        ExecuteMsg::Unstake { amount } => match unstake(cfg, acc, pos, locked, now, amount) {
            Err(e) => Err(e),
            Ok((a, p, q)) => Ok(
                ExecuteOutcome::Staking {
                    accumulator: a,
                    position: p,
                    locked: q,
                    total_balance,
                    credited: 0,
                    released: 0,
                },
            ),
        },
        ExecuteMsg::ClaimRewards { amount } => match claim_rewards(
            cfg,
            acc,
            pos,
            total_balance,
            now,
            amount,
        ) {
            Err(e) => Err(e),
            Ok((a, p, new_total, credited)) => {
                let queue = copy_queue(locked);
                Ok(
                    ExecuteOutcome::Staking {
                        accumulator: a,
                        position: p,
                        locked: queue,
                        total_balance: new_total,
                        credited,
                        released: 0,
                    },
                )
            },
        },
        ExecuteMsg::Unlock {  } => {
            proof {
                lemma_matured_prefix_len_bounds(locked@, now);
                lemma_locked_sum_nonneg(locked@);
                lemma_locked_sum_take_le(locked@, matured_prefix_len(locked@, now));
                lemma_locked_sum_nonneg(locked@.take(matured_prefix_len(locked@, now)));
            }
            let (q, released) = unlock(locked, now);
            proof {
                let k = matured_prefix_len(locked@, now);
                lemma_locked_sum_nonneg(locked@.skip(k));
                assert(forall|i: int| 0 <= i < q@.len() ==> q@[i] == locked@[i + k]);
            }
            Ok(
                ExecuteOutcome::Staking {
                    accumulator: RewardAccumulator {
                        acc_reward_per_unit: acc.acc_reward_per_unit,
                        last_update_height: acc.last_update_height,
                        total_staked: acc.total_staked,
                    },
                    position: StakedPosition {
                        amount: pos.amount,
                        reward_debt: pos.reward_debt,
                        pending_reward: pos.pending_reward,
                    },
                    locked: q,
                    total_balance,
                    credited: 0,
                    released,
                },
            )
        },
        ExecuteMsg::Transfer { amount } => match check_available_balance(
            total_balance,
            pos,
            locked,
            amount,
        ) {
            Ok(u) => Ok(ExecuteOutcome::Guarded),
            Err(e) => Err(e),
        },
        ExecuteMsg::Burn { amount } => match check_available_balance(
            total_balance,
            pos,
            locked,
            amount,
        ) {
            Ok(u) => Ok(ExecuteOutcome::Guarded),
            Err(e) => Err(e),
        },
        ExecuteMsg::Send { amount } => match check_available_balance(
            total_balance,
            pos,
            locked,
            amount,
        ) {
            Ok(u) => Ok(ExecuteOutcome::Guarded),
            Err(e) => Err(e),
        },
        ExecuteMsg::TransferFrom { amount } => match check_available_balance(
            total_balance,
            pos,
            locked,
            amount,
        ) {
            Ok(u) => Ok(ExecuteOutcome::Guarded),
            Err(e) => Err(e),
        },
        ExecuteMsg::BurnFrom { amount } => match check_available_balance(
            total_balance,
            pos,
            locked,
            amount,
        ) {
            Ok(u) => Ok(ExecuteOutcome::Guarded),
            Err(e) => Err(e),
        },
        ExecuteMsg::SendFrom { amount } => match check_available_balance(
            total_balance,
            pos,
            locked,
            amount,
        ) {
            Ok(u) => Ok(ExecuteOutcome::Guarded),
            Err(e) => Err(e),
        },
        ExecuteMsg::IncreaseAllowance {  } => Ok(ExecuteOutcome::Forward),
        ExecuteMsg::DecreaseAllowance {  } => Ok(ExecuteOutcome::Forward),
        ExecuteMsg::UpdateMarketing {  } => Ok(ExecuteOutcome::Forward),
        ExecuteMsg::UploadLogo {  } => Ok(ExecuteOutcome::Forward),
    }
}

/// The outcome `r` is a committed staking outcome with exactly these
/// components.
pub open spec fn staking_outcome(
    r: Result<ExecuteOutcome, ContractError>,
    accumulator: RewardAccumulator,
    position: StakedPosition,
    locked: Seq<LockedEntry>,
    total_balance: u128,
    credited: u128,
    released: u128,
) -> bool {
    match r {
        Ok(o) => match o {
            ExecuteOutcome::Staking {
                accumulator: a,
                position: p,
                locked: l,
                total_balance: t,
                credited: c,
                released: rl,
            } => a == accumulator && p == position && l@ == locked && t == total_balance && c
                == credited && rl == released,
            _ => false,
        },
        Err(e) => false,
    }
}

/// Route one query. The staking queries are answered from the addressed
/// account's state; the base-token queries belong to the ledger
/// collaborator and come back as `Forward`.
pub fn query(
    cfg: &StakingConfig,
    acc: &RewardAccumulator,
    pos: &StakedPosition,
    locked: &Vec<LockedEntry>,
    total_balance: u128,
    now: u64,
    msg: QueryMsg,
) -> (r: Result<QueryAnswer, ContractError>)
    requires
        acc.last_update_height <= now,
        position_synced(*acc, *pos),
        account_invariant(total_balance, *pos, locked@),
    ensures
        match msg {
            QueryMsg::StakedBalance {  } => r == Ok::<QueryAnswer, ContractError>(
                QueryAnswer::StakedBalance(StakedBalanceResponse { balance: pos.amount }),
            ),
            QueryMsg::Reward {  } => match spec_query_reward(*cfg, *acc, *pos, now) {
                Ok(v) => r == Ok::<QueryAnswer, ContractError>(
                    QueryAnswer::Reward(RewardResponse { reward: v }),
                ),
                Err(e) => r == Err::<QueryAnswer, ContractError>(e),
            },
            QueryMsg::AvailableBalance {  } => r == Ok::<QueryAnswer, ContractError>(
                QueryAnswer::AvailableBalance(
                    available_spec(total_balance, *pos, locked@) as u128,
                ),
            ),
            _ => r == Ok::<QueryAnswer, ContractError>(QueryAnswer::Forward),
        },
{
    match msg {
        QueryMsg::StakedBalance {  } => Ok(
            QueryAnswer::StakedBalance(
                StakedBalanceResponse { balance: query_staked_balance(pos) },
            ),
        ),
        QueryMsg::Reward {  } => match query_reward(cfg, acc, pos, now) {
            Ok(v) => Ok(QueryAnswer::Reward(RewardResponse { reward: v })),
            Err(e) => Err(e),
        },
        QueryMsg::AvailableBalance {  } => Ok(
            QueryAnswer::AvailableBalance(query_available_balance(total_balance, pos, locked)),
        ),
        QueryMsg::Balance {  } => Ok(QueryAnswer::Forward),
        QueryMsg::TokenInfo {  } => Ok(QueryAnswer::Forward),
        QueryMsg::Allowance {  } => Ok(QueryAnswer::Forward),
        QueryMsg::Minter {  } => Ok(QueryAnswer::Forward),
        QueryMsg::MarketingInfo {  } => Ok(QueryAnswer::Forward),
        QueryMsg::DownloadLogo {  } => Ok(QueryAnswer::Forward),
        QueryMsg::AllAllowances {  } => Ok(QueryAnswer::Forward),
        QueryMsg::AllAccounts {  } => Ok(QueryAnswer::Forward),
    }
}

/// Exact copy of a lock queue (entries are plain values).
fn copy_queue(locked: &Vec<LockedEntry>) -> (r: Vec<LockedEntry>)
    ensures
        r@ == locked@,
{
    let n = locked.len();
    let mut r: Vec<LockedEntry> = Vec::new();
    let mut i: usize = 0;
    while i < n
        invariant
            0 <= i <= n,
            n == locked@.len(),
            r@ == locked@.take(i as int),
        decreases n - i,
    {
        r.push(locked[i]);
        proof {
            assert(locked@.take(i as int + 1) =~= locked@.take(i as int).push(
                locked@[i as int],
            ));
        }
        i = i + 1;
    }
    proof {
        assert(locked@.take(n as int) =~= locked@);
    }
    r
}

} // verus!
