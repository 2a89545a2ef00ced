//! Laws of the staking core that relate several transitions, stated and
//! proved over the spec-level transitions the executable handlers are
//! verified against.
//!
//! The encumbrance invariant itself — the total balance always covers
//! staked plus locked — is stated where it is maintained: `stake`,
//! `unstake` (through sum preservation), `claim_rewards`, `unlock` and
//! `execute` ensure it for the state they return, and
//! `check_available_balance` ensures that a debit it admits keeps it.

use vstd::prelude::*;
use vstd::arithmetic::mul::{
    lemma_mul_basics, lemma_mul_is_distributive_add_other_way, lemma_mul_nonnegative,
};
use crate::contract::{spec_stake, spec_unstake};
use crate::engine::{spec_settle, spec_update, acc_after_spec};
use crate::error::ContractError;
use crate::state::{
    account_invariant, available_spec, lemma_locked_sum_push, locked_sum, position_synced,
    LockedEntry, RewardAccumulator, StakedPosition, StakingConfig,
};

verus! {

/// Settlement is idempotent: settling a second time at the same height
/// returns the very same accumulator and position, so the second call
/// changes nothing — in particular `pending_reward` grows only on the
/// first.
pub proof fn lemma_settle_idempotent(
    cfg: StakingConfig,
    acc: RewardAccumulator,
    pos: StakedPosition,
    now: u64,
)
    requires
        acc.last_update_height <= now,
        spec_settle(cfg, acc, pos, now) is Ok,
    ensures
        spec_settle(cfg, acc, pos, now) matches Ok(sp) && spec_settle(cfg, sp.0, sp.1, now)
            == spec_settle(cfg, acc, pos, now),
{
    let sp = spec_settle(cfg, acc, pos, now)->Ok_0;
    let a = sp.0;
    let p = sp.1;
    assert(a.last_update_height == now);
    assert(acc_after_spec(cfg, a, now) == a.acc_reward_per_unit);
    assert(spec_update(cfg, a, now) == Ok::<RewardAccumulator, ContractError>(a));
    assert(p.reward_debt == a.acc_reward_per_unit * p.amount);
}

/// Conservation: an unstake of exactly what was just staked undoes the
/// stake. Staking `x` and immediately (same height) unstaking `x` cannot
/// fail past the stake (provided the maturity height fits its width),
/// restores the staked amount and the global total, and appends exactly
/// one locked entry of amount `x` maturing `unlock_delay` blocks from now.
/// For an account that held no stake, the staked amount ends at zero.
pub proof fn lemma_stake_then_unstake(
    cfg: StakingConfig,
    acc: RewardAccumulator,
    pos: StakedPosition,
    locked: Seq<LockedEntry>,
    total_balance: u128,
    now: u64,
    x: u128,
)
    requires
        acc.last_update_height <= now,
        position_synced(acc, pos),
        now + cfg.unlock_delay <= u64::MAX,
        spec_stake(cfg, acc, pos, locked, total_balance, now, x) is Ok,
    ensures
        spec_stake(cfg, acc, pos, locked, total_balance, now, x) matches Ok(ap) && spec_unstake(
            cfg,
            ap.0,
            ap.1,
            locked,
            now,
            x,
        ) matches Ok(upq) && {
            &&& upq.1.amount == pos.amount
            &&& upq.0.total_staked == acc.total_staked
            &&& upq.2 == locked.push(
                LockedEntry { amount: x, maturity_height: (now + cfg.unlock_delay) as u64 },
            )
            &&& locked_sum(upq.2) == locked_sum(locked) + x
            &&& pos.amount == 0 ==> upq.1.amount == 0
        },
{
    let sp = spec_settle(cfg, acc, pos, now)->Ok_0;
    let a = sp.0;
    let p = sp.1;
    let ap = spec_stake(cfg, acc, pos, locked, total_balance, now, x)->Ok_0;
    let a1 = ap.0;
    let p1 = ap.1;
    // A second settlement at the same height is the identity on the
    // post-stake state: the accumulator is already at `now`, and the
    // reward debt is exactly the current product.
    assert(a1.last_update_height == now);
    assert(acc_after_spec(cfg, a1, now) == a1.acc_reward_per_unit);
    assert(spec_update(cfg, a1, now) == Ok::<RewardAccumulator, ContractError>(a1));
    assert(p1.reward_debt == a1.acc_reward_per_unit * p1.amount);
    assert(spec_settle(cfg, a1, p1, now) == Ok::<
        (RewardAccumulator, StakedPosition),
        ContractError,
    >((a1, p1)));
    // The recomputed debt after removing `x` stays within width.
    assert(a1.acc_reward_per_unit * (p1.amount - x) <= a1.acc_reward_per_unit * p1.amount)
        by (nonlinear_arith)
        requires
            x <= p1.amount,
            a1.acc_reward_per_unit >= 0,
    ;
    let upq = spec_unstake(cfg, a1, p1, locked, now, x)->Ok_0;
    lemma_locked_sum_push(
        locked,
        LockedEntry { amount: x, maturity_height: (now + cfg.unlock_delay) as u64 },
    );
}

/// Linearity of reward accrual for a lone staker: if one account holds the
/// entire staked total `s` and is settled (its debt checkpoints the current
/// accumulator) at the accumulator's height, then a settlement `n` blocks
/// later accrues exactly `reward_rate * n * s`. With a single staked unit
/// that is `reward_rate * n`: the whole per-unit increment, independent of
/// anything else. (The accrual is proportional to `s`; the per-unit
/// increment alone is what every staked unit earns equally.)
pub proof fn lemma_single_staker_linearity(
    cfg: StakingConfig,
    acc: RewardAccumulator,
    pos: StakedPosition,
    now: u64,
    n: u64,
)
    requires
        now == acc.last_update_height + n,
        acc.total_staked == pos.amount,
        pos.amount > 0,
        pos.reward_debt == acc.acc_reward_per_unit * pos.amount,
        spec_settle(cfg, acc, pos, now) is Ok,
    ensures
        spec_settle(cfg, acc, pos, now) matches Ok(sp) && {
            &&& sp.1.pending_reward == pos.pending_reward + cfg.reward_rate * n * pos.amount
            &&& pos.amount == 1 ==> sp.1.pending_reward == pos.pending_reward + cfg.reward_rate
                * n
        },
{
    lemma_mul_nonnegative(cfg.reward_rate as int, n as int);
    lemma_mul_nonnegative(cfg.reward_rate * n, pos.amount as int);
    let a = spec_update(cfg, acc, now)->Ok_0;
    assert(a.acc_reward_per_unit == acc.acc_reward_per_unit + cfg.reward_rate * n);
    lemma_mul_is_distributive_add_other_way(
        pos.amount as int,
        acc.acc_reward_per_unit as int,
        cfg.reward_rate * n,
    );
    assert((acc.acc_reward_per_unit + cfg.reward_rate * n) * pos.amount
        == acc.acc_reward_per_unit * pos.amount + (cfg.reward_rate * n) * pos.amount);
    lemma_mul_basics(cfg.reward_rate * n);
}

/// A guarded debit keeps the encumbrance invariant; combined with
/// `check_available_balance`'s contract this is the invariant's
/// preservation along the transfer, burn and send paths.
pub proof fn lemma_debit_preserves_invariant(
    total_balance: u128,
    pos: StakedPosition,
    locked: Seq<LockedEntry>,
    amount: u128,
)
    requires
        account_invariant(total_balance, pos, locked),
        amount <= available_spec(total_balance, pos, locked),
    ensures
        account_invariant((total_balance - amount) as u128, pos, locked),
{
}

} // verus!
