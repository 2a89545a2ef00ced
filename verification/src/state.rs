//! Data model of the staking core.
//!
//! Amounts are `u128` token units; heights are `u64` block numbers. The
//! global reward accumulator tracks the cumulative reward owed per staked
//! unit since genesis, which makes per-account reward settlement O(1): a
//! position remembers the accumulator value it was last settled against
//! (its reward debt), and newly accrued reward is simply
//! `acc_reward_per_unit * amount - reward_debt`.

use vstd::prelude::*;

verus! {

/// Singleton configuration, fixed at instantiation.
#[derive(Clone, Copy, Debug, PartialEq, Eq, Structural)]
pub struct StakingConfig {
    /// Reward units accrued per staked unit per block.
    pub reward_rate: u128,
    /// Number of blocks an unstaked amount stays locked before `unlock`
    /// can release it.
    pub unlock_delay: u64,
}

/// Global reward state, shared by all accounts. `acc_reward_per_unit`
/// only ever increases.
#[derive(Clone, Copy, Debug, PartialEq, Eq, Structural)]
pub struct RewardAccumulator {
    /// Cumulative reward owed per staked unit since genesis.
    pub acc_reward_per_unit: u128,
    /// Height at which `acc_reward_per_unit` was last brought up to date.
    pub last_update_height: u64,
    /// Sum of all accounts' staked amounts.
    pub total_staked: u128,
}

/// Per-account staked position. An absent position is equal to
/// `StakedPosition::empty()`: no entry means zero stake and zero reward.
#[derive(Clone, Copy, Debug, PartialEq, Eq, Structural)]
pub struct StakedPosition {
    /// Currently staked amount.
    pub amount: u128,
    /// `acc_reward_per_unit * amount` at the last settlement; subtracted
    /// from the current product to obtain newly accrued reward.
    pub reward_debt: u128,
    /// Reward settled but not yet claimed.
    pub pending_reward: u128,
}

/// One pending unlock: `amount` becomes releasable once the chain reaches
/// `maturity_height`.
#[derive(Clone, Copy, Debug, PartialEq, Eq, Structural)]
pub struct LockedEntry {
    pub amount: u128,
    pub maturity_height: u64,
}

impl StakedPosition {
    /// The position of an account that has never staked.
    pub fn empty() -> (r: StakedPosition)
        ensures
            r == (StakedPosition { amount: 0u128, reward_debt: 0u128, pending_reward: 0u128 }),
    {
        StakedPosition { amount: 0, reward_debt: 0, pending_reward: 0 }
    }
}

/// Total amount held by a lock queue.
pub open spec fn locked_sum(q: Seq<LockedEntry>) -> int
    decreases q.len(),
{
    if q.len() == 0 {
        0
    } else {
        q[0].amount + locked_sum(q.skip(1))
    }
}

/// The queue's maturities never decrease from front to back: entries are
/// appended in height order with a fixed delay.
pub open spec fn queue_sorted(q: Seq<LockedEntry>) -> bool {
    forall|i: int, j: int|
        0 <= i <= j < q.len() ==> q[i].maturity_height <= q[j].maturity_height
}

/// Every entry was created at or before the current height, so no maturity
/// lies beyond `now + unlock_delay`.
pub open spec fn queue_bounded(q: Seq<LockedEntry>, now: u64, unlock_delay: u64) -> bool {
    forall|i: int| 0 <= i < q.len() ==> q[i].maturity_height <= now + unlock_delay
}

/// The portion of the account's total balance eligible for ordinary
/// transfer, burn or send: total minus staked minus all locked amounts,
/// matured or not.
pub open spec fn available_spec(
    total_balance: u128,
    pos: StakedPosition,
    locked: Seq<LockedEntry>,
) -> int {
    total_balance - pos.amount - locked_sum(locked)
}

/// The account-level encumbrance invariant: the total balance always covers
/// the staked amount plus every locked amount.
pub open spec fn account_invariant(
    total_balance: u128,
    pos: StakedPosition,
    locked: Seq<LockedEntry>,
) -> bool {
    pos.amount + locked_sum(locked) <= total_balance
}

/// Consistency between a position and the global accumulator: the reward
/// debt is a checkpoint of `acc_reward_per_unit * amount` taken at some
/// earlier (hence no larger) accumulator value, and one account never holds
/// more stake than the global total.
pub open spec fn position_synced(acc: RewardAccumulator, pos: StakedPosition) -> bool {
    &&& pos.reward_debt <= acc.acc_reward_per_unit * pos.amount
    &&& pos.amount <= acc.total_staked
}

/// Number of leading queue entries whose maturity has been reached.
pub open spec fn matured_prefix_len(q: Seq<LockedEntry>, now: u64) -> int
    decreases q.len(),
{
    if q.len() == 0 {
        0
    } else if q[0].maturity_height <= now {
        1 + matured_prefix_len(q.skip(1), now)
    } else {
        0
    }
}

pub proof fn lemma_matured_prefix_len_bounds(q: Seq<LockedEntry>, now: u64)
    ensures
        0 <= matured_prefix_len(q, now) <= q.len(),
    decreases q.len(),
{
    if q.len() > 0 && q[0].maturity_height <= now {
        lemma_matured_prefix_len_bounds(q.skip(1), now);
    }
}

/// `matured_prefix_len` is exactly the index of the first entry that has
/// not matured (or the length, if all have).
pub proof fn lemma_matured_prefix_len_from(q: Seq<LockedEntry>, now: u64, i: int)
    requires
        0 <= i <= q.len(),
        forall|j: int| 0 <= j < i ==> q[j].maturity_height <= now,
        i < q.len() ==> q[i].maturity_height > now,
    ensures
        matured_prefix_len(q, now) == i,
    decreases q.len(),
{
    if q.len() == 0 {
    } else if i == 0 {
    } else {
        assert(q[0].maturity_height <= now);
        assert(forall|j: int| 0 <= j < i - 1 ==> q.skip(1)[j] == q[j + 1]);
        if i - 1 < q.skip(1).len() {
            assert(q.skip(1)[i - 1] == q[i]);
        }
        lemma_matured_prefix_len_from(q.skip(1), now, i - 1);
    }
}

pub proof fn lemma_locked_sum_nonneg(q: Seq<LockedEntry>)
    ensures
        locked_sum(q) >= 0,
    decreases q.len(),
{
    if q.len() > 0 {
        lemma_locked_sum_nonneg(q.skip(1));
    }
}

pub proof fn lemma_locked_sum_push(q: Seq<LockedEntry>, e: LockedEntry)
    ensures
        locked_sum(q.push(e)) == locked_sum(q) + e.amount,
    decreases q.len(),
{
    assert(q.push(e).len() == q.len() + 1);
    assert(locked_sum(q.push(e)) == q.push(e)[0].amount + locked_sum(q.push(e).skip(1)));
    if q.len() == 0 {
        assert(q.push(e)[0] == e);
        assert(q.push(e).skip(1) =~= Seq::<LockedEntry>::empty());
    } else {
        assert(q.push(e)[0] == q[0]);
        assert(q.push(e).skip(1) =~= q.skip(1).push(e));
        lemma_locked_sum_push(q.skip(1), e);
    }
}

/// Splitting a queue at any index splits its sum.
pub proof fn lemma_locked_sum_split(q: Seq<LockedEntry>, k: int)
    requires
        0 <= k <= q.len(),
    ensures
        locked_sum(q) == locked_sum(q.take(k)) + locked_sum(q.skip(k)),
    decreases k,
{
    if k == 0 {
        assert(q.take(0) =~= Seq::<LockedEntry>::empty());
        assert(q.skip(0) =~= q);
    } else {
        lemma_locked_sum_split(q.skip(1), k - 1);
        assert(q.take(k).skip(1) =~= q.skip(1).take(k - 1));
        assert(q.skip(k) =~= q.skip(1).skip(k - 1));
    }
}

/// Extending a prefix by one element adds that element's amount.
pub proof fn lemma_locked_sum_take_succ(q: Seq<LockedEntry>, i: int)
    requires
        0 <= i < q.len(),
    ensures
        locked_sum(q.take(i + 1)) == locked_sum(q.take(i)) + q[i].amount,
{
    lemma_locked_sum_split(q.take(i + 1), i);
    assert(q.take(i + 1).take(i) =~= q.take(i));
    assert(q.take(i + 1).skip(i) =~= seq![q[i]]);
    let s = seq![q[i]];
    assert(s.len() == 1 && s[0] == q[i]);
    assert(s.skip(1) =~= Seq::<LockedEntry>::empty());
    assert(locked_sum(s) == q[i].amount + locked_sum(s.skip(1)));
}

/// A prefix never holds more than the whole queue.
pub proof fn lemma_locked_sum_take_le(q: Seq<LockedEntry>, k: int)
    requires
        0 <= k <= q.len(),
    ensures
        locked_sum(q.take(k)) <= locked_sum(q),
    decreases q.len() - k,
{
    if k == q.len() {
        assert(q.take(k) =~= q);
    } else {
        lemma_locked_sum_take_succ(q, k);
        lemma_locked_sum_take_le(q, k + 1);
    }
}

} // verus!
