//! The available-balance guard: the check that runs before any operation
//! that would reduce an account's total balance (transfer, burn, send, and
//! their allowance variants), and before a stake. Staked and locked funds —
//! matured or not — never count as available: maturity alone frees nothing,
//! only an explicit unlock does.

use vstd::prelude::*;
use crate::error::ContractError;
use crate::state::{
    account_invariant, available_spec, lemma_locked_sum_nonneg, lemma_locked_sum_take_le,
    lemma_locked_sum_take_succ, locked_sum, LockedEntry, StakedPosition,
};

verus! {

/// Result of the guard on a requested debit: the debit may proceed exactly
/// when it does not exceed the available balance.
pub open spec fn spec_check_available(
    total_balance: u128,
    pos: StakedPosition,
    locked: Seq<LockedEntry>,
    amount: u128,
) -> Result<(), ContractError> {
    if amount <= available_spec(total_balance, pos, locked) {
        Ok(())
    } else {
        Err(ContractError::InsufficientAvailableBalance)
    }
}

/// Sum of all amounts held in a lock queue.
pub fn locked_total(locked: &Vec<LockedEntry>) -> (r: u128)
    requires
        locked_sum(locked@) <= u128::MAX,
    ensures
        r == locked_sum(locked@),
{
    let n = locked.len();
    let mut sum: u128 = 0;
    let mut i: usize = 0;
    while i < n
        invariant
            0 <= i <= n,
            n == locked@.len(),
            locked_sum(locked@) <= u128::MAX,
            sum == locked_sum(locked@.take(i as int)),
        decreases n - i,
    {
        proof {
            lemma_locked_sum_take_succ(locked@, i as int);
            lemma_locked_sum_take_le(locked@, i as int + 1);
            lemma_locked_sum_nonneg(locked@.take(i as int));
        }
        sum = sum + locked[i].amount;
        i = i + 1;
    }
    proof {
        assert(locked@.take(n as int) =~= locked@);
    }
    sum
}

/// The account's available balance: total minus staked minus every locked
/// amount. Well defined because the encumbrance invariant keeps the
/// subtraction non-negative.
pub fn available_balance(
    total_balance: u128,
    pos: &StakedPosition,
    locked: &Vec<LockedEntry>,
) -> (r: u128)
    requires
        account_invariant(total_balance, *pos, locked@),
    ensures
        r == available_spec(total_balance, *pos, locked@),
{
    proof {
        lemma_locked_sum_nonneg(locked@);
    }
    let lt = locked_total(locked);
    total_balance - pos.amount - lt
}

/// The guard itself. When it passes, debiting the checked amount keeps the
/// encumbrance invariant: the remaining balance still covers every staked
/// and locked unit.
pub fn check_available_balance(
    total_balance: u128,
    pos: &StakedPosition,
    locked: &Vec<LockedEntry>,
    amount: u128,
) -> (r: Result<(), ContractError>)
    requires
        account_invariant(total_balance, *pos, locked@),
    ensures
        r == spec_check_available(total_balance, *pos, locked@, amount),
        r is Ok ==> account_invariant((total_balance - amount) as u128, *pos, locked@),
{
    let available = available_balance(total_balance, pos, locked);
    if amount <= available {
        Ok(())
    } else {
        Err(ContractError::InsufficientAvailableBalance)
    }
}

} // verus!
