//! Message-level interface of the core.
//!
//! The host that embeds the core owns the wire format: it deserializes the
//! incoming message, resolves the addressed account, loads that account's
//! state, and calls `execute` or `query` with the fields the core actually
//! reads. Recipient addresses, attached payloads and paging arguments ride
//! with the host's forwarding call to the base token ledger and never reach
//! the core, so the variants here carry amounts only.

use vstd::prelude::*;
use crate::state::{LockedEntry, RewardAccumulator, StakedPosition};

verus! {

/// Parameters fixed at instantiation. The token metadata and the initial
/// supply go to the base token ledger; the core keeps the reward rate and
/// the unlock delay.
pub struct InstantiateMsg {
    pub name: String,
    pub symbol: String,
    pub decimals: u8,
    pub initial_supply: u128,
    /// Reward units accrued per staked unit per block.
    pub reward_per_block: u128,
    /// Blocks between an unstake and the amount becoming releasable.
    pub unlock_delay: u64,
    pub owner: String,
}

/// One executable operation, seen from the core: the staking operations it
/// handles itself, and the balance-affecting ledger operations it must
/// guard or pass through.
pub enum ExecuteMsg {
    /// Ledger transfer by the sender: guarded on the sender's balance.
    Transfer { amount: u128 },
    /// Ledger burn by the sender: guarded on the sender's balance.
    Burn { amount: u128 },
    /// Ledger send by the sender: guarded on the sender's balance.
    Send { amount: u128 },
    /// Allowance bookkeeping: no balance moves, passed through unguarded.
    IncreaseAllowance {},
    /// Allowance bookkeeping: no balance moves, passed through unguarded.
    DecreaseAllowance {},
    /// Ledger transfer from an owner: guarded on the owner's balance.
    TransferFrom { amount: u128 },
    /// Ledger burn from an owner: guarded on the owner's balance.
    BurnFrom { amount: u128 },
    /// Ledger send from an owner: guarded on the owner's balance.
    SendFrom { amount: u128 },
    /// Metadata update: passed through unguarded.
    UpdateMarketing {},
    /// Logo upload: passed through unguarded.
    UploadLogo {},
    /// Encumber `amount` of the sender's available balance as stake.
    Stake { amount: u128 },
    /// Move `amount` from stake into the timed unlock queue.
    Unstake { amount: u128 },
    /// Pay out pending reward; `0` claims all of it.
    ClaimRewards { amount: u128 },
    /// Release every matured entry of the sender's unlock queue.
    Unlock {},
}

/// One query, seen from the core: the staking queries it answers itself,
/// and the base-token queries the ledger collaborator answers.
pub enum QueryMsg {
    Balance {},
    TokenInfo {},
    Allowance {},
    Minter {},
    MarketingInfo {},
    DownloadLogo {},
    AllAllowances {},
    AllAccounts {},
    StakedBalance {},
    Reward {},
    AvailableBalance {},
}

#[derive(Clone, Copy, Debug, PartialEq, Eq, Structural)]
pub struct StakedBalanceResponse {
    pub balance: u128,
}

#[derive(Clone, Copy, Debug, PartialEq, Eq, Structural)]
pub struct RewardResponse {
    pub reward: u128,
}

/// What `execute` decided. `Staking` carries the complete new state of the
/// touched account and the global accumulator; the host commits it
/// atomically, credits `credited` to the account on the ledger, and reports
/// `released`. `Guarded` and `Forward` leave the staking state untouched
/// and tell the host to forward the operation to the ledger, the guard
/// having passed where one was due.
#[derive(Debug)]
pub enum ExecuteOutcome {
    Staking {
        accumulator: RewardAccumulator,
        position: StakedPosition,
        locked: Vec<LockedEntry>,
        total_balance: u128,
        credited: u128,
        released: u128,
    },
    Guarded,
    Forward,
}

/// What `query` answered; `Forward` marks a base-token query for the
/// ledger collaborator.
#[derive(Debug)]
pub enum QueryAnswer {
    StakedBalance(StakedBalanceResponse),
    Reward(RewardResponse),
    AvailableBalance(u128),
    Forward,
}

} // verus!
