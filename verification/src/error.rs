//! Error taxonomy of the staking core. Every failure is detected
//! synchronously and the whole operation is rejected: a handler that returns
//! an error hands back no new state, so the caller keeps the old one.

use vstd::prelude::*;

verus! {

#[derive(Clone, Copy, Debug, PartialEq, Eq, Structural)]
pub enum ContractError {
    /// Zero or otherwise nonsensical input amount.
    InvalidAmount,
    /// A balance-reducing operation (or a stake) exceeds the account's
    /// available balance: total minus staked minus locked.
    InsufficientAvailableBalance,
    /// An unstake exceeds the account's current staked amount.
    InsufficientStaked,
    /// A claim exceeds the account's pending reward.
    InsufficientReward,
    /// An accumulator update or a multiplication would overflow its
    /// fixed-width representation.
    ArithmeticOverflow,
    /// A query against a singleton before instantiation.
    Uninitialized,
}

impl ContractError {
    /// A short stable label for the error, for hosts that render messages.
    pub fn label(&self) -> (r: &'static str)
        ensures
            r@ == self.label_spec(),
    {
        match self {
            ContractError::InvalidAmount => "invalid amount",
            ContractError::InsufficientAvailableBalance => "insufficient available balance",
            ContractError::InsufficientStaked => "insufficient staked amount",
            ContractError::InsufficientReward => "insufficient pending reward",
            ContractError::ArithmeticOverflow => "arithmetic overflow",
            ContractError::Uninitialized => "uninitialized",
        }
    }

    pub open spec fn label_spec(&self) -> Seq<char> {
        match self {
            ContractError::InvalidAmount => "invalid amount"@,
            ContractError::InsufficientAvailableBalance => "insufficient available balance"@,
            ContractError::InsufficientStaked => "insufficient staked amount"@,
            ContractError::InsufficientReward => "insufficient pending reward"@,
            ContractError::ArithmeticOverflow => "arithmetic overflow"@,
            ContractError::Uninitialized => "uninitialized"@,
        }
    }
}

} // verus!
