//! Staking extension for a fungible-token ledger: accounts encumber part of
//! their balance as stake, earn rewards per block through a global
//! reward-per-unit accumulator, move unstaked funds through a timed unlock
//! queue, and may only transfer what is neither staked nor locked.
//!
//! This crate holds the verified core: the state types, the reward engine,
//! the stake/unstake/claim/unlock transitions, the available-balance guard,
//! and the message dispatchers. Storage, serialization and the base token
//! ledger live with the host that embeds the core.

pub mod error;
pub mod state;
pub mod engine;
pub mod helpers;
pub mod msg;
pub mod query;
pub mod contract;
pub mod laws;
