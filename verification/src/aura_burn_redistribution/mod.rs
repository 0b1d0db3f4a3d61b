//! Staking with a tax on every movement.
//!
//! A part of each stake, unstake and claim is withheld, in basis points, and
//! stays in the pool. Each distribution round reports what a staked token
//! earned since the round before: a yearly yield, and the tax collected.

pub mod admin;
pub mod contexts;
pub mod events;
pub mod rewards;
pub mod seeds;
pub mod staking;
pub mod state;
