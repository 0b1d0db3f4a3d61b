//! A staking pool that pays a fixed rate per full day staked.
//!
//! Rewards are counted in full days since the staker's record last changed,
//! at the pool's daily rate in basis points of the principal. Unstaking pays
//! out the rewards too; within the first thirty days it costs part of them.

pub mod admin;
pub mod contexts;
pub mod seeds;
pub mod staking;
pub mod state;
