//! A staking pool whose rewards are shared by stake held over time.
//!
//! Stakers deposit a token. While a distribution epoch runs, every unit staked
//! earns weight for each second it is held. When the epoch is stopped the
//! weights are frozen, and each staker may claim the part of the deposited
//! rewards that matches their share of the pool's weight.

pub mod accrual;
pub mod admin;
pub mod contexts;
pub mod cycle;
pub mod distribution;
pub mod error;
pub mod events;
pub mod ledger;
pub mod replay;
pub mod rewards;
pub mod seeds;
pub mod staking;
pub mod state;
