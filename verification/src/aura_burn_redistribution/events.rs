//! What the taxed pool reports of each accepted call.

use vstd::prelude::*;
use crate::pubkey::Pubkey;

verus! {

/// The program was set up.
#[derive(Clone, Copy, Debug, PartialEq, Eq)]
pub struct ProgramInitialized {
    pub authority: Pubkey,
    pub stake_tax_rate: u16,
    pub unstake_tax_rate: u16,
    pub reward_tax_rate: u16,
    pub redistribution_frequency: i64,
}

/// The tax rates were set.
#[derive(Clone, Copy, Debug, PartialEq, Eq)]
pub struct TaxRatesUpdated {
    pub authority: Pubkey,
    pub stake_tax_rate: u16,
    pub unstake_tax_rate: u16,
    pub reward_tax_rate: u16,
    pub timestamp: i64,
}

/// Tokens were staked, less the tax.
#[derive(Clone, Copy, Debug, PartialEq, Eq)]
pub struct TokensStaked {
    pub user: Pubkey,
    pub gross_amount: u64,
    pub tax_amount: u64,
    pub net_staked_amount: u64,
    pub total_staked: u64,
    pub global_total_staked: u64,
}

/// Tokens were unstaked, less the tax.
#[derive(Clone, Copy, Debug, PartialEq, Eq)]
pub struct TokensUnstaked {
    pub user: Pubkey,
    pub gross_amount: u64,
    pub tax_amount: u64,
    pub net_received_amount: u64,
    pub remaining_staked: u64,
    pub global_total_staked: u64,
}

/// Rewards were claimed, less the tax.
#[derive(Clone, Copy, Debug, PartialEq, Eq)]
pub struct RewardsClaimed {
    pub user: Pubkey,
    pub gross_reward_amount: u64,
    pub tax_amount: u64,
    pub net_reward_amount: u64,
    pub timestamp: i64,
}

/// A distribution round was held.
#[derive(Clone, Copy, Debug, PartialEq, Eq)]
pub struct RewardsDistributed {
    pub distribution_round: u64,
    pub reward_per_token: u64,
    pub tax_redistributed: u64,
    pub total_stakers: u64,
    pub timestamp: i64,
}

/// The program was paused.
#[derive(Clone, Copy, Debug, PartialEq, Eq)]
pub struct ProgramPaused {
    pub authority: Pubkey,
    pub timestamp: i64,
}

/// The program's pause was lifted.
#[derive(Clone, Copy, Debug, PartialEq, Eq)]
pub struct ProgramResumed {
    pub authority: Pubkey,
    pub timestamp: i64,
}

} // verus!
