//! The accounts that each instruction of the fixed-rate pool is handed.

use vstd::prelude::*;
use crate::accounts::Account;
use crate::accounts::Signer;
use crate::accounts::TokenAccount;
use crate::aura_staking::state::StakingPool;
use crate::aura_staking::state::UserStake;
use crate::pubkey::Pubkey;

verus! {

/// The bumps of the accounts that setting up the pool derives.
#[derive(Clone, Copy, Debug, PartialEq, Eq)]
pub struct InitializePoolBumps {
    pub staking_pool: u8,
    pub stake_vault: u8,
    pub reward_vault: u8,
}

/// The accounts for setting the pool up.
#[derive(Clone, Copy, Debug, PartialEq, Eq)]
pub struct InitializePool {
    pub staking_pool: Account<StakingPool>,
    /// Address of the token that the pool stakes and pays.
    pub aura_mint: Pubkey,
    pub bumps: InitializePoolBumps,
}

/// The accounts for staking.
#[derive(Clone, Copy, Debug, PartialEq, Eq)]
pub struct Stake {
    pub staking_pool: Account<StakingPool>,
    pub user_stake: Account<UserStake>,
    pub stake_vault: Account<TokenAccount>,
    pub user_token_account: Account<TokenAccount>,
    pub user: Signer,
}

/// The accounts for unstaking.
#[derive(Clone, Copy, Debug, PartialEq, Eq)]
pub struct Unstake {
    pub staking_pool: Account<StakingPool>,
    pub user_stake: Account<UserStake>,
    pub stake_vault: Account<TokenAccount>,
    pub reward_vault: Account<TokenAccount>,
    pub user_token_account: Account<TokenAccount>,
    pub user: Signer,
}

/// The accounts for claiming rewards.
#[derive(Clone, Copy, Debug, PartialEq, Eq)]
pub struct ClaimRewards {
    pub staking_pool: Account<StakingPool>,
    pub user_stake: Account<UserStake>,
    pub reward_vault: Account<TokenAccount>,
    pub user_token_account: Account<TokenAccount>,
    pub user: Signer,
}

/// The accounts for depositing rewards.
#[derive(Clone, Copy, Debug, PartialEq, Eq)]
pub struct DepositRewards {
    pub staking_pool: Account<StakingPool>,
    pub reward_vault: Account<TokenAccount>,
    pub admin_token_account: Account<TokenAccount>,
    pub admin: Signer,
}

/// The accounts for withdrawing staked tokens in an emergency.
#[derive(Clone, Copy, Debug, PartialEq, Eq)]
pub struct AdminWithdrawStake {
    pub staking_pool: Account<StakingPool>,
    pub stake_vault: Account<TokenAccount>,
    pub admin_token_account: Account<TokenAccount>,
    pub admin: Signer,
}

/// The accounts for withdrawing rewards in an emergency.
#[derive(Clone, Copy, Debug, PartialEq, Eq)]
pub struct AdminWithdrawRewards {
    pub staking_pool: Account<StakingPool>,
    pub reward_vault: Account<TokenAccount>,
    pub admin_token_account: Account<TokenAccount>,
    pub admin: Signer,
}

/// The accounts for setting the daily rate.
#[derive(Clone, Copy, Debug, PartialEq, Eq)]
pub struct UpdateRewardRate {
    pub staking_pool: Account<StakingPool>,
    pub admin: Signer,
}

/// The accounts for pausing the pool or lifting the pause.
#[derive(Clone, Copy, Debug, PartialEq, Eq)]
pub struct SetPoolStatus {
    pub staking_pool: Account<StakingPool>,
    pub admin: Signer,
}

} // verus!
