//! The accounts that each instruction of the staking pool is handed.

use vstd::prelude::*;
use crate::accounts::Account;
use crate::accounts::Signer;
use crate::accounts::TokenAccount;
use crate::pubkey::Pubkey;
use crate::time_weighted_staking::state::StakingPool;
use crate::time_weighted_staking::state::UserStake;

verus! {

/// The accounts for setting the pool up.
#[derive(Clone, Copy, Debug, PartialEq, Eq)]
pub struct InitializePool {
    pub staking_pool: Account<StakingPool>,
    /// Address of the token that the pool accepts.
    pub stake_token_mint: Pubkey,
}

/// The accounts for staking.
#[derive(Clone, Copy, Debug, PartialEq, Eq)]
pub struct Stake {
    pub staking_pool: Account<StakingPool>,
    pub user_stake: Account<UserStake>,
    /// Where the pool keeps the staked tokens.
    pub pool_token_vault: Account<TokenAccount>,
    /// Where the staked tokens come from.
    pub user_token_account: Account<TokenAccount>,
    pub user: Signer,
}

/// The accounts for starting an epoch.
#[derive(Clone, Copy, Debug, PartialEq, Eq)]
pub struct StartDistribution {
    pub staking_pool: Account<StakingPool>,
    pub authority: Signer,
}

/// The accounts for stopping the epoch.
#[derive(Clone, Copy, Debug, PartialEq, Eq)]
pub struct StopDistribution {
    pub staking_pool: Account<StakingPool>,
    pub authority: Signer,
}

/// The accounts for ending the distribution cycle for good.
#[derive(Clone, Copy, Debug, PartialEq, Eq)]
pub struct EndDistributionPermanently {
    pub staking_pool: Account<StakingPool>,
    pub authority: Signer,
}

/// The accounts for pausing the pool.
#[derive(Clone, Copy, Debug, PartialEq, Eq)]
pub struct PausePool {
    pub staking_pool: Account<StakingPool>,
    pub authority: Signer,
}

/// The accounts for lifting the pause.
#[derive(Clone, Copy, Debug, PartialEq, Eq)]
pub struct UnpausePool {
    pub staking_pool: Account<StakingPool>,
    pub authority: Signer,
}

/// The accounts for handing the pool over.
#[derive(Clone, Copy, Debug, PartialEq, Eq)]
pub struct TransferAuthority {
    pub staking_pool: Account<StakingPool>,
    pub admin: Signer,
}

/// The accounts for unstaking.
#[derive(Clone, Copy, Debug, PartialEq, Eq)]
pub struct Unstake {
    pub staking_pool: Account<StakingPool>,
    pub user_stake: Account<UserStake>,
    pub pool_token_vault: Account<TokenAccount>,
    /// Where the unstaked tokens go.
    pub user_token_account: Account<TokenAccount>,
    pub user: Signer,
}

/// The accounts for claiming the native reward.
#[derive(Clone, Copy, Debug, PartialEq, Eq)]
pub struct ClaimSolRewards {
    pub staking_pool: Account<StakingPool>,
    pub user_stake: Account<UserStake>,
    pub user: Signer,
}

/// The accounts for claiming a token reward.
#[derive(Clone, Copy, Debug, PartialEq, Eq)]
pub struct ClaimSplRewards {
    pub staking_pool: Account<StakingPool>,
    pub user_stake: Account<UserStake>,
    /// The pool's vault of the reward token.
    pub reward_vault: Account<TokenAccount>,
    /// Where the reward goes.
    pub user_reward_account: Account<TokenAccount>,
    pub user: Signer,
}

/// The accounts for depositing native reward.
#[derive(Clone, Copy, Debug, PartialEq, Eq)]
pub struct DepositSolRewards {
    pub staking_pool: Account<StakingPool>,
    pub authority: Signer,
}

/// The accounts for depositing a token reward.
#[derive(Clone, Copy, Debug, PartialEq, Eq)]
pub struct DepositSplRewards {
    pub staking_pool: Account<StakingPool>,
    pub reward_vault: Account<TokenAccount>,
    pub authority_token_account: Account<TokenAccount>,
    pub authority: Signer,
}

/// The accounts for adding a reward vault.
#[derive(Clone, Copy, Debug, PartialEq, Eq)]
pub struct CreateRewardVault {
    pub staking_pool: Account<StakingPool>,
    pub authority: Signer,
}

/// The accounts for withdrawing native balance in an emergency.
#[derive(Clone, Copy, Debug, PartialEq, Eq)]
pub struct AdminWithdrawSol {
    pub staking_pool: Account<StakingPool>,
    pub admin: Signer,
}

/// The accounts for withdrawing a reward token in an emergency.
#[derive(Clone, Copy, Debug, PartialEq, Eq)]
pub struct AdminWithdrawSpl {
    pub staking_pool: Account<StakingPool>,
    pub reward_vault: Account<TokenAccount>,
    pub admin_token_account: Account<TokenAccount>,
    pub admin: Signer,
}

/// The accounts for withdrawing staked tokens in an emergency.
#[derive(Clone, Copy, Debug, PartialEq, Eq)]
pub struct AdminWithdrawStakeTokens {
    pub staking_pool: Account<StakingPool>,
    pub pool_token_vault: Account<TokenAccount>,
    pub admin_token_account: Account<TokenAccount>,
    pub admin: Signer,
}

} // verus!
