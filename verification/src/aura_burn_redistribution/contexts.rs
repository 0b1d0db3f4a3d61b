//! The accounts that each instruction of the taxed pool is handed.

use vstd::prelude::*;
use crate::accounts::Account;
use crate::accounts::Signer;
use crate::accounts::TokenAccount;
use crate::aura_burn_redistribution::state::GlobalState;
use crate::aura_burn_redistribution::state::StakingAccount;

verus! {

/// The accounts for setting the program up.
#[derive(Clone, Copy, Debug, PartialEq, Eq)]
pub struct Initialize {
    pub global_state: Account<GlobalState>,
    pub authority: Signer,
}

/// The accounts for setting the tax rates.
#[derive(Clone, Copy, Debug, PartialEq, Eq)]
pub struct UpdateTaxRates {
    pub global_state: Account<GlobalState>,
    pub authority: Signer,
}

/// The accounts for staking.
#[derive(Clone, Copy, Debug, PartialEq, Eq)]
pub struct StakeTokens {
    pub global_state: Account<GlobalState>,
    pub staking_account: Account<StakingAccount>,
    pub user: Signer,
    pub user_token_account: Account<TokenAccount>,
    /// The token account that holds what is staked and what is withheld.
    pub staking_pool: Account<TokenAccount>,
}

/// The accounts for unstaking.
#[derive(Clone, Copy, Debug, PartialEq, Eq)]
pub struct UnstakeTokens {
    pub global_state: Account<GlobalState>,
    pub staking_account: Account<StakingAccount>,
    pub user: Signer,
    pub user_token_account: Account<TokenAccount>,
    pub staking_pool: Account<TokenAccount>,
}

/// The accounts for claiming rewards.
#[derive(Clone, Copy, Debug, PartialEq, Eq)]
pub struct ClaimRewards {
    pub global_state: Account<GlobalState>,
    pub staking_account: Account<StakingAccount>,
    pub user: Signer,
    pub user_token_account: Account<TokenAccount>,
    pub staking_pool: Account<TokenAccount>,
}

/// The accounts for holding a distribution round.
#[derive(Clone, Copy, Debug, PartialEq, Eq)]
pub struct DistributeRewards {
    pub global_state: Account<GlobalState>,
    pub authority: Signer,
}

/// The accounts for pausing the program.
#[derive(Clone, Copy, Debug, PartialEq, Eq)]
pub struct PauseProgram {
    pub global_state: Account<GlobalState>,
    pub authority: Signer,
}

/// The accounts for lifting the pause.
#[derive(Clone, Copy, Debug, PartialEq, Eq)]
pub struct ResumeProgram {
    pub global_state: Account<GlobalState>,
    pub authority: Signer,
}

} // verus!
