//! The records of the fixed-rate pool, and why it refuses a call.

use vstd::prelude::*;
use crate::pubkey::Pubkey;

verus! {

/// Seconds in a day.
pub const SECONDS_PER_DAY: i64 = 86_400;

/// The share of the rewards that an early leaver gives up, in percent.
pub const EARLY_UNSTAKE_PENALTY_PERCENT: u64 = 5;

/// What is withheld from an unstaked amount, in basis points.
pub const UNSTAKE_FEE_PERCENT: u64 = 50;

/// Basis points in one whole.
pub const BASIS_POINTS: u64 = 10_000;

/// Days after which unstaking costs no rewards.
pub const EARLY_UNSTAKE_DAYS: i64 = 30;

/// The pool's record.
#[derive(Clone, Copy, Debug, PartialEq, Eq)]
pub struct StakingPool {
    /// Who may administer the pool.
    pub authority: Pubkey,
    /// The token that is staked and paid as reward.
    pub aura_mint: Pubkey,
    /// Sum of the principals currently staked.
    pub total_staked: u64,
    /// Reward per day, in basis points of the principal.
    pub reward_rate_per_day: u64,
    pub bump: u8,
    pub vault_bump: u8,
    pub reward_vault_bump: u8,
    /// Sum of the rewards paid out.
    pub total_rewards_distributed: u64,
    pub created_at: i64,
    /// While set, stakers' calls are refused.
    pub paused: bool,
}

/// One staker's record.
#[derive(Clone, Copy, Debug, PartialEq, Eq)]
pub struct UserStake {
    pub owner: Pubkey,
    /// The principal currently staked.
    pub amount: u64,
    /// Rewards counted but not yet paid.
    pub pending_rewards: u64,
    /// Sum of the rewards paid to the staker.
    pub total_rewards_claimed: u64,
    /// When the present stake began; zero while nothing is staked.
    pub stake_start_time: i64,
    /// When rewards were last counted; zero for a record never used.
    pub last_update_time: i64,
}

/// The reasons for which a call is refused. A refused call changes nothing.
#[derive(Clone, Copy, Debug, PartialEq, Eq, Structural, Hash)]
pub enum StakingError {
    InvalidAmount,
    InsufficientStake,
    NoActiveStake,
    NoRewardsToClaim,
    MathOverflow,
    PoolPaused,
    Unauthorized,
}

impl StakingError {
    /// The characters of the text shown to the caller for this error.
    pub open spec fn message_text(self) -> Seq<char> {
        match self {
            StakingError::InvalidAmount => "Invalid amount provided"@,
            StakingError::InsufficientStake => "Insufficient stake balance"@,
            StakingError::NoActiveStake => "No active stake found"@,
            StakingError::NoRewardsToClaim => "No rewards to claim"@,
            StakingError::MathOverflow => "Math overflow occurred"@,
            StakingError::PoolPaused => "Pool is currently paused"@,
            StakingError::Unauthorized => "Unauthorized access"@,
        }
    }

    /// The text shown to the caller for this error.
    pub fn message(&self) -> (text: &'static str)
        ensures
            text@ == self.message_text(),
    {
        match self {
            StakingError::InvalidAmount => "Invalid amount provided",
            StakingError::InsufficientStake => "Insufficient stake balance",
            StakingError::NoActiveStake => "No active stake found",
            StakingError::NoRewardsToClaim => "No rewards to claim",
            StakingError::MathOverflow => "Math overflow occurred",
            StakingError::PoolPaused => "Pool is currently paused",
            StakingError::Unauthorized => "Unauthorized access",
        }
    }
}

} // verus!
