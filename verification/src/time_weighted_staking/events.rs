//! What the pool reports of each accepted call.

use vstd::prelude::*;
use crate::pubkey::Pubkey;

verus! {

/// The pool was paused.
#[derive(Clone, Copy, Debug, PartialEq, Eq)]
pub struct PoolPaused {
    pub pool: Pubkey,
    pub authority: Pubkey,
    pub timestamp: i64,
}

/// The pool's pause was lifted.
#[derive(Clone, Copy, Debug, PartialEq, Eq)]
pub struct PoolUnpaused {
    pub pool: Pubkey,
    pub authority: Pubkey,
    pub timestamp: i64,
}

/// The pool was handed over.
#[derive(Clone, Copy, Debug, PartialEq, Eq)]
pub struct AuthorityTransferred {
    pub pool: Pubkey,
    pub old_authority: Pubkey,
    pub new_authority: Pubkey,
    pub timestamp: i64,
}

/// An epoch was started.
#[derive(Clone, Copy, Debug, PartialEq, Eq)]
pub struct DistributionStarted {
    pub pool: Pubkey,
    pub epoch: u64,
    pub timestamp: i64,
}

/// The epoch was stopped, with the weight it is settled by.
#[derive(Clone, Copy, Debug, PartialEq, Eq)]
pub struct DistributionStopped {
    pub pool: Pubkey,
    pub epoch: u64,
    pub total_weighted_stake: u64,
    pub timestamp: i64,
}

/// The distribution cycle was ended for good.
#[derive(Clone, Copy, Debug, PartialEq, Eq)]
pub struct DistributionEndedPermanently {
    pub pool: Pubkey,
    pub final_epoch: u64,
    pub timestamp: i64,
}

/// Tokens were staked.
#[derive(Clone, Copy, Debug, PartialEq, Eq)]
pub struct TokensStaked {
    pub pool: Pubkey,
    pub user: Pubkey,
    pub amount: u64,
    pub new_total: u64,
    pub epoch: u64,
    pub timestamp: i64,
}

/// Tokens were unstaked.
#[derive(Clone, Copy, Debug, PartialEq, Eq)]
pub struct TokensUnstaked {
    pub pool: Pubkey,
    pub user: Pubkey,
    pub amount: u64,
    pub fee: u64,
    pub penalty: u64,
    pub remaining_stake: u64,
    pub timestamp: i64,
}

/// A share of the native reward was claimed.
#[derive(Clone, Copy, Debug, PartialEq, Eq)]
pub struct SolRewardsClaimed {
    pub pool: Pubkey,
    pub user: Pubkey,
    pub amount: u64,
    pub epoch: u64,
    pub timestamp: i64,
}

/// A share of a token reward was claimed.
#[derive(Clone, Copy, Debug, PartialEq, Eq)]
pub struct SplRewardsClaimed {
    pub pool: Pubkey,
    pub user: Pubkey,
    pub token_mint: Pubkey,
    pub amount: u64,
    pub epoch: u64,
    pub timestamp: i64,
}

} // verus!
