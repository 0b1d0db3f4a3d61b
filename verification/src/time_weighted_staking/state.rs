//! The two records of the time-weighted staking pool, and the phases of its
//! distribution cycle.

use vstd::prelude::*;
use crate::pubkey::Pubkey;

verus! {

/// The most that one call may stake.
pub const MAX_STAKE_AMOUNT: u64 = 1_000_000_000_000;

/// What is withheld from an unstaked amount, in basis points.
pub const UNSTAKE_FEE_BASIS_POINTS: u64 = 50;

/// The most that may ever be withheld from an unstaked amount, in basis points.
pub const MAX_UNSTAKE_FEE_BASIS_POINTS: u64 = 500;

/// Days for which a stake is locked: leaving earlier, while a distribution
/// runs, is penalised.
pub const MIN_LOCK_PERIOD_DAYS: i64 = 30;

/// Seconds in a day.
pub const SECONDS_PER_DAY: i64 = 86_400;

/// The share of the estimated reward that an early leaver is charged, in percent.
pub const EARLY_UNSTAKE_PENALTY_PERCENT: u64 = 5;

/// Reward estimates are parts per this many of the pool's weight.
pub const REWARD_SHARE_SCALE: u64 = 1_000_000;

/// The pool's record, one per staked token.
#[derive(Clone, Copy, Debug, PartialEq, Eq)]
pub struct StakingPool {
    /// Who may administer the pool.
    pub authority: Pubkey,
    /// The token accepted for staking.
    pub stake_token_mint: Pubkey,
    /// Sum of the principals currently staked.
    pub total_staked: u64,
    /// Principal times seconds held, summed while a distribution runs; zero
    /// again at the start of each epoch, frozen once the epoch is stopped.
    pub total_weighted_stake: u64,
    /// The time up to which `total_weighted_stake` has been accrued.
    pub last_reward_distribution: i64,
    /// The time at which the running epoch, or the last one, was started.
    /// No staker earns weight for time before it.
    pub epoch_started_at: i64,
    pub bump: u8,
    pub vault_bump: u8,
    /// Native balance set aside for rewards.
    pub sol_rewards_available: u64,
    /// The balance set aside for rewards as it stood when the epoch was last
    /// stopped: what every claim of that epoch is a share of.
    pub sol_rewards_at_stop: u64,
    /// What the claims of the stopped epoch have left of that balance.
    pub sol_rewards_unclaimed: u64,
    pub distribution_active: bool,
    /// Set once, never cleared: no epoch can start any more.
    pub distribution_ended: bool,
    /// Number of epochs started so far.
    pub current_distribution_epoch: u64,
    /// Slot of the last call that changed the pool's phase, stake or claims.
    pub global_sequence: u64,
    /// While set, stakers' calls and epoch changes are refused.
    pub paused: bool,
    pub created_at: i64,
    /// Sum of the fees withheld on unstaking; they stay in the pool's vault.
    pub total_fees_collected: u64,
}

/// One staker's record in one pool.
#[derive(Clone, Copy, Debug, PartialEq, Eq)]
pub struct UserStake {
    pub owner: Pubkey,
    /// The principal currently staked.
    pub amount: u64,
    /// Principal times seconds held, accrued while a distribution ran.
    pub weighted_stake: u64,
    /// The time of the staker's last stake or unstake.
    pub last_stake_time: i64,
    /// The time from which the lock period counts.
    pub lock_start_time: i64,
    /// Sum of the penalties recorded for leaving early.
    pub penalty_amount: u64,
    /// The epoch during which the staker last staked.
    pub distribution_epoch: u64,
    /// The last epoch for which the staker claimed.
    pub has_claimed_epoch: u64,
    /// Slot of the staker's last accepted call.
    pub last_action_sequence: u64,
    /// Whether any principal is staked.
    pub is_active: bool,
}

/// Where a pool stands in its distribution cycle.
#[derive(Clone, Copy, Debug, PartialEq, Eq, Structural)]
pub enum Phase {
    /// No epoch has been started yet.
    Inactive,
    /// An epoch runs: weight accrues, nothing can be claimed.
    Active,
    /// The epoch was stopped: weights are frozen and rewards can be claimed.
    Stopped,
    /// No epoch will start again.
    PermanentlyEnded,
}

impl StakingPool {
    /// A distribution that has ended for good is not running, one that runs
    /// belongs to an epoch that was started, and no more is left unclaimed
    /// of the balance at the stop than that balance.
    pub open spec fn wf(self) -> bool {
        &&& !(self.distribution_active && self.distribution_ended)
        &&& self.distribution_active ==> self.current_distribution_epoch > 0
        &&& self.sol_rewards_unclaimed <= self.sol_rewards_at_stop
    }

    /// The phase of the pool's distribution cycle.
    pub open spec fn spec_phase(&self) -> Phase {
        if self.distribution_ended {
            Phase::PermanentlyEnded
        } else if self.distribution_active {
            Phase::Active
        } else if self.current_distribution_epoch == 0 {
            Phase::Inactive
        } else {
            Phase::Stopped
        }
    }

    /// The phase of the pool's distribution cycle.
    #[verifier::when_used_as_spec(spec_phase)]
    pub fn phase(&self) -> (phase: Phase)
        ensures
            phase == self.spec_phase(),
    {
        if self.distribution_ended {
            Phase::PermanentlyEnded
        } else if self.distribution_active {
            Phase::Active
        } else if self.current_distribution_epoch == 0 {
            Phase::Inactive
        } else {
            Phase::Stopped
        }
    }
}

impl UserStake {
    /// A record is active exactly while it holds principal.
    pub open spec fn wf(self) -> bool {
        self.is_active == (self.amount > 0)
    }
}

} // verus!
