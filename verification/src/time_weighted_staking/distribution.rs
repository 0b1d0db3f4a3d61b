//! The distribution cycle: an epoch is started, runs, and is stopped; after
//! any stop the cycle may be ended for good.
//!
//! Weight accrues only while an epoch runs, and rewards can be claimed only
//! once it is stopped, so that every share is taken of a total that no
//! longer moves.

use vstd::prelude::*;
use crate::accounts::Account;
use crate::accounts::Clock;
use crate::time_weighted_staking::accrual::accrue_weight;
use crate::time_weighted_staking::accrual::accrued_weight;
use crate::time_weighted_staking::contexts::EndDistributionPermanently;
use crate::time_weighted_staking::contexts::StartDistribution;
use crate::time_weighted_staking::contexts::StopDistribution;
use crate::time_weighted_staking::error::StakingError;
use crate::time_weighted_staking::events::DistributionEndedPermanently;
use crate::time_weighted_staking::events::DistributionStarted;
use crate::time_weighted_staking::events::DistributionStopped;
use crate::time_weighted_staking::state::StakingPool;

verus! {

/// The first reason for which starting an epoch is refused; none where it is
/// accepted.
pub open spec fn start_distribution_rejection(ctx: StartDistribution, clock: Clock) -> Option<
    StakingError,
> {
    let pool = ctx.staking_pool.data;
    if pool.authority != ctx.authority.key {
        Some(StakingError::Unauthorized)
    } else if pool.paused {
        Some(StakingError::PoolPaused)
    } else if pool.distribution_active {
        Some(StakingError::DistributionAlreadyActive)
    } else if pool.distribution_ended {
        Some(StakingError::DistributionPermanentlyEnded)
    } else if pool.current_distribution_epoch == u64::MAX {
        Some(StakingError::MathOverflow)
    } else {
        None
    }
}

/// The pool after an epoch was started at `clock`: the next epoch runs, and
/// the weight of the pool and of its stakers counts from now, the pool's
/// from zero.
pub open spec fn started_pool(pool: StakingPool, clock: Clock) -> StakingPool {
    StakingPool {
        distribution_active: true,
        last_reward_distribution: clock.unix_timestamp,
        epoch_started_at: clock.unix_timestamp,
        current_distribution_epoch: (pool.current_distribution_epoch + 1) as u64,
        global_sequence: clock.slot,
        total_weighted_stake: 0,
        ..pool
    }
}

/// The accounts after an epoch was started.
pub open spec fn start_distribution_accounts(
    ctx: StartDistribution,
    clock: Clock,
) -> StartDistribution {
    StartDistribution {
        staking_pool: Account {
            data: started_pool(ctx.staking_pool.data, clock),
            ..ctx.staking_pool
        },
        ..ctx
    }
}

/// Starts the next distribution epoch.
pub fn start_distribution(ctx: &mut StartDistribution, clock: Clock) -> (result: Result<
    DistributionStarted,
    StakingError,
>)
    ensures
        match result {
            Ok(event) => {
                &&& start_distribution_rejection(*old(ctx), clock) is None
                &&& *final(ctx) == start_distribution_accounts(*old(ctx), clock)
                &&& event == (DistributionStarted {
                    pool: old(ctx).staking_pool.key,
                    epoch: (old(ctx).staking_pool.data.current_distribution_epoch + 1) as u64,
                    timestamp: clock.unix_timestamp,
                })
            },
            Err(error) => {
                &&& start_distribution_rejection(*old(ctx), clock) == Some(error)
                &&& *final(ctx) == *old(ctx)
            },
        },
{
    let pool = ctx.staking_pool.data;
    if pool.authority != ctx.authority.key {
        return Err(StakingError::Unauthorized);
    }
    if pool.paused {
        return Err(StakingError::PoolPaused);
    }
    if pool.distribution_active {
        return Err(StakingError::DistributionAlreadyActive);
    }
    if pool.distribution_ended {
        return Err(StakingError::DistributionPermanentlyEnded);
    }
    let epoch: u64 = match pool.current_distribution_epoch.checked_add(1) {
        Some(epoch) => epoch,
        None => {
            return Err(StakingError::MathOverflow);
        },
    };
    ctx.staking_pool.data = StakingPool {
        distribution_active: true,
        last_reward_distribution: clock.unix_timestamp,
        epoch_started_at: clock.unix_timestamp,
        current_distribution_epoch: epoch,
        global_sequence: clock.slot,
        total_weighted_stake: 0,
        ..pool
    };
    Ok(DistributionStarted { pool: ctx.staking_pool.key, epoch, timestamp: clock.unix_timestamp })
}

/// The pool's weight once the running epoch is stopped at `now`: what was
/// accrued, with what the staked total earned since; none where that does not
/// fit. A pool with nothing staked keeps its weight whatever the time.
pub open spec fn final_weight(pool: StakingPool, now: i64) -> Option<u64> {
    if pool.total_staked > 0 {
        accrued_weight(
            pool.total_weighted_stake,
            pool.total_staked,
            pool.last_reward_distribution,
            now,
        )
    } else {
        Some(pool.total_weighted_stake)
    }
}

/// The first reason for which stopping the epoch is refused; none where it is
/// accepted.
pub open spec fn stop_distribution_rejection(ctx: StopDistribution, clock: Clock) -> Option<
    StakingError,
> {
    let pool = ctx.staking_pool.data;
    if pool.authority != ctx.authority.key {
        Some(StakingError::Unauthorized)
    } else if pool.paused {
        Some(StakingError::PoolPaused)
    } else if !pool.distribution_active {
        Some(StakingError::DistributionNotActive)
    } else if pool.distribution_ended {
        Some(StakingError::DistributionPermanentlyEnded)
    } else if final_weight(pool, clock.unix_timestamp) is None {
        Some(StakingError::MathOverflow)
    } else {
        None
    }
}

/// The pool after its epoch was stopped at `clock`: the weight is brought up
/// to now and stays as it is until the next epoch starts, and the balance
/// set aside for rewards is put on record as what the epoch's claims are
/// shares of, all of it unclaimed.
pub open spec fn stopped_pool(pool: StakingPool, clock: Clock) -> StakingPool {
    StakingPool {
        total_weighted_stake: final_weight(pool, clock.unix_timestamp).unwrap(),
        sol_rewards_at_stop: pool.sol_rewards_available,
        sol_rewards_unclaimed: pool.sol_rewards_available,
        distribution_active: false,
        global_sequence: clock.slot,
        ..pool
    }
}

/// The accounts after the epoch was stopped.
pub open spec fn stop_distribution_accounts(ctx: StopDistribution, clock: Clock) -> StopDistribution {
    StopDistribution {
        staking_pool: Account {
            data: stopped_pool(ctx.staking_pool.data, clock),
            ..ctx.staking_pool
        },
        ..ctx
    }
}

/// Stops the running epoch, after which its rewards can be claimed.
pub fn stop_distribution(ctx: &mut StopDistribution, clock: Clock) -> (result: Result<
    DistributionStopped,
    StakingError,
>)
    ensures
        match result {
            Ok(event) => {
                &&& stop_distribution_rejection(*old(ctx), clock) is None
                &&& *final(ctx) == stop_distribution_accounts(*old(ctx), clock)
                &&& event == (DistributionStopped {
                    pool: old(ctx).staking_pool.key,
                    epoch: old(ctx).staking_pool.data.current_distribution_epoch,
                    total_weighted_stake: final_weight(
                        old(ctx).staking_pool.data,
                        clock.unix_timestamp,
                    ).unwrap(),
                    timestamp: clock.unix_timestamp,
                })
            },
            Err(error) => {
                &&& stop_distribution_rejection(*old(ctx), clock) == Some(error)
                &&& *final(ctx) == *old(ctx)
            },
        },
{
    let pool = ctx.staking_pool.data;
    if pool.authority != ctx.authority.key {
        return Err(StakingError::Unauthorized);
    }
    if pool.paused {
        return Err(StakingError::PoolPaused);
    }
    if !pool.distribution_active {
        return Err(StakingError::DistributionNotActive);
    }
    if pool.distribution_ended {
        return Err(StakingError::DistributionPermanentlyEnded);
    }
    let weight: u64 = if pool.total_staked > 0 {
        match accrue_weight(
            pool.total_weighted_stake,
            pool.total_staked,
            pool.last_reward_distribution,
            clock.unix_timestamp,
        ) {
            Some(weight) => weight,
            None => {
                return Err(StakingError::MathOverflow);
            },
        }
    } else {
        pool.total_weighted_stake
    };
    ctx.staking_pool.data = StakingPool {
        total_weighted_stake: weight,
        sol_rewards_at_stop: pool.sol_rewards_available,
        sol_rewards_unclaimed: pool.sol_rewards_available,
        distribution_active: false,
        global_sequence: clock.slot,
        ..pool
    };
    Ok(
        DistributionStopped {
            pool: ctx.staking_pool.key,
            epoch: pool.current_distribution_epoch,
            total_weighted_stake: weight,
            timestamp: clock.unix_timestamp,
        },
    )
}

/// The first reason for which ending the cycle for good is refused; none
/// where it is accepted, which is after an epoch was stopped and only then.
pub open spec fn end_distribution_permanently_rejection(
    ctx: EndDistributionPermanently,
) -> Option<StakingError> {
    let pool = ctx.staking_pool.data;
    if pool.authority != ctx.authority.key {
        Some(StakingError::Unauthorized)
    } else if pool.distribution_active {
        Some(StakingError::DistributionStillActive)
    } else if pool.distribution_ended {
        Some(StakingError::DistributionPermanentlyEnded)
    } else if pool.current_distribution_epoch == 0 {
        Some(StakingError::DistributionNotActive)
    } else {
        None
    }
}

/// The accounts after the cycle was ended for good.
pub open spec fn end_distribution_permanently_accounts(
    ctx: EndDistributionPermanently,
    clock: Clock,
) -> EndDistributionPermanently {
    EndDistributionPermanently {
        staking_pool: Account {
            data: StakingPool {
                distribution_ended: true,
                global_sequence: clock.slot,
                ..ctx.staking_pool.data
            },
            ..ctx.staking_pool
        },
        ..ctx
    }
}

/// Ends the distribution cycle for good: no epoch can start afterwards.
pub fn end_distribution_permanently(ctx: &mut EndDistributionPermanently, clock: Clock) -> (result:
    Result<DistributionEndedPermanently, StakingError>)
    ensures
        match result {
            Ok(event) => {
                &&& end_distribution_permanently_rejection(*old(ctx)) is None
                &&& *final(ctx) == end_distribution_permanently_accounts(*old(ctx), clock)
                &&& event == (DistributionEndedPermanently {
                    pool: old(ctx).staking_pool.key,
                    final_epoch: old(ctx).staking_pool.data.current_distribution_epoch,
                    timestamp: clock.unix_timestamp,
                })
            },
            Err(error) => {
                &&& end_distribution_permanently_rejection(*old(ctx)) == Some(error)
                &&& *final(ctx) == *old(ctx)
            },
        },
{
    let pool = ctx.staking_pool.data;
    if pool.authority != ctx.authority.key {
        return Err(StakingError::Unauthorized);
    }
    if pool.distribution_active {
        return Err(StakingError::DistributionStillActive);
    }
    if pool.distribution_ended {
        return Err(StakingError::DistributionPermanentlyEnded);
    }
    if pool.current_distribution_epoch == 0 {
        return Err(StakingError::DistributionNotActive);
    }
    ctx.staking_pool.data = StakingPool {
        distribution_ended: true,
        global_sequence: clock.slot,
        ..pool
    };
    Ok(
        DistributionEndedPermanently {
            pool: ctx.staking_pool.key,
            final_epoch: pool.current_distribution_epoch,
            timestamp: clock.unix_timestamp,
        },
    )
}

/// A start from rest is accepted and counts from zero: where the pool's
/// authority starts an epoch on a pool that is not paused, in which no epoch
/// runs and whose cycle has not ended, the next epoch runs, the pool's
/// weight is zero, and weight counts from now. What is staked and what is
/// set aside for rewards stay as they were, so that principal staked before
/// the start carries no weight into the epoch.
pub proof fn lemma_start_from_rest(ctx: StartDistribution, clock: Clock)
    requires
        ctx.staking_pool.data.authority == ctx.authority.key,
        !ctx.staking_pool.data.paused,
        !ctx.staking_pool.data.distribution_active,
        !ctx.staking_pool.data.distribution_ended,
        ctx.staking_pool.data.current_distribution_epoch < u64::MAX,
    ensures
        start_distribution_rejection(ctx, clock) is None,
        start_distribution_accounts(ctx, clock).staking_pool.data == (StakingPool {
            distribution_active: true,
            total_weighted_stake: 0,
            last_reward_distribution: clock.unix_timestamp,
            epoch_started_at: clock.unix_timestamp,
            current_distribution_epoch: (ctx.staking_pool.data.current_distribution_epoch
                + 1) as u64,
            global_sequence: clock.slot,
            ..ctx.staking_pool.data
        }),
        start_distribution_accounts(ctx, clock).staking_pool.data.total_staked
            == ctx.staking_pool.data.total_staked,
        start_distribution_accounts(ctx, clock).staking_pool.data.sol_rewards_available
            == ctx.staking_pool.data.sol_rewards_available,
{
}

} // verus!
