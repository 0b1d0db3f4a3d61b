//! How weight accrues: principal times the seconds it was held, counted only
//! while a distribution runs.

use vstd::prelude::*;
use crate::math::elapsed_seconds;
use crate::math::seconds_between;
use crate::time_weighted_staking::state::StakingPool;
use crate::time_weighted_staking::state::UserStake;

verus! {

/// `weight` plus what `principal` earns from `since` to `now`; none where
/// time would run backwards or the sum does not fit.
pub open spec fn accrued_weight(weight: u64, principal: u64, since: i64, now: i64) -> Option<u64> {
    match seconds_between(since, now) {
        Some(seconds) => {
            if weight + principal * seconds <= u64::MAX {
                Some((weight + principal * seconds) as u64)
            } else {
                None
            }
        },
        None => None,
    }
}

/// Adds to `weight` what `principal` earned from `since` to `now`.
pub fn accrue_weight(weight: u64, principal: u64, since: i64, now: i64) -> (total: Option<u64>)
    ensures
        total == accrued_weight(weight, principal, since, now),
{
    let seconds: u64 = match elapsed_seconds(since, now) {
        Some(seconds) => seconds,
        None => {
            return None;
        },
    };
    let earned: u64 = match principal.checked_mul(seconds) {
        Some(earned) => earned,
        None => {
            return None;
        },
    };
    weight.checked_add(earned)
}

/// The pool with its weight brought up to `now`: unchanged unless a
/// distribution runs.
pub open spec fn pool_accrued(pool: StakingPool, now: i64) -> Option<StakingPool> {
    if !pool.distribution_active {
        Some(pool)
    } else {
        match accrued_weight(
            pool.total_weighted_stake,
            pool.total_staked,
            pool.last_reward_distribution,
            now,
        ) {
            Some(weight) => Some(
                StakingPool { total_weighted_stake: weight, last_reward_distribution: now, ..pool },
            ),
            None => None,
        }
    }
}

/// Brings the pool's weight up to `now`.
pub fn accrue_pool(pool: &StakingPool, now: i64) -> (accrued: Option<StakingPool>)
    ensures
        accrued == pool_accrued(*pool, now),
{
    if !pool.distribution_active {
        return Some(*pool);
    }
    match accrue_weight(
        pool.total_weighted_stake,
        pool.total_staked,
        pool.last_reward_distribution,
        now,
    ) {
        Some(weight) => Some(
            StakingPool { total_weighted_stake: weight, last_reward_distribution: now, ..*pool },
        ),
        None => None,
    }
}

/// The time from which the staker's principal earns weight in `pool`: the
/// later of the staker's last stake or unstake and the start of the epoch.
pub open spec fn earning_since(user: UserStake, pool: StakingPool) -> i64 {
    if user.last_stake_time >= pool.epoch_started_at {
        user.last_stake_time
    } else {
        pool.epoch_started_at
    }
}

/// Computes the time from which the staker's principal earns weight.
pub fn compute_earning_since(user: &UserStake, pool: &StakingPool) -> (since: i64)
    ensures
        since == earning_since(*user, *pool),
{
    if user.last_stake_time >= pool.epoch_started_at {
        user.last_stake_time
    } else {
        pool.epoch_started_at
    }
}

/// The staker's record with its weight brought up to `now`: unchanged unless
/// a distribution runs in `pool` and the staker holds principal. The
/// principal earns from the staker's last stake or unstake on, and never
/// for time before the epoch started. The time of the last stake is left
/// for the caller to set.
pub open spec fn user_accrued(user: UserStake, pool: StakingPool, now: i64) -> Option<UserStake> {
    if !pool.distribution_active || user.amount == 0 {
        Some(user)
    } else {
        match accrued_weight(user.weighted_stake, user.amount, earning_since(user, pool), now) {
            Some(weight) => Some(UserStake { weighted_stake: weight, ..user }),
            None => None,
        }
    }
}

/// Brings the staker's weight up to `now`.
pub fn accrue_user(user: &UserStake, pool: &StakingPool, now: i64) -> (accrued: Option<UserStake>)
    ensures
        accrued == user_accrued(*user, *pool, now),
{
    if !pool.distribution_active || user.amount == 0 {
        return Some(*user);
    }
    match accrue_weight(user.weighted_stake, user.amount, compute_earning_since(user, pool), now) {
        Some(weight) => Some(UserStake { weighted_stake: weight, ..*user }),
        None => None,
    }
}

/// A staker earns nothing for time before the epoch started: what an
/// accrual adds to the staker's weight is at most the principal times the
/// seconds since the start, and exactly that where the staker's last stake
/// or unstake lies before the start.
pub proof fn lemma_staker_earns_from_epoch_start(user: UserStake, pool: StakingPool, now: i64)
    requires
        pool.distribution_active,
        user_accrued(user, pool, now) is Some,
    ensures
        user_accrued(user, pool, now).unwrap().weighted_stake - user.weighted_stake <= user.amount
            * (now - pool.epoch_started_at),
        user.last_stake_time <= pool.epoch_started_at ==> user_accrued(
            user,
            pool,
            now,
        ).unwrap().weighted_stake == user.weighted_stake + user.amount * (now
            - pool.epoch_started_at),
        user.amount > 0 ==> pool.epoch_started_at <= now,
{
    if user.amount > 0 {
        let since = earning_since(user, pool);
        assert(user.amount * (now - since) <= user.amount * (now - pool.epoch_started_at))
            by (nonlinear_arith)
            requires
                0 <= user.amount,
                now - since <= now - pool.epoch_started_at,
        ;
    } else {
        assert(user.amount * (now - pool.epoch_started_at) == 0) by (nonlinear_arith)
            requires
                user.amount == 0,
        ;
    }
}

} // verus!
