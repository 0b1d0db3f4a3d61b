//! Staking and unstaking.
//!
//! Both bring the pool's and the staker's weight up to the time of the call
//! before the principal changes, so that a new amount earns nothing for time
//! that has already passed.

use vstd::prelude::*;
use crate::accounts::Account;
use crate::accounts::Clock;
use crate::accounts::Transfer;
use crate::math::BASIS_POINTS;
use crate::math::fraction_of;
use crate::math::lemma_mul_div_within;
use crate::math::mul_div;
use crate::math::mul_div_floor;
use crate::pubkey::Pubkey;
use crate::time_weighted_staking::accrual::accrue_pool;
use crate::time_weighted_staking::accrual::accrue_user;
use crate::time_weighted_staking::accrual::accrue_weight;
use crate::time_weighted_staking::accrual::accrued_weight;
use crate::time_weighted_staking::accrual::compute_earning_since;
use crate::time_weighted_staking::accrual::earning_since;
use crate::time_weighted_staking::accrual::pool_accrued;
use crate::time_weighted_staking::accrual::user_accrued;
use crate::time_weighted_staking::contexts::Stake;
use crate::time_weighted_staking::contexts::Unstake;
use crate::time_weighted_staking::error::StakingError;
use crate::time_weighted_staking::events::TokensStaked;
use crate::time_weighted_staking::events::TokensUnstaked;
use crate::time_weighted_staking::state::EARLY_UNSTAKE_PENALTY_PERCENT;
use crate::time_weighted_staking::state::MAX_STAKE_AMOUNT;
use crate::time_weighted_staking::state::MAX_UNSTAKE_FEE_BASIS_POINTS;
use crate::time_weighted_staking::state::MIN_LOCK_PERIOD_DAYS;
use crate::time_weighted_staking::state::REWARD_SHARE_SCALE;
use crate::time_weighted_staking::state::SECONDS_PER_DAY;
use crate::time_weighted_staking::state::StakingPool;
use crate::time_weighted_staking::state::UNSTAKE_FEE_BASIS_POINTS;
use crate::time_weighted_staking::state::UserStake;

verus! {

/// The first reason, in the order in which they are tested, for which
/// staking `amount` is refused; none where it is accepted.
pub open spec fn stake_rejection(ctx: Stake, amount: u64, clock: Clock) -> Option<StakingError> {
    let pool = ctx.staking_pool.data;
    let user = ctx.user_stake.data;
    let now = clock.unix_timestamp;
    if ctx.user_token_account.data.mint != pool.stake_token_mint {
        Some(StakingError::InvalidTokenMint)
    } else if ctx.user_token_account.data.owner != ctx.user.key {
        Some(StakingError::Unauthorized)
    } else if amount == 0 {
        Some(StakingError::InvalidAmount)
    } else if amount > MAX_STAKE_AMOUNT {
        Some(StakingError::ExceedsMaxStake)
    } else if pool.paused {
        Some(StakingError::PoolPaused)
    } else if pool.distribution_ended {
        Some(StakingError::DistributionPermanentlyEnded)
    } else if clock.slot <= user.last_action_sequence {
        Some(StakingError::ReplayAttack)
    } else if user.amount + amount > u64::MAX || pool.total_staked + amount > u64::MAX
        || pool_accrued(pool, now) is None || user_accrued(user, pool, now) is None {
        Some(StakingError::MathOverflow)
    } else {
        None
    }
}

/// The pool's record after `amount` was staked.
pub open spec fn stake_pool(pool: StakingPool, amount: u64, clock: Clock) -> StakingPool {
    let accrued = pool_accrued(pool, clock.unix_timestamp).unwrap();
    StakingPool {
        total_staked: (pool.total_staked + amount) as u64,
        global_sequence: clock.slot,
        ..accrued
    }
}

/// The record of the staker `owner` after `amount` was staked in `pool`.
pub open spec fn stake_user(
    pool: StakingPool,
    user: UserStake,
    owner: Pubkey,
    amount: u64,
    clock: Clock,
) -> UserStake {
    let accrued = user_accrued(user, pool, clock.unix_timestamp).unwrap();
    UserStake {
        amount: (user.amount + amount) as u64,
        last_stake_time: clock.unix_timestamp,
        lock_start_time: clock.unix_timestamp,
        owner,
        distribution_epoch: pool.current_distribution_epoch,
        last_action_sequence: clock.slot,
        is_active: true,
        ..accrued
    }
}

/// The accounts after `amount` was staked.
pub open spec fn stake_accounts(ctx: Stake, amount: u64, clock: Clock) -> Stake {
    Stake {
        staking_pool: Account {
            data: stake_pool(ctx.staking_pool.data, amount, clock),
            ..ctx.staking_pool
        },
        user_stake: Account {
            data: stake_user(
                ctx.staking_pool.data,
                ctx.user_stake.data,
                ctx.user.key,
                amount,
                clock,
            ),
            ..ctx.user_stake
        },
        ..ctx
    }
}

/// What is reported of an accepted stake, and the tokens to move for it:
/// `amount` from the staker's token account into the pool's vault.
pub open spec fn stake_receipt(ctx: Stake, amount: u64, clock: Clock) -> (TokensStaked, Transfer) {
    (
        TokensStaked {
            pool: ctx.staking_pool.key,
            user: ctx.user.key,
            amount,
            new_total: (ctx.user_stake.data.amount + amount) as u64,
            epoch: ctx.staking_pool.data.current_distribution_epoch,
            timestamp: clock.unix_timestamp,
        },
        Transfer {
            from: ctx.user_token_account.key,
            to: ctx.pool_token_vault.key,
            authority: ctx.user.key,
            amount,
        },
    )
}

/// Stakes `amount` of the pool's token for the signing user.
///
/// An accepted call adds `amount` to the staker's principal and to the pool's
/// total, after the weight earned up to now by the old amounts was accrued,
/// and restarts the staker's lock period. A refused call changes nothing.
pub fn stake(ctx: &mut Stake, amount: u64, clock: Clock) -> (result: Result<
    (TokensStaked, Transfer),
    StakingError,
>)
    ensures
        match result {
            Ok(receipt) => {
                &&& stake_rejection(*old(ctx), amount, clock) is None
                &&& *final(ctx) == stake_accounts(*old(ctx), amount, clock)
                &&& receipt == stake_receipt(*old(ctx), amount, clock)
            },
            Err(error) => {
                &&& stake_rejection(*old(ctx), amount, clock) == Some(error)
                &&& *final(ctx) == *old(ctx)
            },
        },
{
    let pool = ctx.staking_pool.data;
    let user = ctx.user_stake.data;
    let now = clock.unix_timestamp;
    if ctx.user_token_account.data.mint != pool.stake_token_mint {
        return Err(StakingError::InvalidTokenMint);
    }
    if ctx.user_token_account.data.owner != ctx.user.key {
        return Err(StakingError::Unauthorized);
    }
    if amount == 0 {
        return Err(StakingError::InvalidAmount);
    }
    if amount > MAX_STAKE_AMOUNT {
        return Err(StakingError::ExceedsMaxStake);
    }
    if pool.paused {
        return Err(StakingError::PoolPaused);
    }
    if pool.distribution_ended {
        return Err(StakingError::DistributionPermanentlyEnded);
    }
    if clock.slot <= user.last_action_sequence {
        return Err(StakingError::ReplayAttack);
    }
    let new_user_amount: u64 = match user.amount.checked_add(amount) {
        Some(sum) => sum,
        None => {
            return Err(StakingError::MathOverflow);
        },
    };
    let new_total_staked: u64 = match pool.total_staked.checked_add(amount) {
        Some(sum) => sum,
        None => {
            return Err(StakingError::MathOverflow);
        },
    };
    let accrued_pool = match accrue_pool(&pool, now) {
        Some(accrued) => accrued,
        None => {
            return Err(StakingError::MathOverflow);
        },
    };
    let accrued_user = match accrue_user(&user, &pool, now) {
        Some(accrued) => accrued,
        None => {
            return Err(StakingError::MathOverflow);
        },
    };
    ctx.staking_pool.data = StakingPool {
        total_staked: new_total_staked,
        global_sequence: clock.slot,
        ..accrued_pool
    };
    ctx.user_stake.data = UserStake {
        amount: new_user_amount,
        last_stake_time: now,
        lock_start_time: now,
        owner: ctx.user.key,
        distribution_epoch: pool.current_distribution_epoch,
        last_action_sequence: clock.slot,
        is_active: true,
        ..accrued_user
    };
    Ok(
        (
            TokensStaked {
                pool: ctx.staking_pool.key,
                user: ctx.user.key,
                amount,
                new_total: new_user_amount,
                epoch: pool.current_distribution_epoch,
                timestamp: now,
            },
            Transfer {
                from: ctx.user_token_account.key,
                to: ctx.pool_token_vault.key,
                authority: ctx.user.key,
                amount,
            },
        ),
    )
}

/// Whether a stake locked at `lock_start_time` is unstaked early at `now`:
/// before the lock period has passed.
pub open spec fn is_early_unstake(lock_start_time: i64, now: i64) -> bool {
    now - lock_start_time < MIN_LOCK_PERIOD_DAYS * SECONDS_PER_DAY
}

/// The fee withheld from an unstaked amount: the flat rate, and never more
/// than the highest rate allowed.
pub open spec fn unstake_fee(amount: u64) -> u64 {
    let flat = (amount * UNSTAKE_FEE_BASIS_POINTS) / (BASIS_POINTS as int);
    let cap = (amount * MAX_UNSTAKE_FEE_BASIS_POINTS) / (BASIS_POINTS as int);
    if flat <= cap {
        flat as u64
    } else {
        cap as u64
    }
}

/// Computes the fee withheld from an unstaked amount.
pub fn compute_unstake_fee(amount: u64) -> (fee: u64)
    ensures
        fee == unstake_fee(amount),
        fee <= amount,
{
    let flat: u64 = fraction_of(amount, UNSTAKE_FEE_BASIS_POINTS, BASIS_POINTS);
    let cap: u64 = fraction_of(amount, MAX_UNSTAKE_FEE_BASIS_POINTS, BASIS_POINTS);
    if flat <= cap {
        flat
    } else {
        cap
    }
}

/// An estimate of what the staker's weight is worth, in parts per
/// `REWARD_SHARE_SCALE` of the pool's weight: the staker's weight, with what
/// the principal earned since the later of the last stake and the start of
/// the epoch, over the pool's weight. Zero
/// where no distribution runs or the pool has no weight; none where the
/// weight or the estimate does not fit.
pub open spec fn pending_reward_estimate(pool: StakingPool, user: UserStake, now: i64) -> Option<
    u64,
> {
    if pool.total_weighted_stake == 0 || !pool.distribution_active {
        Some(0)
    } else {
        match accrued_weight(user.weighted_stake, user.amount, earning_since(user, pool), now) {
            Some(weight) => mul_div_floor(weight, REWARD_SHARE_SCALE, pool.total_weighted_stake),
            None => None,
        }
    }
}

/// Computes the estimate of what the staker's weight is worth.
pub fn calculate_user_rewards(pool: &StakingPool, user_stake: &UserStake, current_time: i64) -> (estimate:
    Result<u64, StakingError>)
    ensures
        match estimate {
            Ok(share) => pending_reward_estimate(*pool, *user_stake, current_time) == Some(share),
            Err(error) => error == StakingError::MathOverflow && pending_reward_estimate(
                *pool,
                *user_stake,
                current_time,
            ) is None,
        },
{
    if pool.total_weighted_stake == 0 || !pool.distribution_active {
        return Ok(0);
    }
    let weight: u64 = match accrue_weight(
        user_stake.weighted_stake,
        user_stake.amount,
        compute_earning_since(user_stake, pool),
        current_time,
    ) {
        Some(weight) => weight,
        None => {
            return Err(StakingError::MathOverflow);
        },
    };
    match mul_div(weight, REWARD_SHARE_SCALE, pool.total_weighted_stake) {
        Some(share) => Ok(share),
        None => Err(StakingError::MathOverflow),
    }
}

/// The penalty recorded for an unstake at `now`, given the pool and the
/// staker's record with their weights brought up to `now`: a percentage of
/// the reward estimate where the stake is still locked and a distribution
/// runs, nothing otherwise.
pub open spec fn unstake_penalty(pool: StakingPool, user: UserStake, now: i64) -> Option<u64> {
    if is_early_unstake(user.lock_start_time, now) && pool.distribution_active {
        match pending_reward_estimate(pool, user, now) {
            Some(estimate) => Some(((estimate * EARLY_UNSTAKE_PENALTY_PERCENT) / 100) as u64),
            None => None,
        }
    } else {
        Some(0)
    }
}

/// What an unstake of `amount` settles to.
pub struct Unstaked {
    pub pool: StakingPool,
    pub user: UserStake,
    /// Withheld from the amount; it stays in the pool's vault.
    pub fee: u64,
    /// Recorded against the staker.
    pub penalty: u64,
}

/// The records after `amount` was unstaked, with the fee and the penalty;
/// none where the staker or the pool holds less than `amount`, or a step of
/// the arithmetic does not fit.
pub open spec fn unstaked(pool: StakingPool, user: UserStake, amount: u64, clock: Clock) -> Option<
    Unstaked,
> {
    let now = clock.unix_timestamp;
    if user.amount < amount || pool.total_staked < amount || now - user.lock_start_time > i64::MAX
        || now - user.lock_start_time < i64::MIN {
        None
    } else {
        match (pool_accrued(pool, now), user_accrued(user, pool, now)) {
            (Some(accrued_pool), Some(accrued_user)) => {
                let fee = unstake_fee(amount);
                match unstake_penalty(accrued_pool, accrued_user, now) {
                    Some(penalty) => {
                        if accrued_user.penalty_amount + penalty > u64::MAX
                            || accrued_pool.total_fees_collected + fee > u64::MAX {
                            None
                        } else {
                            Some(
                                Unstaked {
                                    pool: StakingPool {
                                        total_staked: (pool.total_staked - amount) as u64,
                                        total_fees_collected: (accrued_pool.total_fees_collected
                                            + fee) as u64,
                                        global_sequence: clock.slot,
                                        ..accrued_pool
                                    },
                                    user: UserStake {
                                        amount: (user.amount - amount) as u64,
                                        last_stake_time: now,
                                        last_action_sequence: clock.slot,
                                        penalty_amount: (accrued_user.penalty_amount
                                            + penalty) as u64,
                                        is_active: user.is_active && user.amount != amount,
                                        ..accrued_user
                                    },
                                    fee,
                                    penalty,
                                },
                            )
                        }
                    },
                    None => None,
                }
            },
            _ => None,
        }
    }
}

/// The first reason, in the order in which they are tested, for which
/// unstaking `amount` is refused; none where it is accepted.
pub open spec fn unstake_rejection(ctx: Unstake, amount: u64, clock: Clock) -> Option<
    StakingError,
> {
    let pool = ctx.staking_pool.data;
    let user = ctx.user_stake.data;
    if ctx.user_token_account.data.mint != pool.stake_token_mint {
        Some(StakingError::InvalidTokenMint)
    } else if ctx.user_token_account.data.owner != ctx.user.key {
        Some(StakingError::Unauthorized)
    } else if amount == 0 {
        Some(StakingError::InvalidAmount)
    } else if pool.paused {
        Some(StakingError::PoolPaused)
    } else if user.amount < amount {
        Some(StakingError::InsufficientStake)
    } else if !user.is_active {
        Some(StakingError::StakeNotActive)
    } else if clock.slot <= user.last_action_sequence {
        Some(StakingError::ReplayAttack)
    } else if unstaked(pool, user, amount, clock) is None {
        Some(StakingError::MathOverflow)
    } else {
        None
    }
}

/// The accounts after `amount` was unstaked.
pub open spec fn unstake_accounts(ctx: Unstake, amount: u64, clock: Clock) -> Unstake {
    let settled = unstaked(ctx.staking_pool.data, ctx.user_stake.data, amount, clock).unwrap();
    Unstake {
        staking_pool: Account { data: settled.pool, ..ctx.staking_pool },
        user_stake: Account { data: settled.user, ..ctx.user_stake },
        ..ctx
    }
}

/// What is reported of an accepted unstake, and the tokens to move for it:
/// the amount less the fee, from the pool's vault, which is its own
/// authority, to the staker's token account.
pub open spec fn unstake_receipt(ctx: Unstake, amount: u64, clock: Clock) -> (
    TokensUnstaked,
    Transfer,
) {
    let settled = unstaked(ctx.staking_pool.data, ctx.user_stake.data, amount, clock).unwrap();
    (
        TokensUnstaked {
            pool: ctx.staking_pool.key,
            user: ctx.user.key,
            amount,
            fee: settled.fee,
            penalty: settled.penalty,
            remaining_stake: settled.user.amount,
            timestamp: clock.unix_timestamp,
        },
        Transfer {
            from: ctx.pool_token_vault.key,
            to: ctx.user_token_account.key,
            authority: ctx.pool_token_vault.key,
            amount: (amount - settled.fee) as u64,
        },
    )
}

/// Takes `amount` out of the signing user's stake.
///
/// An accepted call pays out the amount less the flat fee, after the weight
/// earned up to now was accrued. Where the stake is still locked and a
/// distribution runs, a penalty is recorded against the staker. A stake that
/// reaches zero becomes inactive and keeps its weight and claim history.
/// A refused call changes nothing.
pub fn unstake(ctx: &mut Unstake, amount: u64, clock: Clock) -> (result: Result<
    (TokensUnstaked, Transfer),
    StakingError,
>)
    ensures
        match result {
            Ok(receipt) => {
                &&& unstake_rejection(*old(ctx), amount, clock) is None
                &&& *final(ctx) == unstake_accounts(*old(ctx), amount, clock)
                &&& receipt == unstake_receipt(*old(ctx), amount, clock)
            },
            Err(error) => {
                &&& unstake_rejection(*old(ctx), amount, clock) == Some(error)
                &&& *final(ctx) == *old(ctx)
            },
        },
{
    let pool = ctx.staking_pool.data;
    let user = ctx.user_stake.data;
    let now = clock.unix_timestamp;
    if ctx.user_token_account.data.mint != pool.stake_token_mint {
        return Err(StakingError::InvalidTokenMint);
    }
    if ctx.user_token_account.data.owner != ctx.user.key {
        return Err(StakingError::Unauthorized);
    }
    if amount == 0 {
        return Err(StakingError::InvalidAmount);
    }
    if pool.paused {
        return Err(StakingError::PoolPaused);
    }
    if user.amount < amount {
        return Err(StakingError::InsufficientStake);
    }
    if !user.is_active {
        return Err(StakingError::StakeNotActive);
    }
    if clock.slot <= user.last_action_sequence {
        return Err(StakingError::ReplayAttack);
    }
    let remaining_amount: u64 = user.amount - amount;
    let new_total_staked: u64 = match pool.total_staked.checked_sub(amount) {
        Some(rest) => rest,
        None => {
            return Err(StakingError::MathOverflow);
        },
    };
    let accrued_pool = match accrue_pool(&pool, now) {
        Some(accrued) => accrued,
        None => {
            return Err(StakingError::MathOverflow);
        },
    };
    let accrued_user = match accrue_user(&user, &pool, now) {
        Some(accrued) => accrued,
        None => {
            return Err(StakingError::MathOverflow);
        },
    };
    let held: i64 = match now.checked_sub(user.lock_start_time) {
        Some(held) => held,
        None => {
            return Err(StakingError::MathOverflow);
        },
    };
    let is_early: bool = held < MIN_LOCK_PERIOD_DAYS * SECONDS_PER_DAY;
    let fee: u64 = compute_unstake_fee(amount);
    let penalty: u64 = if is_early && accrued_pool.distribution_active {
        match calculate_user_rewards(&accrued_pool, &accrued_user, now) {
            Ok(estimate) => fraction_of(estimate, EARLY_UNSTAKE_PENALTY_PERCENT, 100),
            Err(error) => {
                return Err(error);
            },
        }
    } else {
        0
    };
    let new_penalty_amount: u64 = match accrued_user.penalty_amount.checked_add(penalty) {
        Some(sum) => sum,
        None => {
            return Err(StakingError::MathOverflow);
        },
    };
    let new_fees_collected: u64 = match accrued_pool.total_fees_collected.checked_add(fee) {
        Some(sum) => sum,
        None => {
            return Err(StakingError::MathOverflow);
        },
    };
    ctx.staking_pool.data = StakingPool {
        total_staked: new_total_staked,
        total_fees_collected: new_fees_collected,
        global_sequence: clock.slot,
        ..accrued_pool
    };
    ctx.user_stake.data = UserStake {
        amount: remaining_amount,
        last_stake_time: now,
        last_action_sequence: clock.slot,
        penalty_amount: new_penalty_amount,
        is_active: remaining_amount != 0,
        ..accrued_user
    };
    Ok(
        (
            TokensUnstaked {
                pool: ctx.staking_pool.key,
                user: ctx.user.key,
                amount,
                fee,
                penalty,
                remaining_stake: remaining_amount,
                timestamp: now,
            },
            Transfer {
                from: ctx.pool_token_vault.key,
                to: ctx.user_token_account.key,
                authority: ctx.pool_token_vault.key,
                amount: amount - fee,
            },
        ),
    )
}

/// The fee is the flat rate of the amount, rounded down; the cap never
/// binds, and the fee never exceeds the amount.
pub proof fn lemma_unstake_fee_is_flat(amount: u64)
    ensures
        unstake_fee(amount) == (amount * UNSTAKE_FEE_BASIS_POINTS) / (BASIS_POINTS as int),
        unstake_fee(amount) == amount / 200,
        unstake_fee(amount) <= amount,
{
    lemma_mul_div_within(amount, UNSTAKE_FEE_BASIS_POINTS, BASIS_POINTS);
    lemma_mul_div_within(amount, MAX_UNSTAKE_FEE_BASIS_POINTS, BASIS_POINTS);
}

/// An unstake made while no distribution runs bears no penalty, however
/// short the stake was held, and leaves all weights as they were. Every
/// accepted unstake withholds the flat fee and pays out the rest.
pub proof fn lemma_unstake_without_distribution(ctx: Unstake, amount: u64, clock: Clock)
    requires
        unstake_rejection(ctx, amount, clock) is None,
    ensures
        unstake_receipt(ctx, amount, clock).0.fee == unstake_fee(amount),
        unstake_receipt(ctx, amount, clock).1.amount == amount - unstake_fee(amount),
        unstake_accounts(ctx, amount, clock).staking_pool.data.total_fees_collected
            == ctx.staking_pool.data.total_fees_collected + unstake_fee(amount),
        !ctx.staking_pool.data.distribution_active ==> {
            &&& unstake_receipt(ctx, amount, clock).0.penalty == 0
            &&& unstake_accounts(ctx, amount, clock).user_stake.data.penalty_amount
                == ctx.user_stake.data.penalty_amount
            &&& unstake_accounts(ctx, amount, clock).user_stake.data.weighted_stake
                == ctx.user_stake.data.weighted_stake
            &&& unstake_accounts(ctx, amount, clock).staking_pool.data.total_weighted_stake
                == ctx.staking_pool.data.total_weighted_stake
        },
{
}

} // verus!
