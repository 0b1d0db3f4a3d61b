//! Staking, unstaking and claiming at a fixed daily rate.

use vstd::prelude::*;
use crate::accounts::Account;
use crate::accounts::Clock;
use crate::accounts::Transfer;
use crate::aura_staking::contexts::ClaimRewards;
use crate::aura_staking::contexts::Stake;
use crate::aura_staking::contexts::Unstake;
use crate::aura_staking::state::BASIS_POINTS;
use crate::aura_staking::state::EARLY_UNSTAKE_DAYS;
use crate::aura_staking::state::EARLY_UNSTAKE_PENALTY_PERCENT;
use crate::aura_staking::state::SECONDS_PER_DAY;
use crate::aura_staking::state::StakingError;
use crate::aura_staking::state::StakingPool;
use crate::aura_staking::state::UNSTAKE_FEE_PERCENT;
use crate::aura_staking::state::UserStake;
use crate::math::elapsed_seconds;
use crate::math::fraction_of;
use crate::math::mul_mul_div;
use crate::math::mul_mul_div_floor;
use crate::math::seconds_between;

verus! {

/// The rewards earned since they were last counted: the principal, times the
/// daily rate, times the full days since, over `BASIS_POINTS`, rounded down.
/// Nothing for a record that holds nothing or was never used; none where
/// time would run backwards or the rewards do not fit.
pub open spec fn pending_rewards(user: UserStake, pool: StakingPool, now: i64) -> Option<u64> {
    if user.amount == 0 || user.last_update_time == 0 {
        Some(0)
    } else {
        match seconds_between(user.last_update_time, now) {
            Some(seconds) => mul_mul_div_floor(
                user.amount,
                pool.reward_rate_per_day,
                (seconds / 86_400) as u64,
                BASIS_POINTS,
            ),
            None => None,
        }
    }
}

/// Computes the rewards earned since they were last counted.
pub fn calculate_pending_rewards(user_stake: &UserStake, pool: &StakingPool, current_time: i64) -> (rewards:
    Result<u64, StakingError>)
    ensures
        match rewards {
            Ok(rewards) => pending_rewards(*user_stake, *pool, current_time) == Some(rewards),
            Err(error) => error == StakingError::MathOverflow && pending_rewards(
                *user_stake,
                *pool,
                current_time,
            ) is None,
        },
{
    if user_stake.amount == 0 || user_stake.last_update_time == 0 {
        return Ok(0);
    }
    let seconds: u64 = match elapsed_seconds(user_stake.last_update_time, current_time) {
        Some(seconds) => seconds,
        None => {
            return Err(StakingError::MathOverflow);
        },
    };
    let days_elapsed: u64 = seconds / 86_400;
    match mul_mul_div(user_stake.amount, pool.reward_rate_per_day, days_elapsed, BASIS_POINTS) {
        Some(rewards) => Ok(rewards),
        None => Err(StakingError::MathOverflow),
    }
}

/// The rewards that the staker is owed at `now`: those counted before and
/// those earned since; none where they do not fit.
pub open spec fn total_pending(user: UserStake, pool: StakingPool, now: i64) -> Option<u64> {
    match pending_rewards(user, pool, now) {
        Some(earned) => if user.pending_rewards + earned <= u64::MAX {
            Some((user.pending_rewards + earned) as u64)
        } else {
            None
        },
        None => None,
    }
}

fn compute_total_pending(user: &UserStake, pool: &StakingPool, now: i64) -> (total: Option<u64>)
    ensures
        total == total_pending(*user, *pool, now),
{
    match calculate_pending_rewards(user, pool, now) {
        Ok(earned) => user.pending_rewards.checked_add(earned),
        Err(_) => None,
    }
}

/// Whether the accounts handed to a stake belong together: the vault and the
/// staker's token account hold the pool's token, and the token account is
/// the staker's.
pub open spec fn stake_accounts_match(ctx: Stake) -> bool {
    &&& ctx.stake_vault.data.mint == ctx.staking_pool.data.aura_mint
    &&& ctx.user_token_account.data.mint == ctx.staking_pool.data.aura_mint
    &&& ctx.user_token_account.data.owner == ctx.user.key
}

/// The records after `amount` was staked at `now`; none where a step of the
/// arithmetic does not fit.
pub open spec fn staked(ctx: Stake, amount: u64, now: i64) -> Option<(StakingPool, UserStake)> {
    let pool = ctx.staking_pool.data;
    let user = ctx.user_stake.data;
    match total_pending(user, pool, now) {
        Some(pending) => {
            if user.amount + amount > u64::MAX || pool.total_staked + amount > u64::MAX {
                None
            } else {
                Some(
                    (
                        StakingPool { total_staked: (pool.total_staked + amount) as u64, ..pool },
                        UserStake {
                            owner: ctx.user.key,
                            amount: (user.amount + amount) as u64,
                            pending_rewards: pending,
                            last_update_time: now,
                            stake_start_time: if user.stake_start_time == 0 {
                                now
                            } else {
                                user.stake_start_time
                            },
                            ..user
                        },
                    ),
                )
            }
        },
        None => None,
    }
}

/// The first reason for which staking `amount` is refused; none where it is
/// accepted.
pub open spec fn stake_rejection(ctx: Stake, amount: u64, clock: Clock) -> Option<StakingError> {
    if !stake_accounts_match(ctx) {
        Some(StakingError::Unauthorized)
    } else if amount == 0 {
        Some(StakingError::InvalidAmount)
    } else if ctx.staking_pool.data.paused {
        Some(StakingError::PoolPaused)
    } else if staked(ctx, amount, clock.unix_timestamp) is None {
        Some(StakingError::MathOverflow)
    } else {
        None
    }
}

/// The accounts after `amount` was staked.
pub open spec fn stake_accounts(ctx: Stake, amount: u64, clock: Clock) -> Stake {
    let (pool, user) = staked(ctx, amount, clock.unix_timestamp).unwrap();
    Stake {
        staking_pool: Account { data: pool, ..ctx.staking_pool },
        user_stake: Account { data: user, ..ctx.user_stake },
        ..ctx
    }
}

/// Stakes `amount` for the signing user, after the rewards earned so far
/// were counted. Returns the tokens to move for it: `amount` from the
/// staker's token account into the stake vault.
pub fn stake(ctx: &mut Stake, amount: u64, clock: Clock) -> (result: Result<Transfer, StakingError>)
    ensures
        match result {
            Ok(transfer) => {
                &&& stake_rejection(*old(ctx), amount, clock) is None
                &&& *final(ctx) == stake_accounts(*old(ctx), amount, clock)
                &&& transfer == (Transfer {
                    from: old(ctx).user_token_account.key,
                    to: old(ctx).stake_vault.key,
                    authority: old(ctx).user.key,
                    amount,
                })
            },
            Err(error) => {
                &&& stake_rejection(*old(ctx), amount, clock) == Some(error)
                &&& *final(ctx) == *old(ctx)
            },
        },
{
    let pool = ctx.staking_pool.data;
    let user = ctx.user_stake.data;
    let now = clock.unix_timestamp;
    if ctx.stake_vault.data.mint != pool.aura_mint || ctx.user_token_account.data.mint
        != pool.aura_mint || ctx.user_token_account.data.owner != ctx.user.key {
        return Err(StakingError::Unauthorized);
    }
    if amount == 0 {
        return Err(StakingError::InvalidAmount);
    }
    if pool.paused {
        return Err(StakingError::PoolPaused);
    }
    let pending: u64 = match compute_total_pending(&user, &pool, now) {
        Some(pending) => pending,
        None => {
            return Err(StakingError::MathOverflow);
        },
    };
    let new_amount: u64 = match user.amount.checked_add(amount) {
        Some(sum) => sum,
        None => {
            return Err(StakingError::MathOverflow);
        },
    };
    let new_total: u64 = match pool.total_staked.checked_add(amount) {
        Some(sum) => sum,
        None => {
            return Err(StakingError::MathOverflow);
        },
    };
    ctx.staking_pool.data = StakingPool { total_staked: new_total, ..pool };
    ctx.user_stake.data = UserStake {
        owner: ctx.user.key,
        amount: new_amount,
        pending_rewards: pending,
        last_update_time: now,
        stake_start_time: if user.stake_start_time == 0 {
            now
        } else {
            user.stake_start_time
        },
        ..user
    };
    Ok(
        Transfer {
            from: ctx.user_token_account.key,
            to: ctx.stake_vault.key,
            authority: ctx.user.key,
            amount,
        },
    )
}

/// Whether the accounts handed to an unstake belong together: the record is
/// the staker's, and so is the token account, which holds the pool's token.
pub open spec fn unstake_accounts_match(ctx: Unstake) -> bool {
    &&& ctx.user_stake.data.owner == ctx.user.key
    &&& ctx.user_token_account.data.mint == ctx.staking_pool.data.aura_mint
    &&& ctx.user_token_account.data.owner == ctx.user.key
}

/// Whether a stake begun at `stake_start_time` is unstaked early at `now`.
pub open spec fn is_early_unstake(stake_start_time: i64, now: i64) -> bool {
    now - stake_start_time < EARLY_UNSTAKE_DAYS * SECONDS_PER_DAY
}

/// What an unstake settles to.
pub struct Unstaked {
    pub pool: StakingPool,
    pub user: UserStake,
    /// Withheld from the amount; it stays in the stake vault.
    pub fee: u64,
    /// The part of the rewards given up for leaving early.
    pub penalty: u64,
    /// The rewards paid out.
    pub rewards: u64,
}

/// The records after `amount` was unstaked at `now`, with the fee, the
/// penalty and the rewards paid; none where the staker or the pool holds
/// less than `amount`, or a step of the arithmetic does not fit.
pub open spec fn unstaked(pool: StakingPool, user: UserStake, amount: u64, now: i64) -> Option<
    Unstaked,
> {
    match total_pending(user, pool, now) {
        Some(pending) => {
            let fee = ((amount * UNSTAKE_FEE_PERCENT) / (BASIS_POINTS as int)) as u64;
            let penalty = if is_early_unstake(user.stake_start_time, now) {
                ((pending * EARLY_UNSTAKE_PENALTY_PERCENT) / 100) as u64
            } else {
                0
            };
            let rewards = (pending - penalty) as u64;
            if user.amount < amount || pool.total_staked < amount || now - user.stake_start_time
                > i64::MAX || now - user.stake_start_time < i64::MIN
                || user.total_rewards_claimed + rewards > u64::MAX
                || pool.total_rewards_distributed + rewards > u64::MAX {
                None
            } else {
                Some(
                    Unstaked {
                        pool: StakingPool {
                            total_staked: (pool.total_staked - amount) as u64,
                            total_rewards_distributed: (pool.total_rewards_distributed
                                + rewards) as u64,
                            ..pool
                        },
                        user: UserStake {
                            amount: (user.amount - amount) as u64,
                            pending_rewards: 0,
                            total_rewards_claimed: (user.total_rewards_claimed + rewards) as u64,
                            last_update_time: now,
                            stake_start_time: if user.amount == amount {
                                0
                            } else {
                                user.stake_start_time
                            },
                            ..user
                        },
                        fee,
                        penalty,
                        rewards,
                    },
                )
            }
        },
        None => None,
    }
}

/// The first reason for which unstaking `amount` is refused; none where it
/// is accepted.
pub open spec fn unstake_rejection(ctx: Unstake, amount: u64, clock: Clock) -> Option<
    StakingError,
> {
    if !unstake_accounts_match(ctx) {
        Some(StakingError::Unauthorized)
    } else if amount == 0 {
        Some(StakingError::InvalidAmount)
    } else if ctx.staking_pool.data.paused {
        Some(StakingError::PoolPaused)
    } else if ctx.user_stake.data.amount < amount {
        Some(StakingError::InsufficientStake)
    } else if unstaked(ctx.staking_pool.data, ctx.user_stake.data, amount, clock.unix_timestamp)
        is None {
        Some(StakingError::MathOverflow)
    } else {
        None
    }
}

/// The accounts after `amount` was unstaked.
pub open spec fn unstake_accounts(ctx: Unstake, amount: u64, clock: Clock) -> Unstake {
    let settled = unstaked(
        ctx.staking_pool.data,
        ctx.user_stake.data,
        amount,
        clock.unix_timestamp,
    ).unwrap();
    Unstake {
        staking_pool: Account { data: settled.pool, ..ctx.staking_pool },
        user_stake: Account { data: settled.user, ..ctx.user_stake },
        ..ctx
    }
}

/// The tokens to move for an accepted unstake: the amount less the fee out
/// of the stake vault, and the rewards, if any, out of the reward vault;
/// each vault is its own authority.
pub open spec fn unstake_transfers(ctx: Unstake, amount: u64, clock: Clock) -> (
    Transfer,
    Option<Transfer>,
) {
    let settled = unstaked(
        ctx.staking_pool.data,
        ctx.user_stake.data,
        amount,
        clock.unix_timestamp,
    ).unwrap();
    (
        Transfer {
            from: ctx.stake_vault.key,
            to: ctx.user_token_account.key,
            authority: ctx.stake_vault.key,
            amount: (amount - settled.fee) as u64,
        },
        if settled.rewards > 0 {
            Some(
                Transfer {
                    from: ctx.reward_vault.key,
                    to: ctx.user_token_account.key,
                    authority: ctx.reward_vault.key,
                    amount: settled.rewards,
                },
            )
        } else {
            None
        },
    )
}

/// Takes `amount` out of the signing user's stake and pays out the rewards
/// owed, less the fee on the amount and, within the first thirty days, the
/// penalty on the rewards.
pub fn unstake(ctx: &mut Unstake, amount: u64, clock: Clock) -> (result: Result<
    (Transfer, Option<Transfer>),
    StakingError,
>)
    ensures
        match result {
            Ok(transfers) => {
                &&& unstake_rejection(*old(ctx), amount, clock) is None
                &&& *final(ctx) == unstake_accounts(*old(ctx), amount, clock)
                &&& transfers == unstake_transfers(*old(ctx), amount, clock)
            },
            Err(error) => {
                &&& unstake_rejection(*old(ctx), amount, clock) == Some(error)
                &&& *final(ctx) == *old(ctx)
            },
        },
{
    let pool = ctx.staking_pool.data;
    let user = ctx.user_stake.data;
    let now = clock.unix_timestamp;
    if user.owner != ctx.user.key || ctx.user_token_account.data.mint != pool.aura_mint
        || ctx.user_token_account.data.owner != ctx.user.key {
        return Err(StakingError::Unauthorized);
    }
    if amount == 0 {
        return Err(StakingError::InvalidAmount);
    }
    if pool.paused {
        return Err(StakingError::PoolPaused);
    }
    if user.amount < amount {
        return Err(StakingError::InsufficientStake);
    }
    let pending: u64 = match compute_total_pending(&user, &pool, now) {
        Some(pending) => pending,
        None => {
            return Err(StakingError::MathOverflow);
        },
    };
    let held: i64 = match now.checked_sub(user.stake_start_time) {
        Some(held) => held,
        None => {
            return Err(StakingError::MathOverflow);
        },
    };
    let is_early: bool = held < EARLY_UNSTAKE_DAYS * SECONDS_PER_DAY;
    let fee: u64 = fraction_of(amount, UNSTAKE_FEE_PERCENT, BASIS_POINTS);
    let penalty: u64 = if is_early {
        fraction_of(pending, EARLY_UNSTAKE_PENALTY_PERCENT, 100)
    } else {
        0
    };
    let rewards: u64 = pending - penalty;
    let new_total: u64 = match pool.total_staked.checked_sub(amount) {
        Some(rest) => rest,
        None => {
            return Err(StakingError::MathOverflow);
        },
    };
    let claimed: u64 = match user.total_rewards_claimed.checked_add(rewards) {
        Some(sum) => sum,
        None => {
            return Err(StakingError::MathOverflow);
        },
    };
    let distributed: u64 = match pool.total_rewards_distributed.checked_add(rewards) {
        Some(sum) => sum,
        None => {
            return Err(StakingError::MathOverflow);
        },
    };
    let remaining: u64 = user.amount - amount;
    ctx.staking_pool.data = StakingPool {
        total_staked: new_total,
        total_rewards_distributed: distributed,
        ..pool
    };
    ctx.user_stake.data = UserStake {
        amount: remaining,
        pending_rewards: 0,
        total_rewards_claimed: claimed,
        last_update_time: now,
        stake_start_time: if remaining == 0 {
            0
        } else {
            user.stake_start_time
        },
        ..user
    };
    let payout: Option<Transfer> = if rewards > 0 {
        Some(
            Transfer {
                from: ctx.reward_vault.key,
                to: ctx.user_token_account.key,
                authority: ctx.reward_vault.key,
                amount: rewards,
            },
        )
    } else {
        None
    };
    Ok(
        (
            Transfer {
                from: ctx.stake_vault.key,
                to: ctx.user_token_account.key,
                authority: ctx.stake_vault.key,
                amount: amount - fee,
            },
            payout,
        ),
    )
}

/// Whether the accounts handed to a claim belong together.
pub open spec fn claim_accounts_match(ctx: ClaimRewards) -> bool {
    &&& ctx.user_stake.data.owner == ctx.user.key
    &&& ctx.user_token_account.data.mint == ctx.staking_pool.data.aura_mint
    &&& ctx.user_token_account.data.owner == ctx.user.key
}

/// The records after the rewards owed at `now` were claimed, and the
/// rewards; none where a step of the arithmetic does not fit.
pub open spec fn claimed(pool: StakingPool, user: UserStake, now: i64) -> Option<
    (StakingPool, UserStake, u64),
> {
    match total_pending(user, pool, now) {
        Some(rewards) => {
            if user.total_rewards_claimed + rewards > u64::MAX || pool.total_rewards_distributed
                + rewards > u64::MAX {
                None
            } else {
                Some(
                    (
                        StakingPool {
                            total_rewards_distributed: (pool.total_rewards_distributed
                                + rewards) as u64,
                            ..pool
                        },
                        UserStake {
                            pending_rewards: 0,
                            total_rewards_claimed: (user.total_rewards_claimed + rewards) as u64,
                            last_update_time: now,
                            ..user
                        },
                        rewards,
                    ),
                )
            }
        },
        None => None,
    }
}

/// The first reason for which a claim is refused; none where it is accepted.
pub open spec fn claim_rewards_rejection(ctx: ClaimRewards, clock: Clock) -> Option<StakingError> {
    let pool = ctx.staking_pool.data;
    let user = ctx.user_stake.data;
    if !claim_accounts_match(ctx) {
        Some(StakingError::Unauthorized)
    } else if pool.paused {
        Some(StakingError::PoolPaused)
    } else if user.amount == 0 {
        Some(StakingError::NoActiveStake)
    } else if total_pending(user, pool, clock.unix_timestamp) is None {
        Some(StakingError::MathOverflow)
    } else if total_pending(user, pool, clock.unix_timestamp) == Some(0u64) {
        Some(StakingError::NoRewardsToClaim)
    } else if claimed(pool, user, clock.unix_timestamp) is None {
        Some(StakingError::MathOverflow)
    } else {
        None
    }
}

/// The accounts after the rewards were claimed.
pub open spec fn claim_rewards_accounts(ctx: ClaimRewards, clock: Clock) -> ClaimRewards {
    let settled = claimed(ctx.staking_pool.data, ctx.user_stake.data, clock.unix_timestamp).unwrap();
    ClaimRewards {
        staking_pool: Account { data: settled.0, ..ctx.staking_pool },
        user_stake: Account { data: settled.1, ..ctx.user_stake },
        ..ctx
    }
}

/// Pays the signing staker the rewards owed, leaving the stake as it is.
/// Returns the tokens to move for it, out of the reward vault, which is its
/// own authority.
pub fn claim_rewards(ctx: &mut ClaimRewards, clock: Clock) -> (result: Result<
    Transfer,
    StakingError,
>)
    ensures
        match result {
            Ok(transfer) => {
                &&& claim_rewards_rejection(*old(ctx), clock) is None
                &&& *final(ctx) == claim_rewards_accounts(*old(ctx), clock)
                &&& transfer == (Transfer {
                    from: old(ctx).reward_vault.key,
                    to: old(ctx).user_token_account.key,
                    authority: old(ctx).reward_vault.key,
                    amount: claimed(
                        old(ctx).staking_pool.data,
                        old(ctx).user_stake.data,
                        clock.unix_timestamp,
                    ).unwrap().2,
                })
            },
            Err(error) => {
                &&& claim_rewards_rejection(*old(ctx), clock) == Some(error)
                &&& *final(ctx) == *old(ctx)
            },
        },
{
    let pool = ctx.staking_pool.data;
    let user = ctx.user_stake.data;
    let now = clock.unix_timestamp;
    if user.owner != ctx.user.key || ctx.user_token_account.data.mint != pool.aura_mint
        || ctx.user_token_account.data.owner != ctx.user.key {
        return Err(StakingError::Unauthorized);
    }
    if pool.paused {
        return Err(StakingError::PoolPaused);
    }
    if user.amount == 0 {
        return Err(StakingError::NoActiveStake);
    }
    let rewards: u64 = match compute_total_pending(&user, &pool, now) {
        Some(rewards) => rewards,
        None => {
            return Err(StakingError::MathOverflow);
        },
    };
    if rewards == 0 {
        return Err(StakingError::NoRewardsToClaim);
    }
    let claimed_total: u64 = match user.total_rewards_claimed.checked_add(rewards) {
        Some(sum) => sum,
        None => {
            return Err(StakingError::MathOverflow);
        },
    };
    let distributed: u64 = match pool.total_rewards_distributed.checked_add(rewards) {
        Some(sum) => sum,
        None => {
            return Err(StakingError::MathOverflow);
        },
    };
    ctx.staking_pool.data = StakingPool { total_rewards_distributed: distributed, ..pool };
    ctx.user_stake.data = UserStake {
        pending_rewards: 0,
        total_rewards_claimed: claimed_total,
        last_update_time: now,
        ..user
    };
    Ok(
        Transfer {
            from: ctx.reward_vault.key,
            to: ctx.user_token_account.key,
            authority: ctx.reward_vault.key,
            amount: rewards,
        },
    )
}

} // verus!
