//! What the pool's authority may do: set the pool up, fund the rewards,
//! withdraw in an emergency, change the rate, and pause.

use vstd::prelude::*;
use crate::accounts::Account;
use crate::accounts::Clock;
use crate::accounts::Transfer;
use crate::aura_staking::contexts::AdminWithdrawRewards;
use crate::aura_staking::contexts::AdminWithdrawStake;
use crate::aura_staking::contexts::DepositRewards;
use crate::aura_staking::contexts::InitializePool;
use crate::aura_staking::contexts::SetPoolStatus;
use crate::aura_staking::contexts::UpdateRewardRate;
use crate::aura_staking::state::StakingError;
use crate::aura_staking::state::StakingPool;
use crate::pubkey::Pubkey;

verus! {

/// The accounts after the pool was set up: nothing staked, nothing paid,
/// not paused.
pub open spec fn initialize_pool_accounts(
    ctx: InitializePool,
    authority: Pubkey,
    reward_rate_per_day: u64,
    clock: Clock,
) -> InitializePool {
    InitializePool {
        staking_pool: Account {
            data: StakingPool {
                authority,
                aura_mint: ctx.aura_mint,
                total_staked: 0,
                reward_rate_per_day,
                bump: ctx.bumps.staking_pool,
                vault_bump: ctx.bumps.stake_vault,
                reward_vault_bump: ctx.bumps.reward_vault,
                total_rewards_distributed: 0,
                created_at: clock.unix_timestamp,
                paused: false,
            },
            ..ctx.staking_pool
        },
        ..ctx
    }
}

/// Sets the pool's record up, under the given authority and daily rate.
pub fn initialize_pool(
    ctx: &mut InitializePool,
    authority: Pubkey,
    reward_rate_per_day: u64,
    clock: Clock,
)
    ensures
        *final(ctx) == initialize_pool_accounts(*old(ctx), authority, reward_rate_per_day, clock),
{
    ctx.staking_pool.data = StakingPool {
        authority,
        aura_mint: ctx.aura_mint,
        total_staked: 0,
        reward_rate_per_day,
        bump: ctx.bumps.staking_pool,
        vault_bump: ctx.bumps.stake_vault,
        reward_vault_bump: ctx.bumps.reward_vault,
        total_rewards_distributed: 0,
        created_at: clock.unix_timestamp,
        paused: false,
    };
}

/// The first reason for which a deposit of rewards is refused; none where
/// it is accepted.
pub open spec fn deposit_rewards_rejection(ctx: DepositRewards, amount: u64) -> Option<
    StakingError,
> {
    let pool = ctx.staking_pool.data;
    if pool.authority != ctx.admin.key || ctx.admin_token_account.data.mint != pool.aura_mint
        || ctx.admin_token_account.data.owner != ctx.admin.key {
        Some(StakingError::Unauthorized)
    } else if amount == 0 {
        Some(StakingError::InvalidAmount)
    } else {
        None
    }
}

/// Asks for `amount` tokens to be moved from the authority's account into
/// the reward vault. No record changes.
pub fn deposit_rewards(ctx: &DepositRewards, amount: u64) -> (result: Result<
    Transfer,
    StakingError,
>)
    ensures
        match result {
            Ok(transfer) => {
                &&& deposit_rewards_rejection(*ctx, amount) is None
                &&& transfer == (Transfer {
                    from: ctx.admin_token_account.key,
                    to: ctx.reward_vault.key,
                    authority: ctx.admin.key,
                    amount,
                })
            },
            Err(error) => deposit_rewards_rejection(*ctx, amount) == Some(error),
        },
{
    let pool = ctx.staking_pool.data;
    if pool.authority != ctx.admin.key || ctx.admin_token_account.data.mint != pool.aura_mint
        || ctx.admin_token_account.data.owner != ctx.admin.key {
        return Err(StakingError::Unauthorized);
    }
    if amount == 0 {
        return Err(StakingError::InvalidAmount);
    }
    Ok(
        Transfer {
            from: ctx.admin_token_account.key,
            to: ctx.reward_vault.key,
            authority: ctx.admin.key,
            amount,
        },
    )
}

/// The first reason for which an emergency withdrawal of staked tokens is
/// refused; none where it is accepted.
pub open spec fn admin_withdraw_stake_rejection(ctx: AdminWithdrawStake, amount: u64) -> Option<
    StakingError,
> {
    let pool = ctx.staking_pool.data;
    if pool.authority != ctx.admin.key || ctx.admin_token_account.data.mint != pool.aura_mint
        || ctx.admin_token_account.data.owner != ctx.admin.key {
        Some(StakingError::Unauthorized)
    } else if amount == 0 {
        Some(StakingError::InvalidAmount)
    } else {
        None
    }
}

/// The accounts after `amount` staked tokens were withdrawn: the staked
/// total follows, down to zero.
pub open spec fn admin_withdraw_stake_accounts(
    ctx: AdminWithdrawStake,
    amount: u64,
) -> AdminWithdrawStake {
    let pool = ctx.staking_pool.data;
    AdminWithdrawStake {
        staking_pool: Account {
            data: StakingPool {
                total_staked: if pool.total_staked >= amount {
                    (pool.total_staked - amount) as u64
                } else {
                    0
                },
                ..pool
            },
            ..ctx.staking_pool
        },
        ..ctx
    }
}

/// Asks for `amount` staked tokens to be moved from the stake vault, which
/// is its own authority, to the authority's account.
pub fn admin_withdraw_stake(ctx: &mut AdminWithdrawStake, amount: u64) -> (result: Result<
    Transfer,
    StakingError,
>)
    ensures
        match result {
            Ok(transfer) => {
                &&& admin_withdraw_stake_rejection(*old(ctx), amount) is None
                &&& *final(ctx) == admin_withdraw_stake_accounts(*old(ctx), amount)
                &&& transfer == (Transfer {
                    from: old(ctx).stake_vault.key,
                    to: old(ctx).admin_token_account.key,
                    authority: old(ctx).stake_vault.key,
                    amount,
                })
            },
            Err(error) => {
                &&& admin_withdraw_stake_rejection(*old(ctx), amount) == Some(error)
                &&& *final(ctx) == *old(ctx)
            },
        },
{
    let pool = ctx.staking_pool.data;
    if pool.authority != ctx.admin.key || ctx.admin_token_account.data.mint != pool.aura_mint
        || ctx.admin_token_account.data.owner != ctx.admin.key {
        return Err(StakingError::Unauthorized);
    }
    if amount == 0 {
        return Err(StakingError::InvalidAmount);
    }
    ctx.staking_pool.data = StakingPool {
        total_staked: pool.total_staked.saturating_sub(amount),
        ..pool
    };
    Ok(
        Transfer {
            from: ctx.stake_vault.key,
            to: ctx.admin_token_account.key,
            authority: ctx.stake_vault.key,
            amount,
        },
    )
}

/// The first reason for which an emergency withdrawal of rewards is
/// refused; none where it is accepted.
pub open spec fn admin_withdraw_rewards_rejection(
    ctx: AdminWithdrawRewards,
    amount: u64,
) -> Option<StakingError> {
    let pool = ctx.staking_pool.data;
    if pool.authority != ctx.admin.key || ctx.admin_token_account.data.mint != pool.aura_mint
        || ctx.admin_token_account.data.owner != ctx.admin.key {
        Some(StakingError::Unauthorized)
    } else if amount == 0 {
        Some(StakingError::InvalidAmount)
    } else {
        None
    }
}

/// Asks for `amount` tokens to be moved from the reward vault, which is its
/// own authority, to the authority's account. No record changes.
pub fn admin_withdraw_rewards(ctx: &AdminWithdrawRewards, amount: u64) -> (result: Result<
    Transfer,
    StakingError,
>)
    ensures
        match result {
            Ok(transfer) => {
                &&& admin_withdraw_rewards_rejection(*ctx, amount) is None
                &&& transfer == (Transfer {
                    from: ctx.reward_vault.key,
                    to: ctx.admin_token_account.key,
                    authority: ctx.reward_vault.key,
                    amount,
                })
            },
            Err(error) => admin_withdraw_rewards_rejection(*ctx, amount) == Some(error),
        },
{
    let pool = ctx.staking_pool.data;
    if pool.authority != ctx.admin.key || ctx.admin_token_account.data.mint != pool.aura_mint
        || ctx.admin_token_account.data.owner != ctx.admin.key {
        return Err(StakingError::Unauthorized);
    }
    if amount == 0 {
        return Err(StakingError::InvalidAmount);
    }
    Ok(
        Transfer {
            from: ctx.reward_vault.key,
            to: ctx.admin_token_account.key,
            authority: ctx.reward_vault.key,
            amount,
        },
    )
}

/// Sets the pool's daily rate, where the pool's authority asks for it.
pub fn update_reward_rate(ctx: &mut UpdateRewardRate, new_rate: u64) -> (result: Result<
    (),
    StakingError,
>)
    ensures
        match result {
            Ok(_) => {
                &&& old(ctx).staking_pool.data.authority == old(ctx).admin.key
                &&& *final(ctx) == (UpdateRewardRate {
                    staking_pool: Account {
                        data: StakingPool {
                            reward_rate_per_day: new_rate,
                            ..old(ctx).staking_pool.data
                        },
                        ..old(ctx).staking_pool
                    },
                    ..*old(ctx)
                })
            },
            Err(error) => {
                &&& error == StakingError::Unauthorized
                &&& old(ctx).staking_pool.data.authority != old(ctx).admin.key
                &&& *final(ctx) == *old(ctx)
            },
        },
{
    let pool = ctx.staking_pool.data;
    if pool.authority != ctx.admin.key {
        return Err(StakingError::Unauthorized);
    }
    ctx.staking_pool.data = StakingPool { reward_rate_per_day: new_rate, ..pool };
    Ok(())
}

/// Pauses the pool or lifts the pause, where the pool's authority asks for it.
pub fn set_pool_status(ctx: &mut SetPoolStatus, paused: bool) -> (result: Result<(), StakingError>)
    ensures
        match result {
            Ok(_) => {
                &&& old(ctx).staking_pool.data.authority == old(ctx).admin.key
                &&& *final(ctx) == (SetPoolStatus {
                    staking_pool: Account {
                        data: StakingPool { paused, ..old(ctx).staking_pool.data },
                        ..old(ctx).staking_pool
                    },
                    ..*old(ctx)
                })
            },
            Err(error) => {
                &&& error == StakingError::Unauthorized
                &&& old(ctx).staking_pool.data.authority != old(ctx).admin.key
                &&& *final(ctx) == *old(ctx)
            },
        },
{
    let pool = ctx.staking_pool.data;
    if pool.authority != ctx.admin.key {
        return Err(StakingError::Unauthorized);
    }
    ctx.staking_pool.data = StakingPool { paused, ..pool };
    Ok(())
}

} // verus!
