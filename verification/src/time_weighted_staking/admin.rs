//! What the pool's authority may do besides running the distribution cycle:
//! set the pool up, pause it, hand it over, and withdraw in an emergency.

use vstd::prelude::*;
use crate::accounts::Account;
use crate::accounts::Clock;
use crate::accounts::Signer;
use crate::accounts::Transfer;
use crate::pubkey::Pubkey;
use crate::time_weighted_staking::contexts::AdminWithdrawSol;
use crate::time_weighted_staking::contexts::AdminWithdrawSpl;
use crate::time_weighted_staking::contexts::AdminWithdrawStakeTokens;
use crate::time_weighted_staking::contexts::InitializePool;
use crate::time_weighted_staking::contexts::PausePool;
use crate::time_weighted_staking::contexts::TransferAuthority;
use crate::time_weighted_staking::contexts::UnpausePool;
use crate::time_weighted_staking::error::StakingError;
use crate::time_weighted_staking::events::AuthorityTransferred;
use crate::time_weighted_staking::events::PoolPaused;
use crate::time_weighted_staking::events::PoolUnpaused;
use crate::time_weighted_staking::state::Phase;
use crate::time_weighted_staking::state::StakingPool;

verus! {

/// A new pool for the token `stake_token_mint`: nothing staked, no epoch
/// started, not paused.
pub open spec fn new_pool(
    authority: Pubkey,
    stake_token_mint: Pubkey,
    bump: u8,
    vault_bump: u8,
    clock: Clock,
) -> StakingPool {
    StakingPool {
        authority,
        stake_token_mint,
        total_staked: 0,
        total_weighted_stake: 0,
        last_reward_distribution: clock.unix_timestamp,
        epoch_started_at: clock.unix_timestamp,
        bump,
        vault_bump,
        sol_rewards_available: 0,
        sol_rewards_at_stop: 0,
        sol_rewards_unclaimed: 0,
        distribution_active: false,
        distribution_ended: false,
        current_distribution_epoch: 0,
        global_sequence: clock.slot,
        paused: false,
        created_at: clock.unix_timestamp,
        total_fees_collected: 0,
    }
}

/// Sets the pool's record up, under the given authority.
pub fn initialize_pool(
    ctx: &mut InitializePool,
    authority: Pubkey,
    bump: u8,
    vault_bump: u8,
    clock: Clock,
)
    ensures
        *final(ctx) == (InitializePool {
            staking_pool: Account {
                data: new_pool(authority, old(ctx).stake_token_mint, bump, vault_bump, clock),
                ..old(ctx).staking_pool
            },
            ..*old(ctx)
        }),
        final(ctx).staking_pool.data.wf(),
        final(ctx).staking_pool.data.spec_phase() == Phase::Inactive,
{
    ctx.staking_pool.data = StakingPool {
        authority,
        stake_token_mint: ctx.stake_token_mint,
        total_staked: 0,
        total_weighted_stake: 0,
        last_reward_distribution: clock.unix_timestamp,
        epoch_started_at: clock.unix_timestamp,
        bump,
        vault_bump,
        sol_rewards_available: 0,
        sol_rewards_at_stop: 0,
        sol_rewards_unclaimed: 0,
        distribution_active: false,
        distribution_ended: false,
        current_distribution_epoch: 0,
        global_sequence: clock.slot,
        paused: false,
        created_at: clock.unix_timestamp,
        total_fees_collected: 0,
    };
}

/// The first reason for which pausing is refused; none where it is accepted.
pub open spec fn pause_pool_rejection(ctx: PausePool) -> Option<StakingError> {
    if ctx.staking_pool.data.authority != ctx.authority.key {
        Some(StakingError::Unauthorized)
    } else if ctx.staking_pool.data.paused {
        Some(StakingError::AlreadyPaused)
    } else {
        None
    }
}

/// The accounts after the pool was paused.
pub open spec fn pause_pool_accounts(ctx: PausePool, clock: Clock) -> PausePool {
    PausePool {
        staking_pool: Account {
            data: StakingPool { paused: true, global_sequence: clock.slot, ..ctx.staking_pool.data },
            ..ctx.staking_pool
        },
        ..ctx
    }
}

/// Pauses a pool that is not paused.
pub fn pause_pool(ctx: &mut PausePool, clock: Clock) -> (result: Result<PoolPaused, StakingError>)
    ensures
        match result {
            Ok(event) => {
                &&& pause_pool_rejection(*old(ctx)) is None
                &&& *final(ctx) == pause_pool_accounts(*old(ctx), clock)
                &&& event == (PoolPaused {
                    pool: old(ctx).staking_pool.key,
                    authority: old(ctx).authority.key,
                    timestamp: clock.unix_timestamp,
                })
            },
            Err(error) => {
                &&& pause_pool_rejection(*old(ctx)) == Some(error)
                &&& *final(ctx) == *old(ctx)
            },
        },
{
    let pool = ctx.staking_pool.data;
    if pool.authority != ctx.authority.key {
        return Err(StakingError::Unauthorized);
    }
    if pool.paused {
        return Err(StakingError::AlreadyPaused);
    }
    ctx.staking_pool.data = StakingPool { paused: true, global_sequence: clock.slot, ..pool };
    Ok(
        PoolPaused {
            pool: ctx.staking_pool.key,
            authority: ctx.authority.key,
            timestamp: clock.unix_timestamp,
        },
    )
}

/// The first reason for which unpausing is refused; none where it is accepted.
pub open spec fn unpause_pool_rejection(ctx: UnpausePool) -> Option<StakingError> {
    if ctx.staking_pool.data.authority != ctx.authority.key {
        Some(StakingError::Unauthorized)
    } else if !ctx.staking_pool.data.paused {
        Some(StakingError::NotPaused)
    } else {
        None
    }
}

/// The accounts after the pause was lifted.
pub open spec fn unpause_pool_accounts(ctx: UnpausePool, clock: Clock) -> UnpausePool {
    UnpausePool {
        staking_pool: Account {
            data: StakingPool {
                paused: false,
                global_sequence: clock.slot,
                ..ctx.staking_pool.data
            },
            ..ctx.staking_pool
        },
        ..ctx
    }
}

/// Lifts the pause of a paused pool.
pub fn unpause_pool(ctx: &mut UnpausePool, clock: Clock) -> (result: Result<
    PoolUnpaused,
    StakingError,
>)
    ensures
        match result {
            Ok(event) => {
                &&& unpause_pool_rejection(*old(ctx)) is None
                &&& *final(ctx) == unpause_pool_accounts(*old(ctx), clock)
                &&& event == (PoolUnpaused {
                    pool: old(ctx).staking_pool.key,
                    authority: old(ctx).authority.key,
                    timestamp: clock.unix_timestamp,
                })
            },
            Err(error) => {
                &&& unpause_pool_rejection(*old(ctx)) == Some(error)
                &&& *final(ctx) == *old(ctx)
            },
        },
{
    let pool = ctx.staking_pool.data;
    if pool.authority != ctx.authority.key {
        return Err(StakingError::Unauthorized);
    }
    if !pool.paused {
        return Err(StakingError::NotPaused);
    }
    ctx.staking_pool.data = StakingPool { paused: false, global_sequence: clock.slot, ..pool };
    Ok(
        PoolUnpaused {
            pool: ctx.staking_pool.key,
            authority: ctx.authority.key,
            timestamp: clock.unix_timestamp,
        },
    )
}

/// The first reason for which handing the pool to `new_authority` is
/// refused; none where it is accepted.
pub open spec fn transfer_authority_rejection(
    ctx: TransferAuthority,
    new_authority: Pubkey,
) -> Option<StakingError> {
    if ctx.staking_pool.data.authority != ctx.admin.key {
        Some(StakingError::Unauthorized)
    } else if new_authority.is_zero() {
        Some(StakingError::InvalidAuthority)
    } else if new_authority == ctx.staking_pool.data.authority {
        Some(StakingError::SameAuthority)
    } else {
        None
    }
}

/// The accounts after the pool was handed over.
pub open spec fn transfer_authority_accounts(
    ctx: TransferAuthority,
    new_authority: Pubkey,
    clock: Clock,
) -> TransferAuthority {
    TransferAuthority {
        staking_pool: Account {
            data: StakingPool {
                authority: new_authority,
                global_sequence: clock.slot,
                ..ctx.staking_pool.data
            },
            ..ctx.staking_pool
        },
        ..ctx
    }
}

/// Hands the pool over to `new_authority`, which must name an account and
/// differ from the present authority.
pub fn transfer_authority(ctx: &mut TransferAuthority, new_authority: Pubkey, clock: Clock) -> (result:
    Result<AuthorityTransferred, StakingError>)
    ensures
        match result {
            Ok(event) => {
                &&& transfer_authority_rejection(*old(ctx), new_authority) is None
                &&& *final(ctx) == transfer_authority_accounts(*old(ctx), new_authority, clock)
                &&& event == (AuthorityTransferred {
                    pool: old(ctx).staking_pool.key,
                    old_authority: old(ctx).staking_pool.data.authority,
                    new_authority,
                    timestamp: clock.unix_timestamp,
                })
            },
            Err(error) => {
                &&& transfer_authority_rejection(*old(ctx), new_authority) == Some(error)
                &&& *final(ctx) == *old(ctx)
            },
        },
{
    let pool = ctx.staking_pool.data;
    let old_authority = pool.authority;
    if old_authority != ctx.admin.key {
        return Err(StakingError::Unauthorized);
    }
    if new_authority.is_unset() {
        return Err(StakingError::InvalidAuthority);
    }
    if new_authority == old_authority {
        return Err(StakingError::SameAuthority);
    }
    ctx.staking_pool.data = StakingPool {
        authority: new_authority,
        global_sequence: clock.slot,
        ..pool
    };
    Ok(
        AuthorityTransferred {
            pool: ctx.staking_pool.key,
            old_authority,
            new_authority,
            timestamp: clock.unix_timestamp,
        },
    )
}

/// The first reason for which an emergency withdrawal of native balance is
/// refused; none where it is accepted.
pub open spec fn admin_withdraw_sol_rejection(ctx: AdminWithdrawSol, amount: u64) -> Option<
    StakingError,
> {
    if ctx.staking_pool.data.authority != ctx.admin.key {
        Some(StakingError::Unauthorized)
    } else if amount == 0 {
        Some(StakingError::InvalidAmount)
    } else if ctx.staking_pool.lamports < amount {
        Some(StakingError::InsufficientBalance)
    } else if ctx.admin.lamports + amount > u64::MAX {
        Some(StakingError::MathOverflow)
    } else {
        None
    }
}

/// `booked` less `amount`, and zero where `amount` is the larger: the books
/// follow a withdrawal as far as they can and never fail it.
pub open spec fn reduced(booked: u64, amount: u64) -> u64 {
    if booked >= amount {
        (booked - amount) as u64
    } else {
        0
    }
}

/// The accounts after `amount` of native balance was withdrawn.
pub open spec fn admin_withdraw_sol_accounts(
    ctx: AdminWithdrawSol,
    amount: u64,
    clock: Clock,
) -> AdminWithdrawSol {
    AdminWithdrawSol {
        staking_pool: Account {
            lamports: (ctx.staking_pool.lamports - amount) as u64,
            data: StakingPool {
                sol_rewards_available: reduced(ctx.staking_pool.data.sol_rewards_available, amount),
                global_sequence: clock.slot,
                ..ctx.staking_pool.data
            },
            ..ctx.staking_pool
        },
        admin: Signer { lamports: (ctx.admin.lamports + amount) as u64, ..ctx.admin },
    }
}

/// Moves `amount` of the pool's native balance to the authority. The balance
/// set aside for rewards follows, down to zero.
pub fn admin_withdraw_sol(ctx: &mut AdminWithdrawSol, amount: u64, clock: Clock) -> (result:
    Result<(), StakingError>)
    ensures
        match result {
            Ok(_) => {
                &&& admin_withdraw_sol_rejection(*old(ctx), amount) is None
                &&& *final(ctx) == admin_withdraw_sol_accounts(*old(ctx), amount, clock)
            },
            Err(error) => {
                &&& admin_withdraw_sol_rejection(*old(ctx), amount) == Some(error)
                &&& *final(ctx) == *old(ctx)
            },
        },
{
    let pool = ctx.staking_pool.data;
    if pool.authority != ctx.admin.key {
        return Err(StakingError::Unauthorized);
    }
    if amount == 0 {
        return Err(StakingError::InvalidAmount);
    }
    if ctx.staking_pool.lamports < amount {
        return Err(StakingError::InsufficientBalance);
    }
    let admin_lamports: u64 = match ctx.admin.lamports.checked_add(amount) {
        Some(sum) => sum,
        None => {
            return Err(StakingError::MathOverflow);
        },
    };
    ctx.staking_pool.lamports = ctx.staking_pool.lamports - amount;
    ctx.admin.lamports = admin_lamports;
    ctx.staking_pool.data = StakingPool {
        sol_rewards_available: pool.sol_rewards_available.saturating_sub(amount),
        global_sequence: clock.slot,
        ..pool
    };
    Ok(())
}

/// The first reason for which an emergency withdrawal of a reward token is
/// refused; none where it is accepted.
pub open spec fn admin_withdraw_spl_rejection(ctx: AdminWithdrawSpl, amount: u64) -> Option<
    StakingError,
> {
    if ctx.staking_pool.data.authority != ctx.admin.key {
        Some(StakingError::Unauthorized)
    } else if ctx.admin_token_account.data.mint != ctx.reward_vault.data.mint {
        Some(StakingError::InvalidTokenMint)
    } else if ctx.admin_token_account.data.owner != ctx.admin.key {
        Some(StakingError::Unauthorized)
    } else if amount == 0 {
        Some(StakingError::InvalidAmount)
    } else if ctx.reward_vault.data.amount < amount {
        Some(StakingError::InsufficientBalance)
    } else {
        None
    }
}

/// Asks for `amount` of a reward token to be moved from the pool's vault of
/// that token, which is its own authority, to the authority's account.
/// No record changes.
pub fn admin_withdraw_spl(ctx: &AdminWithdrawSpl, amount: u64) -> (result: Result<
    Transfer,
    StakingError,
>)
    ensures
        match result {
            Ok(transfer) => {
                &&& admin_withdraw_spl_rejection(*ctx, amount) is None
                &&& transfer == (Transfer {
                    from: ctx.reward_vault.key,
                    to: ctx.admin_token_account.key,
                    authority: ctx.reward_vault.key,
                    amount,
                })
            },
            Err(error) => admin_withdraw_spl_rejection(*ctx, amount) == Some(error),
        },
{
    if ctx.staking_pool.data.authority != ctx.admin.key {
        return Err(StakingError::Unauthorized);
    }
    if ctx.admin_token_account.data.mint != ctx.reward_vault.data.mint {
        return Err(StakingError::InvalidTokenMint);
    }
    if ctx.admin_token_account.data.owner != ctx.admin.key {
        return Err(StakingError::Unauthorized);
    }
    if amount == 0 {
        return Err(StakingError::InvalidAmount);
    }
    if ctx.reward_vault.data.amount < amount {
        return Err(StakingError::InsufficientBalance);
    }
    Ok(
        Transfer {
            from: ctx.reward_vault.key,
            to: ctx.admin_token_account.key,
            authority: ctx.reward_vault.key,
            amount,
        },
    )
}

/// The first reason for which an emergency withdrawal of staked tokens is
/// refused; none where it is accepted.
pub open spec fn admin_withdraw_stake_tokens_rejection(
    ctx: AdminWithdrawStakeTokens,
    amount: u64,
) -> Option<StakingError> {
    if ctx.staking_pool.data.authority != ctx.admin.key {
        Some(StakingError::Unauthorized)
    } else if ctx.admin_token_account.data.mint != ctx.staking_pool.data.stake_token_mint {
        Some(StakingError::InvalidTokenMint)
    } else if ctx.admin_token_account.data.owner != ctx.admin.key {
        Some(StakingError::Unauthorized)
    } else if amount == 0 {
        Some(StakingError::InvalidAmount)
    } else if ctx.pool_token_vault.data.amount < amount {
        Some(StakingError::InsufficientBalance)
    } else {
        None
    }
}

/// The accounts after `amount` of the staked token was withdrawn.
pub open spec fn admin_withdraw_stake_tokens_accounts(
    ctx: AdminWithdrawStakeTokens,
    amount: u64,
    clock: Clock,
) -> AdminWithdrawStakeTokens {
    AdminWithdrawStakeTokens {
        staking_pool: Account {
            data: StakingPool {
                total_staked: reduced(ctx.staking_pool.data.total_staked, amount),
                global_sequence: clock.slot,
                ..ctx.staking_pool.data
            },
            ..ctx.staking_pool
        },
        ..ctx
    }
}

/// Asks for `amount` of the staked token to be moved from the pool's vault,
/// which is its own authority, to the authority's account. The staked total
/// follows, down to zero.
pub fn admin_withdraw_stake_tokens(
    ctx: &mut AdminWithdrawStakeTokens,
    amount: u64,
    clock: Clock,
) -> (result: Result<Transfer, StakingError>)
    ensures
        match result {
            Ok(transfer) => {
                &&& admin_withdraw_stake_tokens_rejection(*old(ctx), amount) is None
                &&& *final(ctx) == admin_withdraw_stake_tokens_accounts(*old(ctx), amount, clock)
                &&& transfer == (Transfer {
                    from: old(ctx).pool_token_vault.key,
                    to: old(ctx).admin_token_account.key,
                    authority: old(ctx).pool_token_vault.key,
                    amount,
                })
            },
            Err(error) => {
                &&& admin_withdraw_stake_tokens_rejection(*old(ctx), amount) == Some(error)
                &&& *final(ctx) == *old(ctx)
            },
        },
{
    let pool = ctx.staking_pool.data;
    if pool.authority != ctx.admin.key {
        return Err(StakingError::Unauthorized);
    }
    if ctx.admin_token_account.data.mint != pool.stake_token_mint {
        return Err(StakingError::InvalidTokenMint);
    }
    if ctx.admin_token_account.data.owner != ctx.admin.key {
        return Err(StakingError::Unauthorized);
    }
    if amount == 0 {
        return Err(StakingError::InvalidAmount);
    }
    if ctx.pool_token_vault.data.amount < amount {
        return Err(StakingError::InsufficientBalance);
    }
    ctx.staking_pool.data = StakingPool {
        total_staked: pool.total_staked.saturating_sub(amount),
        global_sequence: clock.slot,
        ..pool
    };
    Ok(
        Transfer {
            from: ctx.pool_token_vault.key,
            to: ctx.admin_token_account.key,
            authority: ctx.pool_token_vault.key,
            amount,
        },
    )
}

} // verus!
