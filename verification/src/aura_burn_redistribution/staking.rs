//! Staking and unstaking with a tax.

use vstd::prelude::*;
use crate::accounts::Account;
use crate::accounts::Clock;
use crate::accounts::Transfer;
use crate::aura_burn_redistribution::contexts::StakeTokens;
use crate::aura_burn_redistribution::contexts::UnstakeTokens;
use crate::aura_burn_redistribution::events::TokensStaked;
use crate::aura_burn_redistribution::events::TokensUnstaked;
use crate::aura_burn_redistribution::rewards::calculate_pending_rewards;
use crate::aura_burn_redistribution::rewards::compute_tax;
use crate::aura_burn_redistribution::rewards::tax_of;
use crate::aura_burn_redistribution::rewards::with_pending_rewards;
use crate::aura_burn_redistribution::state::ErrorCode;
use crate::aura_burn_redistribution::state::GlobalState;
use crate::aura_burn_redistribution::state::StakingAccount;

verus! {

/// What a stake or an unstake settles to.
pub struct Settled {
    pub global_state: GlobalState,
    pub staking_account: StakingAccount,
    /// Withheld from the amount; it stays in the pool.
    pub tax: u64,
}

/// The records after `amount` was handed in for staking at `clock`: the
/// amount less the stake tax counts as principal, and rewards count from
/// now. None where a step of the arithmetic does not fit.
pub open spec fn staked(ctx: StakeTokens, amount: u64, clock: Clock) -> Option<Settled> {
    let state = ctx.global_state.data;
    let account = ctx.staking_account.data;
    match tax_of(amount, state.stake_tax_rate) {
        Some(tax) => {
            let net = amount - tax;
            if account.staked_amount + net > u64::MAX || state.total_staked + net > u64::MAX
                || state.total_tax_collected + tax > u64::MAX {
                None
            } else {
                Some(
                    Settled {
                        global_state: GlobalState {
                            total_staked: (state.total_staked + net) as u64,
                            total_tax_collected: (state.total_tax_collected + tax) as u64,
                            ..state
                        },
                        staking_account: StakingAccount {
                            owner: ctx.user.key,
                            staked_amount: (account.staked_amount + net) as u64,
                            last_reward_claim: clock.unix_timestamp,
                            ..account
                        },
                        tax,
                    },
                )
            }
        },
        None => None,
    }
}

/// The first reason for which a stake is refused; none where it is accepted.
pub open spec fn stake_tokens_rejection(ctx: StakeTokens, amount: u64, clock: Clock) -> Option<
    ErrorCode,
> {
    if ctx.global_state.data.is_paused {
        Some(ErrorCode::ProgramPaused)
    } else if amount == 0 {
        Some(ErrorCode::InvalidAmount)
    } else if staked(ctx, amount, clock) is None {
        Some(ErrorCode::MathOverflow)
    } else {
        None
    }
}

/// The accounts after `amount` was handed in for staking.
pub open spec fn stake_tokens_accounts(ctx: StakeTokens, amount: u64, clock: Clock) -> StakeTokens {
    let settled = staked(ctx, amount, clock).unwrap();
    StakeTokens {
        global_state: Account { data: settled.global_state, ..ctx.global_state },
        staking_account: Account { data: settled.staking_account, ..ctx.staking_account },
        ..ctx
    }
}

/// What is reported of an accepted stake, and the tokens to move for it:
/// the whole amount, tax included, from the staker's token account into the
/// pool's.
pub open spec fn stake_tokens_receipt(ctx: StakeTokens, amount: u64, clock: Clock) -> (
    TokensStaked,
    Transfer,
) {
    let settled = staked(ctx, amount, clock).unwrap();
    (
        TokensStaked {
            user: ctx.user.key,
            gross_amount: amount,
            tax_amount: settled.tax,
            net_staked_amount: (amount - settled.tax) as u64,
            total_staked: settled.staking_account.staked_amount,
            global_total_staked: settled.global_state.total_staked,
        },
        Transfer {
            from: ctx.user_token_account.key,
            to: ctx.staking_pool.key,
            authority: ctx.user.key,
            amount,
        },
    )
}

/// Stakes `amount` less the stake tax for the signing user.
pub fn stake_tokens(ctx: &mut StakeTokens, amount: u64, clock: Clock) -> (result: Result<
    (TokensStaked, Transfer),
    ErrorCode,
>)
    ensures
        match result {
            Ok(receipt) => {
                &&& stake_tokens_rejection(*old(ctx), amount, clock) is None
                &&& *final(ctx) == stake_tokens_accounts(*old(ctx), amount, clock)
                &&& receipt == stake_tokens_receipt(*old(ctx), amount, clock)
            },
            Err(error) => {
                &&& stake_tokens_rejection(*old(ctx), amount, clock) == Some(error)
                &&& *final(ctx) == *old(ctx)
            },
        },
{
    let state = ctx.global_state.data;
    let account = ctx.staking_account.data;
    if state.is_paused {
        return Err(ErrorCode::ProgramPaused);
    }
    if amount == 0 {
        return Err(ErrorCode::InvalidAmount);
    }
    let tax: u64 = match compute_tax(amount, state.stake_tax_rate) {
        Some(tax) => tax,
        None => {
            return Err(ErrorCode::MathOverflow);
        },
    };
    let net: u64 = amount - tax;
    let staked_amount: u64 = match account.staked_amount.checked_add(net) {
        Some(sum) => sum,
        None => {
            return Err(ErrorCode::MathOverflow);
        },
    };
    let total_staked: u64 = match state.total_staked.checked_add(net) {
        Some(sum) => sum,
        None => {
            return Err(ErrorCode::MathOverflow);
        },
    };
    let collected: u64 = match state.total_tax_collected.checked_add(tax) {
        Some(sum) => sum,
        None => {
            return Err(ErrorCode::MathOverflow);
        },
    };
    ctx.global_state.data = GlobalState { total_staked, total_tax_collected: collected, ..state };
    ctx.staking_account.data = StakingAccount {
        owner: ctx.user.key,
        staked_amount,
        last_reward_claim: clock.unix_timestamp,
        ..account
    };
    Ok(
        (
            TokensStaked {
                user: ctx.user.key,
                gross_amount: amount,
                tax_amount: tax,
                net_staked_amount: net,
                total_staked: staked_amount,
                global_total_staked: total_staked,
            },
            Transfer {
                from: ctx.user_token_account.key,
                to: ctx.staking_pool.key,
                authority: ctx.user.key,
                amount,
            },
        ),
    )
}

/// The records after `amount` was unstaked at `clock`: the rewards earned
/// so far are counted, and the whole amount leaves the principal. None
/// where the staker or the pool holds less than `amount`, or a step of the
/// arithmetic does not fit.
pub open spec fn unstaked(ctx: UnstakeTokens, amount: u64, clock: Clock) -> Option<Settled> {
    let state = ctx.global_state.data;
    match (
        tax_of(amount, state.unstake_tax_rate),
        with_pending_rewards(ctx.staking_account.data, clock.unix_timestamp),
    ) {
        (Some(tax), Some(counted)) => {
            if counted.staked_amount < amount || state.total_staked < amount
                || state.total_tax_collected + tax > u64::MAX {
                None
            } else {
                Some(
                    Settled {
                        global_state: GlobalState {
                            total_staked: (state.total_staked - amount) as u64,
                            total_tax_collected: (state.total_tax_collected + tax) as u64,
                            ..state
                        },
                        staking_account: StakingAccount {
                            staked_amount: (counted.staked_amount - amount) as u64,
                            ..counted
                        },
                        tax,
                    },
                )
            }
        },
        _ => None,
    }
}

/// The first reason for which an unstake is refused; none where it is
/// accepted.
pub open spec fn unstake_tokens_rejection(ctx: UnstakeTokens, amount: u64, clock: Clock) -> Option<
    ErrorCode,
> {
    if ctx.global_state.data.is_paused {
        Some(ErrorCode::ProgramPaused)
    } else if amount == 0 {
        Some(ErrorCode::InvalidAmount)
    } else if ctx.staking_account.data.staked_amount < amount {
        Some(ErrorCode::InsufficientStaked)
    } else if unstaked(ctx, amount, clock) is None {
        Some(ErrorCode::MathOverflow)
    } else {
        None
    }
}

/// The accounts after `amount` was unstaked.
pub open spec fn unstake_tokens_accounts(
    ctx: UnstakeTokens,
    amount: u64,
    clock: Clock,
) -> UnstakeTokens {
    let settled = unstaked(ctx, amount, clock).unwrap();
    UnstakeTokens {
        global_state: Account { data: settled.global_state, ..ctx.global_state },
        staking_account: Account { data: settled.staking_account, ..ctx.staking_account },
        ..ctx
    }
}

/// What is reported of an accepted unstake, and the tokens to move for it:
/// the amount less the unstake tax, out of the pool's token account, which
/// is its own authority.
pub open spec fn unstake_tokens_receipt(ctx: UnstakeTokens, amount: u64, clock: Clock) -> (
    TokensUnstaked,
    Transfer,
) {
    let settled = unstaked(ctx, amount, clock).unwrap();
    (
        TokensUnstaked {
            user: ctx.user.key,
            gross_amount: amount,
            tax_amount: settled.tax,
            net_received_amount: (amount - settled.tax) as u64,
            remaining_staked: settled.staking_account.staked_amount,
            global_total_staked: settled.global_state.total_staked,
        },
        Transfer {
            from: ctx.staking_pool.key,
            to: ctx.user_token_account.key,
            authority: ctx.staking_pool.key,
            amount: (amount - settled.tax) as u64,
        },
    )
}

/// Takes `amount` out of the signing user's stake and pays it out less the
/// unstake tax.
pub fn unstake_tokens(ctx: &mut UnstakeTokens, amount: u64, clock: Clock) -> (result: Result<
    (TokensUnstaked, Transfer),
    ErrorCode,
>)
    ensures
        match result {
            Ok(receipt) => {
                &&& unstake_tokens_rejection(*old(ctx), amount, clock) is None
                &&& *final(ctx) == unstake_tokens_accounts(*old(ctx), amount, clock)
                &&& receipt == unstake_tokens_receipt(*old(ctx), amount, clock)
            },
            Err(error) => {
                &&& unstake_tokens_rejection(*old(ctx), amount, clock) == Some(error)
                &&& *final(ctx) == *old(ctx)
            },
        },
{
    let state = ctx.global_state.data;
    let mut account = ctx.staking_account.data;
    if state.is_paused {
        return Err(ErrorCode::ProgramPaused);
    }
    if amount == 0 {
        return Err(ErrorCode::InvalidAmount);
    }
    if account.staked_amount < amount {
        return Err(ErrorCode::InsufficientStaked);
    }
    let tax: u64 = match compute_tax(amount, state.unstake_tax_rate) {
        Some(tax) => tax,
        None => {
            return Err(ErrorCode::MathOverflow);
        },
    };
    let net: u64 = amount - tax;
    match calculate_pending_rewards(&mut account, &state, clock.unix_timestamp) {
        Ok(_) => {},
        Err(error) => {
            return Err(error);
        },
    }
    let remaining: u64 = account.staked_amount - amount;
    let total_staked: u64 = match state.total_staked.checked_sub(amount) {
        Some(rest) => rest,
        None => {
            return Err(ErrorCode::MathOverflow);
        },
    };
    let collected: u64 = match state.total_tax_collected.checked_add(tax) {
        Some(sum) => sum,
        None => {
            return Err(ErrorCode::MathOverflow);
        },
    };
    ctx.global_state.data = GlobalState { total_staked, total_tax_collected: collected, ..state };
    ctx.staking_account.data = StakingAccount { staked_amount: remaining, ..account };
    Ok(
        (
            TokensUnstaked {
                user: ctx.user.key,
                gross_amount: amount,
                tax_amount: tax,
                net_received_amount: net,
                remaining_staked: remaining,
                global_total_staked: total_staked,
            },
            Transfer {
                from: ctx.staking_pool.key,
                to: ctx.user_token_account.key,
                authority: ctx.staking_pool.key,
                amount: net,
            },
        ),
    )
}

} // verus!
