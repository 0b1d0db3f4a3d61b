//! What the program's authority may do: set the program up, change the tax
//! rates, pause and resume.

use vstd::prelude::*;
use crate::accounts::Account;
use crate::accounts::Clock;
use crate::aura_burn_redistribution::contexts::Initialize;
use crate::aura_burn_redistribution::contexts::PauseProgram;
use crate::aura_burn_redistribution::contexts::ResumeProgram;
use crate::aura_burn_redistribution::contexts::UpdateTaxRates;
use crate::aura_burn_redistribution::events::ProgramInitialized;
use crate::aura_burn_redistribution::events::ProgramPaused;
use crate::aura_burn_redistribution::events::ProgramResumed;
use crate::aura_burn_redistribution::events::TaxRatesUpdated;
use crate::aura_burn_redistribution::state::ErrorCode;
use crate::aura_burn_redistribution::state::GlobalState;
use crate::aura_burn_redistribution::state::MAX_TAX_RATE;

verus! {

/// The accounts after the program was set up: the signer is its authority,
/// nothing is staked, no tax collected, no round held, not paused.
pub open spec fn initialize_accounts(
    ctx: Initialize,
    redistribution_frequency: i64,
    stake_tax_rate: u16,
    unstake_tax_rate: u16,
    reward_tax_rate: u16,
    clock: Clock,
) -> Initialize {
    Initialize {
        global_state: Account {
            data: GlobalState {
                authority: ctx.authority.key,
                redistribution_frequency,
                stake_tax_rate,
                unstake_tax_rate,
                reward_tax_rate,
                total_staked: 0,
                total_tax_collected: 0,
                last_distribution: clock.unix_timestamp,
                distribution_round: 0,
                is_paused: false,
            },
            ..ctx.global_state
        },
        ..ctx
    }
}

/// Sets the program's record up with the given tax rates and the time
/// between distribution rounds.
pub fn initialize(
    ctx: &mut Initialize,
    redistribution_frequency: i64,
    stake_tax_rate: u16,
    unstake_tax_rate: u16,
    reward_tax_rate: u16,
    clock: Clock,
) -> (event: ProgramInitialized)
    ensures
        *final(ctx) == initialize_accounts(
            *old(ctx),
            redistribution_frequency,
            stake_tax_rate,
            unstake_tax_rate,
            reward_tax_rate,
            clock,
        ),
        event == (ProgramInitialized {
            authority: old(ctx).authority.key,
            stake_tax_rate,
            unstake_tax_rate,
            reward_tax_rate,
            redistribution_frequency,
        }),
{
    ctx.global_state.data = GlobalState {
        authority: ctx.authority.key,
        redistribution_frequency,
        stake_tax_rate,
        unstake_tax_rate,
        reward_tax_rate,
        total_staked: 0,
        total_tax_collected: 0,
        last_distribution: clock.unix_timestamp,
        distribution_round: 0,
        is_paused: false,
    };
    ProgramInitialized {
        authority: ctx.authority.key,
        stake_tax_rate,
        unstake_tax_rate,
        reward_tax_rate,
        redistribution_frequency,
    }
}

/// The first reason for which new tax rates are refused; none where they
/// are accepted.
pub open spec fn update_tax_rates_rejection(
    ctx: UpdateTaxRates,
    stake_tax_rate: u16,
    unstake_tax_rate: u16,
    reward_tax_rate: u16,
) -> Option<ErrorCode> {
    if ctx.global_state.data.authority != ctx.authority.key {
        Some(ErrorCode::Unauthorized)
    } else if stake_tax_rate > MAX_TAX_RATE || unstake_tax_rate > MAX_TAX_RATE || reward_tax_rate
        > MAX_TAX_RATE {
        Some(ErrorCode::TaxRateTooHigh)
    } else {
        None
    }
}

/// The accounts after the tax rates were set.
pub open spec fn update_tax_rates_accounts(
    ctx: UpdateTaxRates,
    stake_tax_rate: u16,
    unstake_tax_rate: u16,
    reward_tax_rate: u16,
) -> UpdateTaxRates {
    UpdateTaxRates {
        global_state: Account {
            data: GlobalState {
                stake_tax_rate,
                unstake_tax_rate,
                reward_tax_rate,
                ..ctx.global_state.data
            },
            ..ctx.global_state
        },
        ..ctx
    }
}

/// Sets the three tax rates, none of which may exceed `MAX_TAX_RATE`.
pub fn update_tax_rates(
    ctx: &mut UpdateTaxRates,
    stake_tax_rate: u16,
    unstake_tax_rate: u16,
    reward_tax_rate: u16,
    clock: Clock,
) -> (result: Result<TaxRatesUpdated, ErrorCode>)
    ensures
        match result {
            Ok(event) => {
                &&& update_tax_rates_rejection(
                    *old(ctx),
                    stake_tax_rate,
                    unstake_tax_rate,
                    reward_tax_rate,
                ) is None
                &&& *final(ctx) == update_tax_rates_accounts(
                    *old(ctx),
                    stake_tax_rate,
                    unstake_tax_rate,
                    reward_tax_rate,
                )
                &&& event == (TaxRatesUpdated {
                    authority: old(ctx).authority.key,
                    stake_tax_rate,
                    unstake_tax_rate,
                    reward_tax_rate,
                    timestamp: clock.unix_timestamp,
                })
            },
            Err(error) => {
                &&& update_tax_rates_rejection(
                    *old(ctx),
                    stake_tax_rate,
                    unstake_tax_rate,
                    reward_tax_rate,
                ) == Some(error)
                &&& *final(ctx) == *old(ctx)
            },
        },
{
    let state = ctx.global_state.data;
    if state.authority != ctx.authority.key {
        return Err(ErrorCode::Unauthorized);
    }
    if stake_tax_rate > MAX_TAX_RATE || unstake_tax_rate > MAX_TAX_RATE || reward_tax_rate
        > MAX_TAX_RATE {
        return Err(ErrorCode::TaxRateTooHigh);
    }
    ctx.global_state.data = GlobalState {
        stake_tax_rate,
        unstake_tax_rate,
        reward_tax_rate,
        ..state
    };
    Ok(
        TaxRatesUpdated {
            authority: ctx.authority.key,
            stake_tax_rate,
            unstake_tax_rate,
            reward_tax_rate,
            timestamp: clock.unix_timestamp,
        },
    )
}

/// The accounts after the program's pause was set to `is_paused`.
pub open spec fn pause_set(state: Account<GlobalState>, is_paused: bool) -> Account<GlobalState> {
    Account { data: GlobalState { is_paused, ..state.data }, ..state }
}

/// Pauses the program, where its authority asks for it.
pub fn pause_program(ctx: &mut PauseProgram, clock: Clock) -> (result: Result<
    ProgramPaused,
    ErrorCode,
>)
    ensures
        match result {
            Ok(event) => {
                &&& old(ctx).global_state.data.authority == old(ctx).authority.key
                &&& *final(ctx) == (PauseProgram {
                    global_state: pause_set(old(ctx).global_state, true),
                    ..*old(ctx)
                })
                &&& event == (ProgramPaused {
                    authority: old(ctx).authority.key,
                    timestamp: clock.unix_timestamp,
                })
            },
            Err(error) => {
                &&& error == ErrorCode::Unauthorized
                &&& old(ctx).global_state.data.authority != old(ctx).authority.key
                &&& *final(ctx) == *old(ctx)
            },
        },
{
    let state = ctx.global_state.data;
    if state.authority != ctx.authority.key {
        return Err(ErrorCode::Unauthorized);
    }
    ctx.global_state.data = GlobalState { is_paused: true, ..state };
    Ok(ProgramPaused { authority: ctx.authority.key, timestamp: clock.unix_timestamp })
}

/// Lifts the program's pause, where its authority asks for it.
pub fn resume_program(ctx: &mut ResumeProgram, clock: Clock) -> (result: Result<
    ProgramResumed,
    ErrorCode,
>)
    ensures
        match result {
            Ok(event) => {
                &&& old(ctx).global_state.data.authority == old(ctx).authority.key
                &&& *final(ctx) == (ResumeProgram {
                    global_state: pause_set(old(ctx).global_state, false),
                    ..*old(ctx)
                })
                &&& event == (ProgramResumed {
                    authority: old(ctx).authority.key,
                    timestamp: clock.unix_timestamp,
                })
            },
            Err(error) => {
                &&& error == ErrorCode::Unauthorized
                &&& old(ctx).global_state.data.authority != old(ctx).authority.key
                &&& *final(ctx) == *old(ctx)
            },
        },
{
    let state = ctx.global_state.data;
    if state.authority != ctx.authority.key {
        return Err(ErrorCode::Unauthorized);
    }
    ctx.global_state.data = GlobalState { is_paused: false, ..state };
    Ok(ProgramResumed { authority: ctx.authority.key, timestamp: clock.unix_timestamp })
}

} // verus!
