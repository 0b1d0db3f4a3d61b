//! Rewards of the taxed pool: what a stake earns over time, claiming it, and
//! the distribution rounds.

use vstd::prelude::*;
use crate::accounts::Account;
use crate::accounts::Clock;
use crate::accounts::Transfer;
use crate::aura_burn_redistribution::contexts::ClaimRewards;
use crate::aura_burn_redistribution::contexts::DistributeRewards;
use crate::aura_burn_redistribution::events::RewardsClaimed;
use crate::aura_burn_redistribution::events::RewardsDistributed;
use crate::aura_burn_redistribution::state::ANNUAL_REWARD_RATE;
use crate::aura_burn_redistribution::state::ANNUAL_YIELD_RATE;
use crate::aura_burn_redistribution::state::ErrorCode;
use crate::aura_burn_redistribution::state::GlobalState;
use crate::aura_burn_redistribution::state::REWARD_SCALE;
use crate::aura_burn_redistribution::state::SECONDS_PER_YEAR;
use crate::aura_burn_redistribution::state::StakingAccount;
use crate::math::BASIS_POINTS;
use crate::math::elapsed_seconds;
use crate::math::mul_div;
use crate::math::mul_div_floor;
use crate::math::seconds_between;
use crate::math::wide_product;

verus! {

/// The part of `amount` that a tax of `rate` basis points withholds, rounded
/// down; none where the tax would exceed the amount.
pub open spec fn tax_of(amount: u64, rate: u16) -> Option<u64> {
    if (amount * rate) / (BASIS_POINTS as int) <= amount {
        Some(((amount * rate) / (BASIS_POINTS as int)) as u64)
    } else {
        None
    }
}

/// Computes the part of `amount` that a tax of `rate` basis points withholds.
pub fn compute_tax(amount: u64, rate: u16) -> (tax: Option<u64>)
    ensures
        tax == tax_of(amount, rate),
{
    match mul_div(amount, rate as u64, BASIS_POINTS) {
        Some(tax) => {
            if tax <= amount {
                Some(tax)
            } else {
                None
            }
        },
        None => None,
    }
}

/// What `principal` earns in `seconds` at `rate` basis points a year,
/// rounded down at each division; none where it does not fit.
pub open spec fn yield_over(principal: u64, rate: u64, seconds: u64) -> Option<u64> {
    let earned = (principal * rate * seconds) / (BASIS_POINTS as int) / (SECONDS_PER_YEAR as int);
    if earned <= u64::MAX {
        Some(earned as u64)
    } else {
        None
    }
}

fn compute_yield(principal: u64, rate: u64, seconds: u64) -> (earned: Option<u64>)
    ensures
        earned == yield_over(principal, rate, seconds),
{
    match wide_product(principal, rate, seconds) {
        Some(product) => {
            let earned: u128 = product / (BASIS_POINTS as u128) / (SECONDS_PER_YEAR as u128);
            if earned > u64::MAX as u128 {
                None
            } else {
                Some(earned as u64)
            }
        },
        None => None,
    }
}

/// The staker's record with the rewards earned from the last claim to `now`
/// added to those pending; none where time would run backwards or the
/// rewards do not fit. The time of the last claim is left as it is.
pub open spec fn with_pending_rewards(account: StakingAccount, now: i64) -> Option<StakingAccount> {
    match seconds_between(account.last_reward_claim, now) {
        Some(seconds) => match yield_over(account.staked_amount, ANNUAL_REWARD_RATE, seconds) {
            Some(earned) => if account.pending_rewards + earned <= u64::MAX {
                Some(
                    StakingAccount {
                        pending_rewards: (account.pending_rewards + earned) as u64,
                        ..account
                    },
                )
            } else {
                None
            },
            None => None,
        },
        None => None,
    }
}

/// Adds the rewards earned from the last claim to `now` to those pending. A
/// failed call leaves the record as it was.
pub fn calculate_pending_rewards(
    staking_account: &mut StakingAccount,
    global_state: &GlobalState,
    now: i64,
) -> (result: Result<(), ErrorCode>)
    ensures
        match result {
            Ok(_) => with_pending_rewards(*old(staking_account), now) == Some(
                *final(staking_account),
            ),
            Err(error) => {
                &&& error == ErrorCode::MathOverflow
                &&& with_pending_rewards(*old(staking_account), now) is None
                &&& *final(staking_account) == *old(staking_account)
            },
        },
{
    let seconds: u64 = match elapsed_seconds(staking_account.last_reward_claim, now) {
        Some(seconds) => seconds,
        None => {
            return Err(ErrorCode::MathOverflow);
        },
    };
    let earned: u64 = match compute_yield(
        staking_account.staked_amount,
        ANNUAL_REWARD_RATE,
        seconds,
    ) {
        Some(earned) => earned,
        None => {
            return Err(ErrorCode::MathOverflow);
        },
    };
    match staking_account.pending_rewards.checked_add(earned) {
        Some(pending) => {
            staking_account.pending_rewards = pending;
            Ok(())
        },
        None => Err(ErrorCode::MathOverflow),
    }
}

/// What a claim settles to.
pub struct Claimed {
    pub global_state: GlobalState,
    pub staking_account: StakingAccount,
    /// The rewards owed.
    pub gross: u64,
    /// Withheld from the rewards; it stays in the pool.
    pub tax: u64,
}

/// The records after the rewards owed at `now` were claimed; none where
/// nothing is owed or a step of the arithmetic does not fit.
pub open spec fn claimed(state: GlobalState, account: StakingAccount, now: i64) -> Option<Claimed> {
    match with_pending_rewards(account, now) {
        Some(counted) => match tax_of(counted.pending_rewards, state.reward_tax_rate) {
            Some(tax) => {
                if counted.pending_rewards == 0 || state.total_tax_collected + tax > u64::MAX {
                    None
                } else {
                    Some(
                        Claimed {
                            global_state: GlobalState {
                                total_tax_collected: (state.total_tax_collected + tax) as u64,
                                ..state
                            },
                            staking_account: StakingAccount {
                                pending_rewards: 0,
                                last_reward_claim: now,
                                ..counted
                            },
                            gross: counted.pending_rewards,
                            tax,
                        },
                    )
                }
            },
            None => None,
        },
        None => None,
    }
}

/// The first reason for which a claim is refused; none where it is accepted.
pub open spec fn claim_rewards_rejection(ctx: ClaimRewards, clock: Clock) -> Option<ErrorCode> {
    let state = ctx.global_state.data;
    let counted = with_pending_rewards(ctx.staking_account.data, clock.unix_timestamp);
    if state.is_paused {
        Some(ErrorCode::ProgramPaused)
    } else if counted is None {
        Some(ErrorCode::MathOverflow)
    } else if counted.unwrap().pending_rewards == 0 {
        Some(ErrorCode::NoRewardsToClaim)
    } else if claimed(state, ctx.staking_account.data, clock.unix_timestamp) is None {
        Some(ErrorCode::MathOverflow)
    } else {
        None
    }
}

/// The accounts after the rewards were claimed.
pub open spec fn claim_rewards_accounts(ctx: ClaimRewards, clock: Clock) -> ClaimRewards {
    let settled = claimed(
        ctx.global_state.data,
        ctx.staking_account.data,
        clock.unix_timestamp,
    ).unwrap();
    ClaimRewards {
        global_state: Account { data: settled.global_state, ..ctx.global_state },
        staking_account: Account { data: settled.staking_account, ..ctx.staking_account },
        ..ctx
    }
}

/// What is reported of an accepted claim, and the tokens to move for it:
/// the rewards less the tax, out of the pool's token account, which is its
/// own authority.
pub open spec fn claim_rewards_receipt(ctx: ClaimRewards, clock: Clock) -> (
    RewardsClaimed,
    Transfer,
) {
    let settled = claimed(
        ctx.global_state.data,
        ctx.staking_account.data,
        clock.unix_timestamp,
    ).unwrap();
    (
        RewardsClaimed {
            user: ctx.user.key,
            gross_reward_amount: settled.gross,
            tax_amount: settled.tax,
            net_reward_amount: (settled.gross - settled.tax) as u64,
            timestamp: clock.unix_timestamp,
        },
        Transfer {
            from: ctx.staking_pool.key,
            to: ctx.user_token_account.key,
            authority: ctx.staking_pool.key,
            amount: (settled.gross - settled.tax) as u64,
        },
    )
}

/// Pays the staker the rewards owed, less the tax on rewards.
pub fn claim_rewards(ctx: &mut ClaimRewards, clock: Clock) -> (result: Result<
    (RewardsClaimed, Transfer),
    ErrorCode,
>)
    ensures
        match result {
            Ok(receipt) => {
                &&& claim_rewards_rejection(*old(ctx), clock) is None
                &&& *final(ctx) == claim_rewards_accounts(*old(ctx), clock)
                &&& receipt == claim_rewards_receipt(*old(ctx), clock)
            },
            Err(error) => {
                &&& claim_rewards_rejection(*old(ctx), clock) == Some(error)
                &&& *final(ctx) == *old(ctx)
            },
        },
{
    let state = ctx.global_state.data;
    let mut account = ctx.staking_account.data;
    let now = clock.unix_timestamp;
    if state.is_paused {
        return Err(ErrorCode::ProgramPaused);
    }
    match calculate_pending_rewards(&mut account, &state, now) {
        Ok(_) => {},
        Err(error) => {
            return Err(error);
        },
    }
    let gross: u64 = account.pending_rewards;
    if gross == 0 {
        return Err(ErrorCode::NoRewardsToClaim);
    }
    let tax: u64 = match compute_tax(gross, state.reward_tax_rate) {
        Some(tax) => tax,
        None => {
            return Err(ErrorCode::MathOverflow);
        },
    };
    let net: u64 = gross - tax;
    let collected: u64 = match state.total_tax_collected.checked_add(tax) {
        Some(sum) => sum,
        None => {
            return Err(ErrorCode::MathOverflow);
        },
    };
    ctx.global_state.data = GlobalState { total_tax_collected: collected, ..state };
    ctx.staking_account.data = StakingAccount {
        pending_rewards: 0,
        last_reward_claim: now,
        ..account
    };
    Ok(
        (
            RewardsClaimed {
                user: ctx.user.key,
                gross_reward_amount: gross,
                tax_amount: tax,
                net_reward_amount: net,
                timestamp: now,
            },
            Transfer {
                from: ctx.staking_pool.key,
                to: ctx.user_token_account.key,
                authority: ctx.staking_pool.key,
                amount: net,
            },
        ),
    )
}

/// The yearly yield that a staked token earned in `seconds`, in parts per
/// `REWARD_SCALE`: the yield of all that is staked, scaled, over all that
/// is staked. None where nothing is staked, the product of the stake, the
/// rate and the seconds does not fit in 128 bits, or the result does not
/// fit in 64.
pub open spec fn base_reward_per_token(total_staked: u64, seconds: u64) -> Option<u64> {
    let product = total_staked * ANNUAL_YIELD_RATE * seconds;
    let per_token = product / (BASIS_POINTS as int) / (SECONDS_PER_YEAR as int) * (
    REWARD_SCALE as int) / (total_staked as int);
    if total_staked == 0 || product > u128::MAX || per_token > u64::MAX {
        None
    } else {
        Some(per_token as u64)
    }
}

fn compute_base_reward_per_token(total_staked: u64, seconds: u64) -> (reward: Option<u64>)
    ensures
        reward == base_reward_per_token(total_staked, seconds),
{
    if total_staked == 0 {
        return None;
    }
    match wide_product(total_staked, ANNUAL_YIELD_RATE, seconds) {
        Some(product) => {
            let yearly: u128 = product / (BASIS_POINTS as u128) / (SECONDS_PER_YEAR as u128);
            assert(yearly <= product / 10_000);
            assert(yearly * 1_000_000 <= u128::MAX);
            let scaled: u128 = yearly * (REWARD_SCALE as u128);
            let per_token: u128 = scaled / (total_staked as u128);
            if per_token > u64::MAX as u128 {
                None
            } else {
                Some(per_token as u64)
            }
        },
        None => None,
    }
}

/// The tax collected, per staked token, in parts per `REWARD_SCALE`; nothing
/// where no tax was collected; none where nothing is staked or the result
/// does not fit.
pub open spec fn tax_bonus_per_token(total_tax_collected: u64, total_staked: u64) -> Option<u64> {
    if total_staked > 0 && total_tax_collected > 0 {
        mul_div_floor(total_tax_collected, REWARD_SCALE, total_staked)
    } else if total_staked > 0 {
        Some(0)
    } else {
        None
    }
}

/// What a distribution round settles to.
pub struct Distributed {
    pub global_state: GlobalState,
    /// What a staked token earned since the round before.
    pub reward_per_token: u64,
}

/// The program's record after a round was held at `now`, and the reward per
/// token; none where nothing is staked, time would run backwards, or a step
/// of the arithmetic does not fit.
pub open spec fn distributed(state: GlobalState, now: i64) -> Option<Distributed> {
    match seconds_between(state.last_distribution, now) {
        Some(seconds) => match (
            base_reward_per_token(state.total_staked, seconds),
            tax_bonus_per_token(state.total_tax_collected, state.total_staked),
        ) {
            (Some(base), Some(bonus)) => {
                if base + bonus > u64::MAX || state.distribution_round == u64::MAX {
                    None
                } else {
                    Some(
                        Distributed {
                            global_state: GlobalState {
                                last_distribution: now,
                                distribution_round: (state.distribution_round + 1) as u64,
                                total_tax_collected: 0,
                                ..state
                            },
                            reward_per_token: (base + bonus) as u64,
                        },
                    )
                }
            },
            _ => None,
        },
        None => None,
    }
}

/// The first reason for which a distribution round is refused; none where
/// it is accepted.
pub open spec fn distribute_rewards_rejection(ctx: DistributeRewards, clock: Clock) -> Option<
    ErrorCode,
> {
    let state = ctx.global_state.data;
    if state.is_paused {
        Some(ErrorCode::ProgramPaused)
    } else if clock.unix_timestamp < state.last_distribution + state.redistribution_frequency {
        Some(ErrorCode::DistributionTooEarly)
    } else if state.total_staked == 0 {
        Some(ErrorCode::NoStakers)
    } else if distributed(state, clock.unix_timestamp) is None {
        Some(ErrorCode::MathOverflow)
    } else {
        None
    }
}

/// Holds a distribution round: reports what a staked token earned since the
/// round before, and starts collecting tax anew. Anyone may ask for it once
/// the time between rounds has passed.
pub fn distribute_rewards(ctx: &mut DistributeRewards, clock: Clock) -> (result: Result<
    RewardsDistributed,
    ErrorCode,
>)
    ensures
        match result {
            Ok(event) => {
                &&& distribute_rewards_rejection(*old(ctx), clock) is None
                &&& *final(ctx) == (DistributeRewards {
                    global_state: Account {
                        data: distributed(
                            old(ctx).global_state.data,
                            clock.unix_timestamp,
                        ).unwrap().global_state,
                        ..old(ctx).global_state
                    },
                    ..*old(ctx)
                })
                &&& event == (RewardsDistributed {
                    distribution_round: (old(ctx).global_state.data.distribution_round + 1) as u64,
                    reward_per_token: distributed(
                        old(ctx).global_state.data,
                        clock.unix_timestamp,
                    ).unwrap().reward_per_token,
                    tax_redistributed: old(ctx).global_state.data.total_tax_collected,
                    total_stakers: old(ctx).global_state.data.total_staked,
                    timestamp: clock.unix_timestamp,
                })
            },
            Err(error) => {
                &&& distribute_rewards_rejection(*old(ctx), clock) == Some(error)
                &&& *final(ctx) == *old(ctx)
            },
        },
{
    let state = ctx.global_state.data;
    let now = clock.unix_timestamp;
    if state.is_paused {
        return Err(ErrorCode::ProgramPaused);
    }
    let due: i128 = (state.last_distribution as i128) + (state.redistribution_frequency as i128);
    if (now as i128) < due {
        return Err(ErrorCode::DistributionTooEarly);
    }
    if state.total_staked == 0 {
        return Err(ErrorCode::NoStakers);
    }
    let seconds: u64 = match elapsed_seconds(state.last_distribution, now) {
        Some(seconds) => seconds,
        None => {
            return Err(ErrorCode::MathOverflow);
        },
    };
    let base: u64 = match compute_base_reward_per_token(state.total_staked, seconds) {
        Some(base) => base,
        None => {
            return Err(ErrorCode::MathOverflow);
        },
    };
    let bonus: u64 = if state.total_tax_collected > 0 {
        match mul_div(state.total_tax_collected, REWARD_SCALE, state.total_staked) {
            Some(bonus) => bonus,
            None => {
                return Err(ErrorCode::MathOverflow);
            },
        }
    } else {
        0
    };
    let reward_per_token: u64 = match base.checked_add(bonus) {
        Some(sum) => sum,
        None => {
            return Err(ErrorCode::MathOverflow);
        },
    };
    let round: u64 = match state.distribution_round.checked_add(1) {
        Some(round) => round,
        None => {
            return Err(ErrorCode::MathOverflow);
        },
    };
    ctx.global_state.data = GlobalState {
        last_distribution: now,
        distribution_round: round,
        total_tax_collected: 0,
        ..state
    };
    Ok(
        RewardsDistributed {
            distribution_round: round,
            reward_per_token,
            tax_redistributed: state.total_tax_collected,
            total_stakers: state.total_staked,
            timestamp: now,
        },
    )
}

} // verus!
