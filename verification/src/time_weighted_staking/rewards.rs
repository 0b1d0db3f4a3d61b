//! Settlement: each staker's share of the deposited rewards, taken of the
//! pool's frozen weight, and the deposits that fund it.

use vstd::prelude::*;
use crate::accounts::Account;
use crate::accounts::Clock;
use crate::accounts::Signer;
use crate::accounts::Transfer;
use crate::math::mul_div;
use crate::math::mul_div_floor;
use crate::pubkey::Pubkey;
use crate::time_weighted_staking::contexts::ClaimSolRewards;
use crate::time_weighted_staking::contexts::ClaimSplRewards;
use crate::time_weighted_staking::contexts::CreateRewardVault;
use crate::time_weighted_staking::contexts::DepositSolRewards;
use crate::time_weighted_staking::contexts::DepositSplRewards;
use crate::time_weighted_staking::contexts::StopDistribution;
use crate::time_weighted_staking::distribution::final_weight;
use crate::time_weighted_staking::distribution::stop_distribution_accounts;
use crate::time_weighted_staking::distribution::stop_distribution_rejection;
use crate::time_weighted_staking::error::StakingError;
use crate::time_weighted_staking::events::SolRewardsClaimed;
use crate::time_weighted_staking::events::SplRewardsClaimed;
use crate::time_weighted_staking::state::StakingPool;
use crate::time_weighted_staking::state::UserStake;

verus! {

/// A staker's share of `balance`: `balance * weighted_stake /
/// total_weighted_stake`, rounded down, so that what is left over stays in
/// the pool. Nothing where the pool has no weight or no balance; none where
/// the share does not fit.
pub open spec fn reward_share(balance: u64, weighted_stake: u64, total_weighted_stake: u64) -> Option<
    u64,
> {
    if total_weighted_stake > 0 && balance > 0 {
        mul_div_floor(balance, weighted_stake, total_weighted_stake)
    } else {
        Some(0)
    }
}

/// Computes a staker's share of `balance`.
pub fn calculate_reward_share(balance: u64, weighted_stake: u64, total_weighted_stake: u64) -> (share:
    Option<u64>)
    ensures
        share == reward_share(balance, weighted_stake, total_weighted_stake),
{
    if total_weighted_stake > 0 && balance > 0 {
        mul_div(balance, weighted_stake, total_weighted_stake)
    } else {
        Some(0)
    }
}

/// The first reason for which a claim by `user` at `clock` is refused, before
/// any amount is looked at; none where the staker may claim: the pool is not
/// paused, the stake is active, the current epoch was not claimed yet, no
/// epoch runs, and the call is newer than the staker's last one.
pub open spec fn claim_refusal(pool: StakingPool, user: UserStake, clock: Clock) -> Option<
    StakingError,
> {
    if pool.paused {
        Some(StakingError::PoolPaused)
    } else if user.amount == 0 {
        Some(StakingError::NoStake)
    } else if !user.is_active {
        Some(StakingError::StakeNotActive)
    } else if pool.current_distribution_epoch <= user.has_claimed_epoch {
        Some(StakingError::AlreadyClaimed)
    } else if pool.distribution_active && !pool.distribution_ended {
        Some(StakingError::DistributionStillActive)
    } else if clock.slot <= user.last_action_sequence {
        Some(StakingError::ReplayAttack)
    } else {
        None
    }
}

/// Tests whether the staker may claim at `clock`.
pub fn check_claim(pool: &StakingPool, user: &UserStake, clock: Clock) -> (result: Result<
    (),
    StakingError,
>)
    ensures
        match result {
            Ok(_) => claim_refusal(*pool, *user, clock) is None,
            Err(error) => claim_refusal(*pool, *user, clock) == Some(error),
        },
{
    if pool.paused {
        return Err(StakingError::PoolPaused);
    }
    if user.amount == 0 {
        return Err(StakingError::NoStake);
    }
    if !user.is_active {
        return Err(StakingError::StakeNotActive);
    }
    if pool.current_distribution_epoch <= user.has_claimed_epoch {
        return Err(StakingError::AlreadyClaimed);
    }
    if pool.distribution_active && !pool.distribution_ended {
        return Err(StakingError::DistributionStillActive);
    }
    if clock.slot <= user.last_action_sequence {
        return Err(StakingError::ReplayAttack);
    }
    Ok(())
}

/// The staker's record after a claim at `clock` in `pool`.
pub open spec fn claimed_user(pool: StakingPool, user: UserStake, clock: Clock) -> UserStake {
    UserStake {
        has_claimed_epoch: pool.current_distribution_epoch,
        last_action_sequence: clock.slot,
        ..user
    }
}

/// What a claim of the native reward pays: the staker's share of the balance
/// that was set aside for rewards when the epoch was stopped, whatever
/// earlier claims have taken of it since.
pub open spec fn sol_claim_amount(ctx: ClaimSolRewards) -> Option<u64> {
    reward_share(
        ctx.staking_pool.data.sol_rewards_at_stop,
        ctx.user_stake.data.weighted_stake,
        ctx.staking_pool.data.total_weighted_stake,
    )
}

/// The first reason for which a claim of the native reward is refused; none
/// where it is accepted.
pub open spec fn claim_sol_rewards_rejection(ctx: ClaimSolRewards, clock: Clock) -> Option<
    StakingError,
> {
    let pool = ctx.staking_pool.data;
    let share = sol_claim_amount(ctx);
    if claim_refusal(pool, ctx.user_stake.data, clock) is Some {
        claim_refusal(pool, ctx.user_stake.data, clock)
    } else if share is None {
        Some(StakingError::MathOverflow)
    } else if ctx.staking_pool.lamports < share.unwrap() || pool.sol_rewards_unclaimed
        < share.unwrap() {
        Some(StakingError::InsufficientBalance)
    } else if ctx.user.lamports + share.unwrap() > u64::MAX || pool.sol_rewards_available
        < share.unwrap() {
        Some(StakingError::MathOverflow)
    } else {
        None
    }
}

/// The accounts after the native reward was claimed: the share has moved
/// from the pool's balance to the staker's, and is no longer set aside nor
/// left of the balance at the stop.
pub open spec fn claim_sol_rewards_accounts(ctx: ClaimSolRewards, clock: Clock) -> ClaimSolRewards {
    let pool = ctx.staking_pool.data;
    let share = sol_claim_amount(ctx).unwrap();
    ClaimSolRewards {
        staking_pool: Account {
            lamports: (ctx.staking_pool.lamports - share) as u64,
            data: StakingPool {
                sol_rewards_available: (pool.sol_rewards_available - share) as u64,
                sol_rewards_unclaimed: (pool.sol_rewards_unclaimed - share) as u64,
                global_sequence: clock.slot,
                ..pool
            },
            ..ctx.staking_pool
        },
        user_stake: Account {
            data: claimed_user(pool, ctx.user_stake.data, clock),
            ..ctx.user_stake
        },
        user: Signer { lamports: (ctx.user.lamports + share) as u64, ..ctx.user },
    }
}

/// Pays the signing staker their share of the native reward for the current
/// epoch, once: a share of the balance as it stood when the epoch was
/// stopped, taken out of what is set aside now, and refused where the
/// claims of the epoch would come to more than that balance.
pub fn claim_sol_rewards(ctx: &mut ClaimSolRewards, clock: Clock) -> (result: Result<
    SolRewardsClaimed,
    StakingError,
>)
    ensures
        match result {
            Ok(event) => {
                &&& claim_sol_rewards_rejection(*old(ctx), clock) is None
                &&& *final(ctx) == claim_sol_rewards_accounts(*old(ctx), clock)
                &&& Some(event.amount) == reward_share(
                    old(ctx).staking_pool.data.sol_rewards_at_stop,
                    old(ctx).user_stake.data.weighted_stake,
                    old(ctx).staking_pool.data.total_weighted_stake,
                )
                &&& event.amount <= old(ctx).staking_pool.data.sol_rewards_unclaimed
                &&& event == (SolRewardsClaimed {
                    pool: old(ctx).staking_pool.key,
                    user: old(ctx).user.key,
                    amount: sol_claim_amount(*old(ctx)).unwrap(),
                    epoch: old(ctx).staking_pool.data.current_distribution_epoch,
                    timestamp: clock.unix_timestamp,
                })
            },
            Err(error) => {
                &&& claim_sol_rewards_rejection(*old(ctx), clock) == Some(error)
                &&& *final(ctx) == *old(ctx)
            },
        },
{
    let pool = ctx.staking_pool.data;
    let user = ctx.user_stake.data;
    match check_claim(&pool, &user, clock) {
        Ok(_) => {},
        Err(error) => {
            return Err(error);
        },
    }
    let share: u64 = match calculate_reward_share(
        pool.sol_rewards_at_stop,
        user.weighted_stake,
        pool.total_weighted_stake,
    ) {
        Some(share) => share,
        None => {
            return Err(StakingError::MathOverflow);
        },
    };
    if ctx.staking_pool.lamports < share || pool.sol_rewards_unclaimed < share {
        return Err(StakingError::InsufficientBalance);
    }
    let user_lamports: u64 = match ctx.user.lamports.checked_add(share) {
        Some(sum) => sum,
        None => {
            return Err(StakingError::MathOverflow);
        },
    };
    let available: u64 = match pool.sol_rewards_available.checked_sub(share) {
        Some(rest) => rest,
        None => {
            return Err(StakingError::MathOverflow);
        },
    };
    ctx.staking_pool.lamports = ctx.staking_pool.lamports - share;
    ctx.user.lamports = user_lamports;
    ctx.staking_pool.data = StakingPool {
        sol_rewards_available: available,
        sol_rewards_unclaimed: pool.sol_rewards_unclaimed - share,
        global_sequence: clock.slot,
        ..pool
    };
    ctx.user_stake.data = UserStake {
        has_claimed_epoch: pool.current_distribution_epoch,
        last_action_sequence: clock.slot,
        ..user
    };
    Ok(
        SolRewardsClaimed {
            pool: ctx.staking_pool.key,
            user: ctx.user.key,
            amount: share,
            epoch: pool.current_distribution_epoch,
            timestamp: clock.unix_timestamp,
        },
    )
}

/// What a claim of a token reward pays: the staker's share of what the
/// reward vault holds when the claim is made. The pool keeps no book of its
/// token vaults, which are as many as there are reward tokens, so no balance
/// from the stop is on record for them: a claim made after another is a
/// share of what that one left in the vault.
pub open spec fn spl_claim_amount(ctx: ClaimSplRewards) -> Option<u64> {
    reward_share(
        ctx.reward_vault.data.amount,
        ctx.user_stake.data.weighted_stake,
        ctx.staking_pool.data.total_weighted_stake,
    )
}

/// The first reason for which a claim of a token reward is refused; none
/// where it is accepted.
pub open spec fn claim_spl_rewards_rejection(ctx: ClaimSplRewards, clock: Clock) -> Option<
    StakingError,
> {
    let pool = ctx.staking_pool.data;
    let share = spl_claim_amount(ctx);
    if ctx.user_reward_account.data.mint != ctx.reward_vault.data.mint {
        Some(StakingError::InvalidTokenMint)
    } else if ctx.user_reward_account.data.owner != ctx.user.key {
        Some(StakingError::Unauthorized)
    } else if claim_refusal(pool, ctx.user_stake.data, clock) is Some {
        claim_refusal(pool, ctx.user_stake.data, clock)
    } else if share is None {
        Some(StakingError::MathOverflow)
    } else if ctx.reward_vault.data.amount < share.unwrap() {
        Some(StakingError::InsufficientBalance)
    } else {
        None
    }
}

/// The accounts after a token reward was claimed.
pub open spec fn claim_spl_rewards_accounts(ctx: ClaimSplRewards, clock: Clock) -> ClaimSplRewards {
    let pool = ctx.staking_pool.data;
    ClaimSplRewards {
        staking_pool: Account {
            data: StakingPool { global_sequence: clock.slot, ..pool },
            ..ctx.staking_pool
        },
        user_stake: Account {
            data: claimed_user(pool, ctx.user_stake.data, clock),
            ..ctx.user_stake
        },
        ..ctx
    }
}

/// What is reported of an accepted claim of a token reward, and the tokens
/// to move for it, if any: the share, from the reward vault, which is its
/// own authority, to the staker's account of that token.
pub open spec fn claim_spl_rewards_receipt(ctx: ClaimSplRewards, clock: Clock) -> (
    SplRewardsClaimed,
    Option<Transfer>,
) {
    let share = spl_claim_amount(ctx).unwrap();
    (
        SplRewardsClaimed {
            pool: ctx.staking_pool.key,
            user: ctx.user.key,
            token_mint: ctx.reward_vault.data.mint,
            amount: share,
            epoch: ctx.staking_pool.data.current_distribution_epoch,
            timestamp: clock.unix_timestamp,
        },
        if share > 0 {
            Some(
                Transfer {
                    from: ctx.reward_vault.key,
                    to: ctx.user_reward_account.key,
                    authority: ctx.reward_vault.key,
                    amount: share,
                },
            )
        } else {
            None
        },
    )
}

/// Grants the signing staker their share of a token reward for the current
/// epoch, once: a share of what the vault holds at the time of the claim,
/// and never more than it holds.
pub fn claim_spl_rewards(ctx: &mut ClaimSplRewards, clock: Clock) -> (result: Result<
    (SplRewardsClaimed, Option<Transfer>),
    StakingError,
>)
    ensures
        match result {
            Ok(receipt) => {
                &&& claim_spl_rewards_rejection(*old(ctx), clock) is None
                &&& *final(ctx) == claim_spl_rewards_accounts(*old(ctx), clock)
                &&& receipt == claim_spl_rewards_receipt(*old(ctx), clock)
                &&& Some(receipt.0.amount) == reward_share(
                    old(ctx).reward_vault.data.amount,
                    old(ctx).user_stake.data.weighted_stake,
                    old(ctx).staking_pool.data.total_weighted_stake,
                )
                &&& receipt.0.amount <= old(ctx).reward_vault.data.amount
            },
            Err(error) => {
                &&& claim_spl_rewards_rejection(*old(ctx), clock) == Some(error)
                &&& *final(ctx) == *old(ctx)
            },
        },
{
    let pool = ctx.staking_pool.data;
    let user = ctx.user_stake.data;
    if ctx.user_reward_account.data.mint != ctx.reward_vault.data.mint {
        return Err(StakingError::InvalidTokenMint);
    }
    if ctx.user_reward_account.data.owner != ctx.user.key {
        return Err(StakingError::Unauthorized);
    }
    match check_claim(&pool, &user, clock) {
        Ok(_) => {},
        Err(error) => {
            return Err(error);
        },
    }
    let share: u64 = match calculate_reward_share(
        ctx.reward_vault.data.amount,
        user.weighted_stake,
        pool.total_weighted_stake,
    ) {
        Some(share) => share,
        None => {
            return Err(StakingError::MathOverflow);
        },
    };
    if ctx.reward_vault.data.amount < share {
        return Err(StakingError::InsufficientBalance);
    }
    ctx.staking_pool.data = StakingPool { global_sequence: clock.slot, ..pool };
    ctx.user_stake.data = UserStake {
        has_claimed_epoch: pool.current_distribution_epoch,
        last_action_sequence: clock.slot,
        ..user
    };
    let transfer: Option<Transfer> = if share > 0 {
        Some(
            Transfer {
                from: ctx.reward_vault.key,
                to: ctx.user_reward_account.key,
                authority: ctx.reward_vault.key,
                amount: share,
            },
        )
    } else {
        None
    };
    Ok(
        (
            SplRewardsClaimed {
                pool: ctx.staking_pool.key,
                user: ctx.user.key,
                token_mint: ctx.reward_vault.data.mint,
                amount: share,
                epoch: pool.current_distribution_epoch,
                timestamp: clock.unix_timestamp,
            },
            transfer,
        ),
    )
}

/// The first reason for which a deposit of native reward is refused; none
/// where it is accepted.
pub open spec fn deposit_sol_rewards_rejection(ctx: DepositSolRewards, amount: u64) -> Option<
    StakingError,
> {
    if ctx.staking_pool.data.authority != ctx.authority.key {
        Some(StakingError::Unauthorized)
    } else if amount == 0 {
        Some(StakingError::InvalidAmount)
    } else if ctx.authority.lamports < amount {
        Some(StakingError::InsufficientBalance)
    } else if ctx.staking_pool.lamports + amount > u64::MAX
        || ctx.staking_pool.data.sol_rewards_available + amount > u64::MAX {
        Some(StakingError::MathOverflow)
    } else {
        None
    }
}

/// The accounts after `amount` of native reward was deposited.
pub open spec fn deposit_sol_rewards_accounts(
    ctx: DepositSolRewards,
    amount: u64,
    clock: Clock,
) -> DepositSolRewards {
    DepositSolRewards {
        staking_pool: Account {
            lamports: (ctx.staking_pool.lamports + amount) as u64,
            data: StakingPool {
                sol_rewards_available: (ctx.staking_pool.data.sol_rewards_available
                    + amount) as u64,
                global_sequence: clock.slot,
                ..ctx.staking_pool.data
            },
            ..ctx.staking_pool
        },
        authority: Signer {
            lamports: (ctx.authority.lamports - amount) as u64,
            ..ctx.authority
        },
    }
}

/// Moves `amount` of native balance from the authority to the pool and sets
/// it aside for rewards.
pub fn deposit_sol_rewards(ctx: &mut DepositSolRewards, amount: u64, clock: Clock) -> (result:
    Result<(), StakingError>)
    ensures
        match result {
            Ok(_) => {
                &&& deposit_sol_rewards_rejection(*old(ctx), amount) is None
                &&& *final(ctx) == deposit_sol_rewards_accounts(*old(ctx), amount, clock)
            },
            Err(error) => {
                &&& deposit_sol_rewards_rejection(*old(ctx), amount) == Some(error)
                &&& *final(ctx) == *old(ctx)
            },
        },
{
    let pool = ctx.staking_pool.data;
    if pool.authority != ctx.authority.key {
        return Err(StakingError::Unauthorized);
    }
    if amount == 0 {
        return Err(StakingError::InvalidAmount);
    }
    let authority_lamports: u64 = match ctx.authority.lamports.checked_sub(amount) {
        Some(rest) => rest,
        None => {
            return Err(StakingError::InsufficientBalance);
        },
    };
    let pool_lamports: u64 = match ctx.staking_pool.lamports.checked_add(amount) {
        Some(sum) => sum,
        None => {
            return Err(StakingError::MathOverflow);
        },
    };
    let available: u64 = match pool.sol_rewards_available.checked_add(amount) {
        Some(sum) => sum,
        None => {
            return Err(StakingError::MathOverflow);
        },
    };
    ctx.authority.lamports = authority_lamports;
    ctx.staking_pool.lamports = pool_lamports;
    ctx.staking_pool.data = StakingPool {
        sol_rewards_available: available,
        global_sequence: clock.slot,
        ..pool
    };
    Ok(())
}

/// The first reason for which a deposit of a token reward is refused; none
/// where it is accepted.
pub open spec fn deposit_spl_rewards_rejection(ctx: DepositSplRewards, amount: u64) -> Option<
    StakingError,
> {
    if ctx.staking_pool.data.authority != ctx.authority.key {
        Some(StakingError::Unauthorized)
    } else if ctx.authority_token_account.data.mint != ctx.reward_vault.data.mint {
        Some(StakingError::InvalidTokenMint)
    } else if ctx.authority_token_account.data.owner != ctx.authority.key {
        Some(StakingError::Unauthorized)
    } else if amount == 0 {
        Some(StakingError::InvalidAmount)
    } else {
        None
    }
}

/// Asks for `amount` of a reward token to be moved from the authority's
/// account into the pool's vault of that token. No record changes.
pub fn deposit_spl_rewards(ctx: &DepositSplRewards, amount: u64) -> (result: Result<
    Transfer,
    StakingError,
>)
    ensures
        match result {
            Ok(transfer) => {
                &&& deposit_spl_rewards_rejection(*ctx, amount) is None
                &&& transfer == (Transfer {
                    from: ctx.authority_token_account.key,
                    to: ctx.reward_vault.key,
                    authority: ctx.authority.key,
                    amount,
                })
            },
            Err(error) => deposit_spl_rewards_rejection(*ctx, amount) == Some(error),
        },
{
    if ctx.staking_pool.data.authority != ctx.authority.key {
        return Err(StakingError::Unauthorized);
    }
    if ctx.authority_token_account.data.mint != ctx.reward_vault.data.mint {
        return Err(StakingError::InvalidTokenMint);
    }
    if ctx.authority_token_account.data.owner != ctx.authority.key {
        return Err(StakingError::Unauthorized);
    }
    if amount == 0 {
        return Err(StakingError::InvalidAmount);
    }
    Ok(
        Transfer {
            from: ctx.authority_token_account.key,
            to: ctx.reward_vault.key,
            authority: ctx.authority.key,
            amount,
        },
    )
}

/// Accepts a new reward vault for the pool where the pool's authority asks
/// for it. The vault itself is made by the ledger; no record changes.
pub fn create_reward_vault(ctx: &CreateRewardVault, reward_token_mint: Pubkey, bump: u8) -> (result:
    Result<(), StakingError>)
    ensures
        result == if ctx.staking_pool.data.authority == ctx.authority.key {
            Ok::<(), StakingError>(())
        } else {
            Err::<(), StakingError>(StakingError::Unauthorized)
        },
{
    if ctx.staking_pool.data.authority != ctx.authority.key {
        return Err(StakingError::Unauthorized);
    }
    Ok(())
}

/// The sum of the weights.
pub open spec fn weights_total(weights: Seq<u64>) -> nat
    decreases weights.len(),
{
    if weights.len() == 0 {
        0
    } else {
        weights_total(weights.drop_last()) + weights.last() as nat
    }
}

/// The sum of the shares of `balance` that the weights stand for in a pool
/// of weight `total`.
pub open spec fn shares_total(balance: u64, weights: Seq<u64>, total: u64) -> nat
    decreases weights.len(),
{
    if weights.len() == 0 {
        0
    } else {
        shares_total(balance, weights.drop_last(), total) + reward_share(
            balance,
            weights.last(),
            total,
        ).unwrap() as nat
    }
}

/// Each share, times the pool's weight, is at most the balance times the
/// staker's weight; so it is with their sums.
proof fn lemma_shares_times_total(balance: u64, weights: Seq<u64>, total: u64)
    requires
        total > 0,
        weights_total(weights) <= total,
    ensures
        shares_total(balance, weights, total) * total <= balance * weights_total(weights),
        forall|i: int|
            0 <= i < weights.len() ==> (#[trigger] reward_share(balance, weights[i], total))
                is Some,
    decreases weights.len(),
{
    if weights.len() > 0 {
        let rest = weights.drop_last();
        let last = weights.last();
        lemma_shares_times_total(balance, rest, total);
        assert forall|i: int| 0 <= i < weights.len() implies (#[trigger] reward_share(
            balance,
            weights[i],
            total,
        )) is Some by {
            if i < rest.len() {
                assert(weights[i] == rest[i]);
            } else {
                crate::math::lemma_mul_div_within(balance, last, total);
            }
        }
        crate::math::lemma_mul_div_within(balance, last, total);
        let share = reward_share(balance, last, total).unwrap();
        let before = shares_total(balance, rest, total);
        let weight_before = weights_total(rest);
        assert(share * total <= balance * last) by (nonlinear_arith)
            requires
                total > 0,
                balance >= 0,
                last >= 0,
                share == 0 || share == (balance * last) / (total as int),
        ;
        assert((before + share) * total <= balance * (weight_before + last)) by (nonlinear_arith)
            requires
                before * total <= balance * weight_before,
                share * total <= balance * last,
        ;
        assert(shares_total(balance, weights, total) == before + share);
        assert(weights_total(weights) == weight_before + last);
    } else {
        assert(shares_total(balance, weights, total) * total == 0) by (nonlinear_arith)
            requires
                shares_total(balance, weights, total) == 0,
        ;
        assert(balance * weights_total(weights) == 0) by (nonlinear_arith)
            requires
                weights_total(weights) == 0,
        ;
    }
}

/// Settlement is conservative: the shares of stakers whose weights add up
/// to no more than the pool's weight add up to no more than the balance
/// they are taken of. What rounding leaves over stays in the pool.
pub proof fn lemma_shares_within_balance(balance: u64, weights: Seq<u64>, total: u64)
    requires
        weights_total(weights) <= total,
    ensures
        forall|i: int|
            0 <= i < weights.len() ==> (#[trigger] reward_share(balance, weights[i], total))
                is Some,
        shares_total(balance, weights, total) <= balance,
    decreases weights.len(),
{
    if total > 0 {
        lemma_shares_times_total(balance, weights, total);
        let shares = shares_total(balance, weights, total);
        let weight = weights_total(weights);
        assert(shares <= balance) by (nonlinear_arith)
            requires
                shares * total <= balance * weight,
                weight <= total,
                total > 0,
                balance >= 0,
                shares >= 0,
        ;
    } else if weights.len() > 0 {
        lemma_shares_within_balance(balance, weights.drop_last(), total);
    }
}

/// A claim of the native reward, with the accounts it is made on.
pub struct SolClaim {
    pub ctx: ClaimSolRewards,
    pub clock: Clock,
}

/// The pool's account after the claims were made one after the other, each
/// on the pool as the one before left it, and what they paid in all. A
/// refused claim pays nothing.
pub open spec fn after_sol_claims(pool: Account<StakingPool>, claims: Seq<SolClaim>) -> (
    Account<StakingPool>,
    nat,
)
    decreases claims.len(),
{
    if claims.len() == 0 {
        (pool, 0)
    } else {
        let (before, paid) = after_sol_claims(pool, claims.drop_last());
        let accounts = ClaimSolRewards { staking_pool: before, ..claims.last().ctx };
        if claim_sol_rewards_rejection(accounts, claims.last().clock) is None {
            (
                claim_sol_rewards_accounts(accounts, claims.last().clock).staking_pool,
                paid + sol_claim_amount(accounts).unwrap() as nat,
            )
        } else {
            (before, paid)
        }
    }
}

/// Whatever claims are made on a pool, by whomever and however often, what
/// they pay in all is what left the balance set aside for rewards, and so
/// never more than was set aside before the first of them. The balance on
/// record from the stop and the pool's weight, of which every claim is a
/// share, stay as they were.
pub proof fn lemma_sol_claims_within_balance(pool: Account<StakingPool>, claims: Seq<SolClaim>)
    ensures
        after_sol_claims(pool, claims).0.data.sol_rewards_at_stop == pool.data.sol_rewards_at_stop,
        after_sol_claims(pool, claims).0.data.total_weighted_stake
            == pool.data.total_weighted_stake,
        after_sol_claims(pool, claims).1 + after_sol_claims(
            pool,
            claims,
        ).0.data.sol_rewards_available == pool.data.sol_rewards_available,
        after_sol_claims(pool, claims).1 + after_sol_claims(pool, claims).0.lamports
            == pool.lamports,
        after_sol_claims(pool, claims).1 <= pool.data.sol_rewards_available,
        after_sol_claims(pool, claims).1 + after_sol_claims(
            pool,
            claims,
        ).0.data.sol_rewards_unclaimed == pool.data.sol_rewards_unclaimed,
    decreases claims.len(),
{
    if claims.len() > 0 {
        lemma_sol_claims_within_balance(pool, claims.drop_last());
    }
}

/// A claim of a token reward never asks for more than the vault holds.
pub proof fn lemma_spl_claim_within_vault(ctx: ClaimSplRewards, clock: Clock)
    requires
        claim_spl_rewards_rejection(ctx, clock) is None,
    ensures
        claim_spl_rewards_receipt(ctx, clock).0.amount <= ctx.reward_vault.data.amount,
        match claim_spl_rewards_receipt(ctx, clock).1 {
            Some(transfer) => 0 < transfer.amount <= ctx.reward_vault.data.amount,
            None => claim_spl_rewards_receipt(ctx, clock).0.amount == 0,
        },
{
}

/// Whether each of the claims, made one after the other on the pool as the
/// one before left it, is accepted.
pub open spec fn all_claims_accepted(pool: Account<StakingPool>, claims: Seq<SolClaim>) -> bool
    decreases claims.len(),
{
    if claims.len() == 0 {
        true
    } else {
        &&& all_claims_accepted(pool, claims.drop_last())
        &&& claim_sol_rewards_rejection(
            ClaimSolRewards {
                staking_pool: after_sol_claims(pool, claims.drop_last()).0,
                ..claims.last().ctx
            },
            claims.last().clock,
        ) is None
    }
}

/// The weights of the stakers who make the claims.
pub open spec fn claim_weights(claims: Seq<SolClaim>) -> Seq<u64> {
    Seq::new(claims.len(), |i: int| claims[i].ctx.user_stake.data.weighted_stake)
}

/// Every claim is a share of the balance as it stood at the stop: claims
/// that are accepted one after the other pay, in all, the sum of the
/// stakers' shares of that one balance. Where the stakers' weights add up to
/// no more than the pool's, they pay no more than the balance; what
/// rounding leaves over stays in the pool.
pub proof fn lemma_claims_are_shares_of_balance_at_stop(
    pool: Account<StakingPool>,
    claims: Seq<SolClaim>,
)
    requires
        all_claims_accepted(pool, claims),
    ensures
        after_sol_claims(pool, claims).1 == shares_total(
            pool.data.sol_rewards_at_stop,
            claim_weights(claims),
            pool.data.total_weighted_stake,
        ),
        weights_total(claim_weights(claims)) <= pool.data.total_weighted_stake
            ==> after_sol_claims(pool, claims).1 <= pool.data.sol_rewards_at_stop,
    decreases claims.len(),
{
    if claims.len() > 0 {
        let rest = claims.drop_last();
        lemma_claims_are_shares_of_balance_at_stop(pool, rest);
        lemma_sol_claims_within_balance(pool, rest);
        assert(claim_weights(claims).drop_last() =~= claim_weights(rest));
        assert(claim_weights(claims).last() == claims.last().ctx.user_stake.data.weighted_stake);
    } else {
        assert(claim_weights(claims) =~= Seq::<u64>::empty());
    }
    if weights_total(claim_weights(claims)) <= pool.data.total_weighted_stake {
        lemma_shares_within_balance(
            pool.data.sol_rewards_at_stop,
            claim_weights(claims),
            pool.data.total_weighted_stake,
        );
    }
}

/// A claim after a stop is a share of what was set aside when the epoch was
/// stopped, by the weight that the stop fixed.
pub proof fn lemma_claim_is_share_of_balance_at_stop(
    stop: StopDistribution,
    stop_clock: Clock,
    claim: ClaimSolRewards,
    clock: Clock,
)
    requires
        stop_distribution_rejection(stop, stop_clock) is None,
        claim.staking_pool.data == stop_distribution_accounts(stop, stop_clock).staking_pool.data,
        claim_sol_rewards_rejection(claim, clock) is None,
    ensures
        sol_claim_amount(claim) == reward_share(
            stop.staking_pool.data.sol_rewards_available,
            claim.user_stake.data.weighted_stake,
            final_weight(stop.staking_pool.data, stop_clock.unix_timestamp).unwrap(),
        ),
{
}

} // verus!
