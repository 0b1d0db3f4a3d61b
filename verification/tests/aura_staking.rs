use aura_programs::accounts::{Account, Clock, Signer, TokenAccount, Transfer};
use aura_programs::aura_staking::admin::{
    admin_withdraw_rewards, admin_withdraw_stake, deposit_rewards, initialize_pool,
    set_pool_status, update_reward_rate,
};
use aura_programs::aura_staking::contexts::{
    AdminWithdrawRewards, AdminWithdrawStake, ClaimRewards, DepositRewards, InitializePool,
    InitializePoolBumps, SetPoolStatus, Stake, Unstake, UpdateRewardRate,
};
use aura_programs::aura_staking::seeds::{reward_vault_signer_seeds, stake_vault_signer_seeds};
use aura_programs::aura_staking::staking::{calculate_pending_rewards, claim_rewards, stake, unstake};
use aura_programs::aura_staking::state::{StakingError, StakingPool, UserStake};
use aura_programs::pubkey::Pubkey;

const DAY: i64 = 86_400;

fn key(tag: u8) -> Pubkey {
    Pubkey::new_from_array([tag; 32])
}

fn at(unix_timestamp: i64) -> Clock {
    Clock { slot: 1, unix_timestamp }
}

fn admin() -> Signer {
    Signer { key: key(9), lamports: 0 }
}

fn mint() -> Pubkey {
    key(8)
}

fn wallet(address: u8, owner: Pubkey) -> Account<TokenAccount> {
    Account { key: key(address), lamports: 0, data: TokenAccount { mint: mint(), owner, amount: 0 } }
}

/// A pool that pays 27 basis points a day, set up at time 1000.
fn pool() -> Account<StakingPool> {
    let blank = StakingPool {
        authority: Pubkey::default(),
        aura_mint: Pubkey::default(),
        total_staked: 0,
        reward_rate_per_day: 0,
        bump: 0,
        vault_bump: 0,
        reward_vault_bump: 0,
        total_rewards_distributed: 0,
        created_at: 0,
        paused: true,
    };
    let mut ctx = InitializePool {
        staking_pool: Account { key: key(1), lamports: 0, data: blank },
        aura_mint: mint(),
        bumps: InitializePoolBumps { staking_pool: 255, stake_vault: 254, reward_vault: 253 },
    };
    initialize_pool(&mut ctx, admin().key, 27, at(1000));
    ctx.staking_pool
}

fn record() -> Account<UserStake> {
    Account {
        key: key(21),
        lamports: 0,
        data: UserStake {
            owner: Pubkey::default(),
            amount: 0,
            pending_rewards: 0,
            total_rewards_claimed: 0,
            stake_start_time: 0,
            last_update_time: 0,
        },
    }
}

fn stake_ctx(staking_pool: Account<StakingPool>, user_stake: Account<UserStake>) -> Stake {
    Stake {
        staking_pool,
        user_stake,
        stake_vault: wallet(5, key(5)),
        user_token_account: wallet(22, key(20)),
        user: Signer { key: key(20), lamports: 0 },
    }
}

fn unstake_ctx(staking_pool: Account<StakingPool>, user_stake: Account<UserStake>) -> Unstake {
    Unstake {
        staking_pool,
        user_stake,
        stake_vault: wallet(5, key(5)),
        reward_vault: wallet(6, key(6)),
        user_token_account: wallet(22, key(20)),
        user: Signer { key: key(20), lamports: 0 },
    }
}

fn claim_ctx(staking_pool: Account<StakingPool>, user_stake: Account<UserStake>) -> ClaimRewards {
    ClaimRewards {
        staking_pool,
        user_stake,
        reward_vault: wallet(6, key(6)),
        user_token_account: wallet(22, key(20)),
        user: Signer { key: key(20), lamports: 0 },
    }
}

/// A staker with 100_000 staked since time 1000.
fn staked() -> Stake {
    let mut ctx = stake_ctx(pool(), record());
    stake(&mut ctx, 100_000, at(1000)).unwrap();
    ctx
}

#[test]
fn fixed_rate_pool_is_set_up() {
    assert_eq!(
        pool().data,
        StakingPool {
            authority: admin().key,
            aura_mint: mint(),
            total_staked: 0,
            reward_rate_per_day: 27,
            bump: 255,
            vault_bump: 254,
            reward_vault_bump: 253,
            total_rewards_distributed: 0,
            created_at: 1000,
            paused: false,
        }
    );
}

#[test]
fn first_stake_starts_the_clock() {
    let ctx = staked();
    assert_eq!(
        ctx.user_stake.data,
        UserStake {
            owner: key(20),
            amount: 100_000,
            pending_rewards: 0,
            total_rewards_claimed: 0,
            stake_start_time: 1000,
            last_update_time: 1000,
        }
    );
    assert_eq!(ctx.staking_pool.data.total_staked, 100_000);
}

#[test]
fn rewards_count_full_days_at_the_daily_rate() {
    let ctx = staked();
    let user = ctx.user_stake.data;
    let pool = ctx.staking_pool.data;
    assert_eq!(calculate_pending_rewards(&user, &pool, 1000 + DAY - 1), Ok(0));
    // 100_000 * 27 * 1 / 10_000
    assert_eq!(calculate_pending_rewards(&user, &pool, 1000 + DAY), Ok(270));
    assert_eq!(calculate_pending_rewards(&user, &pool, 1000 + 10 * DAY + 5), Ok(2_700));
    assert_eq!(calculate_pending_rewards(&user, &pool, 999), Err(StakingError::MathOverflow));
    assert_eq!(calculate_pending_rewards(&record().data, &pool, 5 * DAY), Ok(0));
    let mut never_updated = user;
    never_updated.last_update_time = 0;
    assert_eq!(calculate_pending_rewards(&never_updated, &pool, 5 * DAY), Ok(0));
    // The product is formed in 128 bits; only a result that does not fit fails.
    let mut rich = user;
    rich.amount = u64::MAX;
    let mut generous = pool;
    generous.reward_rate_per_day = 10_000;
    assert_eq!(calculate_pending_rewards(&rich, &generous, 1000 + DAY), Ok(u64::MAX));
    assert_eq!(
        calculate_pending_rewards(&rich, &generous, 1000 + 2 * DAY),
        Err(StakingError::MathOverflow)
    );
}

#[test]
fn a_second_stake_counts_the_rewards_earned_so_far() {
    let first = staked();
    let mut ctx = stake_ctx(first.staking_pool, first.user_stake);
    let transfer = stake(&mut ctx, 50_000, at(1000 + 2 * DAY)).unwrap();
    assert_eq!(
        transfer,
        Transfer { from: key(22), to: key(5), authority: key(20), amount: 50_000 }
    );
    assert_eq!(ctx.user_stake.data.pending_rewards, 540);
    assert_eq!(ctx.user_stake.data.amount, 150_000);
    assert_eq!(ctx.user_stake.data.stake_start_time, 1000);
    assert_eq!(ctx.user_stake.data.last_update_time, 1000 + 2 * DAY);
    assert_eq!(ctx.staking_pool.data.total_staked, 150_000);
}

#[test]
fn fixed_rate_stake_refusals() {
    let mut ctx = stake_ctx(pool(), record());
    assert_eq!(stake(&mut ctx, 0, at(1000)), Err(StakingError::InvalidAmount));
    ctx.staking_pool.data.paused = true;
    assert_eq!(stake(&mut ctx, 1, at(1000)), Err(StakingError::PoolPaused));
    ctx.stake_vault.data.mint = key(99);
    assert_eq!(stake(&mut ctx, 0, at(1000)), Err(StakingError::Unauthorized));

    let mut ctx = stake_ctx(pool(), record());
    ctx.user_token_account.data.mint = key(99);
    assert_eq!(stake(&mut ctx, 1, at(1000)), Err(StakingError::Unauthorized));
    let mut ctx = stake_ctx(pool(), record());
    ctx.user_token_account.data.owner = key(99);
    assert_eq!(stake(&mut ctx, 1, at(1000)), Err(StakingError::Unauthorized));

    let mut ctx = staked();
    let before = ctx;
    assert_eq!(stake(&mut ctx, u64::MAX, at(1000)), Err(StakingError::MathOverflow));
    assert_eq!(stake(&mut ctx, 1, at(999)), Err(StakingError::MathOverflow));
    assert_eq!(ctx, before);
}

#[test]
fn early_unstake_costs_a_fee_and_part_of_the_rewards() {
    let first = staked();
    let mut ctx = unstake_ctx(first.staking_pool, first.user_stake);
    let (back, rewards) = unstake(&mut ctx, 40_000, at(1000 + 10 * DAY)).unwrap();
    // Rewards 2_700, penalty 5% = 135; fee 40_000 * 50 / 10_000 = 200.
    assert_eq!(
        back,
        Transfer { from: key(5), to: key(22), authority: key(5), amount: 39_800 }
    );
    assert_eq!(
        rewards,
        Some(Transfer { from: key(6), to: key(22), authority: key(6), amount: 2_565 })
    );
    assert_eq!(
        ctx.user_stake.data,
        UserStake {
            owner: key(20),
            amount: 60_000,
            pending_rewards: 0,
            total_rewards_claimed: 2_565,
            stake_start_time: 1000,
            last_update_time: 1000 + 10 * DAY,
        }
    );
    assert_eq!(ctx.staking_pool.data.total_staked, 60_000);
    assert_eq!(ctx.staking_pool.data.total_rewards_distributed, 2_565);
}

#[test]
fn unstake_after_thirty_days_keeps_all_rewards() {
    let first = staked();
    let mut early = unstake_ctx(first.staking_pool, first.user_stake);
    let (_, rewards) = unstake(&mut early, 100_000, at(1000 + 30 * DAY - 1)).unwrap();
    // 29 full days: 7_830, less 5% rounded down (391).
    assert_eq!(rewards.unwrap().amount, 7_830 - 391);

    let mut ctx = unstake_ctx(first.staking_pool, first.user_stake);
    let (back, rewards) = unstake(&mut ctx, 100_000, at(1000 + 30 * DAY)).unwrap();
    assert_eq!(back.amount, 99_500);
    assert_eq!(rewards.unwrap().amount, 8_100);
    // Fully unstaked: the stake's clock is reset.
    assert_eq!(ctx.user_stake.data.amount, 0);
    assert_eq!(ctx.user_stake.data.stake_start_time, 0);
    assert_eq!(ctx.staking_pool.data.total_staked, 0);
}

#[test]
fn unstake_within_the_first_day_pays_no_rewards() {
    let first = staked();
    let mut ctx = unstake_ctx(first.staking_pool, first.user_stake);
    let (back, rewards) = unstake(&mut ctx, 199, at(1000 + 5)).unwrap();
    assert_eq!(back.amount, 199);
    assert_eq!(rewards, None);
}

#[test]
fn fixed_rate_unstake_refusals() {
    let first = staked();
    let base = unstake_ctx(first.staking_pool, first.user_stake);

    let mut ctx = base;
    assert_eq!(unstake(&mut ctx, 0, at(2000)), Err(StakingError::InvalidAmount));
    assert_eq!(unstake(&mut ctx, 100_001, at(2000)), Err(StakingError::InsufficientStake));
    assert_eq!(unstake(&mut ctx, 1, at(999)), Err(StakingError::MathOverflow));
    ctx.staking_pool.data.paused = true;
    assert_eq!(unstake(&mut ctx, 100_001, at(2000)), Err(StakingError::PoolPaused));
    ctx.user_stake.data.owner = key(30);
    assert_eq!(unstake(&mut ctx, 0, at(2000)), Err(StakingError::Unauthorized));

    let mut ctx = base;
    ctx.user_token_account.data.owner = key(30);
    assert_eq!(unstake(&mut ctx, 1, at(2000)), Err(StakingError::Unauthorized));
    let mut ctx = base;
    ctx.user_token_account.data.mint = key(30);
    assert_eq!(unstake(&mut ctx, 1, at(2000)), Err(StakingError::Unauthorized));

    let mut ctx = base;
    ctx.staking_pool.data.total_staked = 5;
    let before = ctx;
    assert_eq!(unstake(&mut ctx, 6, at(2000)), Err(StakingError::MathOverflow));
    assert_eq!(ctx, before);
}

#[test]
fn rewards_are_claimed_without_unstaking() {
    let first = staked();
    let mut ctx = claim_ctx(first.staking_pool, first.user_stake);
    assert_eq!(claim_rewards(&mut ctx, at(1000 + DAY - 1)), Err(StakingError::NoRewardsToClaim));
    let transfer = claim_rewards(&mut ctx, at(1000 + 3 * DAY)).unwrap();
    assert_eq!(
        transfer,
        Transfer { from: key(6), to: key(22), authority: key(6), amount: 810 }
    );
    assert_eq!(ctx.user_stake.data.amount, 100_000);
    assert_eq!(ctx.user_stake.data.pending_rewards, 0);
    assert_eq!(ctx.user_stake.data.total_rewards_claimed, 810);
    assert_eq!(ctx.user_stake.data.last_update_time, 1000 + 3 * DAY);
    assert_eq!(ctx.staking_pool.data.total_rewards_distributed, 810);
    assert_eq!(claim_rewards(&mut ctx, at(1000 + 3 * DAY)), Err(StakingError::NoRewardsToClaim));
}

#[test]
fn fixed_rate_claim_refusals() {
    let first = staked();
    let base = claim_ctx(first.staking_pool, first.user_stake);
    let mut ctx = base;
    ctx.user_stake.data.amount = 0;
    assert_eq!(claim_rewards(&mut ctx, at(1000 + DAY)), Err(StakingError::NoActiveStake));
    ctx.staking_pool.data.paused = true;
    assert_eq!(claim_rewards(&mut ctx, at(1000 + DAY)), Err(StakingError::PoolPaused));
    ctx.user_stake.data.owner = key(30);
    assert_eq!(claim_rewards(&mut ctx, at(1000 + DAY)), Err(StakingError::Unauthorized));

    let mut ctx = base;
    assert_eq!(claim_rewards(&mut ctx, at(999)), Err(StakingError::MathOverflow));
    ctx.user_stake.data.total_rewards_claimed = u64::MAX;
    let before = ctx;
    assert_eq!(claim_rewards(&mut ctx, at(1000 + DAY)), Err(StakingError::MathOverflow));
    assert_eq!(ctx, before);
}

#[test]
fn the_authority_funds_and_drains_the_vaults() {
    let deposit = DepositRewards {
        staking_pool: pool(),
        reward_vault: wallet(6, key(6)),
        admin_token_account: wallet(10, admin().key),
        admin: admin(),
    };
    assert_eq!(
        deposit_rewards(&deposit, 500),
        Ok(Transfer { from: key(10), to: key(6), authority: admin().key, amount: 500 })
    );
    assert_eq!(deposit_rewards(&deposit, 0), Err(StakingError::InvalidAmount));
    let mut wrong = deposit;
    wrong.admin = Signer { key: key(66), lamports: 0 };
    assert_eq!(deposit_rewards(&wrong, 0), Err(StakingError::Unauthorized));

    let mut staking_pool = pool();
    staking_pool.data.total_staked = 300;
    let mut withdraw = AdminWithdrawStake {
        staking_pool,
        stake_vault: wallet(5, key(5)),
        admin_token_account: wallet(10, admin().key),
        admin: admin(),
    };
    assert_eq!(
        admin_withdraw_stake(&mut withdraw, 100),
        Ok(Transfer { from: key(5), to: key(10), authority: key(5), amount: 100 })
    );
    assert_eq!(withdraw.staking_pool.data.total_staked, 200);
    admin_withdraw_stake(&mut withdraw, 1_000).unwrap();
    assert_eq!(withdraw.staking_pool.data.total_staked, 0);
    assert_eq!(admin_withdraw_stake(&mut withdraw, 0), Err(StakingError::InvalidAmount));
    withdraw.admin_token_account.data.owner = key(66);
    assert_eq!(admin_withdraw_stake(&mut withdraw, 1), Err(StakingError::Unauthorized));

    let rewards = AdminWithdrawRewards {
        staking_pool: pool(),
        reward_vault: wallet(6, key(6)),
        admin_token_account: wallet(10, admin().key),
        admin: admin(),
    };
    assert_eq!(
        admin_withdraw_rewards(&rewards, 7),
        Ok(Transfer { from: key(6), to: key(10), authority: key(6), amount: 7 })
    );
    assert_eq!(admin_withdraw_rewards(&rewards, 0), Err(StakingError::InvalidAmount));
    let mut wrong = rewards;
    wrong.admin_token_account.data.mint = key(66);
    assert_eq!(admin_withdraw_rewards(&wrong, 7), Err(StakingError::Unauthorized));
}

#[test]
fn the_authority_sets_rate_and_pause() {
    let mut rate = UpdateRewardRate { staking_pool: pool(), admin: admin() };
    assert_eq!(update_reward_rate(&mut rate, 40), Ok(()));
    assert_eq!(rate.staking_pool.data.reward_rate_per_day, 40);
    rate.admin = Signer { key: key(66), lamports: 0 };
    assert_eq!(update_reward_rate(&mut rate, 50), Err(StakingError::Unauthorized));
    assert_eq!(rate.staking_pool.data.reward_rate_per_day, 40);

    let mut status = SetPoolStatus { staking_pool: pool(), admin: admin() };
    assert_eq!(set_pool_status(&mut status, true), Ok(()));
    assert!(status.staking_pool.data.paused);
    assert_eq!(set_pool_status(&mut status, true), Ok(()));
    assert_eq!(set_pool_status(&mut status, false), Ok(()));
    assert!(!status.staking_pool.data.paused);
    status.admin = Signer { key: key(66), lamports: 0 };
    assert_eq!(set_pool_status(&mut status, true), Err(StakingError::Unauthorized));
    assert!(!status.staking_pool.data.paused);
}

#[test]
fn fixed_rate_vaults_sign_with_label_pool_and_bump() {
    let seeds = stake_vault_signer_seeds(&key(1), 254);
    assert_eq!(seeds, vec![b"stake_vault".to_vec(), vec![1u8; 32], vec![254u8]]);
    let seeds = reward_vault_signer_seeds(&key(1), 253);
    assert_eq!(seeds, vec![b"reward_vault".to_vec(), vec![1u8; 32], vec![253u8]]);
}

#[test]
fn fixed_rate_errors_have_their_messages() {
    assert_eq!(StakingError::InvalidAmount.message(), "Invalid amount provided");
    assert_eq!(StakingError::InsufficientStake.message(), "Insufficient stake balance");
    assert_eq!(StakingError::NoActiveStake.message(), "No active stake found");
    assert_eq!(StakingError::NoRewardsToClaim.message(), "No rewards to claim");
    assert_eq!(StakingError::MathOverflow.message(), "Math overflow occurred");
    assert_eq!(StakingError::PoolPaused.message(), "Pool is currently paused");
    assert_eq!(StakingError::Unauthorized.message(), "Unauthorized access");
}
