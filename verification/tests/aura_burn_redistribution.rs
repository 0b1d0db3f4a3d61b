use aura_programs::accounts::{Account, Clock, Signer, TokenAccount, Transfer};
use aura_programs::aura_burn_redistribution::admin::{
    initialize, pause_program, resume_program, update_tax_rates,
};
use aura_programs::aura_burn_redistribution::contexts::{
    ClaimRewards, DistributeRewards, Initialize, PauseProgram, ResumeProgram, StakeTokens,
    UnstakeTokens, UpdateTaxRates,
};
use aura_programs::aura_burn_redistribution::events::{
    ProgramInitialized, RewardsClaimed, RewardsDistributed, TaxRatesUpdated, TokensStaked,
    TokensUnstaked,
};
use aura_programs::aura_burn_redistribution::rewards::{
    calculate_pending_rewards, claim_rewards, compute_tax, distribute_rewards,
};
use aura_programs::aura_burn_redistribution::seeds::staking_pool_signer_seeds;
use aura_programs::aura_burn_redistribution::staking::{stake_tokens, unstake_tokens};
use aura_programs::aura_burn_redistribution::state::{ErrorCode, GlobalState, StakingAccount};
use aura_programs::pubkey::Pubkey;

const YEAR: i64 = 31_536_000;

fn key(tag: u8) -> Pubkey {
    Pubkey::new_from_array([tag; 32])
}

fn at(unix_timestamp: i64) -> Clock {
    Clock { slot: 1, unix_timestamp }
}

fn authority() -> Signer {
    Signer { key: key(9), lamports: 0 }
}

fn wallet(address: u8) -> Account<TokenAccount> {
    Account {
        key: key(address),
        lamports: 0,
        data: TokenAccount { mint: key(8), owner: key(20), amount: 0 },
    }
}

/// Set up at time 0: rounds every 6 hours, taxes of 1%, 2% and 1.5%.
fn program() -> Account<GlobalState> {
    let blank = GlobalState {
        authority: Pubkey::default(),
        redistribution_frequency: 0,
        stake_tax_rate: 0,
        unstake_tax_rate: 0,
        reward_tax_rate: 0,
        total_staked: 7,
        total_tax_collected: 7,
        last_distribution: 7,
        distribution_round: 7,
        is_paused: true,
    };
    let mut ctx = Initialize {
        global_state: Account { key: key(1), lamports: 0, data: blank },
        authority: authority(),
    };
    initialize(&mut ctx, 21_600, 100, 200, 150, at(0));
    ctx.global_state
}

fn record() -> Account<StakingAccount> {
    Account {
        key: key(21),
        lamports: 0,
        data: StakingAccount {
            owner: Pubkey::default(),
            staked_amount: 0,
            pending_rewards: 0,
            last_reward_claim: 0,
        },
    }
}

fn stake_ctx(global_state: Account<GlobalState>, staking_account: Account<StakingAccount>) -> StakeTokens {
    StakeTokens {
        global_state,
        staking_account,
        user: Signer { key: key(20), lamports: 0 },
        user_token_account: wallet(22),
        staking_pool: wallet(5),
    }
}

fn unstake_ctx(
    global_state: Account<GlobalState>,
    staking_account: Account<StakingAccount>,
) -> UnstakeTokens {
    UnstakeTokens {
        global_state,
        staking_account,
        user: Signer { key: key(20), lamports: 0 },
        user_token_account: wallet(22),
        staking_pool: wallet(5),
    }
}

fn claim_ctx(global_state: Account<GlobalState>, staking_account: Account<StakingAccount>) -> ClaimRewards {
    ClaimRewards {
        global_state,
        staking_account,
        user: Signer { key: key(20), lamports: 0 },
        user_token_account: wallet(22),
        staking_pool: wallet(5),
    }
}

/// 1_000_000 handed in at time 0: 990_000 staked, 10_000 withheld.
fn staked() -> StakeTokens {
    let mut ctx = stake_ctx(program(), record());
    stake_tokens(&mut ctx, 1_000_000, at(0)).unwrap();
    ctx
}

#[test]
fn taxed_program_is_set_up() {
    let blank = program();
    assert_eq!(
        blank.data,
        GlobalState {
            authority: authority().key,
            redistribution_frequency: 21_600,
            stake_tax_rate: 100,
            unstake_tax_rate: 200,
            reward_tax_rate: 150,
            total_staked: 0,
            total_tax_collected: 0,
            last_distribution: 0,
            distribution_round: 0,
            is_paused: false,
        }
    );
    let mut ctx = Initialize { global_state: blank, authority: authority() };
    assert_eq!(
        initialize(&mut ctx, 60, 1, 2, 3, at(5)),
        ProgramInitialized {
            authority: authority().key,
            stake_tax_rate: 1,
            unstake_tax_rate: 2,
            reward_tax_rate: 3,
            redistribution_frequency: 60,
        }
    );
    assert_eq!(ctx.global_state.data.last_distribution, 5);
}

#[test]
fn tax_is_basis_points_of_the_amount_rounded_down() {
    assert_eq!(compute_tax(1_000_000, 100), Some(10_000));
    assert_eq!(compute_tax(99, 100), Some(0));
    assert_eq!(compute_tax(199, 100), Some(1));
    assert_eq!(compute_tax(1_000, 0), Some(0));
    assert_eq!(compute_tax(1_000, 10_000), Some(1_000));
    assert_eq!(compute_tax(u64::MAX, 10_000), Some(u64::MAX));
    // A tax above the amount cannot be withheld.
    assert_eq!(compute_tax(1_000, 10_001), Some(1_000));
    assert_eq!(compute_tax(10_000, 10_001), None);
    assert_eq!(compute_tax(u64::MAX, u16::MAX), None);
}

#[test]
fn stake_withholds_the_stake_tax() {
    let mut ctx = stake_ctx(program(), record());
    let (event, transfer) = stake_tokens(&mut ctx, 1_000_000, at(50)).unwrap();
    assert_eq!(
        event,
        TokensStaked {
            user: key(20),
            gross_amount: 1_000_000,
            tax_amount: 10_000,
            net_staked_amount: 990_000,
            total_staked: 990_000,
            global_total_staked: 990_000,
        }
    );
    assert_eq!(
        transfer,
        Transfer { from: key(22), to: key(5), authority: key(20), amount: 1_000_000 }
    );
    assert_eq!(
        ctx.staking_account.data,
        StakingAccount {
            owner: key(20),
            staked_amount: 990_000,
            pending_rewards: 0,
            last_reward_claim: 50,
        }
    );
    assert_eq!(ctx.global_state.data.total_tax_collected, 10_000);
}

#[test]
fn taxed_stake_refusals() {
    let mut ctx = stake_ctx(program(), record());
    assert_eq!(stake_tokens(&mut ctx, 0, at(0)), Err(ErrorCode::InvalidAmount));
    ctx.global_state.data.is_paused = true;
    assert_eq!(stake_tokens(&mut ctx, 0, at(0)), Err(ErrorCode::ProgramPaused));

    let mut ctx = stake_ctx(program(), record());
    ctx.global_state.data.stake_tax_rate = 10_001;
    assert_eq!(stake_tokens(&mut ctx, 10_000, at(0)), Err(ErrorCode::MathOverflow));

    let mut ctx = staked();
    ctx.staking_account.data.staked_amount = u64::MAX - 98;
    let before = ctx;
    assert_eq!(stake_tokens(&mut ctx, 100, at(0)), Err(ErrorCode::MathOverflow));
    assert_eq!(ctx, before);
    ctx.staking_account.data.staked_amount = 0;
    ctx.global_state.data.total_tax_collected = u64::MAX;
    assert_eq!(stake_tokens(&mut ctx, 100, at(0)), Err(ErrorCode::MathOverflow));
    assert!(stake_tokens(&mut ctx, 99, at(0)).is_ok());
}

#[test]
fn unstake_withholds_the_unstake_tax_and_counts_rewards() {
    let first = staked();
    let mut ctx = unstake_ctx(first.global_state, first.staking_account);
    let (event, transfer) = unstake_tokens(&mut ctx, 500_000, at(YEAR)).unwrap();
    assert_eq!(
        event,
        TokensUnstaked {
            user: key(20),
            gross_amount: 500_000,
            tax_amount: 10_000,
            net_received_amount: 490_000,
            remaining_staked: 490_000,
            global_total_staked: 490_000,
        }
    );
    assert_eq!(
        transfer,
        Transfer { from: key(5), to: key(22), authority: key(5), amount: 490_000 }
    );
    // A year at 12% on 990_000.
    assert_eq!(ctx.staking_account.data.pending_rewards, 118_800);
    assert_eq!(ctx.staking_account.data.last_reward_claim, 0);
    assert_eq!(ctx.global_state.data.total_tax_collected, 20_000);
}

#[test]
fn taxed_unstake_refusals() {
    let first = staked();
    let mut ctx = unstake_ctx(first.global_state, first.staking_account);
    assert_eq!(unstake_tokens(&mut ctx, 0, at(10)), Err(ErrorCode::InvalidAmount));
    assert_eq!(unstake_tokens(&mut ctx, 990_001, at(10)), Err(ErrorCode::InsufficientStaked));
    let before = ctx;
    assert_eq!(unstake_tokens(&mut ctx, 10, at(-1)), Err(ErrorCode::MathOverflow));
    assert_eq!(ctx, before);
    ctx.global_state.data.total_staked = 9;
    assert_eq!(unstake_tokens(&mut ctx, 10, at(10)), Err(ErrorCode::MathOverflow));
    ctx.global_state.data.is_paused = true;
    assert_eq!(unstake_tokens(&mut ctx, 0, at(10)), Err(ErrorCode::ProgramPaused));
}

#[test]
fn pending_rewards_grow_by_twelve_percent_a_year() {
    let state = program().data;
    let mut account = staked().staking_account.data;
    assert_eq!(calculate_pending_rewards(&mut account, &state, YEAR / 2), Ok(()));
    assert_eq!(account.pending_rewards, 59_400);
    assert_eq!(account.last_reward_claim, 0);
    // Counted again from the same start, the rewards add up.
    assert_eq!(calculate_pending_rewards(&mut account, &state, YEAR), Ok(()));
    assert_eq!(account.pending_rewards, 59_400 + 118_800);
    let before = account;
    assert_eq!(calculate_pending_rewards(&mut account, &state, -1), Err(ErrorCode::MathOverflow));
    assert_eq!(account, before);
    account.pending_rewards = u64::MAX;
    assert_eq!(calculate_pending_rewards(&mut account, &state, YEAR), Err(ErrorCode::MathOverflow));
    assert_eq!(account.pending_rewards, u64::MAX);
    account.staked_amount = u64::MAX;
    account.pending_rewards = 0;
    assert_eq!(
        calculate_pending_rewards(&mut account, &state, i64::MAX),
        Err(ErrorCode::MathOverflow)
    );
}

#[test]
fn claim_pays_the_rewards_less_the_reward_tax() {
    let first = staked();
    let mut ctx = claim_ctx(first.global_state, first.staking_account);
    assert_eq!(claim_rewards(&mut ctx, at(0)), Err(ErrorCode::NoRewardsToClaim));
    let (event, transfer) = claim_rewards(&mut ctx, at(YEAR)).unwrap();
    assert_eq!(
        event,
        RewardsClaimed {
            user: key(20),
            gross_reward_amount: 118_800,
            tax_amount: 1_782,
            net_reward_amount: 117_018,
            timestamp: YEAR,
        }
    );
    assert_eq!(
        transfer,
        Transfer { from: key(5), to: key(22), authority: key(5), amount: 117_018 }
    );
    assert_eq!(ctx.staking_account.data.pending_rewards, 0);
    assert_eq!(ctx.staking_account.data.last_reward_claim, YEAR);
    assert_eq!(ctx.global_state.data.total_tax_collected, 10_000 + 1_782);

    let before = ctx;
    assert_eq!(claim_rewards(&mut ctx, at(YEAR - 1)), Err(ErrorCode::MathOverflow));
    assert_eq!(ctx, before);
    ctx.global_state.data.total_tax_collected = u64::MAX;
    assert_eq!(claim_rewards(&mut ctx, at(2 * YEAR)), Err(ErrorCode::MathOverflow));
    ctx.global_state.data.is_paused = true;
    assert_eq!(claim_rewards(&mut ctx, at(2 * YEAR)), Err(ErrorCode::ProgramPaused));
}

#[test]
fn a_round_reports_yield_and_tax_per_token() {
    let first = staked();
    let mut ctx = DistributeRewards { global_state: first.global_state, authority: authority() };
    assert_eq!(distribute_rewards(&mut ctx, at(21_599)), Err(ErrorCode::DistributionTooEarly));
    let event = distribute_rewards(&mut ctx, at(YEAR)).unwrap();
    // Yield: 990_000 * 8% = 79_200 a year, or 80_000 parts per million a
    // token; tax: 10_000 * 1_000_000 / 990_000 = 10_101.
    assert_eq!(
        event,
        RewardsDistributed {
            distribution_round: 1,
            reward_per_token: 80_000 + 10_101,
            tax_redistributed: 10_000,
            total_stakers: 990_000,
            timestamp: YEAR,
        }
    );
    assert_eq!(ctx.global_state.data.total_tax_collected, 0);
    assert_eq!(ctx.global_state.data.last_distribution, YEAR);
    assert_eq!(ctx.global_state.data.distribution_round, 1);
    assert_eq!(ctx.global_state.data.total_staked, 990_000);

    assert_eq!(
        distribute_rewards(&mut ctx, at(YEAR + 21_599)),
        Err(ErrorCode::DistributionTooEarly)
    );
    let event = distribute_rewards(&mut ctx, at(YEAR + 21_600)).unwrap();
    assert_eq!(event.distribution_round, 2);
    assert_eq!(event.tax_redistributed, 0);
    // 990_000 * 800 * 21_600 / 10_000 / 31_536_000 = 54; 54_000_000 / 990_000 = 54.
    assert_eq!(event.reward_per_token, 54);
}

#[test]
fn round_refusals() {
    let mut ctx = DistributeRewards { global_state: program(), authority: authority() };
    assert_eq!(distribute_rewards(&mut ctx, at(21_600)), Err(ErrorCode::NoStakers));
    ctx.global_state.data.is_paused = true;
    assert_eq!(distribute_rewards(&mut ctx, at(0)), Err(ErrorCode::ProgramPaused));

    let first = staked();
    let mut ctx = DistributeRewards { global_state: first.global_state, authority: authority() };
    ctx.global_state.data.distribution_round = u64::MAX;
    let before = ctx;
    assert_eq!(distribute_rewards(&mut ctx, at(21_600)), Err(ErrorCode::MathOverflow));
    assert_eq!(ctx, before);

    // A time between rounds below zero lets a round be asked for before the
    // last one; time that runs backwards is not counted.
    let mut ctx = DistributeRewards { global_state: first.global_state, authority: authority() };
    ctx.global_state.data.redistribution_frequency = -100;
    assert_eq!(distribute_rewards(&mut ctx, at(-50)), Err(ErrorCode::MathOverflow));
    assert_eq!(distribute_rewards(&mut ctx, at(-101)), Err(ErrorCode::DistributionTooEarly));
    // The due time is found without overflow.
    ctx.global_state.data.redistribution_frequency = i64::MAX;
    ctx.global_state.data.last_distribution = i64::MAX;
    assert_eq!(distribute_rewards(&mut ctx, at(i64::MAX)), Err(ErrorCode::DistributionTooEarly));

    // Anyone may ask for a round.
    let mut ctx = DistributeRewards {
        global_state: first.global_state,
        authority: Signer { key: key(66), lamports: 0 },
    };
    assert!(distribute_rewards(&mut ctx, at(21_600)).is_ok());
}

#[test]
fn tax_rates_are_capped_at_ten_percent() {
    let mut ctx = UpdateTaxRates { global_state: program(), authority: authority() };
    assert_eq!(update_tax_rates(&mut ctx, 1001, 0, 0, at(9)), Err(ErrorCode::TaxRateTooHigh));
    assert_eq!(update_tax_rates(&mut ctx, 0, 1001, 0, at(9)), Err(ErrorCode::TaxRateTooHigh));
    assert_eq!(update_tax_rates(&mut ctx, 0, 0, 1001, at(9)), Err(ErrorCode::TaxRateTooHigh));
    assert_eq!(ctx.global_state, program());
    assert_eq!(
        update_tax_rates(&mut ctx, 1000, 0, 500, at(9)),
        Ok(TaxRatesUpdated {
            authority: authority().key,
            stake_tax_rate: 1000,
            unstake_tax_rate: 0,
            reward_tax_rate: 500,
            timestamp: 9,
        })
    );
    assert_eq!(ctx.global_state.data.stake_tax_rate, 1000);
    assert_eq!(ctx.global_state.data.unstake_tax_rate, 0);
    assert_eq!(ctx.global_state.data.reward_tax_rate, 500);
    ctx.authority = Signer { key: key(66), lamports: 0 };
    assert_eq!(update_tax_rates(&mut ctx, 1, 1, 1, at(9)), Err(ErrorCode::Unauthorized));
    assert_eq!(update_tax_rates(&mut ctx, 1001, 1, 1, at(9)), Err(ErrorCode::Unauthorized));
}

#[test]
fn the_authority_pauses_and_resumes() {
    let mut pause = PauseProgram { global_state: program(), authority: authority() };
    let event = pause_program(&mut pause, at(3)).unwrap();
    assert_eq!(event.timestamp, 3);
    assert_eq!(event.authority, authority().key);
    assert!(pause.global_state.data.is_paused);
    assert!(pause_program(&mut pause, at(4)).is_ok());

    let mut resume = ResumeProgram { global_state: pause.global_state, authority: authority() };
    let event = resume_program(&mut resume, at(5)).unwrap();
    assert_eq!(event.timestamp, 5);
    assert!(!resume.global_state.data.is_paused);

    let stranger = Signer { key: key(66), lamports: 0 };
    let mut pause = PauseProgram { global_state: program(), authority: stranger };
    assert_eq!(pause_program(&mut pause, at(3)), Err(ErrorCode::Unauthorized));
    assert!(!pause.global_state.data.is_paused);
    let mut resume = ResumeProgram { global_state: program(), authority: stranger };
    assert_eq!(resume_program(&mut resume, at(3)), Err(ErrorCode::Unauthorized));
}

#[test]
fn the_pool_account_signs_with_label_and_bump() {
    assert_eq!(staking_pool_signer_seeds(251), vec![b"staking_pool".to_vec(), vec![251u8]]);
}

#[test]
fn taxed_errors_have_their_messages() {
    assert_eq!(ErrorCode::ProgramPaused.message(), "Program is currently paused");
    assert_eq!(ErrorCode::MathOverflow.message(), "Math operation overflow");
    assert_eq!(ErrorCode::InvalidAmount.message(), "Invalid amount provided");
    assert_eq!(ErrorCode::InsufficientStaked.message(), "Insufficient staked tokens");
    assert_eq!(ErrorCode::DistributionTooEarly.message(), "Distribution called too early");
    assert_eq!(ErrorCode::NoStakers.message(), "No stakers in the pool");
    assert_eq!(ErrorCode::NoRewardsToClaim.message(), "No rewards to claim");
    assert_eq!(ErrorCode::TaxRateTooHigh.message(), "Tax rate too high (max 10%)");
    assert_eq!(ErrorCode::Unauthorized.message(), "Unauthorized access");
}
