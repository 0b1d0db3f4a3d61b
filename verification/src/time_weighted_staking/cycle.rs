//! The pool as a state machine: every call that can change the pool's
//! record, and what holds of the record whatever calls are made.

use vstd::prelude::*;
use crate::accounts::Account;
use crate::accounts::Clock;
use crate::pubkey::Pubkey;
use crate::time_weighted_staking::admin::admin_withdraw_sol_accounts;
use crate::time_weighted_staking::admin::admin_withdraw_sol_rejection;
use crate::time_weighted_staking::admin::admin_withdraw_stake_tokens_accounts;
use crate::time_weighted_staking::admin::admin_withdraw_stake_tokens_rejection;
use crate::time_weighted_staking::admin::pause_pool_accounts;
use crate::time_weighted_staking::admin::pause_pool_rejection;
use crate::time_weighted_staking::admin::transfer_authority_accounts;
use crate::time_weighted_staking::admin::transfer_authority_rejection;
use crate::time_weighted_staking::admin::unpause_pool_accounts;
use crate::time_weighted_staking::admin::unpause_pool_rejection;
use crate::time_weighted_staking::contexts::AdminWithdrawSol;
use crate::time_weighted_staking::contexts::AdminWithdrawStakeTokens;
use crate::time_weighted_staking::contexts::ClaimSolRewards;
use crate::time_weighted_staking::contexts::ClaimSplRewards;
use crate::time_weighted_staking::contexts::DepositSolRewards;
use crate::time_weighted_staking::contexts::EndDistributionPermanently;
use crate::time_weighted_staking::contexts::PausePool;
use crate::time_weighted_staking::contexts::Stake;
use crate::time_weighted_staking::contexts::StartDistribution;
use crate::time_weighted_staking::contexts::StopDistribution;
use crate::time_weighted_staking::contexts::TransferAuthority;
use crate::time_weighted_staking::contexts::UnpausePool;
use crate::time_weighted_staking::contexts::Unstake;
use crate::time_weighted_staking::distribution::end_distribution_permanently_accounts;
use crate::time_weighted_staking::distribution::end_distribution_permanently_rejection;
use crate::time_weighted_staking::distribution::start_distribution_accounts;
use crate::time_weighted_staking::distribution::start_distribution_rejection;
use crate::time_weighted_staking::distribution::stop_distribution_accounts;
use crate::time_weighted_staking::distribution::stop_distribution_rejection;
use crate::time_weighted_staking::rewards::claim_sol_rewards_accounts;
use crate::time_weighted_staking::rewards::claim_sol_rewards_rejection;
use crate::time_weighted_staking::rewards::claim_spl_rewards_accounts;
use crate::time_weighted_staking::rewards::claim_spl_rewards_rejection;
use crate::time_weighted_staking::rewards::deposit_sol_rewards_accounts;
use crate::time_weighted_staking::rewards::deposit_sol_rewards_rejection;
use crate::time_weighted_staking::rewards::sol_claim_amount;
use crate::time_weighted_staking::staking::stake_accounts;
use crate::time_weighted_staking::staking::stake_rejection;
use crate::time_weighted_staking::staking::unstake_accounts;
use crate::time_weighted_staking::staking::unstake_rejection;
use crate::time_weighted_staking::state::Phase;
use crate::time_weighted_staking::state::StakingPool;

verus! {

/// A call that can change the record of a pool that has been set up. The
/// pool's record in `ctx` is the pool's at the time of the call; the other
/// accounts are whatever the caller hands in.
#[allow(inconsistent_fields)]
pub enum PoolCall {
    Stake { ctx: Stake, amount: u64, clock: Clock },
    Unstake { ctx: Unstake, amount: u64, clock: Clock },
    ClaimSolRewards { ctx: ClaimSolRewards, clock: Clock },
    ClaimSplRewards { ctx: ClaimSplRewards, clock: Clock },
    DepositSolRewards { ctx: DepositSolRewards, amount: u64, clock: Clock },
    AdminWithdrawSol { ctx: AdminWithdrawSol, amount: u64, clock: Clock },
    AdminWithdrawStakeTokens { ctx: AdminWithdrawStakeTokens, amount: u64, clock: Clock },
    PausePool { ctx: PausePool, clock: Clock },
    UnpausePool { ctx: UnpausePool, clock: Clock },
    TransferAuthority { ctx: TransferAuthority, new_authority: Pubkey, clock: Clock },
    StartDistribution { ctx: StartDistribution, clock: Clock },
    StopDistribution { ctx: StopDistribution, clock: Clock },
    EndDistributionPermanently { ctx: EndDistributionPermanently, clock: Clock },
}

/// The pool's record after `call` was made on a pool whose record was
/// `pool`. A refused call leaves the record as it was.
pub open spec fn pool_after(pool: StakingPool, call: PoolCall) -> StakingPool {
    match call {
        PoolCall::Stake { ctx, amount, clock } => {
            let accounts = Stake {
                staking_pool: Account { data: pool, ..ctx.staking_pool },
                ..ctx
            };
            if stake_rejection(accounts, amount, clock) is None {
                stake_accounts(accounts, amount, clock).staking_pool.data
            } else {
                pool
            }
        },
        PoolCall::Unstake { ctx, amount, clock } => {
            let accounts = Unstake {
                staking_pool: Account { data: pool, ..ctx.staking_pool },
                ..ctx
            };
            if unstake_rejection(accounts, amount, clock) is None {
                unstake_accounts(accounts, amount, clock).staking_pool.data
            } else {
                pool
            }
        },
        PoolCall::ClaimSolRewards { ctx, clock } => {
            let accounts = ClaimSolRewards {
                staking_pool: Account { data: pool, ..ctx.staking_pool },
                ..ctx
            };
            if claim_sol_rewards_rejection(accounts, clock) is None {
                claim_sol_rewards_accounts(accounts, clock).staking_pool.data
            } else {
                pool
            }
        },
        PoolCall::ClaimSplRewards { ctx, clock } => {
            let accounts = ClaimSplRewards {
                staking_pool: Account { data: pool, ..ctx.staking_pool },
                ..ctx
            };
            if claim_spl_rewards_rejection(accounts, clock) is None {
                claim_spl_rewards_accounts(accounts, clock).staking_pool.data
            } else {
                pool
            }
        },
        PoolCall::DepositSolRewards { ctx, amount, clock } => {
            let accounts = DepositSolRewards {
                staking_pool: Account { data: pool, ..ctx.staking_pool },
                ..ctx
            };
            if deposit_sol_rewards_rejection(accounts, amount) is None {
                deposit_sol_rewards_accounts(accounts, amount, clock).staking_pool.data
            } else {
                pool
            }
        },
        PoolCall::AdminWithdrawSol { ctx, amount, clock } => {
            let accounts = AdminWithdrawSol {
                staking_pool: Account { data: pool, ..ctx.staking_pool },
                ..ctx
            };
            if admin_withdraw_sol_rejection(accounts, amount) is None {
                admin_withdraw_sol_accounts(accounts, amount, clock).staking_pool.data
            } else {
                pool
            }
        },
        PoolCall::AdminWithdrawStakeTokens { ctx, amount, clock } => {
            let accounts = AdminWithdrawStakeTokens {
                staking_pool: Account { data: pool, ..ctx.staking_pool },
                ..ctx
            };
            if admin_withdraw_stake_tokens_rejection(accounts, amount) is None {
                admin_withdraw_stake_tokens_accounts(accounts, amount, clock).staking_pool.data
            } else {
                pool
            }
        },
        PoolCall::PausePool { ctx, clock } => {
            let accounts = PausePool {
                staking_pool: Account { data: pool, ..ctx.staking_pool },
                ..ctx
            };
            if pause_pool_rejection(accounts) is None {
                pause_pool_accounts(accounts, clock).staking_pool.data
            } else {
                pool
            }
        },
        PoolCall::UnpausePool { ctx, clock } => {
            let accounts = UnpausePool {
                staking_pool: Account { data: pool, ..ctx.staking_pool },
                ..ctx
            };
            if unpause_pool_rejection(accounts) is None {
                unpause_pool_accounts(accounts, clock).staking_pool.data
            } else {
                pool
            }
        },
        PoolCall::TransferAuthority { ctx, new_authority, clock } => {
            let accounts = TransferAuthority {
                staking_pool: Account { data: pool, ..ctx.staking_pool },
                ..ctx
            };
            if transfer_authority_rejection(accounts, new_authority) is None {
                transfer_authority_accounts(accounts, new_authority, clock).staking_pool.data
            } else {
                pool
            }
        },
        PoolCall::StartDistribution { ctx, clock } => {
            let accounts = StartDistribution {
                staking_pool: Account { data: pool, ..ctx.staking_pool },
                ..ctx
            };
            if start_distribution_rejection(accounts, clock) is None {
                start_distribution_accounts(accounts, clock).staking_pool.data
            } else {
                pool
            }
        },
        PoolCall::StopDistribution { ctx, clock } => {
            let accounts = StopDistribution {
                staking_pool: Account { data: pool, ..ctx.staking_pool },
                ..ctx
            };
            if stop_distribution_rejection(accounts, clock) is None {
                stop_distribution_accounts(accounts, clock).staking_pool.data
            } else {
                pool
            }
        },
        PoolCall::EndDistributionPermanently { ctx, clock } => {
            let accounts = EndDistributionPermanently {
                staking_pool: Account { data: pool, ..ctx.staking_pool },
                ..ctx
            };
            if end_distribution_permanently_rejection(accounts) is None {
                end_distribution_permanently_accounts(accounts, clock).staking_pool.data
            } else {
                pool
            }
        },
    }
}

/// Whether `call` is accepted on a pool whose record is `pool`.
pub open spec fn pool_accepts(pool: StakingPool, call: PoolCall) -> bool {
    match call {
        PoolCall::Stake { ctx, amount, clock } => stake_rejection(
            Stake { staking_pool: Account { data: pool, ..ctx.staking_pool }, ..ctx },
            amount,
            clock,
        ) is None,
        PoolCall::Unstake { ctx, amount, clock } => unstake_rejection(
            Unstake { staking_pool: Account { data: pool, ..ctx.staking_pool }, ..ctx },
            amount,
            clock,
        ) is None,
        PoolCall::ClaimSolRewards { ctx, clock } => claim_sol_rewards_rejection(
            ClaimSolRewards { staking_pool: Account { data: pool, ..ctx.staking_pool }, ..ctx },
            clock,
        ) is None,
        PoolCall::ClaimSplRewards { ctx, clock } => claim_spl_rewards_rejection(
            ClaimSplRewards { staking_pool: Account { data: pool, ..ctx.staking_pool }, ..ctx },
            clock,
        ) is None,
        PoolCall::DepositSolRewards { ctx, amount, clock } => deposit_sol_rewards_rejection(
            DepositSolRewards { staking_pool: Account { data: pool, ..ctx.staking_pool }, ..ctx },
            amount,
        ) is None,
        PoolCall::AdminWithdrawSol { ctx, amount, clock } => admin_withdraw_sol_rejection(
            AdminWithdrawSol { staking_pool: Account { data: pool, ..ctx.staking_pool }, ..ctx },
            amount,
        ) is None,
        PoolCall::AdminWithdrawStakeTokens {
            ctx,
            amount,
            clock,
        } => admin_withdraw_stake_tokens_rejection(
            AdminWithdrawStakeTokens {
                staking_pool: Account { data: pool, ..ctx.staking_pool },
                ..ctx
            },
            amount,
        ) is None,
        PoolCall::PausePool { ctx, clock } => pause_pool_rejection(
            PausePool { staking_pool: Account { data: pool, ..ctx.staking_pool }, ..ctx },
        ) is None,
        PoolCall::UnpausePool { ctx, clock } => unpause_pool_rejection(
            UnpausePool { staking_pool: Account { data: pool, ..ctx.staking_pool }, ..ctx },
        ) is None,
        PoolCall::TransferAuthority { ctx, new_authority, clock } => transfer_authority_rejection(
            TransferAuthority { staking_pool: Account { data: pool, ..ctx.staking_pool }, ..ctx },
            new_authority,
        ) is None,
        PoolCall::StartDistribution { ctx, clock } => start_distribution_rejection(
            StartDistribution { staking_pool: Account { data: pool, ..ctx.staking_pool }, ..ctx },
            clock,
        ) is None,
        PoolCall::StopDistribution { ctx, clock } => stop_distribution_rejection(
            StopDistribution { staking_pool: Account { data: pool, ..ctx.staking_pool }, ..ctx },
            clock,
        ) is None,
        PoolCall::EndDistributionPermanently {
            ctx,
            clock,
        } => end_distribution_permanently_rejection(
            EndDistributionPermanently {
                staking_pool: Account { data: pool, ..ctx.staking_pool },
                ..ctx
            },
        ) is None,
    }
}

impl PoolCall {
    /// The slot at which the call is made.
    pub open spec fn slot(self) -> u64 {
        match self {
            PoolCall::Stake { clock, .. } => clock.slot,
            PoolCall::Unstake { clock, .. } => clock.slot,
            PoolCall::ClaimSolRewards { clock, .. } => clock.slot,
            PoolCall::ClaimSplRewards { clock, .. } => clock.slot,
            PoolCall::DepositSolRewards { clock, .. } => clock.slot,
            PoolCall::AdminWithdrawSol { clock, .. } => clock.slot,
            PoolCall::AdminWithdrawStakeTokens { clock, .. } => clock.slot,
            PoolCall::PausePool { clock, .. } => clock.slot,
            PoolCall::UnpausePool { clock, .. } => clock.slot,
            PoolCall::TransferAuthority { clock, .. } => clock.slot,
            PoolCall::StartDistribution { clock, .. } => clock.slot,
            PoolCall::StopDistribution { clock, .. } => clock.slot,
            PoolCall::EndDistributionPermanently { clock, .. } => clock.slot,
        }
    }
}

/// The pool's record after the calls were made one after the other.
pub open spec fn pool_after_all(pool: StakingPool, calls: Seq<PoolCall>) -> StakingPool
    decreases calls.len(),
{
    if calls.len() == 0 {
        pool
    } else {
        pool_after(pool_after_all(pool, calls.drop_last()), calls.last())
    }
}

/// Whether a pool in phase `from` may be in phase `to` after one call: it
/// stays where it is, or an epoch starts from rest, or the running epoch
/// stops, or the cycle ends for good after a stop.
pub open spec fn phase_may_follow(from: Phase, to: Phase) -> bool {
    ||| from == to
    ||| from == Phase::Inactive && to == Phase::Active
    ||| from == Phase::Active && to == Phase::Stopped
    ||| from == Phase::Stopped && to == Phase::Active
    ||| from == Phase::Stopped && to == Phase::PermanentlyEnded
}

/// One call moves the pool along the distribution cycle and no other way,
/// never lowers the epoch, and never clears the end of the cycle.
pub proof fn lemma_call_follows_cycle(pool: StakingPool, call: PoolCall)
    requires
        pool.wf(),
    ensures
        pool_after(pool, call).wf(),
        phase_may_follow(pool.spec_phase(), pool_after(pool, call).spec_phase()),
        pool.current_distribution_epoch <= pool_after(pool, call).current_distribution_epoch,
        pool.distribution_ended ==> pool_after(pool, call).distribution_ended,
{
}

/// Whatever calls are made, a well-formed pool stays well-formed, its epoch
/// never goes back, and a cycle that has ended stays ended.
pub proof fn lemma_calls_follow_cycle(pool: StakingPool, calls: Seq<PoolCall>)
    requires
        pool.wf(),
    ensures
        pool_after_all(pool, calls).wf(),
        pool.current_distribution_epoch <= pool_after_all(pool, calls).current_distribution_epoch,
        pool.distribution_ended ==> pool_after_all(pool, calls).distribution_ended,
    decreases calls.len(),
{
    if calls.len() > 0 {
        lemma_calls_follow_cycle(pool, calls.drop_last());
        lemma_call_follows_cycle(pool_after_all(pool, calls.drop_last()), calls.last());
    }
}

/// A call never clears the end of the cycle, whatever the pool's record
/// holds otherwise.
pub proof fn lemma_end_is_kept(pool: StakingPool, calls: Seq<PoolCall>)
    requires
        pool.distribution_ended,
    ensures
        pool_after_all(pool, calls).distribution_ended,
    decreases calls.len(),
{
    if calls.len() > 0 {
        lemma_end_is_kept(pool, calls.drop_last());
    }
}

/// Ending the cycle is a one-way gate: once an end was accepted, whatever
/// calls follow, no start of an epoch is accepted again.
pub proof fn lemma_no_start_after_end(
    end: EndDistributionPermanently,
    end_clock: Clock,
    calls: Seq<PoolCall>,
    start: StartDistribution,
    start_clock: Clock,
)
    requires
        end_distribution_permanently_rejection(end) is None,
        start.staking_pool.data == pool_after_all(
            end_distribution_permanently_accounts(end, end_clock).staking_pool.data,
            calls,
        ),
    ensures
        start_distribution_rejection(start, start_clock) is Some,
{
    lemma_end_is_kept(end_distribution_permanently_accounts(end, end_clock).staking_pool.data, calls);
}

/// Every accepted call that changes the pool's record leaves its slot in
/// the record; a refused call leaves the record as it was. So the pool's
/// sequence follows the ledger's clock: where no call comes with a slot
/// below the pool's sequence, the sequence never goes back.
pub proof fn lemma_sequence_is_slot_of_last_call(pool: StakingPool, call: PoolCall)
    ensures
        pool_accepts(pool, call) ==> pool_after(pool, call).global_sequence == call.slot(),
        !pool_accepts(pool, call) ==> pool_after(pool, call) == pool,
        pool.global_sequence <= call.slot() ==> pool.global_sequence <= pool_after(
            pool,
            call,
        ).global_sequence,
{
}

/// What `call` pays of the native reward on a pool whose record is `pool`:
/// the share, where it is an accepted claim; nothing otherwise.
pub open spec fn native_paid(pool: StakingPool, call: PoolCall) -> nat {
    match call {
        PoolCall::ClaimSolRewards { ctx, clock } => {
            let accounts = ClaimSolRewards {
                staking_pool: Account { data: pool, ..ctx.staking_pool },
                ..ctx
            };
            if claim_sol_rewards_rejection(accounts, clock) is None {
                sol_claim_amount(accounts).unwrap() as nat
            } else {
                0
            }
        },
        _ => 0,
    }
}

/// What `call` adds to the native reward of a pool whose record is `pool`:
/// the amount, where it is an accepted deposit; nothing otherwise.
pub open spec fn native_deposited(pool: StakingPool, call: PoolCall) -> nat {
    match call {
        PoolCall::DepositSolRewards { ctx, amount, clock } => {
            if pool_accepts(pool, call) {
                amount as nat
            } else {
                0
            }
        },
        _ => 0,
    }
}

/// What the calls, made one after the other, pay of the native reward.
pub open spec fn native_paid_by_all(pool: StakingPool, calls: Seq<PoolCall>) -> nat
    decreases calls.len(),
{
    if calls.len() == 0 {
        0
    } else {
        native_paid_by_all(pool, calls.drop_last()) + native_paid(
            pool_after_all(pool, calls.drop_last()),
            calls.last(),
        )
    }
}

/// What the calls, made one after the other, add to the native reward.
pub open spec fn native_deposited_by_all(pool: StakingPool, calls: Seq<PoolCall>) -> nat
    decreases calls.len(),
{
    if calls.len() == 0 {
        0
    } else {
        native_deposited_by_all(pool, calls.drop_last()) + native_deposited(
            pool_after_all(pool, calls.drop_last()),
            calls.last(),
        )
    }
}

/// Settlement is conservative: whatever calls are made, what is claimed of
/// the native reward, with what is left of it, is never more than what was
/// set aside at first and what was deposited since. Where nothing is
/// deposited, the claims add up to no more than the balance at first.
pub proof fn lemma_claims_within_rewards(pool: StakingPool, calls: Seq<PoolCall>)
    ensures
        native_paid_by_all(pool, calls) + pool_after_all(pool, calls).sol_rewards_available
            <= pool.sol_rewards_available + native_deposited_by_all(pool, calls),
        native_deposited_by_all(pool, calls) == 0 ==> native_paid_by_all(pool, calls)
            <= pool.sol_rewards_available,
    decreases calls.len(),
{
    if calls.len() > 0 {
        lemma_claims_within_rewards(pool, calls.drop_last());
    }
}

/// Once an epoch is stopped, what its claims are shares of no longer moves:
/// whatever is called on a pool in which no epoch runs, short of starting
/// the next one, the balance on record from the stop and the pool's weight
/// stay as they are.
pub proof fn lemma_settlement_basis_is_fixed(pool: StakingPool, call: PoolCall)
    requires
        !pool.distribution_active,
        !(call is StartDistribution),
    ensures
        !pool_after(pool, call).distribution_active,
        pool_after(pool, call).sol_rewards_at_stop == pool.sol_rewards_at_stop,
        pool_after(pool, call).total_weighted_stake == pool.total_weighted_stake,
        pool_after(pool, call).current_distribution_epoch == pool.current_distribution_epoch,
{
}

/// Whether none of the calls is a stop of the epoch.
pub open spec fn no_stop_among(calls: Seq<PoolCall>) -> bool {
    forall|i: int| 0 <= i < calls.len() ==> !(#[trigger] calls[i] is StopDistribution)
}

/// Until the next stop, what is claimed and what is left unclaimed of the
/// balance at the stop add up to what was unclaimed before.
pub proof fn lemma_claims_come_out_of_unclaimed(pool: StakingPool, calls: Seq<PoolCall>)
    requires
        no_stop_among(calls),
    ensures
        native_paid_by_all(pool, calls) + pool_after_all(pool, calls).sol_rewards_unclaimed
            == pool.sol_rewards_unclaimed,
        pool_after_all(pool, calls).sol_rewards_at_stop == pool.sol_rewards_at_stop,
    decreases calls.len(),
{
    if calls.len() > 0 {
        assert(no_stop_among(calls.drop_last())) by {
            assert forall|i: int| 0 <= i < calls.drop_last().len() implies !(
            #[trigger] calls.drop_last()[i] is StopDistribution) by {
                assert(calls.drop_last()[i] == calls[i]);
            }
        }
        lemma_claims_come_out_of_unclaimed(pool, calls.drop_last());
        assert(!(calls[calls.len() - 1] is StopDistribution));
    }
}

/// Settlement is conservative: the claims for an epoch never add up to more
/// than the balance that was set aside for rewards when the epoch was
/// stopped, whatever calls follow the stop, deposits among them, and
/// whatever the claimants' weights.
pub proof fn lemma_claims_of_epoch_within_balance_at_stop(
    stop: StopDistribution,
    clock: Clock,
    calls: Seq<PoolCall>,
)
    requires
        stop_distribution_rejection(stop, clock) is None,
        no_stop_among(calls),
    ensures
        native_paid_by_all(stop_distribution_accounts(stop, clock).staking_pool.data, calls)
            <= stop.staking_pool.data.sol_rewards_available,
{
    lemma_claims_come_out_of_unclaimed(
        stop_distribution_accounts(stop, clock).staking_pool.data,
        calls,
    );
}

/// Ending a stopped pool latches the end: where the pool's authority ends
/// the cycle of a pool whose epoch was stopped, the end is set and nothing
/// else but the pool's sequence changes; and whatever calls follow, every
/// start is refused from then on.
pub proof fn lemma_end_of_stopped_pool_latches(
    end: EndDistributionPermanently,
    end_clock: Clock,
    calls: Seq<PoolCall>,
    start: StartDistribution,
    start_clock: Clock,
)
    requires
        end.staking_pool.data.authority == end.authority.key,
        !end.staking_pool.data.distribution_active,
        !end.staking_pool.data.distribution_ended,
        end.staking_pool.data.current_distribution_epoch >= 1,
        start.staking_pool.data == pool_after_all(
            end_distribution_permanently_accounts(end, end_clock).staking_pool.data,
            calls,
        ),
    ensures
        end_distribution_permanently_rejection(end) is None,
        end_distribution_permanently_accounts(end, end_clock).staking_pool.data == (StakingPool {
            distribution_ended: true,
            global_sequence: end_clock.slot,
            ..end.staking_pool.data
        }),
        !end_distribution_permanently_accounts(end, end_clock).staking_pool.data.distribution_active,
        start_distribution_rejection(start, start_clock) is Some,
{
    lemma_no_start_after_end(end, end_clock, calls, start, start_clock);
}

} // verus!
