//! Replay protection: a staker's call is accepted only with a slot above
//! that of the staker's last accepted call, so a call that was accepted once
//! is refused when it is handed in again.

use vstd::prelude::*;
use crate::accounts::Account;
use crate::accounts::Clock;
use crate::time_weighted_staking::contexts::ClaimSolRewards;
use crate::time_weighted_staking::contexts::ClaimSplRewards;
use crate::time_weighted_staking::contexts::Stake;
use crate::time_weighted_staking::contexts::Unstake;
use crate::time_weighted_staking::rewards::claim_sol_rewards_accounts;
use crate::time_weighted_staking::rewards::claim_sol_rewards_rejection;
use crate::time_weighted_staking::rewards::claim_spl_rewards_accounts;
use crate::time_weighted_staking::rewards::claim_spl_rewards_rejection;
use crate::time_weighted_staking::staking::stake_accounts;
use crate::time_weighted_staking::staking::stake_rejection;
use crate::time_weighted_staking::staking::unstake_accounts;
use crate::time_weighted_staking::staking::unstake_rejection;
use crate::time_weighted_staking::state::UserStake;

verus! {

/// A staker's call, with the accounts it is made on.
#[allow(inconsistent_fields)]
pub enum StakerCall {
    Stake { ctx: Stake, amount: u64, clock: Clock },
    Unstake { ctx: Unstake, amount: u64, clock: Clock },
    ClaimSolRewards { ctx: ClaimSolRewards, clock: Clock },
    ClaimSplRewards { ctx: ClaimSplRewards, clock: Clock },
}

impl StakerCall {
    /// The slot at which the call is made.
    pub open spec fn slot(self) -> u64 {
        match self {
            StakerCall::Stake { clock, .. } => clock.slot,
            StakerCall::Unstake { clock, .. } => clock.slot,
            StakerCall::ClaimSolRewards { clock, .. } => clock.slot,
            StakerCall::ClaimSplRewards { clock, .. } => clock.slot,
        }
    }

    /// The staker's record that the call is made on.
    pub open spec fn record(self) -> UserStake {
        match self {
            StakerCall::Stake { ctx, .. } => ctx.user_stake.data,
            StakerCall::Unstake { ctx, .. } => ctx.user_stake.data,
            StakerCall::ClaimSolRewards { ctx, .. } => ctx.user_stake.data,
            StakerCall::ClaimSplRewards { ctx, .. } => ctx.user_stake.data,
        }
    }

    /// Whether the call is accepted on the accounts it is made on.
    pub open spec fn accepted(self) -> bool {
        match self {
            StakerCall::Stake { ctx, amount, clock } => stake_rejection(ctx, amount, clock) is None,
            StakerCall::Unstake { ctx, amount, clock } => unstake_rejection(ctx, amount, clock)
                is None,
            StakerCall::ClaimSolRewards { ctx, clock } => claim_sol_rewards_rejection(ctx, clock)
                is None,
            StakerCall::ClaimSplRewards { ctx, clock } => claim_spl_rewards_rejection(ctx, clock)
                is None,
        }
    }

    /// The staker's record after the call; as before where it is refused.
    pub open spec fn record_after(self) -> UserStake {
        if !self.accepted() {
            self.record()
        } else {
            match self {
                StakerCall::Stake { ctx, amount, clock } => stake_accounts(
                    ctx,
                    amount,
                    clock,
                ).user_stake.data,
                StakerCall::Unstake { ctx, amount, clock } => unstake_accounts(
                    ctx,
                    amount,
                    clock,
                ).user_stake.data,
                StakerCall::ClaimSolRewards { ctx, clock } => claim_sol_rewards_accounts(
                    ctx,
                    clock,
                ).user_stake.data,
                StakerCall::ClaimSplRewards { ctx, clock } => claim_spl_rewards_accounts(
                    ctx,
                    clock,
                ).user_stake.data,
            }
        }
    }

    /// The same call, made on the staker's record `record`.
    pub open spec fn on_record(self, record: UserStake) -> StakerCall {
        match self {
            StakerCall::Stake { ctx, amount, clock } => StakerCall::Stake {
                ctx: Stake { user_stake: Account { data: record, ..ctx.user_stake }, ..ctx },
                amount,
                clock,
            },
            StakerCall::Unstake { ctx, amount, clock } => StakerCall::Unstake {
                ctx: Unstake { user_stake: Account { data: record, ..ctx.user_stake }, ..ctx },
                amount,
                clock,
            },
            StakerCall::ClaimSolRewards { ctx, clock } => StakerCall::ClaimSolRewards {
                ctx: ClaimSolRewards {
                    user_stake: Account { data: record, ..ctx.user_stake },
                    ..ctx
                },
                clock,
            },
            StakerCall::ClaimSplRewards { ctx, clock } => StakerCall::ClaimSplRewards {
                ctx: ClaimSplRewards {
                    user_stake: Account { data: record, ..ctx.user_stake },
                    ..ctx
                },
                clock,
            },
        }
    }
}

/// A call whose slot is not above that of the staker's last accepted call is
/// refused, whatever else the accounts hold.
pub proof fn lemma_stale_call_is_refused(call: StakerCall)
    requires
        call.slot() <= call.record().last_action_sequence,
    ensures
        !call.accepted(),
{
}

/// An accepted call leaves its slot in the staker's record, above the slot
/// that was there; a refused call leaves the record's slot as it was.
pub proof fn lemma_sequence_only_grows(call: StakerCall)
    ensures
        call.accepted() ==> call.record_after().last_action_sequence == call.slot()
            && call.slot() > call.record().last_action_sequence,
        !call.accepted() ==> call.record_after() == call.record(),
        call.record().last_action_sequence <= call.record_after().last_action_sequence,
{
}

/// A record that is active exactly while it holds principal stays so,
/// whatever the staker calls.
pub proof fn lemma_record_stays_well_formed(call: StakerCall)
    requires
        call.record().wf(),
    ensures
        call.record_after().wf(),
{
}

/// The staker's record after further calls, each made on the record that the
/// one before left.
pub open spec fn record_after_all(record: UserStake, calls: Seq<StakerCall>) -> UserStake
    decreases calls.len(),
{
    if calls.len() == 0 {
        record
    } else {
        calls.last().on_record(record_after_all(record, calls.drop_last())).record_after()
    }
}

/// Whatever calls the staker makes, the slot in their record never goes back.
pub proof fn lemma_sequence_never_goes_back(record: UserStake, calls: Seq<StakerCall>)
    ensures
        record.last_action_sequence <= record_after_all(record, calls).last_action_sequence,
    decreases calls.len(),
{
    if calls.len() > 0 {
        lemma_sequence_never_goes_back(record, calls.drop_last());
        lemma_sequence_only_grows(
            calls.last().on_record(record_after_all(record, calls.drop_last())),
        );
    }
}

/// A call that was accepted is refused when it is handed in again with the
/// same slot: at once or after any further calls of the staker, and whatever
/// the pool and the other accounts hold by then.
pub proof fn lemma_replay_is_refused(call: StakerCall, between: Seq<StakerCall>, again: StakerCall)
    requires
        call.accepted(),
        again.slot() == call.slot(),
        again.record() == record_after_all(call.record_after(), between),
    ensures
        !again.accepted(),
{
    lemma_sequence_only_grows(call);
    lemma_sequence_never_goes_back(call.record_after(), between);
    lemma_stale_call_is_refused(again);
}

} // verus!
