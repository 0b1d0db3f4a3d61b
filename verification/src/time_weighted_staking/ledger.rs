//! The pool together with its stakers, and what holds of them whatever
//! calls are made.

use vstd::prelude::*;
use crate::accounts::Account;
use crate::accounts::Clock;
use crate::time_weighted_staking::accrual::lemma_staker_earns_from_epoch_start;
use crate::time_weighted_staking::accrual::pool_accrued;
use crate::time_weighted_staking::accrual::user_accrued;
use crate::time_weighted_staking::contexts::Stake;
use crate::time_weighted_staking::contexts::StartDistribution;
use crate::time_weighted_staking::contexts::Unstake;
use crate::time_weighted_staking::distribution::start_distribution_accounts;
use crate::time_weighted_staking::distribution::start_distribution_rejection;
use crate::time_weighted_staking::distribution::started_pool;
use crate::time_weighted_staking::staking::stake_accounts;
use crate::time_weighted_staking::staking::stake_rejection;
use crate::time_weighted_staking::staking::unstake_accounts;
use crate::time_weighted_staking::staking::unstake_rejection;
use crate::time_weighted_staking::state::StakingPool;
use crate::time_weighted_staking::state::UserStake;

verus! {

/// A pool and the records of its stakers.
pub struct Ledger {
    pub pool: StakingPool,
    pub stakes: Seq<UserStake>,
}

/// A call that changes principal, made by the staker whose record stands at
/// `staker` in the ledger. Of the accounts in `ctx`, the pool's record and
/// the staker's record are those of the ledger at the time of the call.
#[allow(inconsistent_fields)]
pub enum PrincipalCall {
    Stake { staker: int, ctx: Stake, amount: u64, clock: Clock },
    Unstake { staker: int, ctx: Unstake, amount: u64, clock: Clock },
}

/// The principal that counts towards the pool's total: that of an active record.
pub open spec fn active_amount(user: UserStake) -> nat {
    if user.is_active {
        user.amount as nat
    } else {
        0
    }
}

/// The sum of the principals of the active records.
pub open spec fn active_total(stakes: Seq<UserStake>) -> nat
    decreases stakes.len(),
{
    if stakes.len() == 0 {
        0
    } else {
        active_total(stakes.drop_last()) + active_amount(stakes.last())
    }
}

impl Ledger {
    /// The pool's total is the sum of what its active stakers hold, and a
    /// record is active exactly while it holds principal.
    pub open spec fn balanced(self) -> bool {
        &&& self.pool.total_staked == active_total(self.stakes)
        &&& forall|i: int| 0 <= i < self.stakes.len() ==> (#[trigger] self.stakes[i]).wf()
    }

    /// The ledger after `call`. A call that is refused, or that names no
    /// staker of the ledger, changes nothing.
    pub open spec fn after(self, call: PrincipalCall) -> Ledger {
        match call {
            PrincipalCall::Stake { staker, ctx, amount, clock } => {
                if 0 <= staker < self.stakes.len() {
                    let accounts = Stake {
                        staking_pool: Account { data: self.pool, ..ctx.staking_pool },
                        user_stake: Account { data: self.stakes[staker], ..ctx.user_stake },
                        ..ctx
                    };
                    if stake_rejection(accounts, amount, clock) is None {
                        let changed = stake_accounts(accounts, amount, clock);
                        Ledger {
                            pool: changed.staking_pool.data,
                            stakes: self.stakes.update(staker, changed.user_stake.data),
                        }
                    } else {
                        self
                    }
                } else {
                    self
                }
            },
            PrincipalCall::Unstake { staker, ctx, amount, clock } => {
                if 0 <= staker < self.stakes.len() {
                    let accounts = Unstake {
                        staking_pool: Account { data: self.pool, ..ctx.staking_pool },
                        user_stake: Account { data: self.stakes[staker], ..ctx.user_stake },
                        ..ctx
                    };
                    if unstake_rejection(accounts, amount, clock) is None {
                        let changed = unstake_accounts(accounts, amount, clock);
                        Ledger {
                            pool: changed.staking_pool.data,
                            stakes: self.stakes.update(staker, changed.user_stake.data),
                        }
                    } else {
                        self
                    }
                } else {
                    self
                }
            },
        }
    }

    /// The ledger after the calls were made one after the other.
    pub open spec fn after_all(self, calls: Seq<PrincipalCall>) -> Ledger
        decreases calls.len(),
    {
        if calls.len() == 0 {
            self
        } else {
            self.after_all(calls.drop_last()).after(calls.last())
        }
    }
}

/// Replacing one record changes the active total by what that record's
/// active principal changed.
pub proof fn lemma_active_total_update(stakes: Seq<UserStake>, i: int, user: UserStake)
    requires
        0 <= i < stakes.len(),
    ensures
        active_total(stakes.update(i, user)) == active_total(stakes) - active_amount(stakes[i])
            + active_amount(user),
    decreases stakes.len(),
{
    let updated = stakes.update(i, user);
    if i == stakes.len() - 1 {
        assert(updated.drop_last() =~= stakes.drop_last());
    } else {
        assert(updated.drop_last() =~= stakes.drop_last().update(i, user));
        lemma_active_total_update(stakes.drop_last(), i, user);
    }
}

/// One call that changes principal keeps the ledger balanced.
pub proof fn lemma_call_keeps_balance(ledger: Ledger, call: PrincipalCall)
    requires
        ledger.balanced(),
    ensures
        ledger.after(call).balanced(),
{
    match call {
        PrincipalCall::Stake { staker, ctx, amount, clock } => {
            if 0 <= staker < ledger.stakes.len() {
                let accounts = Stake {
                    staking_pool: Account { data: ledger.pool, ..ctx.staking_pool },
                    user_stake: Account { data: ledger.stakes[staker], ..ctx.user_stake },
                    ..ctx
                };
                if stake_rejection(accounts, amount, clock) is None {
                    let changed = stake_accounts(accounts, amount, clock);
                    assert(ledger.stakes[staker].wf());
                    lemma_active_total_update(ledger.stakes, staker, changed.user_stake.data);
                }
            }
        },
        PrincipalCall::Unstake { staker, ctx, amount, clock } => {
            if 0 <= staker < ledger.stakes.len() {
                let accounts = Unstake {
                    staking_pool: Account { data: ledger.pool, ..ctx.staking_pool },
                    user_stake: Account { data: ledger.stakes[staker], ..ctx.user_stake },
                    ..ctx
                };
                if unstake_rejection(accounts, amount, clock) is None {
                    let changed = unstake_accounts(accounts, amount, clock);
                    assert(ledger.stakes[staker].wf());
                    lemma_active_total_update(ledger.stakes, staker, changed.user_stake.data);
                }
            }
        },
    }
}

/// Whatever stakes and unstakes are made, in whatever order, accepted or
/// refused: the pool's staked total stays the sum of the principals of its
/// active stakers.
pub proof fn lemma_total_staked_is_sum_of_stakes(ledger: Ledger, calls: Seq<PrincipalCall>)
    requires
        ledger.balanced(),
    ensures
        ledger.after_all(calls).balanced(),
        ledger.after_all(calls).pool.total_staked == active_total(ledger.after_all(calls).stakes),
    decreases calls.len(),
{
    if calls.len() > 0 {
        lemma_total_staked_is_sum_of_stakes(ledger, calls.drop_last());
        lemma_call_keeps_balance(ledger.after_all(calls.drop_last()), calls.last());
    }
}

/// A pool in which nothing is staked, with stakers who hold nothing, is
/// balanced.
pub proof fn lemma_empty_ledger_is_balanced(ledger: Ledger)
    requires
        ledger.pool.total_staked == 0,
        forall|i: int|
            0 <= i < ledger.stakes.len() ==> (#[trigger] ledger.stakes[i]).amount == 0
                && !ledger.stakes[i].is_active,
    ensures
        ledger.balanced(),
    decreases ledger.stakes.len(),
{
    if ledger.stakes.len() > 0 {
        let rest = Ledger { pool: ledger.pool, stakes: ledger.stakes.drop_last() };
        assert forall|i: int| 0 <= i < rest.stakes.len() implies (#[trigger] rest.stakes[i]).amount
            == 0 && !rest.stakes[i].is_active by {
            assert(rest.stakes[i] == ledger.stakes[i]);
        }
        lemma_empty_ledger_is_balanced(rest);
    }
}

/// While no distribution runs, no weight accrues: whatever stakes and
/// unstakes are made, the weight of the pool and of every staker stays what
/// it was, and no call of a staker starts a distribution.
pub proof fn lemma_no_weight_without_distribution(ledger: Ledger, calls: Seq<PrincipalCall>)
    requires
        !ledger.pool.distribution_active,
    ensures
        !ledger.after_all(calls).pool.distribution_active,
        ledger.after_all(calls).pool.total_weighted_stake == ledger.pool.total_weighted_stake,
        ledger.after_all(calls).stakes.len() == ledger.stakes.len(),
        forall|i: int|
            0 <= i < ledger.stakes.len() ==> (#[trigger] ledger.after_all(
                calls,
            ).stakes[i]).weighted_stake == ledger.stakes[i].weighted_stake,
    decreases calls.len(),
{
    if calls.len() > 0 {
        lemma_no_weight_without_distribution(ledger, calls.drop_last());
    }
}

/// Once an epoch is started, the pool's weight counts from the start: when
/// it is next brought up to date, it is what was staked at the start times
/// the seconds since the start, whatever was staked for however long before.
pub proof fn lemma_weight_counts_from_start(pool: StakingPool, start: Clock, now: i64)
    requires
        pool_accrued(started_pool(pool, start), now) is Some,
    ensures
        start.unix_timestamp <= now,
        pool_accrued(started_pool(pool, start), now).unwrap().total_weighted_stake
            == pool.total_staked * (now - start.unix_timestamp),
{
}

/// Staking while no distribution runs, waiting, and then starting one
/// yields no weight for the time before the start. Whatever is staked and
/// unstaked before the start: at the start the pool is without weight and
/// the stakers' weights are what they were; and when the weights are next
/// brought up to date, the pool has earned what is staked times the seconds
/// since the start, and so has every staker whose record was last changed
/// before the start, on their principal.
pub proof fn lemma_no_weight_for_time_before_start(
    ledger: Ledger,
    calls: Seq<PrincipalCall>,
    start: StartDistribution,
    clock: Clock,
    staker: int,
    now: i64,
)
    requires
        !ledger.pool.distribution_active,
        start.staking_pool.data == ledger.after_all(calls).pool,
        start_distribution_rejection(start, clock) is None,
        0 <= staker < ledger.stakes.len(),
        ledger.after_all(calls).stakes[staker].last_stake_time <= clock.unix_timestamp,
        pool_accrued(start_distribution_accounts(start, clock).staking_pool.data, now) is Some,
        user_accrued(
            ledger.after_all(calls).stakes[staker],
            start_distribution_accounts(start, clock).staking_pool.data,
            now,
        ) is Some,
    ensures
        start_distribution_accounts(start, clock).staking_pool.data.total_weighted_stake == 0,
        ledger.after_all(calls).stakes[staker].weighted_stake
            == ledger.stakes[staker].weighted_stake,
        pool_accrued(
            start_distribution_accounts(start, clock).staking_pool.data,
            now,
        ).unwrap().total_weighted_stake == ledger.after_all(calls).pool.total_staked * (now
            - clock.unix_timestamp),
        user_accrued(
            ledger.after_all(calls).stakes[staker],
            start_distribution_accounts(start, clock).staking_pool.data,
            now,
        ).unwrap().weighted_stake == ledger.stakes[staker].weighted_stake + ledger.after_all(
            calls,
        ).stakes[staker].amount * (now - clock.unix_timestamp),
{
    lemma_no_weight_without_distribution(ledger, calls);
    lemma_staker_earns_from_epoch_start(
        ledger.after_all(calls).stakes[staker],
        start_distribution_accounts(start, clock).staking_pool.data,
        now,
    );
}

} // verus!
