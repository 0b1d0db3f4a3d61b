//! The treasury's instructions: setting it up, and creating, approving and
//! executing a payment.

use vstd::prelude::*;
use crate::accounts::Clock;
use crate::accounts::SystemTransfer;
use crate::aura_multisig::contexts::ApproveTransaction;
use crate::aura_multisig::contexts::CreateTransaction;
use crate::aura_multisig::contexts::ExecuteTransaction;
use crate::aura_multisig::contexts::InitializeMultisig;
use crate::aura_multisig::events::MultisigInitialized;
use crate::aura_multisig::events::TransactionApproved;
use crate::aura_multisig::events::TransactionCreated;
use crate::aura_multisig::events::TransactionExecuted;
use crate::aura_multisig::state::approvals_given;
use crate::aura_multisig::state::count_approvals;
use crate::aura_multisig::state::find_owner;
use crate::aura_multisig::state::lemma_approval_adds_one;
use crate::aura_multisig::state::lemma_approvals_given_bound;
use crate::aura_multisig::state::MAX_OWNERS;
use crate::aura_multisig::state::MultisigError;
use crate::aura_multisig::state::MultisigTransaction;
use crate::aura_multisig::state::owner_index;
use crate::aura_multisig::state::TransactionCategory;
use crate::pubkey::Pubkey;

verus! {

/// A copy of the keys.
pub fn copy_keys(keys: &Vec<Pubkey>) -> (copy: Vec<Pubkey>)
    ensures
        copy@ == keys@,
{
    let mut copy: Vec<Pubkey> = Vec::new();
    let mut i: usize = 0;
    while i < keys.len()
        invariant
            i <= keys.len(),
            copy@ == keys@.subrange(0, i as int),
        decreases keys.len() - i,
    {
        copy.push(keys[i]);
        proof {
            assert(copy@ =~= keys@.subrange(0, i + 1));
        }
        i += 1;
    }
    proof {
        assert(keys@.subrange(0, i as int) =~= keys@);
    }
    copy
}

/// As many approval slots as asked for, none of them set.
pub fn empty_approvals(slots: usize) -> (approvals: Vec<bool>)
    ensures
        approvals@ == Seq::new(slots as nat, |i: int| false),
{
    let mut approvals: Vec<bool> = Vec::new();
    let mut i: usize = 0;
    while i < slots
        invariant
            i <= slots,
            approvals@ == Seq::new(i as nat, |k: int| false),
        decreases slots - i,
    {
        approvals.push(false);
        proof {
            assert(approvals@ =~= Seq::new((i + 1) as nat, |k: int| false));
        }
        i += 1;
    }
    approvals
}

/// The first reason for which a treasury of these owners with this
/// threshold is refused; none where it is accepted.
pub open spec fn initialize_multisig_rejection(owners: Seq<Pubkey>, threshold: u8) -> Option<
    MultisigError,
> {
    if threshold == 0 || threshold > owners.len() {
        Some(MultisigError::InvalidThreshold)
    } else if owners.len() > MAX_OWNERS {
        Some(MultisigError::TooManyOwners)
    } else {
        None
    }
}

/// Sets the treasury up with its owners and the number of approvals that a
/// payment needs.
pub fn initialize_multisig(ctx: &mut InitializeMultisig, owners: Vec<Pubkey>, threshold: u8) -> (result:
    Result<MultisigInitialized, MultisigError>)
    ensures
        match result {
            Ok(event) => {
                &&& initialize_multisig_rejection(owners@, threshold) is None
                &&& final(ctx).multisig.key == old(ctx).multisig.key
                &&& final(ctx).multisig.lamports == old(ctx).multisig.lamports
                &&& final(ctx).bumps == old(ctx).bumps
                &&& final(ctx).multisig.data.owners@ == owners@
                &&& final(ctx).multisig.data.threshold == threshold
                &&& final(ctx).multisig.data.nonce == 0
                &&& final(ctx).multisig.data.bump == old(ctx).bumps.multisig
                &&& final(ctx).multisig.data.wf()
                &&& event.multisig == old(ctx).multisig.key
                &&& event.owners@ == owners@
                &&& event.threshold == threshold
            },
            Err(error) => {
                &&& initialize_multisig_rejection(owners@, threshold) == Some(error)
                &&& *final(ctx) == *old(ctx)
            },
        },
{
    if threshold == 0 || threshold as usize > owners.len() {
        return Err(MultisigError::InvalidThreshold);
    }
    if owners.len() > MAX_OWNERS {
        return Err(MultisigError::TooManyOwners);
    }
    let reported = copy_keys(&owners);
    ctx.multisig.data.owners = owners;
    ctx.multisig.data.threshold = threshold;
    ctx.multisig.data.nonce = 0;
    ctx.multisig.data.bump = ctx.bumps.multisig;
    Ok(MultisigInitialized { multisig: ctx.multisig.key, owners: reported, threshold })
}

/// Creates a payment of `amount` to `destination`, with one approval slot
/// for each owner of the treasury, none of them set.
pub fn create_transaction(
    ctx: &mut CreateTransaction,
    amount: u64,
    destination: Pubkey,
    category: TransactionCategory,
    clock: Clock,
) -> (event: TransactionCreated)
    ensures
        final(ctx).multisig == old(ctx).multisig,
        final(ctx).bumps == old(ctx).bumps,
        final(ctx).transaction.key == old(ctx).transaction.key,
        final(ctx).transaction.lamports == old(ctx).transaction.lamports,
        final(ctx).transaction.data.multisig == old(ctx).multisig.key,
        final(ctx).transaction.data.amount == amount,
        final(ctx).transaction.data.destination == destination,
        final(ctx).transaction.data.category == category,
        !final(ctx).transaction.data.executed,
        final(ctx).transaction.data.approvals@ == Seq::new(
            old(ctx).multisig.data.owners@.len(),
            |i: int| false,
        ),
        final(ctx).transaction.data.created_at == clock.unix_timestamp,
        final(ctx).transaction.data.executed_at == old(ctx).transaction.data.executed_at,
        final(ctx).transaction.data.bump == old(ctx).bumps.transaction,
        event == (TransactionCreated {
            multisig: old(ctx).multisig.key,
            transaction: old(ctx).transaction.key,
            amount,
            destination,
            category,
            created_at: clock.unix_timestamp,
        }),
{
    let approvals = empty_approvals(ctx.multisig.data.owners.len());
    ctx.transaction.data.multisig = ctx.multisig.key;
    ctx.transaction.data.amount = amount;
    ctx.transaction.data.destination = destination;
    ctx.transaction.data.category = category;
    ctx.transaction.data.executed = false;
    ctx.transaction.data.approvals = approvals;
    ctx.transaction.data.created_at = clock.unix_timestamp;
    ctx.transaction.data.bump = ctx.bumps.transaction;
    TransactionCreated {
        multisig: ctx.multisig.key,
        transaction: ctx.transaction.key,
        amount,
        destination,
        category,
        created_at: clock.unix_timestamp,
    }
}

/// The first reason for which an approval is refused; none where it is
/// accepted: the signer is an owner, has a slot in the transaction, and has
/// not approved it yet.
pub open spec fn approve_transaction_rejection(ctx: ApproveTransaction) -> Option<MultisigError> {
    match owner_index(ctx.multisig.data.owners@, ctx.signer.key) {
        Some(place) => {
            if place >= ctx.transaction.data.approvals@.len() {
                Some(MultisigError::NotOwner)
            } else if ctx.transaction.data.approvals@[place] {
                Some(MultisigError::AlreadyApproved)
            } else {
                None
            }
        },
        None => Some(MultisigError::NotOwner),
    }
}

/// The number of approvals as it is reported: the number itself, and 255
/// where it is larger.
pub open spec fn reported_count(approvals: Seq<bool>) -> u8 {
    if approvals_given(approvals) <= u8::MAX {
        approvals_given(approvals) as u8
    } else {
        u8::MAX
    }
}

/// Whether `after` is `before` with the approval slot at `place` set and
/// nothing else changed.
pub open spec fn approved_at(before: MultisigTransaction, after: MultisigTransaction, place: int) -> bool {
    &&& after.approvals@ == before.approvals@.update(place, true)
    &&& after.multisig == before.multisig
    &&& after.amount == before.amount
    &&& after.destination == before.destination
    &&& after.category == before.category
    &&& after.executed == before.executed
    &&& after.created_at == before.created_at
    &&& after.executed_at == before.executed_at
    &&& after.bump == before.bump
}

/// Records the signing owner's approval of the transaction, which adds one
/// to its approvals.
pub fn approve_transaction(ctx: &mut ApproveTransaction) -> (result: Result<
    TransactionApproved,
    MultisigError,
>)
    ensures
        match result {
            Ok(event) => {
                &&& approve_transaction_rejection(*old(ctx)) is None
                &&& final(ctx).multisig == old(ctx).multisig
                &&& final(ctx).signer == old(ctx).signer
                &&& final(ctx).transaction.key == old(ctx).transaction.key
                &&& final(ctx).transaction.lamports == old(ctx).transaction.lamports
                &&& approved_at(
                    old(ctx).transaction.data,
                    final(ctx).transaction.data,
                    owner_index(old(ctx).multisig.data.owners@, old(ctx).signer.key).unwrap(),
                )
                &&& approvals_given(final(ctx).transaction.data.approvals@) == approvals_given(
                    old(ctx).transaction.data.approvals@,
                ) + 1
                &&& event == (TransactionApproved {
                    multisig: old(ctx).multisig.key,
                    transaction: old(ctx).transaction.key,
                    approver: old(ctx).signer.key,
                    approval_count: reported_count(final(ctx).transaction.data.approvals@),
                })
            },
            Err(error) => {
                &&& approve_transaction_rejection(*old(ctx)) == Some(error)
                &&& *final(ctx) == *old(ctx)
            },
        },
{
    let place: usize = match find_owner(&ctx.multisig.data.owners, &ctx.signer.key) {
        Some(place) => place,
        None => {
            return Err(MultisigError::NotOwner);
        },
    };
    if place >= ctx.transaction.data.approvals.len() {
        return Err(MultisigError::NotOwner);
    }
    if ctx.transaction.data.approvals[place] {
        return Err(MultisigError::AlreadyApproved);
    }
    proof {
        lemma_approval_adds_one(ctx.transaction.data.approvals@, place as int);
    }
    ctx.transaction.data.approvals[place] = true;
    let count: usize = count_approvals(&ctx.transaction.data.approvals);
    let approval_count: u8 = if count > 255 {
        255
    } else {
        count as u8
    };
    Ok(
        TransactionApproved {
            multisig: ctx.multisig.key,
            transaction: ctx.transaction.key,
            approver: ctx.signer.key,
            approval_count,
        },
    )
}

/// The first reason for which executing the transaction is refused; none
/// where it is accepted: it was not executed before, and its approvals
/// reach the treasury's threshold.
pub open spec fn execute_transaction_rejection(ctx: ExecuteTransaction) -> Option<MultisigError> {
    if ctx.transaction.data.executed {
        Some(MultisigError::AlreadyExecuted)
    } else if approvals_given(ctx.transaction.data.approvals@) < ctx.multisig.data.threshold {
        Some(MultisigError::InsufficientApprovals)
    } else {
        None
    }
}

/// Whether `after` is `before` marked as executed at `now` and nothing else
/// changed.
pub open spec fn executed_at(before: MultisigTransaction, after: MultisigTransaction, now: i64) -> bool {
    &&& after.executed
    &&& after.executed_at == Some(now)
    &&& after.approvals == before.approvals
    &&& after.multisig == before.multisig
    &&& after.amount == before.amount
    &&& after.destination == before.destination
    &&& after.category == before.category
    &&& after.created_at == before.created_at
    &&& after.bump == before.bump
}

/// Executes a transaction that has enough approvals, once. Returns what is
/// reported of it and the payment to make: the transaction's amount, from
/// the treasury's vault to the destination account handed in.
pub fn execute_transaction(ctx: &mut ExecuteTransaction, clock: Clock) -> (result: Result<
    (TransactionExecuted, SystemTransfer),
    MultisigError,
>)
    ensures
        match result {
            Ok(receipt) => {
                &&& execute_transaction_rejection(*old(ctx)) is None
                &&& final(ctx).multisig == old(ctx).multisig
                &&& final(ctx).multisig_vault == old(ctx).multisig_vault
                &&& final(ctx).destination == old(ctx).destination
                &&& final(ctx).transaction.key == old(ctx).transaction.key
                &&& final(ctx).transaction.lamports == old(ctx).transaction.lamports
                &&& executed_at(
                    old(ctx).transaction.data,
                    final(ctx).transaction.data,
                    clock.unix_timestamp,
                )
                &&& receipt.0 == (TransactionExecuted {
                    multisig: old(ctx).multisig.key,
                    transaction: old(ctx).transaction.key,
                    amount: old(ctx).transaction.data.amount,
                    destination: old(ctx).transaction.data.destination,
                    category: old(ctx).transaction.data.category,
                    executed_at: clock.unix_timestamp,
                })
                &&& receipt.1 == (SystemTransfer {
                    from: old(ctx).multisig_vault,
                    to: old(ctx).destination,
                    lamports: old(ctx).transaction.data.amount,
                })
            },
            Err(error) => {
                &&& execute_transaction_rejection(*old(ctx)) == Some(error)
                &&& *final(ctx) == *old(ctx)
            },
        },
{
    if ctx.transaction.data.executed {
        return Err(MultisigError::AlreadyExecuted);
    }
    let count: usize = count_approvals(&ctx.transaction.data.approvals);
    if count < ctx.multisig.data.threshold as usize {
        return Err(MultisigError::InsufficientApprovals);
    }
    ctx.transaction.data.executed = true;
    ctx.transaction.data.executed_at = Some(clock.unix_timestamp);
    Ok(
        (
            TransactionExecuted {
                multisig: ctx.multisig.key,
                transaction: ctx.transaction.key,
                amount: ctx.transaction.data.amount,
                destination: ctx.transaction.data.destination,
                category: ctx.transaction.data.category,
                executed_at: clock.unix_timestamp,
            },
            SystemTransfer {
                from: ctx.multisig_vault,
                to: ctx.destination,
                lamports: ctx.transaction.data.amount,
            },
        ),
    )
}

/// A transaction that was executed is never executed again: executing
/// marks it, and a marked transaction is refused.
pub proof fn lemma_executed_once(
    before: ExecuteTransaction,
    after: ExecuteTransaction,
    now: i64,
)
    requires
        execute_transaction_rejection(before) is None,
        executed_at(before.transaction.data, after.transaction.data, now),
    ensures
        execute_transaction_rejection(after) == Some(MultisigError::AlreadyExecuted),
{
}

/// A payment is made only with the approvals of at least as many owners as
/// the threshold asks: an accepted execution finds that many slots set, and
/// no more slots are set than the transaction has.
pub proof fn lemma_execution_needs_threshold(ctx: ExecuteTransaction)
    requires
        execute_transaction_rejection(ctx) is None,
    ensures
        ctx.multisig.data.threshold <= approvals_given(ctx.transaction.data.approvals@),
        approvals_given(ctx.transaction.data.approvals@) <= ctx.transaction.data.approvals@.len(),
{
    lemma_approvals_given_bound(ctx.transaction.data.approvals@);
}

} // verus!
