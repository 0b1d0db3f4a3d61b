//! The records of the treasury, and why it refuses a call.

use vstd::prelude::*;
use crate::pubkey::Pubkey;

verus! {

/// The most owners that a treasury may have.
pub const MAX_OWNERS: usize = 10;

/// The treasury's record.
#[derive(Clone, Debug, PartialEq, Eq)]
pub struct Multisig {
    /// Who may approve payments.
    pub owners: Vec<Pubkey>,
    /// How many approvals a payment needs.
    pub threshold: u8,
    pub nonce: u64,
    pub bump: u8,
}

/// What a payment is for.
#[derive(Clone, Copy, Debug, PartialEq, Eq, Structural, Hash)]
pub enum TransactionCategory {
    Operations,
    BusinessCosts,
    Marketing,
    ProjectFunding,
}

/// The record of one payment.
#[derive(Clone, Debug, PartialEq, Eq)]
pub struct MultisigTransaction {
    /// The treasury that the payment belongs to.
    pub multisig: Pubkey,
    /// The native balance to pay.
    pub amount: u64,
    pub destination: Pubkey,
    pub category: TransactionCategory,
    /// Set once the payment was made.
    pub executed: bool,
    /// One slot for each owner, in the owners' order; set once that owner
    /// has approved.
    pub approvals: Vec<bool>,
    pub created_at: i64,
    pub executed_at: Option<i64>,
    pub bump: u8,
}

/// The reasons for which a call is refused. A refused call changes nothing.
#[derive(Clone, Copy, Debug, PartialEq, Eq, Structural, Hash)]
pub enum MultisigError {
    InvalidThreshold,
    TooManyOwners,
    NotOwner,
    AlreadyApproved,
    AlreadyExecuted,
    InsufficientApprovals,
}

impl MultisigError {
    /// The characters of the text shown to the caller for this error.
    pub open spec fn message_text(self) -> Seq<char> {
        match self {
            MultisigError::InvalidThreshold => "Invalid threshold"@,
            MultisigError::TooManyOwners => "Too many owners"@,
            MultisigError::NotOwner => "Not an owner"@,
            MultisigError::AlreadyApproved => "Already approved"@,
            MultisigError::AlreadyExecuted => "Already executed"@,
            MultisigError::InsufficientApprovals => "Insufficient approvals"@,
        }
    }

    /// The text shown to the caller for this error.
    pub fn message(&self) -> (text: &'static str)
        ensures
            text@ == self.message_text(),
    {
        match self {
            MultisigError::InvalidThreshold => "Invalid threshold",
            MultisigError::TooManyOwners => "Too many owners",
            MultisigError::NotOwner => "Not an owner",
            MultisigError::AlreadyApproved => "Already approved",
            MultisigError::AlreadyExecuted => "Already executed",
            MultisigError::InsufficientApprovals => "Insufficient approvals",
        }
    }
}

impl Multisig {
    /// A treasury has at least one and at most `MAX_OWNERS` owners, and
    /// needs at least one approval and no more than it has owners.
    pub open spec fn wf(self) -> bool {
        &&& 0 < self.threshold <= self.owners@.len()
        &&& self.owners@.len() <= MAX_OWNERS
    }
}

/// How many of the slots are set.
pub open spec fn approvals_given(approvals: Seq<bool>) -> nat
    decreases approvals.len(),
{
    if approvals.len() == 0 {
        0
    } else {
        approvals_given(approvals.drop_last()) + if approvals.last() {
            1nat
        } else {
            0nat
        }
    }
}

/// No more slots are set than there are.
pub proof fn lemma_approvals_given_bound(approvals: Seq<bool>)
    ensures
        approvals_given(approvals) <= approvals.len(),
    decreases approvals.len(),
{
    if approvals.len() > 0 {
        lemma_approvals_given_bound(approvals.drop_last());
    }
}

/// Setting a slot that was not set adds one approval.
pub proof fn lemma_approval_adds_one(approvals: Seq<bool>, i: int)
    requires
        0 <= i < approvals.len(),
        !approvals[i],
    ensures
        approvals_given(approvals.update(i, true)) == approvals_given(approvals) + 1,
    decreases approvals.len(),
{
    let updated = approvals.update(i, true);
    if i == approvals.len() - 1 {
        assert(updated.drop_last() =~= approvals.drop_last());
    } else {
        assert(updated.drop_last() =~= approvals.drop_last().update(i, true));
        lemma_approval_adds_one(approvals.drop_last(), i);
    }
}

/// Counts the slots that are set.
pub fn count_approvals(approvals: &Vec<bool>) -> (count: usize)
    ensures
        count == approvals_given(approvals@),
{
    let mut count: usize = 0;
    let mut i: usize = 0;
    while i < approvals.len()
        invariant
            i <= approvals.len(),
            count == approvals_given(approvals@.subrange(0, i as int)),
            count <= i,
        decreases approvals.len() - i,
    {
        proof {
            assert(approvals@.subrange(0, i + 1).drop_last() =~= approvals@.subrange(0, i as int));
        }
        if approvals[i] {
            count += 1;
        }
        i += 1;
    }
    proof {
        assert(approvals@.subrange(0, i as int) =~= approvals@);
    }
    count
}

/// Whether `i` is the first place at which `signer` stands among `owners`.
pub open spec fn is_first_place(owners: Seq<Pubkey>, signer: Pubkey, i: int) -> bool {
    &&& 0 <= i < owners.len()
    &&& owners[i] == signer
    &&& forall|j: int| 0 <= j < i ==> owners[j] != signer
}

/// The first place at which `signer` stands among `owners`; none where
/// `signer` is no owner.
pub open spec fn owner_index(owners: Seq<Pubkey>, signer: Pubkey) -> Option<int> {
    if exists|i: int| is_first_place(owners, signer, i) {
        Some(choose|i: int| is_first_place(owners, signer, i))
    } else {
        None
    }
}

/// Finds the first place at which `signer` stands among `owners`.
pub fn find_owner(owners: &Vec<Pubkey>, signer: &Pubkey) -> (place: Option<usize>)
    ensures
        match place {
            Some(i) => owner_index(owners@, *signer) == Some(i as int),
            None => owner_index(owners@, *signer) is None,
        },
{
    let mut i: usize = 0;
    while i < owners.len()
        invariant
            i <= owners.len(),
            forall|j: int| 0 <= j < i ==> owners@[j] != *signer,
        decreases owners.len() - i,
    {
        if owners[i] == *signer {
            proof {
                assert(is_first_place(owners@, *signer, i as int));
                let chosen = choose|k: int| is_first_place(owners@, *signer, k);
                assert(is_first_place(owners@, *signer, chosen));
                assert(chosen == i);
            }
            return Some(i);
        }
        i += 1;
    }
    None
}

} // verus!
