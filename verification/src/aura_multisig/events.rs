//! What the treasury reports of each accepted call.

use vstd::prelude::*;
use crate::aura_multisig::state::TransactionCategory;
use crate::pubkey::Pubkey;

verus! {

/// The treasury was set up.
#[derive(Clone, Debug, PartialEq, Eq)]
pub struct MultisigInitialized {
    pub multisig: Pubkey,
    pub owners: Vec<Pubkey>,
    pub threshold: u8,
}

/// A payment was created.
#[derive(Clone, Copy, Debug, PartialEq, Eq)]
pub struct TransactionCreated {
    pub multisig: Pubkey,
    pub transaction: Pubkey,
    pub amount: u64,
    pub destination: Pubkey,
    pub category: TransactionCategory,
    pub created_at: i64,
}

/// An owner approved a payment.
#[derive(Clone, Copy, Debug, PartialEq, Eq)]
pub struct TransactionApproved {
    pub multisig: Pubkey,
    pub transaction: Pubkey,
    pub approver: Pubkey,
    pub approval_count: u8,
}

/// A payment was made.
#[derive(Clone, Copy, Debug, PartialEq, Eq)]
pub struct TransactionExecuted {
    pub multisig: Pubkey,
    pub transaction: Pubkey,
    pub amount: u64,
    pub destination: Pubkey,
    pub category: TransactionCategory,
    pub executed_at: i64,
}

} // verus!
