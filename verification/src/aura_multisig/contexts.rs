//! The accounts that each instruction of the treasury is handed.

use vstd::prelude::*;
use crate::accounts::Account;
use crate::accounts::Signer;
use crate::aura_multisig::state::Multisig;
use crate::aura_multisig::state::MultisigTransaction;
use crate::pubkey::Pubkey;

verus! {

/// The bump of the treasury's record, found when it is made.
#[derive(Clone, Copy, Debug, PartialEq, Eq)]
pub struct InitializeMultisigBumps {
    pub multisig: u8,
}

/// The accounts for setting the treasury up.
#[derive(Clone, Debug, PartialEq, Eq)]
pub struct InitializeMultisig {
    pub multisig: Account<Multisig>,
    pub bumps: InitializeMultisigBumps,
}

/// The bump of a transaction's record, found when it is made.
#[derive(Clone, Copy, Debug, PartialEq, Eq)]
pub struct CreateTransactionBumps {
    pub transaction: u8,
}

/// The accounts for creating a payment.
#[derive(Clone, Debug, PartialEq, Eq)]
pub struct CreateTransaction {
    pub transaction: Account<MultisigTransaction>,
    pub multisig: Account<Multisig>,
    pub bumps: CreateTransactionBumps,
}

/// The accounts for approving a payment.
#[derive(Clone, Debug, PartialEq, Eq)]
pub struct ApproveTransaction {
    pub transaction: Account<MultisigTransaction>,
    pub multisig: Account<Multisig>,
    pub signer: Signer,
}

/// The accounts for executing a payment.
#[derive(Clone, Debug, PartialEq, Eq)]
pub struct ExecuteTransaction {
    pub transaction: Account<MultisigTransaction>,
    pub multisig: Account<Multisig>,
    /// Address of the account that holds the treasury's balance.
    pub multisig_vault: Pubkey,
    /// Address of the account that is paid.
    pub destination: Pubkey,
}

} // verus!
