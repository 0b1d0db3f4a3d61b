//! Plain records for what an instruction is handed by the ledger that hosts it:
//! the accounts it may read and change, the clock, and the token movements it
//! asks the token program to make.

use vstd::prelude::*;
use crate::pubkey::Pubkey;

verus! {

/// The ledger's clock at the time of a call.
#[derive(Clone, Copy, Debug, PartialEq, Eq)]
pub struct Clock {
    /// Number of the block being built; it never repeats and only grows.
    pub slot: u64,
    /// Seconds since the Unix epoch.
    pub unix_timestamp: i64,
}

/// An account that carries a record of type `T`.
#[derive(Clone, Copy, Debug, PartialEq, Eq)]
pub struct Account<T> {
    /// The account's address.
    pub key: Pubkey,
    /// The native balance held by the account.
    pub lamports: u64,
    /// The record stored in the account.
    pub data: T,
}

/// An account that signed the call.
#[derive(Clone, Copy, Debug, PartialEq, Eq)]
pub struct Signer {
    pub key: Pubkey,
    pub lamports: u64,
}

/// What an instruction reads of a token account.
#[derive(Clone, Copy, Debug, PartialEq, Eq)]
pub struct TokenAccount {
    /// The token that the account holds.
    pub mint: Pubkey,
    /// Who may move the tokens.
    pub owner: Pubkey,
    /// How many tokens it holds.
    pub amount: u64,
}

/// A request to the token program: move `amount` tokens from one token account
/// to another, under the given authority.
#[derive(Clone, Copy, Debug, PartialEq, Eq)]
pub struct Transfer {
    pub from: Pubkey,
    pub to: Pubkey,
    pub authority: Pubkey,
    pub amount: u64,
}

/// A request to the system program: move `lamports` of native balance.
#[derive(Clone, Copy, Debug, PartialEq, Eq)]
pub struct SystemTransfer {
    pub from: Pubkey,
    pub to: Pubkey,
    pub lamports: u64,
}

} // verus!
