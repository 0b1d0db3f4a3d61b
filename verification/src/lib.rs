//! The ledgers of four on-chain programs, as functions on plain records:
//! time-weighted staking, fixed-rate staking, taxed staking with
//! redistribution, and a multisignature treasury.

pub mod accounts;
pub mod aura_burn_redistribution;
pub mod aura_multisig;
pub mod aura_staking;
pub mod math;
pub mod pda;
pub mod pubkey;
pub mod time_weighted_staking;
