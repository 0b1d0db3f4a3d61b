//! A treasury that pays out when enough of its owners have approved.
//!
//! A payment is first created as a transaction with one approval slot for
//! each owner. Owners approve it one by one. Once the approvals reach the
//! threshold, the transaction can be executed, once.

pub mod contexts;
pub mod events;
pub mod seeds;
pub mod state;
pub mod treasury;
