//! The records of the taxed pool, and why it refuses a call.

use vstd::prelude::*;
use crate::pubkey::Pubkey;

verus! {

/// The highest tax rate that can be set, in basis points.
pub const MAX_TAX_RATE: u16 = 1000;

/// What a stake earns in a year, in basis points of the principal.
pub const ANNUAL_REWARD_RATE: u64 = 1200;

/// What a distribution round reports as the yearly yield, in basis points.
pub const ANNUAL_YIELD_RATE: u64 = 800;

/// Seconds in a year of 365 days.
pub const SECONDS_PER_YEAR: u64 = 31_536_000;

/// Rewards per token are reported in parts per this many.
pub const REWARD_SCALE: u64 = 1_000_000;

/// The program's record.
#[derive(Clone, Copy, Debug, PartialEq, Eq)]
pub struct GlobalState {
    /// Who may administer the program.
    pub authority: Pubkey,
    /// Seconds that must pass between two distribution rounds.
    pub redistribution_frequency: i64,
    /// Withheld from each stake, in basis points.
    pub stake_tax_rate: u16,
    /// Withheld from each unstake, in basis points.
    pub unstake_tax_rate: u16,
    /// Withheld from each claim, in basis points.
    pub reward_tax_rate: u16,
    /// Sum of the principals currently staked.
    pub total_staked: u64,
    /// Tax collected since the last distribution round.
    pub total_tax_collected: u64,
    /// The time of the last distribution round.
    pub last_distribution: i64,
    /// Number of distribution rounds so far.
    pub distribution_round: u64,
    /// While set, every call but the authority's is refused.
    pub is_paused: bool,
}

/// One staker's record.
#[derive(Clone, Copy, Debug, PartialEq, Eq)]
pub struct StakingAccount {
    pub owner: Pubkey,
    /// The principal currently staked.
    pub staked_amount: u64,
    /// Rewards counted but not yet paid.
    pub pending_rewards: u64,
    /// The time from which rewards count.
    pub last_reward_claim: i64,
}

/// The reasons for which a call is refused. A refused call changes nothing.
#[derive(Clone, Copy, Debug, PartialEq, Eq, Structural, Hash)]
pub enum ErrorCode {
    ProgramPaused,
    MathOverflow,
    InvalidAmount,
    InsufficientStaked,
    DistributionTooEarly,
    NoStakers,
    NoRewardsToClaim,
    TaxRateTooHigh,
    /// The signer is not the program's authority.
    Unauthorized,
}

impl ErrorCode {
    /// The characters of the text shown to the caller for this error.
    pub open spec fn message_text(self) -> Seq<char> {
        match self {
            ErrorCode::ProgramPaused => "Program is currently paused"@,
            ErrorCode::MathOverflow => "Math operation overflow"@,
            ErrorCode::InvalidAmount => "Invalid amount provided"@,
            ErrorCode::InsufficientStaked => "Insufficient staked tokens"@,
            ErrorCode::DistributionTooEarly => "Distribution called too early"@,
            ErrorCode::NoStakers => "No stakers in the pool"@,
            ErrorCode::NoRewardsToClaim => "No rewards to claim"@,
            ErrorCode::TaxRateTooHigh => "Tax rate too high (max 10%)"@,
            ErrorCode::Unauthorized => "Unauthorized access"@,
        }
    }

    /// The text shown to the caller for this error.
    pub fn message(&self) -> (text: &'static str)
        ensures
            text@ == self.message_text(),
    {
        match self {
            ErrorCode::ProgramPaused => "Program is currently paused",
            ErrorCode::MathOverflow => "Math operation overflow",
            ErrorCode::InvalidAmount => "Invalid amount provided",
            ErrorCode::InsufficientStaked => "Insufficient staked tokens",
            ErrorCode::DistributionTooEarly => "Distribution called too early",
            ErrorCode::NoStakers => "No stakers in the pool",
            ErrorCode::NoRewardsToClaim => "No rewards to claim",
            ErrorCode::TaxRateTooHigh => "Tax rate too high (max 10%)",
            ErrorCode::Unauthorized => "Unauthorized access",
        }
    }
}

} // verus!
