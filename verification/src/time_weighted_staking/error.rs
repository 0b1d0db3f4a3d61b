//! Why the staking pool refuses a call.

use vstd::prelude::*;

verus! {

/// The reasons for which a call is refused. A refused call changes nothing.
#[derive(Clone, Copy, Debug, PartialEq, Eq, Structural, Hash)]
pub enum StakingError {
    InvalidAmount,
    InsufficientStake,
    InsufficientBalance,
    NoStake,
    Unauthorized,
    InvalidTokenMint,
    MathOverflow,
    DistributionAlreadyActive,
    DistributionNotActive,
    DistributionStillActive,
    WrongDistributionEpoch,
    DistributionPermanentlyEnded,
    ReplayAttack,
    AlreadyClaimed,
    StakeNotActive,
    PoolPaused,
    AlreadyPaused,
    NotPaused,
    InvalidAuthority,
    SameAuthority,
    ExceedsMaxStake,
}

impl StakingError {
    /// The characters of the text shown to the caller for this error.
    pub open spec fn message_text(self) -> Seq<char> {
        match self {
            StakingError::InvalidAmount => "Invalid amount provided"@,
            StakingError::InsufficientStake => "Insufficient stake balance"@,
            StakingError::InsufficientBalance => "Insufficient balance for withdrawal"@,
            StakingError::NoStake => "No stake found"@,
            StakingError::Unauthorized => "Unauthorized access"@,
            StakingError::InvalidTokenMint => "Invalid token mint"@,
            StakingError::MathOverflow => "Math overflow"@,
            StakingError::DistributionAlreadyActive => "Distribution already active"@,
            StakingError::DistributionNotActive => "Distribution not active"@,
            StakingError::DistributionStillActive => "Distribution still active, cannot claim yet"@,
            StakingError::WrongDistributionEpoch => "User not in current distribution epoch"@,
            StakingError::DistributionPermanentlyEnded => "Distribution permanently ended, cannot start new distribution"@,
            StakingError::ReplayAttack => "Replay attack detected"@,
            StakingError::AlreadyClaimed => "Already claimed rewards for this epoch"@,
            StakingError::StakeNotActive => "Stake not active"@,
            StakingError::PoolPaused => "Pool paused"@,
            StakingError::AlreadyPaused => "Already paused"@,
            StakingError::NotPaused => "Not paused"@,
            StakingError::InvalidAuthority => "Invalid authority"@,
            StakingError::SameAuthority => "Same authority"@,
            StakingError::ExceedsMaxStake => "Exceeds max stake"@,
        }
    }

    /// The text shown to the caller for this error.
    pub fn message(&self) -> (text: &'static str)
        ensures
            text@ == self.message_text(),
    {
        match self {
            StakingError::InvalidAmount => "Invalid amount provided",
            StakingError::InsufficientStake => "Insufficient stake balance",
            StakingError::InsufficientBalance => "Insufficient balance for withdrawal",
            StakingError::NoStake => "No stake found",
            StakingError::Unauthorized => "Unauthorized access",
            StakingError::InvalidTokenMint => "Invalid token mint",
            StakingError::MathOverflow => "Math overflow",
            StakingError::DistributionAlreadyActive => "Distribution already active",
            StakingError::DistributionNotActive => "Distribution not active",
            StakingError::DistributionStillActive => "Distribution still active, cannot claim yet",
            StakingError::WrongDistributionEpoch => "User not in current distribution epoch",
            StakingError::DistributionPermanentlyEnded => "Distribution permanently ended, cannot start new distribution",
            StakingError::ReplayAttack => "Replay attack detected",
            StakingError::AlreadyClaimed => "Already claimed rewards for this epoch",
            StakingError::StakeNotActive => "Stake not active",
            StakingError::PoolPaused => "Pool paused",
            StakingError::AlreadyPaused => "Already paused",
            StakingError::NotPaused => "Not paused",
            StakingError::InvalidAuthority => "Invalid authority",
            StakingError::SameAuthority => "Same authority",
            StakingError::ExceedsMaxStake => "Exceeds max stake",
        }
    }
}

} // verus!
