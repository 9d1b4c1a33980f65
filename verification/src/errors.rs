//! The flat error taxonomy shared by all three record families. Errors are
//! surfaced to the caller verbatim; the core never recovers or retries.

use vstd::prelude::*;

verus! {

/// Every way an operation can refuse to run. A failed precondition aborts
/// the whole operation with no partial state change.
#[derive(Clone, Copy, Debug, PartialEq, Eq, Structural)]
pub enum RealStackError {
    /// Unauthorized access to resource or operation
    Unauthorized,
    /// Invalid parameters provided
    InvalidParameters,
    /// Overflow in mathematical operation
    MathOverflow,
    /// Underflow in mathematical operation
    MathUnderflow,
    /// Asset not found
    AssetNotFound,
    /// Asset not verified
    AssetNotVerified,
    /// Asset already verified
    AssetAlreadyVerified,
    /// Asset not tradable
    AssetNotTradable,
    /// Asset already tokenized
    AssetAlreadyTokenized,
    /// Asset burned/deactivated
    AssetBurned,
    /// Asset already burned
    AssetAlreadyBurned,
    /// Insufficient funds
    InsufficientFunds,
    /// Invalid voting period
    InvalidVotingPeriod,
    /// Proposal is inactive
    ProposalInactive,
    /// Voting period has ended
    VotingPeriodEnded,
    /// Voting period not ended
    VotingPeriodNotEnded,
    /// Proposal already executed
    ProposalAlreadyExecuted,
    /// Invalid token mint
    InvalidTokenMint,
    /// Invalid token account
    InvalidTokenAccount,
    /// Invalid valuation
    InvalidValuation,
    /// Cannot mint additional tokens
    CannotMintAdditional,
    /// Invalid distribution amount
    InvalidDistributionAmount,
    /// Income distribution too frequent
    DistributionTooFrequent,
    /// Share price too low
    SharePriceTooLow,
    /// Total shares exceeds maximum
    TotalSharesExceedsMaximum,
    /// Invalid asset category
    InvalidAssetCategory,
    /// Asset name too long
    AssetNameTooLong,
    /// Asset description too long
    AssetDescriptionTooLong,
    /// Liquidity pool already exists
    LiquidityPoolExists,
    /// Liquidity pool not found
    LiquidityPoolNotFound,
}

} // verus!
