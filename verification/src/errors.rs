//! The error surface of the engine.
//!
//! Every operation rejects an illegal request with one of these codes
//! before mutating any state; an error always leaves the ledger exactly
//! as it was.

use vstd::prelude::*;

verus! {

/// Discriminated error codes for every way an operation can be refused.
#[derive(Clone, Copy, Debug, PartialEq, Eq, Structural)]
pub enum ErrorCode {
    /// The market has already been resolved.
    MarketAlreadyResolved,
    /// Betting on this market has closed.
    MarketClosed,
    /// A bet amount must be positive.
    InvalidBetAmount,
    /// The market has not been resolved yet.
    MarketStillOpen,
    /// The resolution deadline has not been reached yet.
    MarketStillInGracePeriod,
    /// The caller is neither the creator nor the authorized resolver.
    UnauthorizedResolver,
    /// The bet has already been claimed or refunded.
    AlreadyClaimed,
    /// The bet belongs to a different user.
    NotYourBet,
    /// The bet belongs to a different market.
    InvalidMarket,
    /// Overflow or underflow in a checked arithmetic operation.
    Overflow,
    /// The winning side holds no stake.
    NoWinners,
    /// The escrow balance cannot cover the computed transfer.
    InsufficientEscrowBalance,
    /// The user already holds a bet on this market.
    DuplicateBet,
    /// The question exceeds 256 characters.
    QuestionTooLong,
    /// The question is empty.
    QuestionEmpty,
    /// The betting cutoff must lie in the future.
    InvalidEndTime,
    /// The fee exceeds 1000 basis points.
    FeeTooHigh,
    /// The grace period exceeds 60 minutes.
    GracePeriodTooLong,
    /// The market has been cancelled.
    MarketCancelled,
    /// The market has already been cancelled.
    MarketAlreadyCancelled,
    /// A market with existing bets cannot be cancelled.
    CannotCancelWithBets,
    /// Only the creator may cancel a market.
    UnauthorizedCancellation,
    /// The escrow still holds funds.
    EscrowNotEmpty,
    /// Only the creator may close the escrow.
    UnauthorizedClosure,
    /// Refunds are only available on cancelled markets.
    MarketNotCancelled,
}

impl ErrorCode {
    /// A human-readable message for the code.
    pub fn message(&self) -> &'static str {
        match self {
            ErrorCode::MarketAlreadyResolved => "Market is already resolved.",
            ErrorCode::MarketClosed => "Market is closed.",
            ErrorCode::InvalidBetAmount => "Invalid bet amount.",
            ErrorCode::MarketStillOpen => "Market is still open.",
            ErrorCode::MarketStillInGracePeriod => "Market is still in grace period.",
            ErrorCode::UnauthorizedResolver => "Unauthorized resolver.",
            ErrorCode::AlreadyClaimed => "Already claimed.",
            ErrorCode::NotYourBet => "Not your bet.",
            ErrorCode::InvalidMarket => "Invalid market.",
            ErrorCode::Overflow => "Overflow or underflow in math operation.",
            ErrorCode::NoWinners => "No winners on this side.",
            ErrorCode::InsufficientEscrowBalance => "Insufficient escrow balance for payout.",
            ErrorCode::DuplicateBet => "Duplicate bet for this user and market.",
            ErrorCode::QuestionTooLong => "Question is too long (max 256 characters).",
            ErrorCode::QuestionEmpty => "Question cannot be empty.",
            ErrorCode::InvalidEndTime => "Invalid end time (must be in the future).",
            ErrorCode::FeeTooHigh => "Fee is too high (max 10%).",
            ErrorCode::GracePeriodTooLong => "Grace period is too long (max 60 minutes).",
            ErrorCode::MarketCancelled => "Market is cancelled.",
            ErrorCode::MarketAlreadyCancelled => "Market is already cancelled.",
            ErrorCode::CannotCancelWithBets => "Cannot cancel market with existing bets.",
            ErrorCode::UnauthorizedCancellation => "Unauthorized cancellation.",
            ErrorCode::EscrowNotEmpty => "Escrow is not empty.",
            ErrorCode::UnauthorizedClosure => "Unauthorized closure.",
            ErrorCode::MarketNotCancelled => "Market is not cancelled.",
        }
    }
}

} // verus!
