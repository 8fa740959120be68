//! The reasons for which an operation is rejected.

use vstd::prelude::*;

verus! {

/// Why an operation was rejected. A rejected operation changes nothing.
#[derive(Clone, Copy, Debug, PartialEq, Eq, Structural)]
pub enum ClawBetsError {
    /// The title has more than 128 characters.
    TitleTooLong,
    /// The description has more than 512 characters.
    DescriptionTooLong,
    /// The betting deadline is not in the future.
    DeadlineInPast,
    /// The resolution deadline is not after the betting deadline.
    InvalidResolutionDeadline,
    /// The minimum bet is zero.
    InvalidMinBet,
    /// The maximum bet is below the minimum bet.
    InvalidMaxBet,
    /// The market is not in a status that allows the operation.
    MarketNotOpen,
    /// The betting deadline has passed.
    BettingClosed,
    /// The amount is below the market's minimum.
    BetTooSmall,
    /// The amount is above the market's maximum.
    BetTooLarge,
    /// The point in time that the operation waits for has not come.
    MarketNotReady,
    /// The resolution deadline has passed.
    ResolutionExpired,
    /// The market is not resolved.
    MarketNotResolved,
    /// The bet was already paid out or refunded.
    AlreadyClaimed,
    /// The bet is on the losing side.
    BetDidNotWin,
    /// The market holds bets and cannot be cancelled.
    MarketHasBets,
    /// The market is not cancelled.
    MarketNotCancelled,
    /// The market is in no state that allows a refund.
    MarketNotReclaimable,
    /// The caller is not the market's creator.
    UnauthorizedCreator,
    /// The caller is not the bet's owner.
    UnauthorizedBettor,
    /// The bet belongs to another market.
    BetMarketMismatch,
    /// The bettor already holds a bet on this market.
    BetAlreadyExists,
    /// A sum, count or payout does not fit its width.
    Overflow,
    /// The oracle reading is missing or is for another feed.
    InvalidOracleData,
    /// The oracle reading is too old.
    StaleOraclePrice,
}

impl ClawBetsError {
    /// The message that belongs to the error.
    pub fn message(&self) -> (text: &'static str)
        ensures
            text@ == self.spec_message(),
    {
        match self {
            ClawBetsError::TitleTooLong => "Title too long (max 128 characters)",
            ClawBetsError::DescriptionTooLong => "Description too long (max 512 characters)",
            ClawBetsError::DeadlineInPast => "Deadline must be in the future",
            ClawBetsError::InvalidResolutionDeadline => "Resolution deadline must be after betting deadline",
            ClawBetsError::InvalidMinBet => "Minimum bet must be greater than zero",
            ClawBetsError::InvalidMaxBet => "Maximum bet must be >= minimum bet",
            ClawBetsError::MarketNotOpen => "Market is not open for betting",
            ClawBetsError::BettingClosed => "Betting deadline has passed",
            ClawBetsError::BetTooSmall => "Bet amount below minimum",
            ClawBetsError::BetTooLarge => "Bet amount above maximum",
            ClawBetsError::MarketNotReady => "Market cannot be resolved yet (deadline not passed)",
            ClawBetsError::ResolutionExpired => "Market resolution deadline has passed",
            ClawBetsError::MarketNotResolved => "Market is not resolved",
            ClawBetsError::AlreadyClaimed => "Bet already claimed",
            ClawBetsError::BetDidNotWin => "Bet did not win",
            ClawBetsError::MarketHasBets => "Market has existing bets and cannot be cancelled",
            ClawBetsError::MarketNotCancelled => "Market is not cancelled",
            ClawBetsError::MarketNotReclaimable => "Market does not allow refunds",
            ClawBetsError::UnauthorizedCreator => "Only market creator can perform this action",
            ClawBetsError::UnauthorizedBettor => "Only the bettor can perform this action",
            ClawBetsError::BetMarketMismatch => "Bet belongs to another market",
            ClawBetsError::BetAlreadyExists => "Bettor already has a bet on this market",
            ClawBetsError::Overflow => "Arithmetic overflow",
            ClawBetsError::InvalidOracleData => "Invalid oracle price data",
            ClawBetsError::StaleOraclePrice => "Oracle price is stale",
        }
    }

    /// The characters of the message that belongs to the error.
    pub open spec fn spec_message(&self) -> Seq<char> {
        match self {
            ClawBetsError::TitleTooLong => "Title too long (max 128 characters)"@,
            ClawBetsError::DescriptionTooLong => "Description too long (max 512 characters)"@,
            ClawBetsError::DeadlineInPast => "Deadline must be in the future"@,
            ClawBetsError::InvalidResolutionDeadline => "Resolution deadline must be after betting deadline"@,
            ClawBetsError::InvalidMinBet => "Minimum bet must be greater than zero"@,
            ClawBetsError::InvalidMaxBet => "Maximum bet must be >= minimum bet"@,
            ClawBetsError::MarketNotOpen => "Market is not open for betting"@,
            ClawBetsError::BettingClosed => "Betting deadline has passed"@,
            ClawBetsError::BetTooSmall => "Bet amount below minimum"@,
            ClawBetsError::BetTooLarge => "Bet amount above maximum"@,
            ClawBetsError::MarketNotReady => "Market cannot be resolved yet (deadline not passed)"@,
            ClawBetsError::ResolutionExpired => "Market resolution deadline has passed"@,
            ClawBetsError::MarketNotResolved => "Market is not resolved"@,
            ClawBetsError::AlreadyClaimed => "Bet already claimed"@,
            ClawBetsError::BetDidNotWin => "Bet did not win"@,
            ClawBetsError::MarketHasBets => "Market has existing bets and cannot be cancelled"@,
            ClawBetsError::MarketNotCancelled => "Market is not cancelled"@,
            ClawBetsError::MarketNotReclaimable => "Market does not allow refunds"@,
            ClawBetsError::UnauthorizedCreator => "Only market creator can perform this action"@,
            ClawBetsError::UnauthorizedBettor => "Only the bettor can perform this action"@,
            ClawBetsError::BetMarketMismatch => "Bet belongs to another market"@,
            ClawBetsError::BetAlreadyExists => "Bettor already has a bet on this market"@,
            ClawBetsError::Overflow => "Arithmetic overflow"@,
            ClawBetsError::InvalidOracleData => "Invalid oracle price data"@,
            ClawBetsError::StaleOraclePrice => "Oracle price is stale"@,
        }
    }
}

} // verus!
