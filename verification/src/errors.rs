//! The error taxonomy: every validation failure is a typed, non-retryable
//! rejection that aborts the whole operation with no state change.

use vstd::prelude::*;

verus! {

/// Reasons an escrow operation refuses to run.
#[derive(Clone, Copy, PartialEq, Eq, Structural, Debug)]
pub enum ErrorCode {
    /// Rake rate above the 10% cap (1000 basis points).
    RakeTooHigh,
    /// Buy-in must be greater than zero.
    InvalidBuyIn,
    /// Max players must be between 2 and 10.
    InvalidMaxPlayers,
    /// The tournament is not in waiting status.
    TournamentNotWaiting,
    /// The tournament roster is full.
    TournamentFull,
    /// The caller is not the required authority.
    Unauthorized,
    /// Wrong tournament status for the requested operation.
    InvalidTournamentStatus,
    /// No prize pool to distribute.
    NoPrizePool,
    /// No rake to withdraw.
    NoRakeToWithdraw,
    /// A started tournament cannot be cancelled.
    CannotCancelStartedTournament,
    /// A started tournament cannot be left.
    CannotLeaveStartedTournament,
    /// The player is not in this tournament.
    PlayerNotInTournament,
    /// The player has already joined this tournament.
    PlayerAlreadyJoined,
    /// Access denied: this is a private tournament.
    PrivateTournamentAccessDenied,
    /// Invalid winner data provided.
    InvalidWinnerData,
    /// Invalid number of winners.
    InvalidWinnerCount,
    /// A prize amount exceeds the available pot.
    PrizeExceedsPot,
    /// Creator and admin rake shares must sum to exactly 100%.
    InvalidRakeSplit,
    /// A rake share must be between 0 and 100%.
    InvalidRakePercentage,
    /// The custodied balance cannot cover the requested transfer.
    InsufficientFunds,
    /// An accumulator update would overflow; the operation fails whole.
    ArithmeticOverflow,
}

} // verus!
