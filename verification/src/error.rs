//! The reasons for which an instruction is refused.

use vstd::prelude::*;

verus! {

/// The rules of the competition that an instruction can break.
#[derive(Clone, Copy, Debug, PartialEq, Eq, Structural)]
pub enum ErrorCode {
    CompetitionClosed,
    AlreadyResolved,
    CompetitionNotEnded,
    InsufficientFunds,
    InvalidPrizePool,
    PrizePoolTooHigh,
    InvalidEntryFee,
    EntryFeeTooHigh,
    UnauthorizedAccess,
    EndTimeInPast,
    EndTimeTooFar,
    EmptyCompetitionId,
    CompetitionIdTooLong,
    InvalidCompetitionIdFormat,
    EmptyTokenName,
    TokenNameTooLong,
    InvalidTokenNameFormat,
    PredictionTooLow,
    PredictionTooHigh,
    UnreasonableGuess,
    InvalidWinner,
    InvalidPayout,
    PayoutTooHigh,
    InvalidParameters,
    OperationFailed,
}

impl ErrorCode {
    /// The text that explains the error to a person.
    pub open spec fn message_text(self) -> Seq<char> {
        match self {
            ErrorCode::CompetitionClosed => "Competition is closed"@,
            ErrorCode::AlreadyResolved => "Competition already resolved"@,
            ErrorCode::CompetitionNotEnded => "Competition has not ended yet"@,
            ErrorCode::InsufficientFunds => "Insufficient funds for payout"@,
            ErrorCode::InvalidPrizePool => "Prize pool must be greater than zero"@,
            ErrorCode::PrizePoolTooHigh => "Prize pool is too high (max 1000 SOL)"@,
            ErrorCode::InvalidEntryFee => "Entry fee must be reasonable (between 0 and prize pool value)"@,
            ErrorCode::EntryFeeTooHigh => "Entry fee is too high (max 10 SOL)"@,
            ErrorCode::UnauthorizedAccess => "Only the competition creator can resolve the competition"@,
            ErrorCode::EndTimeInPast => "End time must be in the future"@,
            ErrorCode::EndTimeTooFar => "End time is too far in the future (max 30 days)"@,
            ErrorCode::EmptyCompetitionId => "Competition ID is empty"@,
            ErrorCode::CompetitionIdTooLong => "Competition ID too long (max 50 characters)"@,
            ErrorCode::InvalidCompetitionIdFormat => "Competition ID contains invalid characters"@,
            ErrorCode::EmptyTokenName => "Token name is empty"@,
            ErrorCode::TokenNameTooLong => "Token name too long (max 20 characters)"@,
            ErrorCode::InvalidTokenNameFormat => "Token name contains invalid characters"@,
            ErrorCode::PredictionTooLow => "Prediction guess is too low (min 1 SOL)"@,
            ErrorCode::PredictionTooHigh => "Prediction guess is too high (max 10,000 SOL)"@,
            ErrorCode::UnreasonableGuess => "Prediction guess is outside reasonable price range"@,
            ErrorCode::InvalidWinner => "Winner cannot be the default public key"@,
            ErrorCode::InvalidPayout => "Payout amount must be greater than zero"@,
            ErrorCode::PayoutTooHigh => "Payout amount exceeds maximum allowed"@,
            ErrorCode::InvalidParameters => "Invalid parameters provided"@,
            ErrorCode::OperationFailed => "Operation failed"@,
        }
    }

    /// The text that explains the error to a person.
    pub fn message(&self) -> (text: &'static str)
        ensures
            text@ == self.message_text(),
    {
        match self {
            ErrorCode::CompetitionClosed => "Competition is closed",
            ErrorCode::AlreadyResolved => "Competition already resolved",
            ErrorCode::CompetitionNotEnded => "Competition has not ended yet",
            ErrorCode::InsufficientFunds => "Insufficient funds for payout",
            ErrorCode::InvalidPrizePool => "Prize pool must be greater than zero",
            ErrorCode::PrizePoolTooHigh => "Prize pool is too high (max 1000 SOL)",
            ErrorCode::InvalidEntryFee => "Entry fee must be reasonable (between 0 and prize pool value)",
            ErrorCode::EntryFeeTooHigh => "Entry fee is too high (max 10 SOL)",
            ErrorCode::UnauthorizedAccess => "Only the competition creator can resolve the competition",
            ErrorCode::EndTimeInPast => "End time must be in the future",
            ErrorCode::EndTimeTooFar => "End time is too far in the future (max 30 days)",
            ErrorCode::EmptyCompetitionId => "Competition ID is empty",
            ErrorCode::CompetitionIdTooLong => "Competition ID too long (max 50 characters)",
            ErrorCode::InvalidCompetitionIdFormat => "Competition ID contains invalid characters",
            ErrorCode::EmptyTokenName => "Token name is empty",
            ErrorCode::TokenNameTooLong => "Token name too long (max 20 characters)",
            ErrorCode::InvalidTokenNameFormat => "Token name contains invalid characters",
            ErrorCode::PredictionTooLow => "Prediction guess is too low (min 1 SOL)",
            ErrorCode::PredictionTooHigh => "Prediction guess is too high (max 10,000 SOL)",
            ErrorCode::UnreasonableGuess => "Prediction guess is outside reasonable price range",
            ErrorCode::InvalidWinner => "Winner cannot be the default public key",
            ErrorCode::InvalidPayout => "Payout amount must be greater than zero",
            ErrorCode::PayoutTooHigh => "Payout amount exceeds maximum allowed",
            ErrorCode::InvalidParameters => "Invalid parameters provided",
            ErrorCode::OperationFailed => "Operation failed",
        }
    }
}

/// Why an instruction was aborted. Whatever the reason, none of its effects
/// is kept.
#[derive(Clone, Copy, Debug, PartialEq, Eq, Structural)]
pub enum InstructionError {
    /// A rule of the competition was broken.
    Program(ErrorCode),
    /// An account is not at the address derived for its role, or no address
    /// can be derived for that role at all.
    SeedsMismatch,
    /// The address of the record to create is already occupied.
    AccountInUse,
    /// The account holds no competition record.
    AccountNotInitialized,
    /// The vault was named as the paying party; it has no key to sign with.
    InvalidSigner,
    /// Crediting the vault would exceed the largest representable balance.
    BalanceOverflow,
}

} // verus!
