use vstd::prelude::*;

verus! {

/// Every way an operation of the market can be refused.
///
/// A refusal always leaves the accounts it was given untouched.
#[derive(Clone, Copy, Debug, PartialEq, Eq, Structural)]
pub enum DarkPoolError {
    /// The question holds more than 200 characters.
    QuestionTooLong,
    /// The three deadlines are not strictly increasing.
    InvalidDeadlines,
    /// Betting would start before the present moment.
    DeadlineInPast,
    /// The market is not open for betting.
    MarketNotOpen,
    /// The betting period has not started yet.
    BettingNotStarted,
    /// The betting period has ended.
    BettingEnded,
    /// The betting period has not ended yet.
    BettingNotEnded,
    /// The market has not been resolved.
    MarketNotResolved,
    /// The market has already been resolved.
    MarketAlreadyResolved,
    /// The market is not cancelled.
    MarketNotCancelled,
    /// The market's status does not allow the operation.
    InvalidMarketStatus,
    /// A bet must escrow more than zero.
    InvalidBetAmount,
    /// The encrypted bet is not exactly 64 bytes long.
    InvalidEncryptedBetSize,
    /// The outcome is neither 0 (NO) nor 1 (YES).
    InvalidOutcome,
    /// The position has already been paid out or refunded.
    AlreadyClaimed,
    /// The position's computed payout is zero.
    NoPayout,
    /// The position's payout has not been computed yet.
    PayoutNotComputed,
    /// The signer is not the market's authority or the position's owner.
    Unauthorized,
    /// The token account does not belong to the signer.
    InvalidTokenAccountOwner,
    /// The token account is of another mint than the market's.
    InvalidTokenMint,
    /// The vault is not the market's vault.
    InvalidVault,
    /// The pool state belongs to another market.
    InvalidPoolState,
    /// The position belongs to another market.
    InvalidPosition,
    /// The pool state has not been activated.
    PoolStateNotInitialized,
    /// The encrypted pool snapshot is longer than 256 bytes.
    EncryptedStateTooLarge,
    /// The cluster aborted the computation or its attestation did not verify.
    ComputationAborted,
    /// The compute cluster is not set.
    ClusterNotSet,
    /// The computation's result cannot be used.
    InvalidComputationResult,
    /// A counter or an amount left the range of its type upwards.
    Overflow,
    /// A counter or an amount left the range of its type downwards.
    Underflow,
}

/// Refusals raised while the accounts of the compute cluster are derived.
#[derive(Clone, Copy, Debug, PartialEq, Eq, Structural)]
pub enum ErrorCode {
    /// The compute cluster is not set.
    ClusterNotSet,
}

impl DarkPoolError {
    /// The text that describes the refusal.
    pub open spec fn message_text(self) -> Seq<char> {
        match self {
            DarkPoolError::QuestionTooLong => "Question exceeds maximum length of 200 characters"@,
            DarkPoolError::InvalidDeadlines => "Betting end time must be before resolution end time"@,
            DarkPoolError::DeadlineInPast => "Deadline cannot be in the past"@,
            DarkPoolError::MarketNotOpen => "Market is not open for betting"@,
            DarkPoolError::BettingNotStarted => "Betting period has not started yet"@,
            DarkPoolError::BettingEnded => "Betting period has ended"@,
            DarkPoolError::BettingNotEnded => "Betting period has not ended yet"@,
            DarkPoolError::MarketNotResolved => "Market has not been resolved"@,
            DarkPoolError::MarketAlreadyResolved => "Market has already been resolved"@,
            DarkPoolError::MarketNotCancelled => "Market is not cancelled"@,
            DarkPoolError::InvalidMarketStatus => "Invalid market status for this operation"@,
            DarkPoolError::InvalidBetAmount => "Bet amount must be greater than zero"@,
            DarkPoolError::InvalidEncryptedBetSize => "Encrypted bet data size is invalid"@,
            DarkPoolError::InvalidOutcome => "Invalid outcome - must be 0 (NO) or 1 (YES)"@,
            DarkPoolError::AlreadyClaimed => "Position has already been claimed"@,
            DarkPoolError::NoPayout => "No payout available for this position"@,
            DarkPoolError::PayoutNotComputed => "Payout has not been computed yet"@,
            DarkPoolError::Unauthorized => "Unauthorized - only market authority can perform this action"@,
            DarkPoolError::InvalidTokenAccountOwner => "Invalid token account owner"@,
            DarkPoolError::InvalidTokenMint => "Token mint does not match market"@,
            DarkPoolError::InvalidVault => "Vault does not match market"@,
            DarkPoolError::InvalidPoolState => "Pool state does not match market"@,
            DarkPoolError::InvalidPosition => "Position does not belong to this market"@,
            DarkPoolError::PoolStateNotInitialized => "Pool state has not been initialized"@,
            DarkPoolError::EncryptedStateTooLarge => "Encrypted state exceeds maximum size"@,
            DarkPoolError::ComputationAborted => "Computation was aborted"@,
            DarkPoolError::ClusterNotSet => "Cluster not set in MXE account"@,
            DarkPoolError::InvalidComputationResult => "Invalid computation result"@,
            DarkPoolError::Overflow => "Arithmetic overflow"@,
            DarkPoolError::Underflow => "Arithmetic underflow"@,
        }
    }

    /// The text that describes the refusal.
    pub fn message(&self) -> (text: &'static str)
        ensures
            text@ == self.message_text(),
    {
        match self {
            DarkPoolError::QuestionTooLong => "Question exceeds maximum length of 200 characters",
            DarkPoolError::InvalidDeadlines => "Betting end time must be before resolution end time",
            DarkPoolError::DeadlineInPast => "Deadline cannot be in the past",
            DarkPoolError::MarketNotOpen => "Market is not open for betting",
            DarkPoolError::BettingNotStarted => "Betting period has not started yet",
            DarkPoolError::BettingEnded => "Betting period has ended",
            DarkPoolError::BettingNotEnded => "Betting period has not ended yet",
            DarkPoolError::MarketNotResolved => "Market has not been resolved",
            DarkPoolError::MarketAlreadyResolved => "Market has already been resolved",
            DarkPoolError::MarketNotCancelled => "Market is not cancelled",
            DarkPoolError::InvalidMarketStatus => "Invalid market status for this operation",
            DarkPoolError::InvalidBetAmount => "Bet amount must be greater than zero",
            DarkPoolError::InvalidEncryptedBetSize => "Encrypted bet data size is invalid",
            DarkPoolError::InvalidOutcome => "Invalid outcome - must be 0 (NO) or 1 (YES)",
            DarkPoolError::AlreadyClaimed => "Position has already been claimed",
            DarkPoolError::NoPayout => "No payout available for this position",
            DarkPoolError::PayoutNotComputed => "Payout has not been computed yet",
            DarkPoolError::Unauthorized => "Unauthorized - only market authority can perform this action",
            DarkPoolError::InvalidTokenAccountOwner => "Invalid token account owner",
            DarkPoolError::InvalidTokenMint => "Token mint does not match market",
            DarkPoolError::InvalidVault => "Vault does not match market",
            DarkPoolError::InvalidPoolState => "Pool state does not match market",
            DarkPoolError::InvalidPosition => "Position does not belong to this market",
            DarkPoolError::PoolStateNotInitialized => "Pool state has not been initialized",
            DarkPoolError::EncryptedStateTooLarge => "Encrypted state exceeds maximum size",
            DarkPoolError::ComputationAborted => "Computation was aborted",
            DarkPoolError::ClusterNotSet => "Cluster not set in MXE account",
            DarkPoolError::InvalidComputationResult => "Invalid computation result",
            DarkPoolError::Overflow => "Arithmetic overflow",
            DarkPoolError::Underflow => "Arithmetic underflow",
        }
    }
}

impl ErrorCode {
    /// The text that describes the refusal.
    pub fn message(&self) -> (text: &'static str)
        ensures
            text@ == "Cluster not set in MXE account"@,
    {
        "Cluster not set in MXE account"
    }
}

} // verus!
