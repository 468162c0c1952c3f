//! The conditions under which an operation is refused.

use vstd::prelude::*;

verus! {

/// Why an operation was refused. No operation that returns one of these has
/// changed any record.
#[derive(Clone, Copy, Debug, PartialEq, Eq, Structural)]
pub enum PredictError {
    /// Platform is paused.
    PlatformPaused,
    /// Market is not active.
    MarketNotActive,
    /// Market is not resolved.
    MarketNotResolved,
    /// Betting period has ended.
    BettingClosed,
    /// Bet below minimum.
    BelowMinBet,
    /// Bet above maximum.
    AboveMaxBet,
    /// Slippage exceeded.
    SlippageExceeded,
    /// Oracle price stale (>30s).
    StaleOracle,
    /// Oracle feed mismatch.
    OracleMismatch,
    /// Invalid timestamps.
    InvalidTimestamps,
    /// Unauthorized.
    Unauthorized,
    /// Market already resolved.
    AlreadyResolved,
    /// No position to claim.
    NoPosition,
    /// Already claimed.
    AlreadyClaimed,
    /// Dispute window expired.
    DisputeWindowExpired,
    /// Dispute already exists.
    DisputeExists,
    /// Title too long (max 128).
    TitleTooLong,
    /// Description too long (max 512).
    DescriptionTooLong,
    /// Invalid outcome for bet.
    InvalidOutcome,
    /// Round not yet complete.
    RoundIncomplete,
    /// Market is not recurring.
    NotRecurring,
    /// Insufficient shares.
    InsufficientShares,
    /// Arithmetic overflow.
    MathOverflow,
    /// Fee exceeds maximum (10%).
    FeeExceedsMax,
    /// Vault balance insufficient.
    InsufficientVault,
    /// Initial liquidity must be greater than 0.
    InsufficientLiquidity,
    /// Market has outstanding positions and cannot be closed.
    OutstandingPositions,
    /// Market is not in a closeable state.
    MarketNotCloseable,
    /// Invalid mint account — does not match market PDA-derived mint.
    InvalidMint,
    /// Pyth feed account does not match market oracle_feed.
    InvalidPythFeed,
    /// Oracle price is stale.
    OracleStale,
    /// Dispute reason too long (max 256).
    ReasonTooLong,
    /// Account data is not a token account.
    InvalidAccountData,
    /// Token account is not initialized.
    UninitializedAccount,
}

/// The family an error belongs to.
#[derive(Clone, Copy, Debug, PartialEq, Eq, Structural)]
pub enum ErrorKind {
    /// The platform or market is not in a state that admits the operation,
    /// or an input is outside the bounds the market sets.
    Policy,
    /// The trade would yield less than the caller's minimum.
    Slippage,
    /// A computed amount overflowed, underflowed or came out as zero.
    Arithmetic,
    /// The caller is not who the operation requires.
    Authorization,
    /// The price feed is wrong, stale or of an unsupported source.
    Oracle,
    /// An account is not the one the market names.
    Integrity,
}

impl PredictError {
    /// The family of `self`.
    pub open spec fn kind_spec(self) -> ErrorKind {
        match self {
            PredictError::SlippageExceeded => ErrorKind::Slippage,
            PredictError::MathOverflow
            | PredictError::InsufficientShares
            | PredictError::InsufficientVault => ErrorKind::Arithmetic,
            PredictError::Unauthorized => ErrorKind::Authorization,
            PredictError::StaleOracle
            | PredictError::OracleStale
            | PredictError::OracleMismatch
            | PredictError::InvalidPythFeed
            | PredictError::RoundIncomplete => ErrorKind::Oracle,
            PredictError::InvalidMint
            | PredictError::InvalidOutcome
            | PredictError::InvalidAccountData
            | PredictError::UninitializedAccount => ErrorKind::Integrity,
            _ => ErrorKind::Policy,
        }
    }

    /// The family of `self`.
    pub fn kind(&self) -> (k: ErrorKind)
        ensures
            k == self.kind_spec(),
    {
        match self {
            PredictError::SlippageExceeded => ErrorKind::Slippage,
            PredictError::MathOverflow
            | PredictError::InsufficientShares
            | PredictError::InsufficientVault => ErrorKind::Arithmetic,
            PredictError::Unauthorized => ErrorKind::Authorization,
            PredictError::StaleOracle
            | PredictError::OracleStale
            | PredictError::OracleMismatch
            | PredictError::InvalidPythFeed
            | PredictError::RoundIncomplete => ErrorKind::Oracle,
            PredictError::InvalidMint
            | PredictError::InvalidOutcome
            | PredictError::InvalidAccountData
            | PredictError::UninitializedAccount => ErrorKind::Integrity,
            _ => ErrorKind::Policy,
        }
    }

    /// What `self` says to a reader.
    pub open spec fn message_spec(self) -> Seq<char> {
        match self {
            PredictError::PlatformPaused => "Platform is paused"@,
            PredictError::MarketNotActive => "Market is not active"@,
            PredictError::MarketNotResolved => "Market is not resolved"@,
            PredictError::BettingClosed => "Betting period has ended"@,
            PredictError::BelowMinBet => "Bet below minimum"@,
            PredictError::AboveMaxBet => "Bet above maximum"@,
            PredictError::SlippageExceeded => "Slippage exceeded"@,
            PredictError::StaleOracle => "Oracle price stale (>30s)"@,
            PredictError::OracleMismatch => "Oracle feed mismatch"@,
            PredictError::InvalidTimestamps => "Invalid timestamps"@,
            PredictError::Unauthorized => "Unauthorized"@,
            PredictError::AlreadyResolved => "Market already resolved"@,
            PredictError::NoPosition => "No position to claim"@,
            PredictError::AlreadyClaimed => "Already claimed"@,
            PredictError::DisputeWindowExpired => "Dispute window expired"@,
            PredictError::DisputeExists => "Dispute already exists"@,
            PredictError::TitleTooLong => "Title too long (max 128)"@,
            PredictError::DescriptionTooLong => "Description too long (max 512)"@,
            PredictError::InvalidOutcome => "Invalid outcome for bet"@,
            PredictError::RoundIncomplete => "Round not yet complete"@,
            PredictError::NotRecurring => "Market is not recurring"@,
            PredictError::InsufficientShares => "Insufficient shares"@,
            PredictError::MathOverflow => "Arithmetic overflow"@,
            PredictError::FeeExceedsMax => "Fee exceeds maximum (10%)"@,
            PredictError::InsufficientVault => "Vault balance insufficient"@,
            PredictError::InsufficientLiquidity => "Initial liquidity must be greater than 0"@,
            PredictError::OutstandingPositions => "Market has outstanding positions and cannot be closed"@,
            PredictError::MarketNotCloseable => "Market is not in a closeable state"@,
            PredictError::InvalidMint => "Invalid mint account — does not match market PDA-derived mint"@,
            PredictError::InvalidPythFeed => "Pyth feed account does not match market oracle_feed"@,
            PredictError::OracleStale => "Oracle price is stale"@,
            PredictError::ReasonTooLong => "Dispute reason too long (max 256)"@,
            PredictError::InvalidAccountData => "Account data is not a token account"@,
            PredictError::UninitializedAccount => "Token account is not initialized"@,
        }
    }

    /// What `self` says to a reader.
    pub fn message(&self) -> (m: &'static str)
        ensures
            m@ == self.message_spec(),
    {
        match self {
            PredictError::PlatformPaused => "Platform is paused",
            PredictError::MarketNotActive => "Market is not active",
            PredictError::MarketNotResolved => "Market is not resolved",
            PredictError::BettingClosed => "Betting period has ended",
            PredictError::BelowMinBet => "Bet below minimum",
            PredictError::AboveMaxBet => "Bet above maximum",
            PredictError::SlippageExceeded => "Slippage exceeded",
            PredictError::StaleOracle => "Oracle price stale (>30s)",
            PredictError::OracleMismatch => "Oracle feed mismatch",
            PredictError::InvalidTimestamps => "Invalid timestamps",
            PredictError::Unauthorized => "Unauthorized",
            PredictError::AlreadyResolved => "Market already resolved",
            PredictError::NoPosition => "No position to claim",
            PredictError::AlreadyClaimed => "Already claimed",
            PredictError::DisputeWindowExpired => "Dispute window expired",
            PredictError::DisputeExists => "Dispute already exists",
            PredictError::TitleTooLong => "Title too long (max 128)",
            PredictError::DescriptionTooLong => "Description too long (max 512)",
            PredictError::InvalidOutcome => "Invalid outcome for bet",
            PredictError::RoundIncomplete => "Round not yet complete",
            PredictError::NotRecurring => "Market is not recurring",
            PredictError::InsufficientShares => "Insufficient shares",
            PredictError::MathOverflow => "Arithmetic overflow",
            PredictError::FeeExceedsMax => "Fee exceeds maximum (10%)",
            PredictError::InsufficientVault => "Vault balance insufficient",
            PredictError::InsufficientLiquidity => "Initial liquidity must be greater than 0",
            PredictError::OutstandingPositions => "Market has outstanding positions and cannot be closed",
            PredictError::MarketNotCloseable => "Market is not in a closeable state",
            PredictError::InvalidMint => "Invalid mint account — does not match market PDA-derived mint",
            PredictError::InvalidPythFeed => "Pyth feed account does not match market oracle_feed",
            PredictError::OracleStale => "Oracle price is stale",
            PredictError::ReasonTooLong => "Dispute reason too long (max 256)",
            PredictError::InvalidAccountData => "Account data is not a token account",
            PredictError::UninitializedAccount => "Token account is not initialized",
        }
    }
}

} // verus!
