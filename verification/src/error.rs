use vstd::prelude::*;

verus! {

/// Everything that can make an operation of the engine fail.
///
/// Every failure aborts the whole invocation: the caller gets the error and
/// the state is exactly what it was before the call.
#[derive(Clone, Copy, Debug, PartialEq, Eq, Structural)]
pub enum ContractError {
    /// The caller lacks the role the operation demands.
    Unauthorized,
    /// The round interval must be strictly positive.
    InvalidInterval,
    /// The buffer must be strictly shorter than the interval.
    InvalidBuffer,
    /// The minimum stake must be strictly positive.
    InvalidMinBetAmount,
    /// The treasury fee is given in basis points and may not exceed 1000 (10%).
    InvalidTreasuryFee,
    /// The engine is paused.
    Paused,
    /// The genesis round has not been started yet.
    GenesisNotStarted,
    /// The genesis round has already been started.
    GenesisAlreadyStarted,
    /// The genesis round has already been locked.
    GenesisAlreadyLocked,
    /// The round exists but betting on it has closed.
    RoundNotBettable,
    /// The caller has already bet on this round.
    AlreadyBet,
    /// The stake is below the configured minimum.
    BetTooSmall,
    /// No round exists for this epoch.
    RoundNotFound { epoch: u64 },
    /// The round for this epoch has not been resolved yet.
    RoundNotEnded { epoch: u64 },
    /// The caller has no bet recorded for this epoch.
    NoBetRecord { epoch: u64 },
    /// The caller has already claimed this epoch.
    AlreadyClaimed { epoch: u64 },
    /// The caller's computed reward for this epoch is zero.
    NotWinner { epoch: u64 },
    /// A claim needs at least one epoch.
    EmptyEpochs,
    /// The engine is already paused.
    AlreadyPaused,
    /// The engine is already unpaused.
    AlreadyUnpaused,
    /// There are no accrued fees to withdraw.
    NoTreasury,
    /// The oracle reading is unavailable or the price feed id is malformed.
    OracleError,
    /// The funds attached to the call do not exactly match the stake.
    InvalidBetFunds,
    /// An amount or timestamp computation left the representable range.
    Overflow,
}

} // verus!
