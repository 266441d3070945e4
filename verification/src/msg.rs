use vstd::prelude::*;

use crate::state::Position;

verus! {

/// One coin attached to a call: an amount of a named token.
#[derive(Clone, Debug)]
pub struct Coin {
    pub denom: String,
    pub amount: u128,
}

/// Who calls, and what funds the host says arrived with the call.
pub struct MessageInfo {
    /// Verified identity of the caller.
    pub sender: String,
    /// Funds attached to the call, already in the engine's custody.
    pub funds: Vec<Coin>,
}

/// What the host knows at call time that the engine cannot know itself.
pub struct Env {
    /// Wall-clock time of the call, in seconds.
    pub now: u64,
    /// The oracle's price reading for `now`, subject to the host's staleness
    /// bound, or `None` if the oracle is unavailable or stale. Operations that
    /// do not resolve prices never read it.
    pub oracle_price: Option<i128>,
}

/// Parameters of the one-time engine setup.
pub struct InstantiateMsg {
    pub admin_address: String,
    pub operator_address: String,
    pub usdc_token: String,
    pub interval_seconds: u64,
    pub buffer_seconds: u64,
    pub min_bet_amount: u128,
    pub treasury_fee: u64,
    pub oracle_address: String,
    pub btc_price_feed_id: String,
}

/// Every mutating operation the engine exposes.
pub enum ExecuteMsg {
    /// Stake `amount` on the price rising over round `epoch`.
    BetBull { epoch: u64, amount: u128 },
    /// Stake `amount` on the price falling over round `epoch`.
    BetBear { epoch: u64, amount: u128 },
    /// Settle the caller's winning bets on `epochs`, all or nothing.
    Claim { epochs: Vec<u64> },
    /// Advance the round lifecycle from the wall clock (operator).
    ExecuteRound {},
    /// Open the very first round (operator).
    GenesisStartRound {},
    /// Lock the very first round (operator).
    GenesisLockRound {},
    /// Halt participant- and operator-facing mutations (admin).
    Pause {},
    /// Resume after a pause (admin).
    Unpause {},
    /// Withdraw all accrued fees (admin).
    ClaimTreasury {},
    SetBufferAndIntervalSeconds { buffer_seconds: u64, interval_seconds: u64 },
    SetMinBetAmount { min_bet_amount: u128 },
    SetOperator { operator_address: String },
    SetTreasuryFee { treasury_fee: u64 },
    SetOracleInfo { oracle_address: String, btc_price_feed_id: String },
}

/// Every read-only query the engine exposes.
pub enum QueryMsg {
    GetRound { epoch: u64 },
    GetCurrentEpoch {},
    GetUserRounds { user: String, cursor: u64, size: u64 },
    Claimable { epoch: u64, user: String },
    Refundable { epoch: u64, user: String },
    GetConfig {},
}

/// Which operation a [`Response`] reports on; mirrors the last lifecycle step
/// an operation performed.
#[derive(Clone, Copy, Debug, PartialEq, Eq, Structural)]
pub enum ResponseKind {
    Bet,
    Claim,
    StartRound,
    LockRound,
    EndRound,
    /// The tick came before the round's lock time: a documented no-op.
    NoActionNeeded,
    Pause,
    Unpause,
    ClaimTreasury,
    SetBufferAndIntervalSeconds,
    SetMinBetAmount,
    SetOperator,
    SetTreasuryFee,
    SetOracleInfo,
}

/// An outbound transfer instruction the host must execute: the engine emits
/// it fire-and-forget and never observes its outcome.
#[derive(Clone, Debug)]
pub struct TransferMsg {
    pub recipient: String,
    pub amount: u128,
}

/// One per-epoch settlement record of a claim, for observability.
#[derive(Clone, Copy, Debug, PartialEq, Eq, Structural)]
pub struct ClaimEvent {
    pub epoch: u64,
    pub reward: u128,
}

/// What a successful mutating operation hands back to the host.
#[derive(Clone, Debug)]
pub struct Response {
    pub kind: ResponseKind,
    /// Transfer instructions to execute; at most one.
    pub transfers: Vec<TransferMsg>,
    /// One settlement event per claimed epoch.
    pub claim_events: Vec<ClaimEvent>,
}

/// A round, as reported to callers.
#[derive(Clone, Copy, Debug, PartialEq, Eq, Structural)]
pub struct RoundResponse {
    pub epoch: u64,
    pub start_timestamp: u64,
    pub lock_timestamp: u64,
    pub close_timestamp: u64,
    pub lock_price: i128,
    pub close_price: i128,
    pub total_amount: u128,
    pub bull_amount: u128,
    pub bear_amount: u128,
    pub reward_base_amount: u128,
    pub reward_amount: u128,
    pub oracle_called: bool,
}

/// One page of a participant's betting history.
#[derive(Clone, Debug)]
pub struct UserRoundsResponse {
    pub epochs: Vec<u64>,
    /// Cursor for the next page, or `None` when this page is the last.
    pub next_cursor: Option<u64>,
}

/// Whether (and what) a participant could claim for one epoch.
#[derive(Clone, Copy, Debug, PartialEq, Eq, Structural)]
pub struct ClaimableResponse {
    pub is_claimable: bool,
    pub position: Option<Position>,
    pub amount: Option<u128>,
    pub expected_reward: Option<u128>,
}

/// Whether a participant's stake in one epoch is refundable (the round
/// resolved as a tie and the bet is unclaimed).
#[derive(Clone, Copy, Debug, PartialEq, Eq, Structural)]
pub struct RefundableResponse {
    pub is_refundable: bool,
    pub amount: Option<u128>,
}

/// A snapshot of the configuration, plus the paused flag.
#[derive(Clone, Debug)]
pub struct ConfigResponse {
    pub usdc_token: String,
    pub admin_address: String,
    pub operator_address: String,
    pub interval_seconds: u64,
    pub buffer_seconds: u64,
    pub min_bet_amount: u128,
    pub treasury_fee: u64,
    pub oracle_address: String,
    pub btc_price_feed_id: String,
    pub paused: bool,
}

/// The typed result of [`crate::contract::query`]; the host serializes it.
#[derive(Clone, Debug)]
pub enum QueryAnswer {
    Round(RoundResponse),
    CurrentEpoch(u64),
    UserRounds(UserRoundsResponse),
    Claimable(ClaimableResponse),
    Refundable(RefundableResponse),
    Config(ConfigResponse),
}

} // verus!
