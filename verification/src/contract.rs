use vstd::prelude::*;

use crate::error::ContractError;
use crate::msg::{
    ClaimEvent, Coin, ConfigResponse, ClaimableResponse, Env, ExecuteMsg, InstantiateMsg,
    MessageInfo, QueryAnswer, QueryMsg, RefundableResponse, Response, ResponseKind, RoundResponse,
    TransferMsg, UserRoundsResponse,
};
use crate::state::{
    bet_at, bet_idx, bet_key_matches, contains_epoch, contains_epoch_prefix, distinct_epochs,
    find_bet, find_epoch_index, find_user,
    has_bet, has_round, has_user, round_at, user_history, user_idx, valid_config, wf, BetEntry,
    BetInfo, Config, Position, Round, State, UserEpochs, FEE_PRECISION, MAX_TREASURY_FEE_BPS,
};

verus! {

// ---------------------------------------------------------------------------
// Shared contract vocabulary.
// ---------------------------------------------------------------------------
/// The round, ledger and history tables are untouched.
pub open spec fn same_tables(pre: State, post: State) -> bool {
    &&& post.rounds@ == pre.rounds@
    &&& post.ledger@ == pre.ledger@
    &&& post.user_rounds@ == pre.user_rounds@
}

/// A response that reports `kind` and carries no transfers and no events.
pub open spec fn simple_response(resp: Response, kind: ResponseKind) -> bool {
    &&& resp.kind == kind
    &&& resp.transfers@.len() == 0
    &&& resp.claim_events@.len() == 0
}

fn empty_response(kind: ResponseKind) -> (resp: Response)
    ensures
        simple_response(resp, kind),
{
    Response { kind, transfers: Vec::new(), claim_events: Vec::new() }
}

// ---------------------------------------------------------------------------
// Setup.
// ---------------------------------------------------------------------------
/// Why `instantiate` rejects its parameters, checked in this order.
pub open spec fn instantiate_err(msg: InstantiateMsg) -> Option<ContractError> {
    if msg.interval_seconds == 0 {
        Some(ContractError::InvalidInterval)
    } else if msg.buffer_seconds >= msg.interval_seconds {
        Some(ContractError::InvalidBuffer)
    } else if msg.min_bet_amount == 0 {
        Some(ContractError::InvalidMinBetAmount)
    } else if msg.treasury_fee > MAX_TREASURY_FEE_BPS {
        Some(ContractError::InvalidTreasuryFee)
    } else {
        None
    }
}

/// Builds the initial state: the given configuration, nothing paused, no
/// rounds, no bets, no treasury, genesis not yet started.
///
/// The identity strings are taken as already verified by the host.
pub fn instantiate(msg: InstantiateMsg) -> (r: Result<State, ContractError>)
    ensures
        match r {
            Ok(s) => {
                &&& instantiate_err(msg) is None
                &&& wf(s)
                &&& s.config == (Config {
                    usdc_token: msg.usdc_token,
                    admin_address: msg.admin_address,
                    operator_address: msg.operator_address,
                    interval_seconds: msg.interval_seconds,
                    buffer_seconds: msg.buffer_seconds,
                    min_bet_amount: msg.min_bet_amount,
                    treasury_fee: msg.treasury_fee,
                    oracle_address: msg.oracle_address,
                    btc_price_feed_id: msg.btc_price_feed_id,
                })
                &&& s.paused == false
                &&& s.current_epoch == 0
                &&& s.treasury == 0
                &&& s.rounds@.len() == 0
                &&& s.ledger@.len() == 0
                &&& s.user_rounds@.len() == 0
            },
            Err(e) => instantiate_err(msg) == Some(e),
        },
{
    if msg.interval_seconds == 0 {
        return Err(ContractError::InvalidInterval);
    }
    if msg.buffer_seconds >= msg.interval_seconds {
        return Err(ContractError::InvalidBuffer);
    }
    if msg.min_bet_amount == 0 {
        return Err(ContractError::InvalidMinBetAmount);
    }
    if msg.treasury_fee > MAX_TREASURY_FEE_BPS {
        return Err(ContractError::InvalidTreasuryFee);
    }
    Ok(
        State {
            config: Config {
                usdc_token: msg.usdc_token,
                admin_address: msg.admin_address,
                operator_address: msg.operator_address,
                interval_seconds: msg.interval_seconds,
                buffer_seconds: msg.buffer_seconds,
                min_bet_amount: msg.min_bet_amount,
                treasury_fee: msg.treasury_fee,
                oracle_address: msg.oracle_address,
                btc_price_feed_id: msg.btc_price_feed_id,
            },
            paused: false,
            current_epoch: 0,
            treasury: 0,
            rounds: Vec::new(),
            ledger: Vec::new(),
            user_rounds: Vec::new(),
        },
    )
}

// ---------------------------------------------------------------------------
// Admin operations: pause, unpause, treasury withdrawal, settings.
// ---------------------------------------------------------------------------
/// Why `execute_pause` fails, checked in this order.
pub open spec fn pause_err(s: State, sender: Seq<char>) -> Option<ContractError> {
    if sender != s.config.admin_address@ {
        Some(ContractError::Unauthorized)
    } else if s.paused {
        Some(ContractError::AlreadyPaused)
    } else {
        None
    }
}

/// The whole contract of `execute_pause`: how `post` and `r` relate to `pre`.
pub open spec fn pause_spec(
    pre: State,
    post: State,
    sender: Seq<char>,
    r: Result<Response, ContractError>,
) -> bool {
    match r {
        Ok(resp) => {
            &&& pause_err(pre, sender) is None
            &&& post.paused == true
            &&& post.config == pre.config
            &&& post.current_epoch == pre.current_epoch
            &&& post.treasury == pre.treasury
            &&& same_tables(pre, post)
            &&& simple_response(resp, ResponseKind::Pause)
        },
        Err(e) => {
            &&& pause_err(pre, sender) == Some(e)
            &&& post == pre
        },
    }
}

/// Halts participant- and operator-facing mutations. Admin only.
pub fn execute_pause(state: &mut State, sender: &String) -> (r: Result<Response, ContractError>)
    requires
        wf(*old(state)),
    ensures
        wf(*final(state)),
        pause_spec(*old(state), *final(state), sender@, r),
{
    if state.config.admin_address != *sender {
        return Err(ContractError::Unauthorized);
    }
    if state.paused {
        return Err(ContractError::AlreadyPaused);
    }
    state.paused = true;
    Ok(empty_response(ResponseKind::Pause))
}

/// Why `execute_unpause` fails, checked in this order.
pub open spec fn unpause_err(s: State, sender: Seq<char>) -> Option<ContractError> {
    if sender != s.config.admin_address@ {
        Some(ContractError::Unauthorized)
    } else if !s.paused {
        Some(ContractError::AlreadyUnpaused)
    } else {
        None
    }
}

/// The whole contract of `execute_unpause`.
pub open spec fn unpause_spec(
    pre: State,
    post: State,
    sender: Seq<char>,
    r: Result<Response, ContractError>,
) -> bool {
    match r {
        Ok(resp) => {
            &&& unpause_err(pre, sender) is None
            &&& post.paused == false
            &&& post.config == pre.config
            &&& post.current_epoch == pre.current_epoch
            &&& post.treasury == pre.treasury
            &&& same_tables(pre, post)
            &&& simple_response(resp, ResponseKind::Unpause)
        },
        Err(e) => {
            &&& unpause_err(pre, sender) == Some(e)
            &&& post == pre
        },
    }
}

/// Resumes after a pause. Admin only.
pub fn execute_unpause(state: &mut State, sender: &String) -> (r: Result<Response, ContractError>)
    requires
        wf(*old(state)),
    ensures
        wf(*final(state)),
        unpause_spec(*old(state), *final(state), sender@, r),
{
    if state.config.admin_address != *sender {
        return Err(ContractError::Unauthorized);
    }
    if !state.paused {
        return Err(ContractError::AlreadyUnpaused);
    }
    state.paused = false;
    Ok(empty_response(ResponseKind::Unpause))
}

/// Why `execute_claim_treasury` fails, checked in this order.
pub open spec fn claim_treasury_err(s: State, sender: Seq<char>) -> Option<ContractError> {
    if sender != s.config.admin_address@ {
        Some(ContractError::Unauthorized)
    } else if s.treasury == 0 {
        Some(ContractError::NoTreasury)
    } else {
        None
    }
}

/// The whole contract of `execute_claim_treasury`.
pub open spec fn claim_treasury_spec(
    pre: State,
    post: State,
    sender: Seq<char>,
    r: Result<Response, ContractError>,
) -> bool {
    match r {
        Ok(resp) => {
            &&& claim_treasury_err(pre, sender) is None
            &&& post.treasury == 0
            &&& post.config == pre.config
            &&& post.paused == pre.paused
            &&& post.current_epoch == pre.current_epoch
            &&& same_tables(pre, post)
            &&& resp.kind == ResponseKind::ClaimTreasury
            &&& resp.transfers@.len() == 1
            &&& resp.transfers@[0].recipient == pre.config.admin_address
            &&& resp.transfers@[0].amount == pre.treasury
            &&& resp.claim_events@.len() == 0
        },
        Err(e) => {
            &&& claim_treasury_err(pre, sender) == Some(e)
            &&& post == pre
        },
    }
}

/// Withdraws the whole accrued fee balance: zeroes it and emits one transfer
/// of the full amount to the admin. Admin only; fails on an empty balance.
pub fn execute_claim_treasury(state: &mut State, sender: &String) -> (r: Result<
    Response,
    ContractError,
>)
    requires
        wf(*old(state)),
    ensures
        wf(*final(state)),
        claim_treasury_spec(*old(state), *final(state), sender@, r),
{
    if state.config.admin_address != *sender {
        return Err(ContractError::Unauthorized);
    }
    if state.treasury == 0 {
        return Err(ContractError::NoTreasury);
    }
    let amount = state.treasury;
    state.treasury = 0;
    let mut transfers: Vec<TransferMsg> = Vec::new();
    transfers.push(TransferMsg { recipient: state.config.admin_address.clone(), amount });
    Ok(Response { kind: ResponseKind::ClaimTreasury, transfers, claim_events: Vec::new() })
}

/// Why `execute_set_buffer_and_interval_seconds` fails, checked in this order.
pub open spec fn set_buffer_and_interval_err(
    s: State,
    sender: Seq<char>,
    buffer_seconds: u64,
    interval_seconds: u64,
) -> Option<ContractError> {
    if sender != s.config.admin_address@ {
        Some(ContractError::Unauthorized)
    } else if interval_seconds == 0 {
        Some(ContractError::InvalidInterval)
    } else if buffer_seconds >= interval_seconds {
        Some(ContractError::InvalidBuffer)
    } else {
        None
    }
}

/// The whole contract of `execute_set_buffer_and_interval_seconds`.
pub open spec fn set_buffer_and_interval_spec(
    pre: State,
    post: State,
    sender: Seq<char>,
    buffer_seconds: u64,
    interval_seconds: u64,
    r: Result<Response, ContractError>,
) -> bool {
    match r {
        Ok(resp) => {
            &&& set_buffer_and_interval_err(pre, sender, buffer_seconds, interval_seconds) is None
            &&& post.config == (Config { buffer_seconds, interval_seconds, ..pre.config })
            &&& post.paused == pre.paused
            &&& post.current_epoch == pre.current_epoch
            &&& post.treasury == pre.treasury
            &&& same_tables(pre, post)
            &&& simple_response(resp, ResponseKind::SetBufferAndIntervalSeconds)
        },
        Err(e) => {
            &&& set_buffer_and_interval_err(pre, sender, buffer_seconds, interval_seconds) == Some(
                e,
            )
            &&& post == pre
        },
    }
}

/// Replaces the round cadence parameters. Admin only.
pub fn execute_set_buffer_and_interval_seconds(
    state: &mut State,
    sender: &String,
    buffer_seconds: u64,
    interval_seconds: u64,
) -> (r: Result<Response, ContractError>)
    requires
        wf(*old(state)),
    ensures
        wf(*final(state)),
        set_buffer_and_interval_spec(
            *old(state),
            *final(state),
            sender@,
            buffer_seconds,
            interval_seconds,
            r,
        ),
{
    if state.config.admin_address != *sender {
        return Err(ContractError::Unauthorized);
    }
    if interval_seconds == 0 {
        return Err(ContractError::InvalidInterval);
    }
    if buffer_seconds >= interval_seconds {
        return Err(ContractError::InvalidBuffer);
    }
    state.config.interval_seconds = interval_seconds;
    state.config.buffer_seconds = buffer_seconds;
    Ok(empty_response(ResponseKind::SetBufferAndIntervalSeconds))
}

/// Why `execute_set_min_bet_amount` fails, checked in this order.
pub open spec fn set_min_bet_err(s: State, sender: Seq<char>, min_bet_amount: u128) -> Option<
    ContractError,
> {
    if sender != s.config.admin_address@ {
        Some(ContractError::Unauthorized)
    } else if min_bet_amount == 0 {
        Some(ContractError::InvalidMinBetAmount)
    } else {
        None
    }
}

/// The whole contract of `execute_set_min_bet_amount`.
pub open spec fn set_min_bet_spec(
    pre: State,
    post: State,
    sender: Seq<char>,
    min_bet_amount: u128,
    r: Result<Response, ContractError>,
) -> bool {
    match r {
        Ok(resp) => {
            &&& set_min_bet_err(pre, sender, min_bet_amount) is None
            &&& post.config == (Config { min_bet_amount, ..pre.config })
            &&& post.paused == pre.paused
            &&& post.current_epoch == pre.current_epoch
            &&& post.treasury == pre.treasury
            &&& same_tables(pre, post)
            &&& simple_response(resp, ResponseKind::SetMinBetAmount)
        },
        Err(e) => {
            &&& set_min_bet_err(pre, sender, min_bet_amount) == Some(e)
            &&& post == pre
        },
    }
}

/// Replaces the minimum stake. Admin only.
pub fn execute_set_min_bet_amount(state: &mut State, sender: &String, min_bet_amount: u128) -> (r:
    Result<Response, ContractError>)
    requires
        wf(*old(state)),
    ensures
        wf(*final(state)),
        set_min_bet_spec(*old(state), *final(state), sender@, min_bet_amount, r),
{
    if state.config.admin_address != *sender {
        return Err(ContractError::Unauthorized);
    }
    if min_bet_amount == 0 {
        return Err(ContractError::InvalidMinBetAmount);
    }
    state.config.min_bet_amount = min_bet_amount;
    Ok(empty_response(ResponseKind::SetMinBetAmount))
}

/// Why `execute_set_operator` fails.
pub open spec fn set_operator_err(s: State, sender: Seq<char>) -> Option<ContractError> {
    if sender != s.config.admin_address@ {
        Some(ContractError::Unauthorized)
    } else {
        None
    }
}

/// The whole contract of `execute_set_operator`.
pub open spec fn set_operator_spec(
    pre: State,
    post: State,
    sender: Seq<char>,
    operator_address: String,
    r: Result<Response, ContractError>,
) -> bool {
    match r {
        Ok(resp) => {
            &&& set_operator_err(pre, sender) is None
            &&& post.config == (Config { operator_address, ..pre.config })
            &&& post.paused == pre.paused
            &&& post.current_epoch == pre.current_epoch
            &&& post.treasury == pre.treasury
            &&& same_tables(pre, post)
            &&& simple_response(resp, ResponseKind::SetOperator)
        },
        Err(e) => {
            &&& set_operator_err(pre, sender) == Some(e)
            &&& post == pre
        },
    }
}

/// Replaces the operator identity. Admin only. The identity string is taken
/// as already verified by the host.
pub fn execute_set_operator(state: &mut State, sender: &String, operator_address: String) -> (r:
    Result<Response, ContractError>)
    requires
        wf(*old(state)),
    ensures
        wf(*final(state)),
        set_operator_spec(*old(state), *final(state), sender@, operator_address, r),
{
    if state.config.admin_address != *sender {
        return Err(ContractError::Unauthorized);
    }
    state.config.operator_address = operator_address;
    Ok(empty_response(ResponseKind::SetOperator))
}

/// Why `execute_set_treasury_fee` fails, checked in this order.
pub open spec fn set_treasury_fee_err(s: State, sender: Seq<char>, treasury_fee: u64) -> Option<
    ContractError,
> {
    if sender != s.config.admin_address@ {
        Some(ContractError::Unauthorized)
    } else if treasury_fee > MAX_TREASURY_FEE_BPS {
        Some(ContractError::InvalidTreasuryFee)
    } else {
        None
    }
}

/// The whole contract of `execute_set_treasury_fee`.
pub open spec fn set_treasury_fee_spec(
    pre: State,
    post: State,
    sender: Seq<char>,
    treasury_fee: u64,
    r: Result<Response, ContractError>,
) -> bool {
    match r {
        Ok(resp) => {
            &&& set_treasury_fee_err(pre, sender, treasury_fee) is None
            &&& post.config == (Config { treasury_fee, ..pre.config })
            &&& post.paused == pre.paused
            &&& post.current_epoch == pre.current_epoch
            &&& post.treasury == pre.treasury
            &&& same_tables(pre, post)
            &&& simple_response(resp, ResponseKind::SetTreasuryFee)
        },
        Err(e) => {
            &&& set_treasury_fee_err(pre, sender, treasury_fee) == Some(e)
            &&& post == pre
        },
    }
}

/// Replaces the treasury fee rate. Admin only.
pub fn execute_set_treasury_fee(state: &mut State, sender: &String, treasury_fee: u64) -> (r:
    Result<Response, ContractError>)
    requires
        wf(*old(state)),
    ensures
        wf(*final(state)),
        set_treasury_fee_spec(*old(state), *final(state), sender@, treasury_fee, r),
{
    if state.config.admin_address != *sender {
        return Err(ContractError::Unauthorized);
    }
    if treasury_fee > MAX_TREASURY_FEE_BPS {
        return Err(ContractError::InvalidTreasuryFee);
    }
    state.config.treasury_fee = treasury_fee;
    Ok(empty_response(ResponseKind::SetTreasuryFee))
}

/// Why `execute_set_oracle_info` fails, checked in this order.
pub open spec fn set_oracle_info_err(
    s: State,
    sender: Seq<char>,
    btc_price_feed_id: Seq<char>,
) -> Option<ContractError> {
    if sender != s.config.admin_address@ {
        Some(ContractError::Unauthorized)
    } else if !crate::oracle::valid_feed_id(btc_price_feed_id) {
        Some(ContractError::OracleError)
    } else {
        None
    }
}

/// The whole contract of `execute_set_oracle_info`.
pub open spec fn set_oracle_info_spec(
    pre: State,
    post: State,
    sender: Seq<char>,
    oracle_address: String,
    btc_price_feed_id: String,
    r: Result<Response, ContractError>,
) -> bool {
    match r {
        Ok(resp) => {
            &&& set_oracle_info_err(pre, sender, btc_price_feed_id@) is None
            &&& post.config == (Config { oracle_address, btc_price_feed_id, ..pre.config })
            &&& post.paused == pre.paused
            &&& post.current_epoch == pre.current_epoch
            &&& post.treasury == pre.treasury
            &&& same_tables(pre, post)
            &&& simple_response(resp, ResponseKind::SetOracleInfo)
        },
        Err(e) => {
            &&& set_oracle_info_err(pre, sender, btc_price_feed_id@) == Some(e)
            &&& post == pre
        },
    }
}

/// Replaces the oracle address and price-feed identifier. Admin only; the
/// feed identifier must be well-formed (64 hex digits).
pub fn execute_set_oracle_info(
    state: &mut State,
    sender: &String,
    oracle_address: String,
    btc_price_feed_id: String,
) -> (r: Result<Response, ContractError>)
    requires
        wf(*old(state)),
    ensures
        wf(*final(state)),
        set_oracle_info_spec(
            *old(state),
            *final(state),
            sender@,
            oracle_address,
            btc_price_feed_id,
            r,
        ),
{
    if state.config.admin_address != *sender {
        return Err(ContractError::Unauthorized);
    }
    if !crate::oracle::feed_id_is_valid(btc_price_feed_id.as_str()) {
        return Err(ContractError::OracleError);
    }
    state.config.oracle_address = oracle_address;
    state.config.btc_price_feed_id = btc_price_feed_id;
    Ok(empty_response(ResponseKind::SetOracleInfo))
}

// ---------------------------------------------------------------------------
// Reward settlement: a pure function of a resolved round and a bet.
// ---------------------------------------------------------------------------
/// The bet is on the winning side: up wins iff the price rose, down wins iff
/// it fell; a tie has no winner.
pub open spec fn is_winner(round: Round, bet: BetInfo) -> bool {
    match bet.position {
        Position::Bull => round.close_price > round.lock_price,
        Position::Bear => round.close_price < round.lock_price,
    }
}

/// The pool staked on the bet's own side.
pub open spec fn position_amount(round: Round, bet: BetInfo) -> u128 {
    match bet.position {
        Position::Bull => round.bull_amount,
        Position::Bear => round.bear_amount,
    }
}

/// The pool staked against the bet.
pub open spec fn opposing_amount(round: Round, bet: BetInfo) -> u128 {
    match bet.position {
        Position::Bull => round.bear_amount,
        Position::Bear => round.bull_amount,
    }
}

/// The payout owed to a bet, as a mathematical value.
///
/// Zero for a losing bet and on a tie; the stake back in full when nobody bet
/// against a winning side; otherwise the bet's proportional share of the
/// fee-adjusted pool, truncated. Truncation dust stays in the contract.
pub open spec fn spec_reward(round: Round, bet: BetInfo) -> int {
    if !is_winner(round, bet) {
        0
    } else if position_amount(round, bet) == 0 {
        0
    } else if opposing_amount(round, bet) == 0 {
        bet.amount as int
    } else {
        (round.total_amount - round.reward_base_amount) * bet.amount / (position_amount(
            round,
            bet,
        ) as int)
    }
}

/// The proportional-share computation leaves u128: the fee exceeds the pool,
/// or the intermediate product does not fit.
pub open spec fn reward_overflows(round: Round, bet: BetInfo) -> bool {
    &&& is_winner(round, bet)
    &&& position_amount(round, bet) != 0
    &&& opposing_amount(round, bet) != 0
    &&& {
        ||| round.total_amount < round.reward_base_amount
        ||| (round.total_amount - round.reward_base_amount) * bet.amount > u128::MAX
    }
}

/// Computes the payout owed to `bet_info` in `round`.
pub fn calculate_reward(round: &Round, bet_info: &BetInfo) -> (r: Result<u128, ContractError>)
    ensures
        match r {
            Ok(v) => !reward_overflows(*round, *bet_info) && v == spec_reward(*round, *bet_info),
            Err(e) => reward_overflows(*round, *bet_info) && e == ContractError::Overflow,
        },
{
    let is_winner = match bet_info.position {
        Position::Bull => round.close_price > round.lock_price,
        Position::Bear => round.close_price < round.lock_price,
    };

    if !is_winner || round.close_price == round.lock_price {
        return Ok(0);
    }

    let position_amount = match bet_info.position {
        Position::Bull => round.bull_amount,
        Position::Bear => round.bear_amount,
    };

    let opposing_amount = match bet_info.position {
        Position::Bull => round.bear_amount,
        Position::Bear => round.bull_amount,
    };

    if position_amount == 0 {
        return Ok(0);
    }

    if opposing_amount == 0 {
        return Ok(bet_info.amount);
    }

    let reward_base = match round.total_amount.checked_sub(round.reward_base_amount) {
        Some(v) => v,
        None => {
            return Err(ContractError::Overflow);
        },
    };
    let product = match reward_base.checked_mul(bet_info.amount) {
        Some(v) => v,
        None => {
            return Err(ContractError::Overflow);
        },
    };
    Ok(product / position_amount)
}

// ---------------------------------------------------------------------------
// Round lifecycle: open, lock, resolve, tick, genesis.
// ---------------------------------------------------------------------------
/// The round opened at time `now` under configuration `c`: empty pools, unset
/// prices, betting until `now + interval - buffer`, resolution at
/// `now + interval`. Timestamps are seeded from the open time, so they drift
/// forward when ticks come late; that is accepted behavior.
pub open spec fn fresh_round(epoch: u64, now: u64, c: Config) -> Round {
    Round {
        epoch,
        start_timestamp: now,
        lock_timestamp: (now + c.interval_seconds - c.buffer_seconds) as u64,
        close_timestamp: (now + c.interval_seconds) as u64,
        lock_price: 0,
        close_price: 0,
        total_amount: 0,
        bull_amount: 0,
        bear_amount: 0,
        reward_base_amount: 0,
        reward_amount: 0,
        oracle_called: false,
    }
}

/// The close timestamp of a round opened at `now` would not fit in u64.
pub open spec fn start_overflow(now: u64, c: Config) -> bool {
    now + c.interval_seconds > u64::MAX
}

/// The fee skimmed when a round locks: `total * fee_bps / 10000`, truncated.
pub open spec fn lock_fee(r: Round, fee_bps: u64) -> int {
    r.total_amount * fee_bps / (FEE_PRECISION as int)
}

/// `r` after locking: the lock price recorded and the fee set aside.
pub open spec fn locked_round(r: Round, price: i128, fee: u128) -> Round {
    Round { lock_price: price, reward_base_amount: fee, ..r }
}

/// Locking the round of `epoch` would leave u128: the fee product or the new
/// treasury balance does not fit.
pub open spec fn lock_overflow(s: State, epoch: u64) -> bool {
    ||| round_at(s, epoch).total_amount * s.config.treasury_fee > u128::MAX
    ||| s.treasury + lock_fee(round_at(s, epoch), s.config.treasury_fee) > u128::MAX
}

/// Why `execute_lock_round` fails, checked in this order.
pub open spec fn lock_round_err(s: State, epoch: u64) -> Option<ContractError> {
    if !has_round(s, epoch) {
        Some(ContractError::RoundNotFound { epoch })
    } else if lock_overflow(s, epoch) {
        Some(ContractError::Overflow)
    } else {
        None
    }
}

/// `r` after resolution: the close price recorded and the round marked
/// resolved.
pub open spec fn ended_round(r: Round, price: i128) -> Round {
    Round { close_price: price, oracle_called: true, ..r }
}

/// Opens the round of `epoch` at time `now` and makes it current. The step of
/// the lifecycle machine that follows a lock or a resolution; epochs are
/// assigned consecutively, which is what the precondition says.
pub fn execute_start_round(state: &mut State, now: u64, epoch: u64) -> (r: Result<
    Response,
    ContractError,
>)
    requires
        wf(*old(state)),
        epoch == old(state).current_epoch + 1,
    ensures
        wf(*final(state)),
        match r {
            Ok(resp) => {
                &&& !start_overflow(now, old(state).config)
                &&& final(state).rounds@ == old(state).rounds@.push(
                    fresh_round(epoch, now, old(state).config),
                )
                &&& final(state).current_epoch == epoch
                &&& final(state).config == old(state).config
                &&& final(state).paused == old(state).paused
                &&& final(state).treasury == old(state).treasury
                &&& final(state).ledger@ == old(state).ledger@
                &&& final(state).user_rounds@ == old(state).user_rounds@
                &&& simple_response(resp, ResponseKind::StartRound)
            },
            Err(e) => {
                &&& start_overflow(now, old(state).config)
                &&& e == ContractError::Overflow
                &&& *final(state) == *old(state)
            },
        },
{
    let close_timestamp = match now.checked_add(state.config.interval_seconds) {
        Some(v) => v,
        None => {
            return Err(ContractError::Overflow);
        },
    };
    let lock_timestamp = close_timestamp - state.config.buffer_seconds;
    let new_round = Round {
        epoch,
        start_timestamp: now,
        lock_timestamp,
        close_timestamp,
        lock_price: 0,
        close_price: 0,
        total_amount: 0,
        bull_amount: 0,
        bear_amount: 0,
        reward_base_amount: 0,
        reward_amount: 0,
        oracle_called: false,
    };
    state.rounds.push(new_round);
    state.current_epoch = epoch;
    Ok(empty_response(ResponseKind::StartRound))
}

/// Records the lock price on the round of `epoch` and skims the treasury fee
/// from its pool: the fee is stored on the round as the reward base and added
/// to the treasury balance. The step that closes betting on a round.
pub fn execute_lock_round(state: &mut State, epoch: u64, price: i128) -> (r: Result<
    Response,
    ContractError,
>)
    requires
        wf(*old(state)),
    ensures
        wf(*final(state)),
        match r {
            Ok(resp) => {
                &&& lock_round_err(*old(state), epoch) is None
                &&& final(state).rounds@ == old(state).rounds@.update(
                    epoch - 1,
                    locked_round(
                        round_at(*old(state), epoch),
                        price,
                        lock_fee(
                            round_at(*old(state), epoch),
                            old(state).config.treasury_fee,
                        ) as u128,
                    ),
                )
                &&& final(state).treasury == old(state).treasury + lock_fee(
                    round_at(*old(state), epoch),
                    old(state).config.treasury_fee,
                )
                &&& final(state).config == old(state).config
                &&& final(state).paused == old(state).paused
                &&& final(state).current_epoch == old(state).current_epoch
                &&& final(state).ledger@ == old(state).ledger@
                &&& final(state).user_rounds@ == old(state).user_rounds@
                &&& simple_response(resp, ResponseKind::LockRound)
            },
            Err(e) => {
                &&& lock_round_err(*old(state), epoch) == Some(e)
                &&& *final(state) == *old(state)
            },
        },
{
    let len = state.rounds.len();
    if epoch == 0 || epoch > len as u64 {
        return Err(ContractError::RoundNotFound { epoch });
    }
    let idx = (epoch - 1) as usize;
    let round = state.rounds[idx];
    let product = match round.total_amount.checked_mul(state.config.treasury_fee as u128) {
        Some(v) => v,
        None => {
            return Err(ContractError::Overflow);
        },
    };
    let fee = product / FEE_PRECISION;
    let new_treasury = match state.treasury.checked_add(fee) {
        Some(v) => v,
        None => {
            return Err(ContractError::Overflow);
        },
    };
    state.treasury = new_treasury;
    let mut updated = round;
    updated.lock_price = price;
    updated.reward_base_amount = fee;
    state.rounds[idx] = updated;
    Ok(empty_response(ResponseKind::LockRound))
}

/// Records the close price on the round of `epoch` and marks it resolved. The
/// step that settles a round's outcome.
pub fn execute_end_round(state: &mut State, epoch: u64, price: i128) -> (r: Result<
    Response,
    ContractError,
>)
    requires
        wf(*old(state)),
    ensures
        wf(*final(state)),
        match r {
            Ok(resp) => {
                &&& has_round(*old(state), epoch)
                &&& final(state).rounds@ == old(state).rounds@.update(
                    epoch - 1,
                    ended_round(round_at(*old(state), epoch), price),
                )
                &&& final(state).config == old(state).config
                &&& final(state).paused == old(state).paused
                &&& final(state).current_epoch == old(state).current_epoch
                &&& final(state).treasury == old(state).treasury
                &&& final(state).ledger@ == old(state).ledger@
                &&& final(state).user_rounds@ == old(state).user_rounds@
                &&& simple_response(resp, ResponseKind::EndRound)
            },
            Err(e) => {
                &&& !has_round(*old(state), epoch)
                &&& e == (ContractError::RoundNotFound { epoch })
                &&& *final(state) == *old(state)
            },
        },
{
    let len = state.rounds.len();
    if epoch == 0 || epoch > len as u64 {
        return Err(ContractError::RoundNotFound { epoch });
    }
    let idx = (epoch - 1) as usize;
    let mut updated = state.rounds[idx];
    updated.close_price = price;
    updated.oracle_called = true;
    state.rounds[idx] = updated;
    Ok(empty_response(ResponseKind::EndRound))
}

// ---------------------------------------------------------------------------
// Betting.
// ---------------------------------------------------------------------------
/// The amount of `denom` attached to a call, scanning `funds` from index `i`:
/// the amount of the first matching coin, or 0 when none matches.
pub open spec fn sent_from(funds: Seq<Coin>, denom: Seq<char>, i: int) -> u128
    decreases funds.len() - i,
{
    if i < 0 || i >= funds.len() {
        0
    } else if funds[i].denom@ == denom {
        funds[i].amount
    } else {
        sent_from(funds, denom, i + 1)
    }
}

/// The amount of `denom` attached to a call.
pub open spec fn spec_sent_amount(funds: Seq<Coin>, denom: Seq<char>) -> u128 {
    sent_from(funds, denom, 0)
}

/// The amount of the stake token attached to the call.
pub fn sent_amount(funds: &Vec<Coin>, denom: &String) -> (r: u128)
    ensures
        r == spec_sent_amount(funds@, denom@),
{
    let n = funds.len();
    let mut i: usize = 0;
    while i < n
        invariant
            i <= n,
            n == funds@.len(),
            spec_sent_amount(funds@, denom@) == sent_from(funds@, denom@, i as int),
        decreases n - i,
    {
        if funds[i].denom == *denom {
            return funds[i].amount;
        }
        i = i + 1;
    }
    0
}

/// `r` after a stake of `amount` lands on `position`.
pub open spec fn bet_applied(r: Round, amount: u128, position: Position) -> Round {
    match position {
        Position::Bull => Round {
            bull_amount: (r.bull_amount + amount) as u128,
            total_amount: (r.total_amount + amount) as u128,
            ..r
        },
        Position::Bear => Round {
            bear_amount: (r.bear_amount + amount) as u128,
            total_amount: (r.total_amount + amount) as u128,
            ..r
        },
    }
}

/// Why `execute_bet` fails, checked in this order. `sent` is the amount of
/// the stake token attached to the call.
pub open spec fn bet_err(
    s: State,
    now: u64,
    sender: Seq<char>,
    sent: u128,
    epoch: u64,
    amount: u128,
) -> Option<ContractError> {
    if s.paused {
        Some(ContractError::Paused)
    } else if amount < s.config.min_bet_amount {
        Some(ContractError::BetTooSmall)
    } else if !has_round(s, epoch) {
        Some(ContractError::RoundNotFound { epoch })
    } else if now >= round_at(s, epoch).lock_timestamp {
        Some(ContractError::RoundNotBettable)
    } else if has_bet(s, epoch, sender) {
        Some(ContractError::AlreadyBet)
    } else if sent != amount {
        Some(ContractError::InvalidBetFunds)
    } else if round_at(s, epoch).total_amount + amount > u128::MAX {
        Some(ContractError::Overflow)
    } else {
        None
    }
}

/// The history table after recording that `user` bet in `epoch`: the epoch is
/// appended to the user's row unless already present (the append is
/// idempotent), and a fresh row is created for a first-time bettor.
pub open spec fn history_after_bet(
    pre: Seq<UserEpochs>,
    post: Seq<UserEpochs>,
    user: Seq<char>,
    epoch: u64,
) -> bool {
    if exists|i: int| 0 <= i < pre.len() && (#[trigger] pre[i]).user@ == user {
        let i = choose|i: int| 0 <= i < pre.len() && (#[trigger] pre[i]).user@ == user;
        &&& post.len() == pre.len()
        &&& forall|j: int| 0 <= j < pre.len() && j != i ==> post[j] == pre[j]
        &&& post[i].user@ == user
        &&& post[i].epochs@ == if pre[i].epochs@.contains(epoch) {
            pre[i].epochs@
        } else {
            pre[i].epochs@.push(epoch)
        }
    } else {
        &&& post.len() == pre.len() + 1
        &&& forall|j: int| 0 <= j < pre.len() ==> post[j] == pre[j]
        &&& post[pre.len() as int].user@ == user
        &&& post[pre.len() as int].epochs@ == seq![epoch]
    }
}

/// The whole contract of `execute_bet`: how `post` and `r` relate to `pre`
/// for a stake by `sender` carrying `funds`.
pub open spec fn bet_spec(
    pre: State,
    post: State,
    now: u64,
    sender: String,
    funds: Seq<Coin>,
    epoch: u64,
    amount: u128,
    position: Position,
    r: Result<Response, ContractError>,
) -> bool {
    match r {
        Ok(resp) => {
            &&& bet_err(
                pre,
                now,
                sender@,
                spec_sent_amount(funds, pre.config.usdc_token@),
                epoch,
                amount,
            ) is None
            &&& post.rounds@ == pre.rounds@.update(
                epoch - 1,
                bet_applied(round_at(pre, epoch), amount, position),
            )
            &&& post.ledger@ == pre.ledger@.push(
                (BetEntry { epoch, user: sender, bet: BetInfo { position, amount, claimed: false } }),
            )
            &&& history_after_bet(pre.user_rounds@, post.user_rounds@, sender@, epoch)
            &&& post.config == pre.config
            &&& post.paused == pre.paused
            &&& post.current_epoch == pre.current_epoch
            &&& post.treasury == pre.treasury
            &&& simple_response(resp, ResponseKind::Bet)
        },
        Err(e) => {
            &&& bet_err(
                pre,
                now,
                sender@,
                spec_sent_amount(funds, pre.config.usdc_token@),
                epoch,
                amount,
            ) == Some(e)
            &&& post == pre
        },
    }
}

/// Records a stake of `amount` on `position` for round `epoch`.
///
/// Rejected while paused, below the minimum stake, once the round's betting
/// window has closed, when the caller has already bet on the round, and when
/// the funds attached to the call do not exactly equal the stake. On success
/// the stake lands in the chosen pool, the bet is recorded unclaimed, and the
/// epoch joins the caller's history. The funds are already in the engine's
/// custody; nothing is transferred.
pub fn execute_bet(
    state: &mut State,
    now: u64,
    info: &MessageInfo,
    epoch: u64,
    amount: u128,
    position: Position,
) -> (r: Result<Response, ContractError>)
    requires
        wf(*old(state)),
    ensures
        wf(*final(state)),
        bet_spec(
            *old(state),
            *final(state),
            now,
            info.sender,
            info.funds@,
            epoch,
            amount,
            position,
            r,
        ),
{
    if state.paused {
        return Err(ContractError::Paused);
    }
    if amount < state.config.min_bet_amount {
        return Err(ContractError::BetTooSmall);
    }
    let len = state.rounds.len();
    if epoch == 0 || epoch > len as u64 {
        return Err(ContractError::RoundNotFound { epoch });
    }
    let idx = (epoch - 1) as usize;
    let round = state.rounds[idx];
    if now >= round.lock_timestamp {
        return Err(ContractError::RoundNotBettable);
    }
    match find_bet(&state.ledger, epoch, &info.sender) {
        Some(_) => {
            return Err(ContractError::AlreadyBet);
        },
        None => (),
    }
    let sent = sent_amount(&info.funds, &state.config.usdc_token);
    if sent != amount {
        return Err(ContractError::InvalidBetFunds);
    }
    let new_total = match round.total_amount.checked_add(amount) {
        Some(v) => v,
        None => {
            return Err(ContractError::Overflow);
        },
    };

    let mut updated = round;
    match position {
        Position::Bull => {
            updated.bull_amount = updated.bull_amount + amount;
        },
        Position::Bear => {
            updated.bear_amount = updated.bear_amount + amount;
        },
    }
    updated.total_amount = new_total;
    state.rounds[idx] = updated;

    let ghost led0 = state.ledger@;
    state.ledger.push(
        BetEntry {
            epoch,
            user: info.sender.clone(),
            bet: BetInfo { position, amount, claimed: false },
        },
    );
    proof {
        let led = state.ledger@;
        assert forall|i: int, j: int| 0 <= i < j < led.len() implies !(led[i].epoch == led[j].epoch
            && led[i].user@ == led[j].user@) by {
            if j == led.len() - 1 {
                assert(!bet_key_matches(led0[i], epoch, info.sender@));
            }
        };
    }

    match find_user(&state.user_rounds, &info.sender) {
        Some(i) => {
            let already = contains_epoch(&state.user_rounds[i].epochs, epoch);
            if !already {
                let ghost rows0 = state.user_rounds@;
                let row = &mut state.user_rounds[i];
                row.epochs.push(epoch);
                proof {
                    assert(state.user_rounds@[i as int].epochs@ == rows0[i as int].epochs@.push(
                        epoch,
                    ));
                }
            }
        },
        None => {
            let mut epochs: Vec<u64> = Vec::new();
            epochs.push(epoch);
            state.user_rounds.push(UserEpochs { user: info.sender.clone(), epochs });
        },
    }

    Ok(empty_response(ResponseKind::Bet))
}

// ---------------------------------------------------------------------------
// Claiming.
// ---------------------------------------------------------------------------
/// `e` with its bet marked claimed.
pub open spec fn mark_claimed(e: BetEntry) -> BetEntry {
    BetEntry { bet: BetInfo { claimed: true, ..e.bet }, ..e }
}

/// `e` occurs among the first `upto` elements of `epochs`.
pub open spec fn epoch_in_prefix(epochs: Seq<u64>, upto: int, e: u64) -> bool {
    exists|j: int| 0 <= j < upto && epochs[j] == e
}

/// `subrange(0, upto).contains` and `epoch_in_prefix` say the same thing.
proof fn lemma_prefix_contains(epochs: Seq<u64>, upto: int, e: u64)
    requires
        0 <= upto <= epochs.len(),
    ensures
        epochs.subrange(0, upto).contains(e) == epoch_in_prefix(epochs, upto, e),
{
    if epochs.subrange(0, upto).contains(e) {
        let w = choose|w: int| 0 <= w < upto && epochs.subrange(0, upto)[w] == e;
        assert(epochs[w] == e);
        assert(epoch_in_prefix(epochs, upto, e));
    }
    if epoch_in_prefix(epochs, upto, e) {
        let w = choose|j: int| 0 <= j < upto && epochs[j] == e;
        assert(epochs.subrange(0, upto)[w] == e);
    }
}

/// Why settling epoch `e` for `user` fails, checked in this order. `seen` is
/// the part of the batch already settled: a repeat of an epoch within one
/// batch counts as already claimed.
pub open spec fn epoch_claim_err(s: State, user: Seq<char>, e: u64, seen: Seq<u64>) -> Option<
    ContractError,
> {
    if !has_round(s, e) {
        Some(ContractError::RoundNotFound { epoch: e })
    } else if !round_at(s, e).oracle_called {
        Some(ContractError::RoundNotEnded { epoch: e })
    } else if !has_bet(s, e, user) {
        Some(ContractError::NoBetRecord { epoch: e })
    } else if bet_at(s, e, user).claimed || seen.contains(e) {
        Some(ContractError::AlreadyClaimed { epoch: e })
    } else if reward_overflows(round_at(s, e), bet_at(s, e, user)) {
        Some(ContractError::Overflow)
    } else if spec_reward(round_at(s, e), bet_at(s, e, user)) == 0 {
        Some(ContractError::NotWinner { epoch: e })
    } else {
        None
    }
}

/// What settling `epochs[i ..]` against state `s` yields, given the running
/// reward total `acc`: the summed reward of the whole batch, or its first
/// failure.
pub open spec fn claim_scan(
    s: State,
    user: Seq<char>,
    epochs: Seq<u64>,
    i: int,
    acc: u128,
) -> Result<u128, ContractError>
    decreases epochs.len() - i,
{
    if i < 0 || i >= epochs.len() {
        Ok(acc)
    } else {
        let e = epochs[i];
        match epoch_claim_err(s, user, e, epochs.subrange(0, i)) {
            Some(err) => Err(err),
            None => {
                let rew = spec_reward(round_at(s, e), bet_at(s, e, user));
                if acc + rew > u128::MAX {
                    Err(ContractError::Overflow)
                } else {
                    claim_scan(s, user, epochs, i + 1, (acc + rew) as u128)
                }
            },
        }
    }
}

/// What a claim of `epochs` by `user` yields against state `s`: the summed
/// reward, or the error that aborts the whole batch. The paused flag gates
/// claims as it gates every participant-facing mutation.
pub open spec fn claim_result(s: State, user: Seq<char>, epochs: Seq<u64>) -> Result<
    u128,
    ContractError,
> {
    if s.paused {
        Err(ContractError::Paused)
    } else if epochs.len() == 0 {
        Err(ContractError::EmptyEpochs)
    } else {
        claim_scan(s, user, epochs, 0, 0)
    }
}

/// The whole contract of `execute_claim`: how `post` and `r` relate to `pre`
/// for a batch claim of `epochs` by `user`.
pub open spec fn claim_spec(
    pre: State,
    post: State,
    user: Seq<char>,
    epochs: Seq<u64>,
    r: Result<Response, ContractError>,
) -> bool {
    match r {
        Ok(resp) => {
            &&& claim_result(pre, user, epochs) == Ok::<u128, ContractError>(
                resp.transfers@[0].amount,
            )
            &&& post.ledger@.len() == pre.ledger@.len()
            &&& forall|t: int|
                0 <= t < pre.ledger@.len() ==> post.ledger@[t] == (if pre.ledger@[t].user@ == user
                    && epochs.contains(pre.ledger@[t].epoch) {
                    mark_claimed(pre.ledger@[t])
                } else {
                    pre.ledger@[t]
                })
            &&& post.rounds@ == pre.rounds@
            &&& post.user_rounds@ == pre.user_rounds@
            &&& post.config == pre.config
            &&& post.paused == pre.paused
            &&& post.current_epoch == pre.current_epoch
            &&& post.treasury == pre.treasury
            &&& resp.kind == ResponseKind::Claim
            &&& resp.transfers@.len() == 1
            &&& resp.transfers@[0].recipient@ == user
            &&& resp.claim_events@.len() == epochs.len()
            &&& forall|j: int|
                0 <= j < epochs.len() ==> resp.claim_events@[j] == (ClaimEvent {
                    epoch: epochs[j],
                    reward: spec_reward(
                        round_at(pre, epochs[j]),
                        bet_at(pre, epochs[j], user),
                    ) as u128,
                })
        },
        Err(e) => {
            &&& claim_result(pre, user, epochs) == Err::<u128, ContractError>(e)
            &&& post == pre
        },
    }
}

/// Settles the caller's bets on a batch of epochs, all or nothing: rejected
/// while paused, and if any epoch is unresolved, unbet, already claimed (or
/// repeated in the batch), or pays zero, the whole batch fails and nothing
/// changes.
///
/// On success every bet of the batch is marked claimed, one settlement event
/// per epoch reports its reward, and a single transfer instruction pays the
/// caller the summed reward.
pub fn execute_claim(state: &mut State, sender: &String, epochs: &Vec<u64>) -> (r: Result<
    Response,
    ContractError,
>)
    requires
        wf(*old(state)),
    ensures
        wf(*final(state)),
        claim_spec(*old(state), *final(state), sender@, epochs@, r),
{
    if state.paused {
        return Err(ContractError::Paused);
    }
    let n = epochs.len();
    if n == 0 {
        return Err(ContractError::EmptyEpochs);
    }

    // First pass: validate every epoch of the batch and sum the rewards,
    // touching nothing, so that a failure anywhere leaves no trace.
    let mut rewards: Vec<u128> = Vec::new();
    let mut total: u128 = 0;
    let mut i: usize = 0;
    while i < n
        invariant
            wf(*state),
            *state == *old(state),
            !old(state).paused,
            i <= n,
            n == epochs@.len(),
            n > 0,
            rewards@.len() == i,
            forall|j: int|
                0 <= j < i ==> epoch_claim_err(
                    *state,
                    sender@,
                    epochs@[j],
                    epochs@.subrange(0, j),
                ) is None,
            forall|j: int|
                0 <= j < i ==> rewards@[j] == spec_reward(
                    round_at(*state, epochs@[j]),
                    bet_at(*state, epochs@[j], sender@),
                ),
            claim_scan(*state, sender@, epochs@, 0, 0) == claim_scan(
                *state,
                sender@,
                epochs@,
                i as int,
                total,
            ),
        decreases n - i,
    {
        let e = epochs[i];
        let rlen = state.rounds.len();
        if e == 0 || e > rlen as u64 {
            return Err(ContractError::RoundNotFound { epoch: e });
        }
        let round = state.rounds[(e - 1) as usize];
        if !round.oracle_called {
            return Err(ContractError::RoundNotEnded { epoch: e });
        }
        let bet = match find_bet(&state.ledger, e, sender) {
            Some(k) => {
                proof {
                    assert(has_bet(*state, e, sender@));
                    let i0 = bet_idx(*state, e, sender@);
                    assert(bet_key_matches(state.ledger@[i0], e, sender@));
                    assert(i0 == k as int);
                }
                state.ledger[k].bet
            },
            None => {
                return Err(ContractError::NoBetRecord { epoch: e });
            },
        };
        if bet.claimed {
            return Err(ContractError::AlreadyClaimed { epoch: e });
        }
        if contains_epoch_prefix(epochs, i, e) {
            return Err(ContractError::AlreadyClaimed { epoch: e });
        }
        let reward = match calculate_reward(&round, &bet) {
            Ok(v) => v,
            Err(err) => {
                return Err(err);
            },
        };
        if reward == 0 {
            return Err(ContractError::NotWinner { epoch: e });
        }
        let new_total = match total.checked_add(reward) {
            Some(v) => v,
            None => {
                return Err(ContractError::Overflow);
            },
        };
        rewards.push(reward);
        proof {
            assert(epoch_claim_err(*state, sender@, e, epochs@.subrange(0, i as int)) is None);
            assert(claim_scan(*state, sender@, epochs@, i as int, total) == claim_scan(
                *state,
                sender@,
                epochs@,
                i as int + 1,
                new_total,
            ));
        }
        total = new_total;
        i = i + 1;
    }
    assert(claim_result(*state, sender@, epochs@) == Ok::<u128, ContractError>(total));

    // Second pass: every epoch is now known good; mark the bets claimed and
    // record one settlement event per epoch.
    let ghost led0 = state.ledger@;
    let mut events: Vec<ClaimEvent> = Vec::new();
    let mut i2: usize = 0;
    while i2 < n
        invariant
            i2 <= n,
            n == epochs@.len(),
            n > 0,
            !old(state).paused,
            wf(*old(state)),
            led0 == old(state).ledger@,
            rewards@.len() == n,
            forall|j: int|
                0 <= j < n ==> epoch_claim_err(
                    *old(state),
                    sender@,
                    epochs@[j],
                    epochs@.subrange(0, j),
                ) is None,
            forall|j: int|
                0 <= j < n ==> rewards@[j] == spec_reward(
                    round_at(*old(state), epochs@[j]),
                    bet_at(*old(state), epochs@[j], sender@),
                ),
            state.ledger@.len() == led0.len(),
            forall|t: int|
                0 <= t < led0.len() ==> state.ledger@[t] == (if led0[t].user@ == sender@
                    && epoch_in_prefix(epochs@, i2 as int, led0[t].epoch) {
                    mark_claimed(led0[t])
                } else {
                    led0[t]
                }),
            events@.len() == i2,
            forall|j: int|
                0 <= j < i2 ==> events@[j] == (ClaimEvent {
                    epoch: epochs@[j],
                    reward: spec_reward(
                        round_at(*old(state), epochs@[j]),
                        bet_at(*old(state), epochs@[j], sender@),
                    ) as u128,
                }),
            state.rounds@ == old(state).rounds@,
            state.user_rounds@ == old(state).user_rounds@,
            state.config == old(state).config,
            state.paused == old(state).paused,
            state.current_epoch == old(state).current_epoch,
            state.treasury == old(state).treasury,
        decreases n - i2,
    {
        let e = epochs[i2];
        proof {
            assert(epoch_claim_err(*old(state), sender@, e, epochs@.subrange(0, i2 as int))
                is None);
            assert(has_bet(*old(state), e, sender@));
            let i0 = bet_idx(*old(state), e, sender@);
            assert(bet_key_matches(led0[i0], e, sender@));
            assert(bet_key_matches(state.ledger@[i0], e, sender@));
        }
        match find_bet(&state.ledger, e, sender) {
            Some(k) => {
                let ghost pre = state.ledger@;
                let entry = &mut state.ledger[k];
                entry.bet.claimed = true;
                proof {
                    assert(state.ledger@ == pre.update(k as int, mark_claimed(pre[k as int])));
                    lemma_prefix_contains(epochs@, i2 as int, e);
                    assert(!epoch_in_prefix(epochs@, i2 as int, e));
                    assert(led0[k as int].epoch == e && led0[k as int].user@ == sender@);
                    assert(pre[k as int] == led0[k as int]);
                    assert forall|t: int| 0 <= t < led0.len() implies state.ledger@[t] == (
                    if led0[t].user@ == sender@ && epoch_in_prefix(
                        epochs@,
                        i2 as int + 1,
                        led0[t].epoch,
                    ) {
                        mark_claimed(led0[t])
                    } else {
                        led0[t]
                    }) by {
                        let ep = led0[t].epoch;
                        if t == k as int {
                            assert(epochs@[i2 as int] == e);
                            assert(epoch_in_prefix(epochs@, i2 as int + 1, e));
                        } else {
                            assert(state.ledger@[t] == pre[t]);
                            if led0[t].user@ == sender@ && ep == e {
                                assert(led0[t].epoch == led0[k as int].epoch);
                                assert(false);
                            }
                            if epoch_in_prefix(epochs@, i2 as int + 1, ep) && ep != e {
                                let w = choose|j: int|
                                    0 <= j < i2 as int + 1 && epochs@[j] == ep;
                                assert(0 <= w < i2 as int && epochs@[w] == ep);
                                assert(epoch_in_prefix(epochs@, i2 as int, ep));
                            }
                            if epoch_in_prefix(epochs@, i2 as int, ep) {
                                let w = choose|j: int| 0 <= j < i2 as int && epochs@[j] == ep;
                                assert(0 <= w < i2 as int + 1 && epochs@[w] == ep);
                                assert(epoch_in_prefix(epochs@, i2 as int + 1, ep));
                            }
                        }
                    };
                }
                events.push(ClaimEvent { epoch: e, reward: rewards[i2] });
            },
            None => {
                proof {
                    assert(false);
                }
            },
        }
        i2 = i2 + 1;
    }

    let mut transfers: Vec<TransferMsg> = Vec::new();
    transfers.push(TransferMsg { recipient: sender.clone(), amount: total });
    proof {
        assert forall|t: int| 0 <= t < led0.len() implies state.ledger@[t] == (if led0[t].user@
            == sender@ && epochs@.contains(led0[t].epoch) {
            mark_claimed(led0[t])
        } else {
            led0[t]
        }) by {
            let ep = led0[t].epoch;
            if epochs@.contains(ep) {
                let w = choose|j: int| 0 <= j < epochs@.len() && epochs@[j] == ep;
                assert(epoch_in_prefix(epochs@, n as int, ep));
            }
            if epoch_in_prefix(epochs@, n as int, ep) {
                let w = choose|j: int| 0 <= j < n as int && epochs@[j] == ep;
                assert(epochs@.contains(ep));
            }
        };
    }
    Ok(Response { kind: ResponseKind::Claim, transfers, claim_events: events })
}

/// Why `execute_round` (the tick) fails, checked in this order.
pub open spec fn tick_err(s: State, now: u64, sender: Seq<char>, price: Option<i128>) -> Option<
    ContractError,
> {
    if sender != s.config.operator_address@ {
        Some(ContractError::Unauthorized)
    } else if s.paused {
        Some(ContractError::Paused)
    } else if s.current_epoch == 0 {
        Some(ContractError::GenesisNotStarted)
    } else {
        let cur = round_at(s, s.current_epoch);
        if now >= cur.close_timestamp {
            if price is None {
                Some(ContractError::OracleError)
            } else if s.current_epoch == u64::MAX || start_overflow(now, s.config) {
                Some(ContractError::Overflow)
            } else {
                None
            }
        } else if now >= cur.lock_timestamp {
            if price is None {
                Some(ContractError::OracleError)
            } else if lock_overflow(s, s.current_epoch) || s.current_epoch == u64::MAX
                || start_overflow(now, s.config) {
                Some(ContractError::Overflow)
            } else {
                None
            }
        } else {
            None
        }
    }
}

/// The whole contract of `execute_round` (the tick).
pub open spec fn tick_spec(
    pre: State,
    post: State,
    now: u64,
    sender: Seq<char>,
    price: Option<i128>,
    r: Result<Response, ContractError>,
) -> bool {
    match r {
        Ok(resp) => {
            &&& tick_err(pre, now, sender, price) is None
            &&& post.config == pre.config
            &&& post.paused == pre.paused
            &&& post.ledger@ == pre.ledger@
            &&& post.user_rounds@ == pre.user_rounds@
            &&& {
                let ce = pre.current_epoch;
                let cur = round_at(pre, ce);
                let cfg = pre.config;
                if now >= cur.close_timestamp {
                    &&& post.rounds@ == pre.rounds@.update(
                        ce - 1,
                        ended_round(cur, price->Some_0),
                    ).push(locked_round(fresh_round((ce + 1) as u64, now, cfg), price->Some_0, 0))
                    &&& post.current_epoch == ce + 1
                    &&& post.treasury == pre.treasury
                    &&& simple_response(resp, ResponseKind::LockRound)
                } else if now >= cur.lock_timestamp {
                    &&& post.rounds@ == pre.rounds@.update(
                        ce - 1,
                        locked_round(cur, price->Some_0, lock_fee(cur, cfg.treasury_fee) as u128),
                    ).push(fresh_round((ce + 1) as u64, now, cfg))
                    &&& post.current_epoch == ce + 1
                    &&& post.treasury == pre.treasury + lock_fee(cur, cfg.treasury_fee)
                    &&& simple_response(resp, ResponseKind::StartRound)
                } else {
                    &&& post == pre
                    &&& simple_response(resp, ResponseKind::NoActionNeeded)
                }
            }
        },
        Err(e) => {
            &&& tick_err(pre, now, sender, price) == Some(e)
            &&& post == pre
        },
    }
}

/// Advances the round lifecycle from the wall clock. Operator only, not while
/// paused, only after genesis.
///
/// If the current round is past its close time: resolve it at the oracle
/// price, open the next round at `now` and lock that round in the same
/// invocation (the self-healing late-tick path; at most one epoch advances
/// per tick however late it comes). Else, if past its lock time: lock it
/// (skim the fee, record the lock price) and open the next round. Else the
/// tick is early, which is a documented no-op, never an error.
pub fn execute_round(
    state: &mut State,
    now: u64,
    sender: &String,
    oracle_price: Option<i128>,
) -> (r: Result<Response, ContractError>)
    requires
        wf(*old(state)),
    ensures
        wf(*final(state)),
        tick_spec(*old(state), *final(state), now, sender@, oracle_price, r),
{
    if state.config.operator_address != *sender {
        return Err(ContractError::Unauthorized);
    }
    if state.paused {
        return Err(ContractError::Paused);
    }
    let ce = state.current_epoch;
    if ce == 0 {
        return Err(ContractError::GenesisNotStarted);
    }
    let len = state.rounds.len();
    assert(ce <= len);
    let idx = (ce - 1) as usize;
    let cur = state.rounds[idx];

    if now >= cur.close_timestamp {
        let price = match oracle_price {
            Some(p) => p,
            None => {
                return Err(ContractError::OracleError);
            },
        };
        let new_epoch = match ce.checked_add(1) {
            Some(v) => v,
            None => {
                return Err(ContractError::Overflow);
            },
        };
        if now > u64::MAX - state.config.interval_seconds {
            return Err(ContractError::Overflow);
        }
        let ghost s0 = *state;
        match execute_end_round(state, ce, price) {
            Ok(_) => (),
            Err(e) => {
                proof {
                    assert(false);
                }
                return Err(e);
            },
        }
        let ghost s1 = *state;
        match execute_start_round(state, now, new_epoch) {
            Ok(_) => (),
            Err(e) => {
                proof {
                    assert(false);
                }
                return Err(e);
            },
        }
        let ghost s2 = *state;
        proof {
            assert(s2.rounds@[new_epoch - 1] == fresh_round(new_epoch, now, s0.config));
            assert(round_at(s2, new_epoch).total_amount == 0);
            assert(lock_fee(round_at(s2, new_epoch), s2.config.treasury_fee) == 0);
            assert(!lock_overflow(s2, new_epoch));
        }
        match execute_lock_round(state, new_epoch, price) {
            Ok(resp) => {
                proof {
                    assert(state.rounds@ =~= s0.rounds@.update(
                        ce - 1,
                        ended_round(cur, price),
                    ).push(locked_round(fresh_round(new_epoch, now, s0.config), price, 0)));
                }
                return Ok(resp);
            },
            Err(e) => {
                proof {
                    assert(false);
                }
                return Err(e);
            },
        }
    } else if now >= cur.lock_timestamp {
        let price = match oracle_price {
            Some(p) => p,
            None => {
                return Err(ContractError::OracleError);
            },
        };
        let product = match cur.total_amount.checked_mul(state.config.treasury_fee as u128) {
            Some(v) => v,
            None => {
                return Err(ContractError::Overflow);
            },
        };
        let fee = product / FEE_PRECISION;
        if state.treasury > u128::MAX - fee {
            return Err(ContractError::Overflow);
        }
        let new_epoch = match ce.checked_add(1) {
            Some(v) => v,
            None => {
                return Err(ContractError::Overflow);
            },
        };
        if now > u64::MAX - state.config.interval_seconds {
            return Err(ContractError::Overflow);
        }
        match execute_lock_round(state, ce, price) {
            Ok(_) => (),
            Err(e) => {
                proof {
                    assert(false);
                }
                return Err(e);
            },
        }
        match execute_start_round(state, now, new_epoch) {
            Ok(resp) => {
                return Ok(resp);
            },
            Err(e) => {
                proof {
                    assert(false);
                }
                return Err(e);
            },
        }
    }
    Ok(empty_response(ResponseKind::NoActionNeeded))
}

/// Why `execute_genesis_start_round` fails, checked in this order.
pub open spec fn genesis_start_err(s: State, now: u64, sender: Seq<char>) -> Option<
    ContractError,
> {
    if sender != s.config.operator_address@ {
        Some(ContractError::Unauthorized)
    } else if s.paused {
        Some(ContractError::Paused)
    } else if s.current_epoch != 0 {
        Some(ContractError::GenesisAlreadyStarted)
    } else if start_overflow(now, s.config) {
        Some(ContractError::Overflow)
    } else {
        None
    }
}

/// The whole contract of `execute_genesis_start_round`.
pub open spec fn genesis_start_spec(
    pre: State,
    post: State,
    now: u64,
    sender: Seq<char>,
    r: Result<Response, ContractError>,
) -> bool {
    match r {
        Ok(resp) => {
            &&& genesis_start_err(pre, now, sender) is None
            &&& post.rounds@ == pre.rounds@.push(fresh_round(1, now, pre.config))
            &&& post.current_epoch == 1
            &&& post.config == pre.config
            &&& post.paused == pre.paused
            &&& post.treasury == pre.treasury
            &&& post.ledger@ == pre.ledger@
            &&& post.user_rounds@ == pre.user_rounds@
            &&& simple_response(resp, ResponseKind::StartRound)
        },
        Err(e) => {
            &&& genesis_start_err(pre, now, sender) == Some(e)
            &&& post == pre
        },
    }
}

/// Opens the very first round. Operator only, not while paused, exactly once:
/// a second call always fails. Exists because the normal tick needs an
/// already-open predecessor round.
pub fn execute_genesis_start_round(state: &mut State, now: u64, sender: &String) -> (r: Result<
    Response,
    ContractError,
>)
    requires
        wf(*old(state)),
    ensures
        wf(*final(state)),
        genesis_start_spec(*old(state), *final(state), now, sender@, r),
{
    if state.config.operator_address != *sender {
        return Err(ContractError::Unauthorized);
    }
    if state.paused {
        return Err(ContractError::Paused);
    }
    if state.current_epoch != 0 {
        return Err(ContractError::GenesisAlreadyStarted);
    }
    execute_start_round(state, now, 1)
}

/// Why `execute_genesis_lock_round` fails, checked in this order. A lock
/// price other than the "not yet set" sentinel means the first round has
/// already been locked: the fee may be skimmed from a round only once.
pub open spec fn genesis_lock_err(s: State, sender: Seq<char>, price: Option<i128>) -> Option<
    ContractError,
> {
    if sender != s.config.operator_address@ {
        Some(ContractError::Unauthorized)
    } else if s.paused {
        Some(ContractError::Paused)
    } else if s.current_epoch != 1 {
        Some(ContractError::GenesisNotStarted)
    } else if round_at(s, 1).lock_price != 0 {
        Some(ContractError::GenesisAlreadyLocked)
    } else if price is None {
        Some(ContractError::OracleError)
    } else if lock_overflow(s, 1) {
        Some(ContractError::Overflow)
    } else {
        None
    }
}

/// The whole contract of `execute_genesis_lock_round`.
pub open spec fn genesis_lock_spec(
    pre: State,
    post: State,
    sender: Seq<char>,
    price: Option<i128>,
    r: Result<Response, ContractError>,
) -> bool {
    match r {
        Ok(resp) => {
            &&& genesis_lock_err(pre, sender, price) is None
            &&& post.rounds@ == pre.rounds@.update(
                0,
                locked_round(
                    round_at(pre, 1),
                    price->Some_0,
                    lock_fee(round_at(pre, 1), pre.config.treasury_fee) as u128,
                ),
            )
            &&& post.treasury == pre.treasury + lock_fee(
                round_at(pre, 1),
                pre.config.treasury_fee,
            )
            &&& post.config == pre.config
            &&& post.paused == pre.paused
            &&& post.current_epoch == pre.current_epoch
            &&& post.ledger@ == pre.ledger@
            &&& post.user_rounds@ == pre.user_rounds@
            &&& simple_response(resp, ResponseKind::LockRound)
        },
        Err(e) => {
            &&& genesis_lock_err(pre, sender, price) == Some(e)
            &&& post == pre
        },
    }
}

/// Locks the very first round at the oracle price. Operator only, not while
/// paused, only while the round counter still stands at 1 — in particular,
/// before genesis start it always fails — and at most once: a second lock
/// would skim the fee a second time.
pub fn execute_genesis_lock_round(
    state: &mut State,
    sender: &String,
    oracle_price: Option<i128>,
) -> (r: Result<Response, ContractError>)
    requires
        wf(*old(state)),
    ensures
        wf(*final(state)),
        genesis_lock_spec(*old(state), *final(state), sender@, oracle_price, r),
{
    if state.config.operator_address != *sender {
        return Err(ContractError::Unauthorized);
    }
    if state.paused {
        return Err(ContractError::Paused);
    }
    if state.current_epoch != 1 {
        return Err(ContractError::GenesisNotStarted);
    }
    if state.rounds[0].lock_price != 0 {
        return Err(ContractError::GenesisAlreadyLocked);
    }
    let price = match oracle_price {
        Some(p) => p,
        None => {
            return Err(ContractError::OracleError);
        },
    };
    execute_lock_round(state, 1, price)
}

// ---------------------------------------------------------------------------
// Dispatch.
// ---------------------------------------------------------------------------
/// Authorizes and runs one mutating operation against the state, handing back
/// either its response or the error that aborted it with the state untouched.
/// `env` carries the wall clock and, for lifecycle operations, the host's
/// oracle reading; `info` carries the verified caller identity and the funds
/// attached to the call.
pub fn execute(state: &mut State, env: &Env, info: &MessageInfo, msg: ExecuteMsg) -> (r: Result<
    Response,
    ContractError,
>)
    requires
        wf(*old(state)),
    ensures
        wf(*final(state)),
        match msg {
            ExecuteMsg::BetBull { epoch, amount } => bet_spec(
                *old(state),
                *final(state),
                env.now,
                info.sender,
                info.funds@,
                epoch,
                amount,
                Position::Bull,
                r,
            ),
            ExecuteMsg::BetBear { epoch, amount } => bet_spec(
                *old(state),
                *final(state),
                env.now,
                info.sender,
                info.funds@,
                epoch,
                amount,
                Position::Bear,
                r,
            ),
            ExecuteMsg::Claim { epochs } => claim_spec(
                *old(state),
                *final(state),
                info.sender@,
                epochs@,
                r,
            ),
            ExecuteMsg::ExecuteRound {  } => tick_spec(
                *old(state),
                *final(state),
                env.now,
                info.sender@,
                env.oracle_price,
                r,
            ),
            ExecuteMsg::GenesisStartRound {  } => genesis_start_spec(
                *old(state),
                *final(state),
                env.now,
                info.sender@,
                r,
            ),
            ExecuteMsg::GenesisLockRound {  } => genesis_lock_spec(
                *old(state),
                *final(state),
                info.sender@,
                env.oracle_price,
                r,
            ),
            ExecuteMsg::Pause {  } => pause_spec(*old(state), *final(state), info.sender@, r),
            ExecuteMsg::Unpause {  } => unpause_spec(*old(state), *final(state), info.sender@, r),
            ExecuteMsg::ClaimTreasury {  } => claim_treasury_spec(
                *old(state),
                *final(state),
                info.sender@,
                r,
            ),
            ExecuteMsg::SetBufferAndIntervalSeconds { buffer_seconds, interval_seconds } => set_buffer_and_interval_spec(
                *old(state),
                *final(state),
                info.sender@,
                buffer_seconds,
                interval_seconds,
                r,
            ),
            ExecuteMsg::SetMinBetAmount { min_bet_amount } => set_min_bet_spec(
                *old(state),
                *final(state),
                info.sender@,
                min_bet_amount,
                r,
            ),
            ExecuteMsg::SetOperator { operator_address } => set_operator_spec(
                *old(state),
                *final(state),
                info.sender@,
                operator_address,
                r,
            ),
            ExecuteMsg::SetTreasuryFee { treasury_fee } => set_treasury_fee_spec(
                *old(state),
                *final(state),
                info.sender@,
                treasury_fee,
                r,
            ),
            ExecuteMsg::SetOracleInfo { oracle_address, btc_price_feed_id } => set_oracle_info_spec(
                *old(state),
                *final(state),
                info.sender@,
                oracle_address,
                btc_price_feed_id,
                r,
            ),
        },
{
    match msg {
        ExecuteMsg::BetBull { epoch, amount } => execute_bet(
            state,
            env.now,
            info,
            epoch,
            amount,
            Position::Bull,
        ),
        ExecuteMsg::BetBear { epoch, amount } => execute_bet(
            state,
            env.now,
            info,
            epoch,
            amount,
            Position::Bear,
        ),
        ExecuteMsg::Claim { epochs } => execute_claim(state, &info.sender, &epochs),
        ExecuteMsg::ExecuteRound {  } => execute_round(
            state,
            env.now,
            &info.sender,
            env.oracle_price,
        ),
        ExecuteMsg::GenesisStartRound {  } => execute_genesis_start_round(
            state,
            env.now,
            &info.sender,
        ),
        ExecuteMsg::GenesisLockRound {  } => execute_genesis_lock_round(
            state,
            &info.sender,
            env.oracle_price,
        ),
        ExecuteMsg::Pause {  } => execute_pause(state, &info.sender),
        ExecuteMsg::Unpause {  } => execute_unpause(state, &info.sender),
        ExecuteMsg::ClaimTreasury {  } => execute_claim_treasury(state, &info.sender),
        ExecuteMsg::SetBufferAndIntervalSeconds { buffer_seconds, interval_seconds } => execute_set_buffer_and_interval_seconds(
            state,
            &info.sender,
            buffer_seconds,
            interval_seconds,
        ),
        ExecuteMsg::SetMinBetAmount { min_bet_amount } => execute_set_min_bet_amount(
            state,
            &info.sender,
            min_bet_amount,
        ),
        ExecuteMsg::SetOperator { operator_address } => execute_set_operator(
            state,
            &info.sender,
            operator_address,
        ),
        ExecuteMsg::SetTreasuryFee { treasury_fee } => execute_set_treasury_fee(
            state,
            &info.sender,
            treasury_fee,
        ),
        ExecuteMsg::SetOracleInfo { oracle_address, btc_price_feed_id } => execute_set_oracle_info(
            state,
            &info.sender,
            oracle_address,
            btc_price_feed_id,
        ),
    }
}

// ---------------------------------------------------------------------------
// Queries: read-only, no state mutation.
// ---------------------------------------------------------------------------
/// How a round is reported to callers.
pub open spec fn spec_round_response(r: Round) -> RoundResponse {
    RoundResponse {
        epoch: r.epoch,
        start_timestamp: r.start_timestamp,
        lock_timestamp: r.lock_timestamp,
        close_timestamp: r.close_timestamp,
        lock_price: r.lock_price,
        close_price: r.close_price,
        total_amount: r.total_amount,
        bull_amount: r.bull_amount,
        bear_amount: r.bear_amount,
        reward_base_amount: r.reward_base_amount,
        reward_amount: r.reward_amount,
        oracle_called: r.oracle_called,
    }
}

/// Reports the round of `epoch`, or that none exists.
pub fn query_round(state: &State, epoch: u64) -> (r: Result<RoundResponse, ContractError>)
    ensures
        match r {
            Ok(resp) => has_round(*state, epoch) && resp == spec_round_response(
                round_at(*state, epoch),
            ),
            Err(e) => !has_round(*state, epoch) && e == (ContractError::RoundNotFound { epoch }),
        },
{
    let len = state.rounds.len();
    if epoch == 0 || epoch > len as u64 {
        return Err(ContractError::RoundNotFound { epoch });
    }
    let round = state.rounds[(epoch - 1) as usize];
    Ok(
        RoundResponse {
            epoch: round.epoch,
            start_timestamp: round.start_timestamp,
            lock_timestamp: round.lock_timestamp,
            close_timestamp: round.close_timestamp,
            lock_price: round.lock_price,
            close_price: round.close_price,
            total_amount: round.total_amount,
            bull_amount: round.bull_amount,
            bear_amount: round.bear_amount,
            reward_base_amount: round.reward_base_amount,
            reward_amount: round.reward_amount,
            oracle_called: round.oracle_called,
        },
    )
}

/// Reports the epoch of the most recently opened round (0 before genesis).
pub fn query_current_epoch(state: &State) -> (r: u64)
    ensures
        r == state.current_epoch,
{
    state.current_epoch
}

/// Where a history page starts: right after the cursor epoch, or at the
/// beginning when the cursor is 0 (the "start" sentinel) or unknown.
pub open spec fn page_start(es: Seq<u64>, cursor: u64) -> int {
    if cursor == 0 {
        0
    } else if es.contains(cursor) {
        (choose|i: int| 0 <= i < es.len() && es[i] == cursor) + 1
    } else {
        0
    }
}

/// Where a history page ends: `size` entries past its start, capped by the
/// history's length.
pub open spec fn page_end(es: Seq<u64>, cursor: u64, size: u64) -> int {
    if page_start(es, cursor) + size <= es.len() {
        page_start(es, cursor) + size
    } else {
        es.len() as int
    }
}

/// What `query_user_rounds` reports: one page of `user`'s history and, when
/// more follows, the cursor to hand back for the next page.
pub open spec fn user_rounds_spec(
    s: State,
    user: Seq<char>,
    cursor: u64,
    size: u64,
    resp: UserRoundsResponse,
) -> bool {
    let es = user_history(s, user);
    &&& resp.epochs@ == es.subrange(page_start(es, cursor), page_end(es, cursor, size))
    &&& resp.next_cursor == (if page_end(es, cursor, size) < es.len() {
        Some(es[page_end(es, cursor, size)])
    } else {
        None::<u64>
    })
}

/// Reports one page of `user`'s betting history, `size` epochs starting right
/// after `cursor` (0 means the beginning), and the cursor for the next page
/// when more follows.
pub fn query_user_rounds(state: &State, user: &String, cursor: u64, size: u64) -> (r:
    UserRoundsResponse)
    requires
        wf(*state),
    ensures
        user_rounds_spec(*state, user@, cursor, size, r),
{
    let row = match find_user(&state.user_rounds, user) {
        Some(ui) => ui,
        None => {
            proof {
                assert(!has_user(*state, user@));
                let es = user_history(*state, user@);
                assert(es.subrange(page_start(es, cursor), page_end(es, cursor, size))
                    =~= Seq::<u64>::empty());
            }
            return UserRoundsResponse { epochs: Vec::new(), next_cursor: None };
        },
    };
    proof {
        assert(has_user(*state, user@));
        let u0 = user_idx(*state, user@);
        assert(state.user_rounds@[u0].user@ == user@);
        assert(u0 == row as int);
    }
    let es = &state.user_rounds[row].epochs;
    let ghost esv = es@;
    proof {
        assert(user_history(*state, user@) == esv);
        assert(distinct_epochs(esv));
    }
    let len = es.len();
    let mut start: usize = 0;
    if cursor != 0 {
        match find_epoch_index(es, cursor) {
            Some(idx) => {
                proof {
                    assert(esv.contains(cursor));
                    let c = choose|i: int| 0 <= i < esv.len() && esv[i] == cursor;
                    assert(esv[c] == cursor);
                    assert(c == idx as int);
                }
                start = idx + 1;
            },
            None => {
                start = 0;
            },
        }
    }
    assert(start == page_start(esv, cursor));
    let end: usize = if size > (len - start) as u64 {
        len
    } else {
        start + (size as usize)
    };
    assert(end == page_end(esv, cursor, size));
    let mut page: Vec<u64> = Vec::new();
    let mut j: usize = start;
    while j < end
        invariant
            start <= j <= end,
            end <= len,
            len == esv.len(),
            es@ == esv,
            page@ == esv.subrange(start as int, j as int),
        decreases end - j,
    {
        page.push(es[j]);
        proof {
            assert(esv.subrange(start as int, j as int + 1) =~= esv.subrange(
                start as int,
                j as int,
            ).push(esv[j as int]));
        }
        j = j + 1;
    }
    let next_cursor = if end < len {
        Some(es[end])
    } else {
        None
    };
    UserRoundsResponse { epochs: page, next_cursor }
}

/// What `query_claimable` reports for a bet of `user` on `epoch`: never an
/// error once the round exists — a failed reward computation reads as "not
/// claimable" because queries must always return a value.
pub open spec fn spec_claimable(s: State, epoch: u64, user: Seq<char>) -> ClaimableResponse {
    let round = round_at(s, epoch);
    if !round.oracle_called {
        ClaimableResponse { is_claimable: false, position: None, amount: None, expected_reward: None }
    } else if !has_bet(s, epoch, user) {
        ClaimableResponse { is_claimable: false, position: None, amount: None, expected_reward: None }
    } else {
        let bet = bet_at(s, epoch, user);
        if bet.claimed {
            ClaimableResponse {
                is_claimable: false,
                position: Some(bet.position),
                amount: Some(bet.amount),
                expected_reward: None,
            }
        } else {
            let rew = if reward_overflows(round, bet) {
                0
            } else {
                spec_reward(round, bet)
            };
            if rew > 0 {
                ClaimableResponse {
                    is_claimable: true,
                    position: Some(bet.position),
                    amount: Some(bet.amount),
                    expected_reward: Some(rew as u128),
                }
            } else {
                ClaimableResponse {
                    is_claimable: false,
                    position: Some(bet.position),
                    amount: Some(bet.amount),
                    expected_reward: None,
                }
            }
        }
    }
}

/// Reports whether `user` could claim `epoch` right now, with the expected
/// reward; replicates the reward computation without mutating anything.
pub fn query_claimable(state: &State, epoch: u64, user: &String) -> (r: Result<
    ClaimableResponse,
    ContractError,
>)
    requires
        wf(*state),
    ensures
        match r {
            Ok(resp) => has_round(*state, epoch) && resp == spec_claimable(*state, epoch, user@),
            Err(e) => !has_round(*state, epoch) && e == (ContractError::RoundNotFound { epoch }),
        },
{
    let len = state.rounds.len();
    if epoch == 0 || epoch > len as u64 {
        return Err(ContractError::RoundNotFound { epoch });
    }
    let round = state.rounds[(epoch - 1) as usize];
    if !round.oracle_called {
        return Ok(
            ClaimableResponse {
                is_claimable: false,
                position: None,
                amount: None,
                expected_reward: None,
            },
        );
    }
    let bet = match find_bet(&state.ledger, epoch, user) {
        Some(k) => {
            proof {
                assert(has_bet(*state, epoch, user@));
                let i0 = bet_idx(*state, epoch, user@);
                assert(bet_key_matches(state.ledger@[i0], epoch, user@));
                assert(i0 == k as int);
            }
            state.ledger[k].bet
        },
        None => {
            return Ok(
                ClaimableResponse {
                    is_claimable: false,
                    position: None,
                    amount: None,
                    expected_reward: None,
                },
            );
        },
    };
    if bet.claimed {
        return Ok(
            ClaimableResponse {
                is_claimable: false,
                position: Some(bet.position),
                amount: Some(bet.amount),
                expected_reward: None,
            },
        );
    }
    let reward = match calculate_reward(&round, &bet) {
        Ok(v) => v,
        Err(_) => 0,
    };
    if reward > 0 {
        Ok(
            ClaimableResponse {
                is_claimable: true,
                position: Some(bet.position),
                amount: Some(bet.amount),
                expected_reward: Some(reward),
            },
        )
    } else {
        Ok(
            ClaimableResponse {
                is_claimable: false,
                position: Some(bet.position),
                amount: Some(bet.amount),
                expected_reward: None,
            },
        )
    }
}

/// What `query_refundable` reports: a stake is refundable exactly when the
/// round resolved as a tie and the bet is still unclaimed.
pub open spec fn spec_refundable(s: State, epoch: u64, user: Seq<char>) -> RefundableResponse {
    if !has_bet(s, epoch, user) {
        RefundableResponse { is_refundable: false, amount: None }
    } else {
        let bet = bet_at(s, epoch, user);
        if bet.claimed {
            RefundableResponse { is_refundable: false, amount: None }
        } else {
            let round = round_at(s, epoch);
            if round.oracle_called && round.lock_price == round.close_price {
                RefundableResponse { is_refundable: true, amount: Some(bet.amount) }
            } else {
                RefundableResponse { is_refundable: false, amount: None }
            }
        }
    }
}

/// Reports whether `user`'s stake in `epoch` is refundable (tie, unclaimed)
/// and for how much.
pub fn query_refundable(state: &State, epoch: u64, user: &String) -> (r: Result<
    RefundableResponse,
    ContractError,
>)
    requires
        wf(*state),
    ensures
        match r {
            Ok(resp) => has_round(*state, epoch) && resp == spec_refundable(*state, epoch, user@),
            Err(e) => !has_round(*state, epoch) && e == (ContractError::RoundNotFound { epoch }),
        },
{
    let len = state.rounds.len();
    if epoch == 0 || epoch > len as u64 {
        return Err(ContractError::RoundNotFound { epoch });
    }
    let round = state.rounds[(epoch - 1) as usize];
    let bet = match find_bet(&state.ledger, epoch, user) {
        Some(k) => {
            proof {
                assert(has_bet(*state, epoch, user@));
                let i0 = bet_idx(*state, epoch, user@);
                assert(bet_key_matches(state.ledger@[i0], epoch, user@));
                assert(i0 == k as int);
            }
            state.ledger[k].bet
        },
        None => {
            return Ok(RefundableResponse { is_refundable: false, amount: None });
        },
    };
    if bet.claimed {
        return Ok(RefundableResponse { is_refundable: false, amount: None });
    }
    if round.oracle_called && round.lock_price == round.close_price {
        Ok(RefundableResponse { is_refundable: true, amount: Some(bet.amount) })
    } else {
        Ok(RefundableResponse { is_refundable: false, amount: None })
    }
}

/// What `query_config` reports: the configuration, plus the paused flag.
pub open spec fn config_spec(s: State, resp: ConfigResponse) -> bool {
    &&& resp.usdc_token == s.config.usdc_token
    &&& resp.admin_address == s.config.admin_address
    &&& resp.operator_address == s.config.operator_address
    &&& resp.interval_seconds == s.config.interval_seconds
    &&& resp.buffer_seconds == s.config.buffer_seconds
    &&& resp.min_bet_amount == s.config.min_bet_amount
    &&& resp.treasury_fee == s.config.treasury_fee
    &&& resp.oracle_address == s.config.oracle_address
    &&& resp.btc_price_feed_id == s.config.btc_price_feed_id
    &&& resp.paused == s.paused
}

/// Reports a snapshot of the configuration and the paused flag.
pub fn query_config(state: &State) -> (r: ConfigResponse)
    ensures
        config_spec(*state, r),
{
    ConfigResponse {
        usdc_token: state.config.usdc_token.clone(),
        admin_address: state.config.admin_address.clone(),
        operator_address: state.config.operator_address.clone(),
        interval_seconds: state.config.interval_seconds,
        buffer_seconds: state.config.buffer_seconds,
        min_bet_amount: state.config.min_bet_amount,
        treasury_fee: state.config.treasury_fee,
        oracle_address: state.config.oracle_address.clone(),
        btc_price_feed_id: state.config.btc_price_feed_id.clone(),
        paused: state.paused,
    }
}

/// Runs one read-only query and hands back its typed answer; the host
/// serializes it. Only a round lookup on an unknown epoch fails.
pub fn query(state: &State, msg: QueryMsg) -> (r: Result<QueryAnswer, ContractError>)
    requires
        wf(*state),
    ensures
        match msg {
            QueryMsg::GetRound { epoch } => (match r {
                Ok(a) => a matches QueryAnswer::Round(resp) && has_round(*state, epoch) && resp
                    == spec_round_response(round_at(*state, epoch)),
                Err(e) => !has_round(*state, epoch) && e == (ContractError::RoundNotFound {
                    epoch,
                }),
            }),
            QueryMsg::GetCurrentEpoch {  } => (match r {
                Ok(a) => a matches QueryAnswer::CurrentEpoch(ep) && ep == state.current_epoch,
                Err(_) => false,
            }),
            QueryMsg::GetUserRounds { user, cursor, size } => (match r {
                Ok(a) => a matches QueryAnswer::UserRounds(resp) && user_rounds_spec(
                    *state,
                    user@,
                    cursor,
                    size,
                    resp,
                ),
                Err(_) => false,
            }),
            QueryMsg::Claimable { epoch, user } => (match r {
                Ok(a) => a matches QueryAnswer::Claimable(resp) && has_round(*state, epoch)
                    && resp == spec_claimable(*state, epoch, user@),
                Err(e) => !has_round(*state, epoch) && e == (ContractError::RoundNotFound {
                    epoch,
                }),
            }),
            QueryMsg::Refundable { epoch, user } => (match r {
                Ok(a) => a matches QueryAnswer::Refundable(resp) && has_round(*state, epoch)
                    && resp == spec_refundable(*state, epoch, user@),
                Err(e) => !has_round(*state, epoch) && e == (ContractError::RoundNotFound {
                    epoch,
                }),
            }),
            QueryMsg::GetConfig {  } => (match r {
                Ok(a) => a matches QueryAnswer::Config(resp) && config_spec(*state, resp),
                Err(_) => false,
            }),
        },
{
    match msg {
        QueryMsg::GetRound { epoch } => match query_round(state, epoch) {
            Ok(resp) => Ok(QueryAnswer::Round(resp)),
            Err(e) => Err(e),
        },
        QueryMsg::GetCurrentEpoch {  } => Ok(QueryAnswer::CurrentEpoch(query_current_epoch(state))),
        QueryMsg::GetUserRounds { user, cursor, size } => Ok(
            QueryAnswer::UserRounds(query_user_rounds(state, &user, cursor, size)),
        ),
        QueryMsg::Claimable { epoch, user } => match query_claimable(state, epoch, &user) {
            Ok(resp) => Ok(QueryAnswer::Claimable(resp)),
            Err(e) => Err(e),
        },
        QueryMsg::Refundable { epoch, user } => match query_refundable(state, epoch, &user) {
            Ok(resp) => Ok(QueryAnswer::Refundable(resp)),
            Err(e) => Err(e),
        },
        QueryMsg::GetConfig {  } => Ok(QueryAnswer::Config(query_config(state))),
    }
}

// ---------------------------------------------------------------------------
// Laws of the reward function.
// ---------------------------------------------------------------------------
/// A tie pays nobody: when the close price equals the lock price, every bet's
/// reward is zero.
pub proof fn lemma_tie_pays_zero(round: Round, bet: BetInfo)
    requires
        round.lock_price == round.close_price,
    ensures
        spec_reward(round, bet) == 0,
        !reward_overflows(round, bet),
{
}

/// Conservation of funds: in a well-formed state — and every operation of the
/// engine both requires and re-establishes well-formedness — every round's
/// pool splits exactly into its bull and bear sides, whatever sequence of
/// bets built it.
pub proof fn lemma_pools_balanced(s: State)
    requires
        wf(s),
    ensures
        forall|i: int|
            0 <= i < s.rounds@.len() ==> (#[trigger] s.rounds@[i]).total_amount == s.rounds@[i].bull_amount
                + s.rounds@[i].bear_amount,
{
}

/// Exactly-once betting, at rest: a well-formed ledger holds at most one bet
/// record per (epoch, participant) — two entries with the same key are the
/// same entry.
pub proof fn lemma_at_most_one_bet(s: State, epoch: u64, user: Seq<char>, i: int, j: int)
    requires
        wf(s),
        0 <= i < s.ledger@.len(),
        0 <= j < s.ledger@.len(),
        bet_key_matches(s.ledger@[i], epoch, user),
        bet_key_matches(s.ledger@[j], epoch, user),
    ensures
        i == j,
{
}

/// Exactly-once betting, in motion: once a bet of `sender` on `epoch` is
/// recorded, a second attempt that passes every earlier check is rejected as
/// already bet, and the state does not change.
pub proof fn lemma_second_bet_fails(
    pre: State,
    post: State,
    now: u64,
    sender: String,
    funds: Seq<Coin>,
    epoch: u64,
    amount: u128,
    position: Position,
    r: Result<Response, ContractError>,
)
    requires
        wf(pre),
        !pre.paused,
        amount >= pre.config.min_bet_amount,
        has_round(pre, epoch),
        now < round_at(pre, epoch).lock_timestamp,
        has_bet(pre, epoch, sender@),
        bet_spec(pre, post, now, sender, funds, epoch, amount, position, r),
    ensures
        r == Err::<Response, ContractError>(ContractError::AlreadyBet),
        post == pre,
{
}

/// A bet on a round whose betting window has closed — the current time has
/// reached its lock timestamp — always fails and changes nothing, whatever
/// the amount; when nothing earlier in the check order rejects it first, the
/// error is precisely "round not bettable".
pub proof fn lemma_bet_after_lock_fails(
    pre: State,
    post: State,
    now: u64,
    sender: String,
    funds: Seq<Coin>,
    epoch: u64,
    amount: u128,
    position: Position,
    r: Result<Response, ContractError>,
)
    requires
        wf(pre),
        has_round(pre, epoch),
        now >= round_at(pre, epoch).lock_timestamp,
        bet_spec(pre, post, now, sender, funds, epoch, amount, position, r),
    ensures
        r is Err,
        post == pre,
        !pre.paused && amount >= pre.config.min_bet_amount ==> r == Err::<
            Response,
            ContractError,
        >(ContractError::RoundNotBettable),
{
}

/// A batch scan that will fail at index `k` fails from wherever it starts at
/// or before `k`.
proof fn lemma_claim_scan_err_at(s: State, user: Seq<char>, epochs: Seq<u64>, i: int, acc: u128, k: int)
    requires
        0 <= i <= k < epochs.len(),
        epoch_claim_err(s, user, epochs[k], epochs.subrange(0, k)) is Some,
    ensures
        claim_scan(s, user, epochs, i, acc) is Err,
    decreases k - i,
{
    if i < k {
        match epoch_claim_err(s, user, epochs[i], epochs.subrange(0, i)) {
            Some(_) => {},
            None => {
                let rew = spec_reward(round_at(s, epochs[i]), bet_at(s, epochs[i], user));
                if acc + rew <= u128::MAX {
                    lemma_claim_scan_err_at(s, user, epochs, i + 1, (acc + rew) as u128, k);
                }
            },
        }
    }
}

/// Exactly-once claiming: a batch that names an epoch whose bet is already
/// claimed always fails — however often it is retried and whatever valid
/// epochs stand beside it in the batch — and nothing changes.
pub proof fn lemma_claimed_epoch_aborts_batch(
    pre: State,
    post: State,
    user: Seq<char>,
    epochs: Seq<u64>,
    k: int,
    r: Result<Response, ContractError>,
)
    requires
        wf(pre),
        0 <= k < epochs.len(),
        has_bet(pre, epochs[k], user),
        bet_at(pre, epochs[k], user).claimed,
        claim_spec(pre, post, user, epochs, r),
    ensures
        r is Err,
        post == pre,
{
    assert(epoch_claim_err(pre, user, epochs[k], epochs.subrange(0, k)) is Some);
    lemma_claim_scan_err_at(pre, user, epochs, 0, 0, k);
}

/// An early tick — before the current round's betting window closes — is a
/// documented no-op: it reports "no action needed", never an error, and
/// leaves the state exactly as it was.
pub proof fn lemma_early_tick_is_noop(
    pre: State,
    post: State,
    now: u64,
    sender: Seq<char>,
    price: Option<i128>,
    r: Result<Response, ContractError>,
)
    requires
        wf(pre),
        sender == pre.config.operator_address@,
        !pre.paused,
        pre.current_epoch > 0,
        now < round_at(pre, pre.current_epoch).lock_timestamp,
        tick_spec(pre, post, now, sender, price, r),
    ensures
        r is Ok,
        post == pre,
        r matches Ok(resp) ==> simple_response(resp, ResponseKind::NoActionNeeded),
{
}

/// Genesis ordering: locking the first round before genesis start always
/// fails and changes nothing; an authorized operator gets precisely "genesis
/// not started".
pub proof fn lemma_genesis_lock_before_start_fails(
    pre: State,
    post: State,
    sender: Seq<char>,
    price: Option<i128>,
    r: Result<Response, ContractError>,
)
    requires
        wf(pre),
        pre.current_epoch == 0,
        genesis_lock_spec(pre, post, sender, price, r),
    ensures
        r is Err,
        post == pre,
        sender == pre.config.operator_address@ && !pre.paused ==> r == Err::<
            Response,
            ContractError,
        >(ContractError::GenesisNotStarted),
{
}

/// Genesis ordering: once genesis start has succeeded, a second genesis start
/// always fails and changes nothing; an authorized operator gets precisely
/// "genesis already started".
pub proof fn lemma_genesis_start_twice_fails(
    pre: State,
    mid: State,
    post: State,
    now1: u64,
    now2: u64,
    sender1: Seq<char>,
    sender2: Seq<char>,
    r1: Result<Response, ContractError>,
    r2: Result<Response, ContractError>,
)
    requires
        wf(pre),
        genesis_start_spec(pre, mid, now1, sender1, r1),
        r1 is Ok,
        genesis_start_spec(mid, post, now2, sender2, r2),
    ensures
        r2 is Err,
        post == mid,
        sender2 == mid.config.operator_address@ && !mid.paused ==> r2 == Err::<
            Response,
            ContractError,
        >(ContractError::GenesisAlreadyStarted),
{
}

/// Pagination at the end of a history: a cursor equal to the last epoch of a
/// participant's history yields an empty page and no next cursor.
pub proof fn lemma_page_after_last_is_empty(
    s: State,
    user: Seq<char>,
    cursor: u64,
    size: u64,
    resp: UserRoundsResponse,
)
    requires
        wf(s),
        user_rounds_spec(s, user, cursor, size, resp),
        user_history(s, user).len() > 0,
        cursor == user_history(s, user).last(),
    ensures
        resp.epochs@ == Seq::<u64>::empty(),
        resp.next_cursor is None,
{
    let es = user_history(s, user);
    assert(has_user(s, user));
    let u0 = user_idx(s, user);
    assert(s.user_rounds@[u0].user@ == user);
    assert(es == s.user_rounds@[u0].epochs@);
    assert(distinct_epochs(es));
    assert(1 <= es[es.len() - 1]);
    assert(cursor != 0);
    assert(es.contains(cursor));
    let c = choose|i: int| 0 <= i < es.len() && es[i] == cursor;
    assert(es[c] == cursor && es[es.len() - 1] == cursor);
    assert(c == es.len() - 1);
    assert(page_start(es, cursor) == es.len());
    assert(page_end(es, cursor, size) == es.len());
    assert(es.subrange(es.len() as int, es.len() as int) =~= Seq::<u64>::empty());
}

/// Rewards are never negative: truncation dust is kept by the contract, never
/// charged to a winner.
pub proof fn lemma_reward_nonnegative(round: Round, bet: BetInfo)
    requires
        !reward_overflows(round, bet),
    ensures
        spec_reward(round, bet) >= 0,
{
    if is_winner(round, bet) && position_amount(round, bet) != 0 && opposing_amount(round, bet)
        != 0 {
        let pool = round.total_amount - round.reward_base_amount;
        let stake = bet.amount as int;
        let side = position_amount(round, bet) as int;
        assert(pool >= 0);
        assert(pool * stake >= 0) by (nonlinear_arith)
            requires
                pool >= 0,
                stake >= 0,
        ;
        assert(pool * stake / side >= 0) by (nonlinear_arith)
            requires
                pool * stake >= 0,
                side > 0,
        ;
    }
}

} // verus!
