use presage::contract::{
    execute, execute_bet, execute_claim, execute_claim_treasury, execute_genesis_lock_round,
    execute_genesis_start_round, execute_pause, execute_round, execute_set_buffer_and_interval_seconds,
    execute_set_min_bet_amount, execute_set_operator, execute_set_oracle_info,
    execute_set_treasury_fee, execute_unpause, instantiate,
};
use presage::error::ContractError;
use presage::msg::{Coin, Env, ExecuteMsg, InstantiateMsg, MessageInfo, ResponseKind};
use presage::state::{check_wf, BetEntry, BetInfo, Position, State};

const FEED_ID: &str = "e62df6c8b4a85fe1a67db44dc12de5db330f7ac66b72dc658afedf0f4a415b43";

fn init_msg() -> InstantiateMsg {
    InstantiateMsg {
        admin_address: "admin".to_string(),
        operator_address: "operator".to_string(),
        usdc_token: "usdc".to_string(),
        interval_seconds: 300,
        buffer_seconds: 60,
        min_bet_amount: 100,
        treasury_fee: 500,
        oracle_address: "oracle".to_string(),
        btc_price_feed_id: FEED_ID.to_string(),
    }
}

fn setup() -> State {
    instantiate(init_msg()).expect("valid setup")
}

fn operator() -> String {
    "operator".to_string()
}

fn admin() -> String {
    "admin".to_string()
}

fn info(sender: &str, amount: u128) -> MessageInfo {
    MessageInfo {
        sender: sender.to_string(),
        funds: vec![Coin { denom: "usdc".to_string(), amount }],
    }
}

/// Genesis at t = 1000: round 1 open, lock 1240, close 1300.
fn setup_open_round() -> State {
    let mut state = setup();
    execute_genesis_start_round(&mut state, 1000, &operator()).expect("genesis start");
    state
}

#[test]
fn instantiate_rejects_bad_parameters() {
    let mut msg = init_msg();
    msg.interval_seconds = 0;
    assert_eq!(instantiate(msg).unwrap_err(), ContractError::InvalidInterval);

    let mut msg = init_msg();
    msg.buffer_seconds = 300;
    assert_eq!(instantiate(msg).unwrap_err(), ContractError::InvalidBuffer);

    let mut msg = init_msg();
    msg.min_bet_amount = 0;
    assert_eq!(instantiate(msg).unwrap_err(), ContractError::InvalidMinBetAmount);

    let mut msg = init_msg();
    msg.treasury_fee = 1001;
    assert_eq!(instantiate(msg).unwrap_err(), ContractError::InvalidTreasuryFee);
}

#[test]
fn instantiate_builds_initial_state() {
    let state = setup();
    assert_eq!(state.current_epoch, 0);
    assert_eq!(state.treasury, 0);
    assert!(!state.paused);
    assert!(state.rounds.is_empty());
    assert!(state.ledger.is_empty());
    assert_eq!(state.config.interval_seconds, 300);
    assert_eq!(state.config.buffer_seconds, 60);
}

#[test]
fn genesis_start_opens_round_one() {
    let state = setup_open_round();
    assert_eq!(state.current_epoch, 1);
    assert_eq!(state.rounds.len(), 1);
    let round = &state.rounds[0];
    assert_eq!(round.epoch, 1);
    assert_eq!(round.start_timestamp, 1000);
    assert_eq!(round.lock_timestamp, 1240);
    assert_eq!(round.close_timestamp, 1300);
    assert_eq!(round.total_amount, 0);
    assert!(!round.oracle_called);
}

#[test]
fn genesis_start_twice_fails() {
    let mut state = setup_open_round();
    let err = execute_genesis_start_round(&mut state, 1001, &operator()).unwrap_err();
    assert_eq!(err, ContractError::GenesisAlreadyStarted);
    assert_eq!(state.current_epoch, 1);
}

#[test]
fn genesis_lock_before_start_fails() {
    let mut state = setup();
    let err = execute_genesis_lock_round(&mut state, &operator(), Some(90000)).unwrap_err();
    assert_eq!(err, ContractError::GenesisNotStarted);
}

#[test]
fn genesis_lock_twice_fails() {
    let mut state = setup_open_round();
    execute_bet(&mut state, 1100, &info("alice", 10000), 1, 10000, Position::Bull).unwrap();
    execute_genesis_lock_round(&mut state, &operator(), Some(90000)).unwrap();
    assert_eq!(state.treasury, 500);
    // A second lock would skim the fee from the same pool again.
    let err = execute_genesis_lock_round(&mut state, &operator(), Some(90500)).unwrap_err();
    assert_eq!(err, ContractError::GenesisAlreadyLocked);
    assert_eq!(state.treasury, 500);
    assert_eq!(state.rounds[0].lock_price, 90000);
}

#[test]
fn genesis_operations_are_operator_only() {
    let mut state = setup();
    let err = execute_genesis_start_round(&mut state, 1000, &admin()).unwrap_err();
    assert_eq!(err, ContractError::Unauthorized);
}

#[test]
fn genesis_lock_records_price_and_skims_fee() {
    let mut state = setup_open_round();
    execute_bet(&mut state, 1100, &info("alice", 10000), 1, 10000, Position::Bull).unwrap();
    execute_genesis_lock_round(&mut state, &operator(), Some(90000)).unwrap();
    let round = &state.rounds[0];
    assert_eq!(round.lock_price, 90000);
    // fee = 10000 * 500 / 10000 = 500
    assert_eq!(round.reward_base_amount, 500);
    assert_eq!(state.treasury, 500);
    assert_eq!(state.current_epoch, 1);
}

#[test]
fn bets_accumulate_and_pools_balance() {
    let mut state = setup_open_round();
    execute_bet(&mut state, 1100, &info("alice", 1000), 1, 1000, Position::Bull).unwrap();
    execute_bet(&mut state, 1101, &info("bob", 600), 1, 600, Position::Bear).unwrap();
    execute_bet(&mut state, 1102, &info("carol", 400), 1, 400, Position::Bull).unwrap();
    let round = &state.rounds[0];
    assert_eq!(round.bull_amount, 1400);
    assert_eq!(round.bear_amount, 600);
    assert_eq!(round.total_amount, round.bull_amount + round.bear_amount);
    assert_eq!(state.ledger.len(), 3);
    assert_eq!(state.ledger[0].user, "alice");
    assert_eq!(state.ledger[0].bet.amount, 1000);
    assert!(!state.ledger[0].bet.claimed);
}

#[test]
fn second_bet_on_same_round_fails() {
    let mut state = setup_open_round();
    execute_bet(&mut state, 1100, &info("alice", 1000), 1, 1000, Position::Bull).unwrap();
    let err =
        execute_bet(&mut state, 1101, &info("alice", 500), 1, 500, Position::Bear).unwrap_err();
    assert_eq!(err, ContractError::AlreadyBet);
    assert_eq!(state.ledger.len(), 1);
    assert_eq!(state.rounds[0].total_amount, 1000);
}

#[test]
fn bet_after_lock_time_fails() {
    let mut state = setup_open_round();
    // Exactly at the lock timestamp betting is already closed.
    let err =
        execute_bet(&mut state, 1240, &info("alice", 1000), 1, 1000, Position::Bull).unwrap_err();
    assert_eq!(err, ContractError::RoundNotBettable);
    let err =
        execute_bet(&mut state, 9999, &info("alice", 1000), 1, 1000, Position::Bull).unwrap_err();
    assert_eq!(err, ContractError::RoundNotBettable);
}

#[test]
fn bet_validation_errors() {
    let mut state = setup_open_round();
    // Below the minimum stake.
    let err = execute_bet(&mut state, 1100, &info("alice", 99), 1, 99, Position::Bull).unwrap_err();
    assert_eq!(err, ContractError::BetTooSmall);
    // No round for the epoch.
    let err =
        execute_bet(&mut state, 1100, &info("alice", 1000), 7, 1000, Position::Bull).unwrap_err();
    assert_eq!(err, ContractError::RoundNotFound { epoch: 7 });
    // Funds must match the stake exactly.
    let err =
        execute_bet(&mut state, 1100, &info("alice", 999), 1, 1000, Position::Bull).unwrap_err();
    assert_eq!(err, ContractError::InvalidBetFunds);
    // Funds in the wrong token count as zero.
    let wrong = MessageInfo {
        sender: "alice".to_string(),
        funds: vec![Coin { denom: "other".to_string(), amount: 1000 }],
    };
    let err = execute_bet(&mut state, 1100, &wrong, 1, 1000, Position::Bull).unwrap_err();
    assert_eq!(err, ContractError::InvalidBetFunds);
}

#[test]
fn bet_overflow_fails_loudly() {
    let mut state = setup_open_round();
    execute_bet(&mut state, 1100, &info("alice", u128::MAX), 1, u128::MAX, Position::Bull)
        .unwrap();
    let err = execute_bet(&mut state, 1101, &info("bob", u128::MAX), 1, u128::MAX, Position::Bear)
        .unwrap_err();
    assert_eq!(err, ContractError::Overflow);
    assert_eq!(state.rounds[0].total_amount, u128::MAX);
}

#[test]
fn tick_before_lock_is_no_op() {
    let mut state = setup_open_round();
    let resp = execute_round(&mut state, 1239, &operator(), None).unwrap();
    assert_eq!(resp.kind, ResponseKind::NoActionNeeded);
    assert_eq!(state.current_epoch, 1);
    assert_eq!(state.rounds.len(), 1);
    assert_eq!(state.rounds[0].lock_price, 0);
}

#[test]
fn tick_at_lock_time_locks_and_opens_next() {
    let mut state = setup_open_round();
    execute_bet(&mut state, 1100, &info("alice", 10000), 1, 10000, Position::Bull).unwrap();
    let resp = execute_round(&mut state, 1240, &operator(), Some(90000)).unwrap();
    assert_eq!(resp.kind, ResponseKind::StartRound);
    assert_eq!(state.current_epoch, 2);
    assert_eq!(state.rounds.len(), 2);
    let locked = &state.rounds[0];
    assert_eq!(locked.lock_price, 90000);
    assert_eq!(locked.reward_base_amount, 500);
    assert!(!locked.oracle_called);
    let opened = &state.rounds[1];
    assert_eq!(opened.epoch, 2);
    assert_eq!(opened.start_timestamp, 1240);
    assert_eq!(opened.lock_timestamp, 1480);
    assert_eq!(opened.close_timestamp, 1540);
    assert_eq!(state.treasury, 500);
}

#[test]
fn tick_at_close_time_resolves_and_opens_locked_round() {
    let mut state = setup_open_round();
    execute_genesis_lock_round(&mut state, &operator(), Some(90000)).unwrap();
    let resp = execute_round(&mut state, 1300, &operator(), Some(91000)).unwrap();
    assert_eq!(resp.kind, ResponseKind::LockRound);
    assert_eq!(state.current_epoch, 2);
    let resolved = &state.rounds[0];
    assert_eq!(resolved.close_price, 91000);
    assert!(resolved.oracle_called);
    let fresh = &state.rounds[1];
    assert_eq!(fresh.epoch, 2);
    assert_eq!(fresh.start_timestamp, 1300);
    assert_eq!(fresh.lock_price, 91000);
    assert!(!fresh.oracle_called);
}

#[test]
fn tick_requires_oracle_when_due() {
    let mut state = setup_open_round();
    let err = execute_round(&mut state, 1240, &operator(), None).unwrap_err();
    assert_eq!(err, ContractError::OracleError);
    assert_eq!(state.current_epoch, 1);
    assert_eq!(state.rounds.len(), 1);
}

#[test]
fn tick_gating_errors() {
    let mut state = setup();
    let err = execute_round(&mut state, 1240, &operator(), Some(90000)).unwrap_err();
    assert_eq!(err, ContractError::GenesisNotStarted);
    let err = execute_round(&mut state, 1240, &admin(), Some(90000)).unwrap_err();
    assert_eq!(err, ContractError::Unauthorized);
}

/// Resolves round 1 with the given prices; leaves round 2 open. Bets must
/// already be placed.
fn resolve_round_one(state: &mut State, lock_price: i128, close_price: i128) {
    execute_genesis_lock_round(state, &operator(), Some(lock_price)).unwrap();
    execute_round(state, 1300, &operator(), Some(close_price)).unwrap();
}

#[test]
fn claim_pays_winner_and_marks_claimed() {
    let mut state = setup_open_round();
    execute_bet(&mut state, 1100, &info("alice", 3000), 1, 3000, Position::Bull).unwrap();
    execute_bet(&mut state, 1101, &info("bob", 3000), 1, 3000, Position::Bull).unwrap();
    execute_bet(&mut state, 1102, &info("carol", 4000), 1, 4000, Position::Bear).unwrap();
    resolve_round_one(&mut state, 90000, 91000);

    let resp = execute_claim(&mut state, &"alice".to_string(), &vec![1]).unwrap();
    assert_eq!(resp.kind, ResponseKind::Claim);
    assert_eq!(resp.transfers.len(), 1);
    assert_eq!(resp.transfers[0].recipient, "alice");
    // fee = 10000 * 5% = 500; pool = 9500; alice holds 3000 of the 6000 bull pool.
    assert_eq!(resp.transfers[0].amount, 9500 * 3000 / 6000);
    assert_eq!(resp.claim_events.len(), 1);
    assert_eq!(resp.claim_events[0].epoch, 1);
    assert_eq!(resp.claim_events[0].reward, 4750);
    assert!(state.ledger.iter().any(|e| e.user == "alice" && e.bet.claimed));
    assert!(state.ledger.iter().any(|e| e.user == "bob" && !e.bet.claimed));
}

#[test]
fn claim_twice_fails_even_in_a_batch() {
    let mut state = setup_open_round();
    execute_bet(&mut state, 1100, &info("alice", 1000), 1, 1000, Position::Bull).unwrap();
    resolve_round_one(&mut state, 90000, 91000);
    execute_claim(&mut state, &"alice".to_string(), &vec![1]).unwrap();

    let err = execute_claim(&mut state, &"alice".to_string(), &vec![1]).unwrap_err();
    assert_eq!(err, ContractError::AlreadyClaimed { epoch: 1 });

    // Betting on round 2 and resolving it gives a second valid epoch; batching
    // the claimed one with it still aborts the whole batch.
    execute_bet(&mut state, 1350, &info("alice", 1000), 2, 1000, Position::Bull).unwrap();
    execute_round(&mut state, 1600, &operator(), Some(95000)).unwrap();
    let err = execute_claim(&mut state, &"alice".to_string(), &vec![2, 1]).unwrap_err();
    assert_eq!(err, ContractError::AlreadyClaimed { epoch: 1 });
    // The batch left epoch 2 unclaimed.
    assert!(state.ledger.iter().any(|e| e.epoch == 2 && e.user == "alice" && !e.bet.claimed));
    // A repeated epoch within one batch also counts as already claimed.
    let err = execute_claim(&mut state, &"alice".to_string(), &vec![2, 2]).unwrap_err();
    assert_eq!(err, ContractError::AlreadyClaimed { epoch: 2 });
    // Alone, epoch 2 settles fine and the batch emits one summed transfer.
    let resp = execute_claim(&mut state, &"alice".to_string(), &vec![2]).unwrap();
    assert_eq!(resp.transfers[0].amount, 1000);
}

#[test]
fn claim_error_cases() {
    let mut state = setup_open_round();
    execute_bet(&mut state, 1100, &info("alice", 1000), 1, 1000, Position::Bull).unwrap();
    execute_bet(&mut state, 1101, &info("bob", 1000), 1, 1000, Position::Bear).unwrap();

    let err = execute_claim(&mut state, &"alice".to_string(), &vec![]).unwrap_err();
    assert_eq!(err, ContractError::EmptyEpochs);

    let err = execute_claim(&mut state, &"alice".to_string(), &vec![1]).unwrap_err();
    assert_eq!(err, ContractError::RoundNotEnded { epoch: 1 });

    let err = execute_claim(&mut state, &"alice".to_string(), &vec![9]).unwrap_err();
    assert_eq!(err, ContractError::RoundNotFound { epoch: 9 });

    resolve_round_one(&mut state, 90000, 91000);

    let err = execute_claim(&mut state, &"carol".to_string(), &vec![1]).unwrap_err();
    assert_eq!(err, ContractError::NoBetRecord { epoch: 1 });

    // Bob bet bear and the price rose: not a winner.
    let err = execute_claim(&mut state, &"bob".to_string(), &vec![1]).unwrap_err();
    assert_eq!(err, ContractError::NotWinner { epoch: 1 });
}

#[test]
fn treasury_withdrawal() {
    let mut state = setup_open_round();
    execute_bet(&mut state, 1100, &info("alice", 10000), 1, 10000, Position::Bull).unwrap();
    execute_genesis_lock_round(&mut state, &operator(), Some(90000)).unwrap();
    assert_eq!(state.treasury, 500);

    let err = execute_claim_treasury(&mut state, &operator()).unwrap_err();
    assert_eq!(err, ContractError::Unauthorized);

    let resp = execute_claim_treasury(&mut state, &admin()).unwrap();
    assert_eq!(resp.kind, ResponseKind::ClaimTreasury);
    assert_eq!(resp.transfers.len(), 1);
    assert_eq!(resp.transfers[0].recipient, "admin");
    assert_eq!(resp.transfers[0].amount, 500);
    assert_eq!(state.treasury, 0);

    let err = execute_claim_treasury(&mut state, &admin()).unwrap_err();
    assert_eq!(err, ContractError::NoTreasury);
}

#[test]
fn pause_gates_mutations() {
    let mut state = setup_open_round();
    let err = execute_pause(&mut state, &operator()).unwrap_err();
    assert_eq!(err, ContractError::Unauthorized);

    execute_pause(&mut state, &admin()).unwrap();
    assert!(state.paused);
    let err = execute_pause(&mut state, &admin()).unwrap_err();
    assert_eq!(err, ContractError::AlreadyPaused);

    let err =
        execute_bet(&mut state, 1100, &info("alice", 1000), 1, 1000, Position::Bull).unwrap_err();
    assert_eq!(err, ContractError::Paused);
    let err = execute_claim(&mut state, &"alice".to_string(), &vec![1]).unwrap_err();
    assert_eq!(err, ContractError::Paused);
    let err = execute_round(&mut state, 1240, &operator(), Some(90000)).unwrap_err();
    assert_eq!(err, ContractError::Paused);
    let err = execute_genesis_lock_round(&mut state, &operator(), Some(90000)).unwrap_err();
    assert_eq!(err, ContractError::Paused);

    execute_unpause(&mut state, &admin()).unwrap();
    assert!(!state.paused);
    let err = execute_unpause(&mut state, &admin()).unwrap_err();
    assert_eq!(err, ContractError::AlreadyUnpaused);
}

#[test]
fn settings_updates() {
    let mut state = setup();

    let err =
        execute_set_buffer_and_interval_seconds(&mut state, &admin(), 100, 0).unwrap_err();
    assert_eq!(err, ContractError::InvalidInterval);
    let err =
        execute_set_buffer_and_interval_seconds(&mut state, &admin(), 600, 600).unwrap_err();
    assert_eq!(err, ContractError::InvalidBuffer);
    execute_set_buffer_and_interval_seconds(&mut state, &admin(), 120, 600).unwrap();
    assert_eq!(state.config.interval_seconds, 600);
    assert_eq!(state.config.buffer_seconds, 120);

    let err = execute_set_min_bet_amount(&mut state, &admin(), 0).unwrap_err();
    assert_eq!(err, ContractError::InvalidMinBetAmount);
    execute_set_min_bet_amount(&mut state, &admin(), 250).unwrap();
    assert_eq!(state.config.min_bet_amount, 250);

    let err = execute_set_treasury_fee(&mut state, &admin(), 1001).unwrap_err();
    assert_eq!(err, ContractError::InvalidTreasuryFee);
    execute_set_treasury_fee(&mut state, &admin(), 300).unwrap();
    assert_eq!(state.config.treasury_fee, 300);

    let err = execute_set_operator(&mut state, &operator(), "mallory".to_string()).unwrap_err();
    assert_eq!(err, ContractError::Unauthorized);
    execute_set_operator(&mut state, &admin(), "op2".to_string()).unwrap();
    assert_eq!(state.config.operator_address, "op2");
    let err = execute_genesis_start_round(&mut state, 1000, &operator()).unwrap_err();
    assert_eq!(err, ContractError::Unauthorized);
    execute_genesis_start_round(&mut state, 1000, &"op2".to_string()).unwrap();
}

#[test]
fn oracle_info_requires_well_formed_feed_id() {
    let mut state = setup();
    // Too short.
    let err = execute_set_oracle_info(
        &mut state,
        &admin(),
        "oracle2".to_string(),
        "abc123".to_string(),
    )
    .unwrap_err();
    assert_eq!(err, ContractError::OracleError);
    // Right length, but not hex.
    let bad = "zz".repeat(32);
    let err =
        execute_set_oracle_info(&mut state, &admin(), "oracle2".to_string(), bad).unwrap_err();
    assert_eq!(err, ContractError::OracleError);
    // 64 hex digits pass.
    execute_set_oracle_info(&mut state, &admin(), "oracle2".to_string(), FEED_ID.to_string())
        .unwrap();
    assert_eq!(state.config.oracle_address, "oracle2");
    assert_eq!(state.config.btc_price_feed_id, FEED_ID);
}

#[test]
fn well_formedness_check_accepts_engine_states_only() {
    let mut state = setup_open_round();
    execute_bet(&mut state, 1100, &info("alice", 1000), 1, 1000, Position::Bull).unwrap();
    assert!(check_wf(&state));

    // A duplicate ledger key is exactly what the engine can never produce.
    let mut corrupted = setup_open_round();
    execute_bet(&mut corrupted, 1100, &info("alice", 1000), 1, 1000, Position::Bull).unwrap();
    let dup = BetEntry {
        epoch: 1,
        user: "alice".to_string(),
        bet: BetInfo { position: Position::Bear, amount: 500, claimed: false },
    };
    corrupted.ledger.push(dup);
    assert!(!check_wf(&corrupted));

    // An unbalanced pool breaks conservation.
    let mut unbalanced = setup_open_round();
    unbalanced.rounds[0].total_amount = 7;
    assert!(!check_wf(&unbalanced));

    // A round counter that disagrees with the round table.
    let mut skewed = setup_open_round();
    skewed.current_epoch = 5;
    assert!(!check_wf(&skewed));
}

#[test]
fn execute_dispatches_messages() {
    let mut state = setup();
    let env = Env { now: 1000, oracle_price: Some(90000) };
    let op_info = MessageInfo { sender: "operator".to_string(), funds: vec![] };
    execute(&mut state, &env, &op_info, ExecuteMsg::GenesisStartRound {}).unwrap();
    assert_eq!(state.current_epoch, 1);

    let alice = info("alice", 1000);
    let env2 = Env { now: 1100, oracle_price: None };
    execute(&mut state, &env2, &alice, ExecuteMsg::BetBull { epoch: 1, amount: 1000 }).unwrap();
    assert_eq!(state.rounds[0].bull_amount, 1000);

    let admin_info = MessageInfo { sender: "admin".to_string(), funds: vec![] };
    execute(&mut state, &env2, &admin_info, ExecuteMsg::Pause {}).unwrap();
    assert!(state.paused);
    execute(&mut state, &env2, &admin_info, ExecuteMsg::Unpause {}).unwrap();

    let env3 = Env { now: 1300, oracle_price: Some(92000) };
    let resp = execute(&mut state, &env3, &op_info, ExecuteMsg::ExecuteRound {}).unwrap();
    assert_eq!(resp.kind, ResponseKind::LockRound);
    assert_eq!(state.current_epoch, 2);
}
