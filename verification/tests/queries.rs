use presage::contract::{
    execute_bet, execute_claim, execute_genesis_lock_round, execute_genesis_start_round,
    execute_round, instantiate, query, query_claimable, query_config, query_current_epoch,
    query_refundable, query_round, query_user_rounds,
};
use presage::error::ContractError;
use presage::msg::{Coin, InstantiateMsg, MessageInfo, QueryAnswer, QueryMsg};
use presage::state::{Position, State};

const FEED_ID: &str = "e62df6c8b4a85fe1a67db44dc12de5db330f7ac66b72dc658afedf0f4a415b43";

fn setup_open_round() -> State {
    let msg = InstantiateMsg {
        admin_address: "admin".to_string(),
        operator_address: "operator".to_string(),
        usdc_token: "usdc".to_string(),
        interval_seconds: 300,
        buffer_seconds: 60,
        min_bet_amount: 100,
        treasury_fee: 500,
        oracle_address: "oracle".to_string(),
        btc_price_feed_id: FEED_ID.to_string(),
    };
    let mut state = instantiate(msg).expect("valid setup");
    execute_genesis_start_round(&mut state, 1000, &"operator".to_string()).unwrap();
    state
}

fn info(sender: &str, amount: u128) -> MessageInfo {
    MessageInfo {
        sender: sender.to_string(),
        funds: vec![Coin { denom: "usdc".to_string(), amount }],
    }
}

fn operator() -> String {
    "operator".to_string()
}

/// Locks round 1 at `lock`, resolves it at `close`, leaving round 2 open.
fn resolve_round_one(state: &mut State, lock: i128, close: i128) {
    execute_genesis_lock_round(state, &operator(), Some(lock)).unwrap();
    execute_round(state, 1300, &operator(), Some(close)).unwrap();
}

/// Advances one full round: a tick at the current round's close time resolves
/// it and opens (and locks) the next.
fn advance_round(state: &mut State, price: i128) {
    let close = state.rounds[state.current_epoch as usize - 1].close_timestamp;
    execute_round(state, close, &operator(), Some(price)).unwrap();
}

#[test]
fn round_lookup() {
    let state = setup_open_round();
    let resp = query_round(&state, 1).unwrap();
    assert_eq!(resp.epoch, 1);
    assert_eq!(resp.start_timestamp, 1000);
    assert_eq!(resp.lock_timestamp, 1240);
    assert_eq!(resp.close_timestamp, 1300);
    assert!(!resp.oracle_called);
    let err = query_round(&state, 2).unwrap_err();
    assert_eq!(err, ContractError::RoundNotFound { epoch: 2 });
    let err = query_round(&state, 0).unwrap_err();
    assert_eq!(err, ContractError::RoundNotFound { epoch: 0 });
}

#[test]
fn current_epoch_lookup() {
    let mut state = setup_open_round();
    assert_eq!(query_current_epoch(&state), 1);
    resolve_round_one(&mut state, 90000, 91000);
    assert_eq!(query_current_epoch(&state), 2);
}

#[test]
fn config_snapshot_includes_paused_flag() {
    let state = setup_open_round();
    let resp = query_config(&state);
    assert_eq!(resp.usdc_token, "usdc");
    assert_eq!(resp.admin_address, "admin");
    assert_eq!(resp.operator_address, "operator");
    assert_eq!(resp.interval_seconds, 300);
    assert_eq!(resp.buffer_seconds, 60);
    assert_eq!(resp.min_bet_amount, 100);
    assert_eq!(resp.treasury_fee, 500);
    assert_eq!(resp.oracle_address, "oracle");
    assert_eq!(resp.btc_price_feed_id, FEED_ID);
    assert!(!resp.paused);
}

#[test]
fn claimable_reflects_round_and_bet_state() {
    let mut state = setup_open_round();
    execute_bet(&mut state, 1100, &info("alice", 3000), 1, 3000, Position::Bull).unwrap();
    execute_bet(&mut state, 1101, &info("bob", 4000), 1, 4000, Position::Bear).unwrap();

    // Unresolved round: not claimable, nothing reported.
    let resp = query_claimable(&state, 1, &"alice".to_string()).unwrap();
    assert!(!resp.is_claimable);
    assert_eq!(resp.position, None);

    resolve_round_one(&mut state, 90000, 91000);

    // Winner: claimable with the expected reward.
    let resp = query_claimable(&state, 1, &"alice".to_string()).unwrap();
    assert!(resp.is_claimable);
    assert_eq!(resp.position, Some(Position::Bull));
    assert_eq!(resp.amount, Some(3000));
    // total 7000, fee 350, pool 6650, alice holds the whole 3000 bull side.
    assert_eq!(resp.expected_reward, Some(6650));

    // Loser: reported but not claimable.
    let resp = query_claimable(&state, 1, &"bob".to_string()).unwrap();
    assert!(!resp.is_claimable);
    assert_eq!(resp.position, Some(Position::Bear));
    assert_eq!(resp.amount, Some(4000));
    assert_eq!(resp.expected_reward, None);

    // No bet: not claimable.
    let resp = query_claimable(&state, 1, &"carol".to_string()).unwrap();
    assert!(!resp.is_claimable);
    assert_eq!(resp.amount, None);

    // Unknown round: an error, queries only swallow reward failures.
    let err = query_claimable(&state, 9, &"alice".to_string()).unwrap_err();
    assert_eq!(err, ContractError::RoundNotFound { epoch: 9 });

    // After claiming: no longer claimable, but the bet is still reported.
    execute_claim(&mut state, &"alice".to_string(), &vec![1]).unwrap();
    let resp = query_claimable(&state, 1, &"alice".to_string()).unwrap();
    assert!(!resp.is_claimable);
    assert_eq!(resp.amount, Some(3000));
    assert_eq!(resp.expected_reward, None);
}

#[test]
fn refundable_only_on_unclaimed_tie() {
    let mut state = setup_open_round();
    execute_bet(&mut state, 1100, &info("alice", 3000), 1, 3000, Position::Bull).unwrap();

    // Not resolved yet: not refundable.
    let resp = query_refundable(&state, 1, &"alice".to_string()).unwrap();
    assert!(!resp.is_refundable);
    assert_eq!(resp.amount, None);

    // Resolved as a tie: the stake is refundable.
    resolve_round_one(&mut state, 90000, 90000);
    let resp = query_refundable(&state, 1, &"alice".to_string()).unwrap();
    assert!(resp.is_refundable);
    assert_eq!(resp.amount, Some(3000));

    // No bet record: not refundable.
    let resp = query_refundable(&state, 1, &"bob".to_string()).unwrap();
    assert!(!resp.is_refundable);

    let err = query_refundable(&state, 9, &"alice".to_string()).unwrap_err();
    assert_eq!(err, ContractError::RoundNotFound { epoch: 9 });
}

#[test]
fn refundable_false_on_decided_round() {
    let mut state = setup_open_round();
    execute_bet(&mut state, 1100, &info("alice", 3000), 1, 3000, Position::Bull).unwrap();
    resolve_round_one(&mut state, 90000, 91000);
    let resp = query_refundable(&state, 1, &"alice".to_string()).unwrap();
    assert!(!resp.is_refundable);
}

#[test]
fn user_rounds_pagination() {
    let mut state = setup_open_round();
    let alice = "alice".to_string();
    // Alice bets in rounds 1, 2 and 3.
    execute_bet(&mut state, 1100, &info("alice", 1000), 1, 1000, Position::Bull).unwrap();
    advance_round(&mut state, 90000);
    let r2 = state.rounds[1].clone();
    execute_bet(&mut state, r2.start_timestamp + 1, &info("alice", 1000), 2, 1000, Position::Bull)
        .unwrap();
    advance_round(&mut state, 90000);
    let r3 = state.rounds[2].clone();
    execute_bet(&mut state, r3.start_timestamp + 1, &info("alice", 1000), 3, 1000, Position::Bear)
        .unwrap();

    // From the start, two at a time.
    let page = query_user_rounds(&state, &alice, 0, 2);
    assert_eq!(page.epochs, vec![1, 2]);
    assert_eq!(page.next_cursor, Some(3));

    // Continuing from a cursor resumes right after it.
    let page = query_user_rounds(&state, &alice, 2, 2);
    assert_eq!(page.epochs, vec![3]);
    assert_eq!(page.next_cursor, None);

    // A cursor equal to the last epoch yields an empty page and no cursor.
    let page = query_user_rounds(&state, &alice, 3, 2);
    assert_eq!(page.epochs, Vec::<u64>::new());
    assert_eq!(page.next_cursor, None);

    // An unknown cursor restarts from the beginning.
    let page = query_user_rounds(&state, &alice, 77, 10);
    assert_eq!(page.epochs, vec![1, 2, 3]);
    assert_eq!(page.next_cursor, None);

    // A participant with no history gets an empty page.
    let page = query_user_rounds(&state, &"bob".to_string(), 0, 10);
    assert_eq!(page.epochs, Vec::<u64>::new());
    assert_eq!(page.next_cursor, None);

    // A zero-sized page still reports the next cursor.
    let page = query_user_rounds(&state, &alice, 0, 0);
    assert_eq!(page.epochs, Vec::<u64>::new());
    assert_eq!(page.next_cursor, Some(1));
}

#[test]
fn query_dispatches_messages() {
    let mut state = setup_open_round();
    execute_bet(&mut state, 1100, &info("alice", 3000), 1, 3000, Position::Bull).unwrap();

    match query(&state, QueryMsg::GetCurrentEpoch {}).unwrap() {
        QueryAnswer::CurrentEpoch(ep) => assert_eq!(ep, 1),
        _ => panic!("wrong answer variant"),
    }
    match query(&state, QueryMsg::GetRound { epoch: 1 }).unwrap() {
        QueryAnswer::Round(r) => assert_eq!(r.total_amount, 3000),
        _ => panic!("wrong answer variant"),
    }
    match query(
        &state,
        QueryMsg::GetUserRounds { user: "alice".to_string(), cursor: 0, size: 10 },
    )
    .unwrap()
    {
        QueryAnswer::UserRounds(r) => assert_eq!(r.epochs, vec![1]),
        _ => panic!("wrong answer variant"),
    }
    match query(&state, QueryMsg::Claimable { epoch: 1, user: "alice".to_string() }).unwrap() {
        QueryAnswer::Claimable(r) => assert!(!r.is_claimable),
        _ => panic!("wrong answer variant"),
    }
    match query(&state, QueryMsg::Refundable { epoch: 1, user: "alice".to_string() }).unwrap() {
        QueryAnswer::Refundable(r) => assert!(!r.is_refundable),
        _ => panic!("wrong answer variant"),
    }
    match query(&state, QueryMsg::GetConfig {}).unwrap() {
        QueryAnswer::Config(c) => assert_eq!(c.operator_address, "operator"),
        _ => panic!("wrong answer variant"),
    }
    let err = query(&state, QueryMsg::GetRound { epoch: 5 }).unwrap_err();
    assert_eq!(err, ContractError::RoundNotFound { epoch: 5 });
}
