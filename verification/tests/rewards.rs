use presage::contract::calculate_reward;
use presage::error::ContractError;
use presage::oracle::{get_deterministic_mock_btc_price_for_testing, get_mock_btc_price};
use presage::state::{BetInfo, Position, Round};

fn round(
    lock_price: i128,
    close_price: i128,
    bull_amount: u128,
    bear_amount: u128,
    reward_base_amount: u128,
) -> Round {
    Round {
        epoch: 1,
        start_timestamp: 1000,
        lock_timestamp: 1240,
        close_timestamp: 1300,
        lock_price,
        close_price,
        total_amount: bull_amount + bear_amount,
        bull_amount,
        bear_amount,
        reward_base_amount,
        reward_amount: 0,
        oracle_called: true,
    }
}

fn bet(position: Position, amount: u128) -> BetInfo {
    BetInfo { position, amount, claimed: false }
}

#[test]
fn tie_pays_zero_to_everyone() {
    // lock = close = 90000: a push, nobody wins.
    let r = round(90000, 90000, 6000, 4000, 500);
    assert_eq!(calculate_reward(&r, &bet(Position::Bull, 3000)).unwrap(), 0);
    assert_eq!(calculate_reward(&r, &bet(Position::Bear, 4000)).unwrap(), 0);
}

#[test]
fn loser_gets_zero() {
    let r = round(90000, 91000, 6000, 4000, 500);
    assert_eq!(calculate_reward(&r, &bet(Position::Bear, 4000)).unwrap(), 0);
    let r = round(90000, 89000, 6000, 4000, 500);
    assert_eq!(calculate_reward(&r, &bet(Position::Bull, 6000)).unwrap(), 0);
}

#[test]
fn one_sided_round_returns_stake_in_full() {
    // Everyone bet bull, bull wins by default: the stake comes back whole,
    // with no fee redistribution since there is nothing to redistribute.
    let r = round(90000, 91000, 1000, 0, 0);
    assert_eq!(calculate_reward(&r, &bet(Position::Bull, 1000)).unwrap(), 1000);
}

#[test]
fn two_sided_round_pays_proportional_share() {
    // total = 10000, fee 5% = 500 skimmed at lock, pool = 9500; a bull bettor
    // holding 3000 of the 6000 bull pool gets floor(9500 * 3000 / 6000).
    let r = round(90000, 91000, 6000, 4000, 500);
    assert_eq!(calculate_reward(&r, &bet(Position::Bull, 3000)).unwrap(), 4750);
    // The other winners split the rest; truncation dust stays behind.
    assert_eq!(calculate_reward(&r, &bet(Position::Bull, 6000)).unwrap(), 9500);
    // A bear bettor, had the price fallen instead.
    let r = round(91000, 90000, 6000, 4000, 500);
    assert_eq!(calculate_reward(&r, &bet(Position::Bear, 1000)).unwrap(), 9500 * 1000 / 4000);
}

#[test]
fn reward_truncates_toward_zero() {
    // pool = 999, stake 1 of a 3-wide side: floor(999 / 3) per unit.
    let r = round(1, 2, 3, 997, 1);
    assert_eq!(calculate_reward(&r, &bet(Position::Bull, 1)).unwrap(), 333);
}

#[test]
fn reward_overflow_is_an_error() {
    // pool = u128::MAX, stake just as large: the product cannot fit.
    let r = round(90000, 91000, u128::MAX - 1, 1, 0);
    let err = calculate_reward(&r, &bet(Position::Bull, u128::MAX - 1)).unwrap_err();
    assert_eq!(err, ContractError::Overflow);
}

#[test]
fn fee_larger_than_pool_is_an_error() {
    // A reward base above the total cannot happen through the engine, but the
    // pure function reports it as an arithmetic failure rather than wrapping.
    let mut r = round(90000, 91000, 6000, 4000, 0);
    r.reward_base_amount = 20000;
    let err = calculate_reward(&r, &bet(Position::Bull, 3000)).unwrap_err();
    assert_eq!(err, ContractError::Overflow);
}

#[test]
fn mock_prices() {
    assert_eq!(get_mock_btc_price(), 90000);
    assert_eq!(get_deterministic_mock_btc_price_for_testing(true), 51000);
    assert_eq!(get_deterministic_mock_btc_price_for_testing(false), 49000);
}
