//! Burn audit events and the standalone burn-amount formula.

use market_system::AccountId;
use market_system::burn_events::{
    calculate_burn_amount, process_bet_burn, process_market_creation_burn, process_reward_burn,
    BurnType, ErrorCode,
};

#[test]
fn burn_amount_is_the_basis_point_share() {
    assert_eq!(calculate_burn_amount(10_000, 250), Ok(250));
    assert_eq!(calculate_burn_amount(333, 150), Ok(4));
    assert_eq!(calculate_burn_amount(0, 1_000), Ok(0));
    assert_eq!(
        calculate_burn_amount(u64::MAX, 2),
        Err(ErrorCode::CalculationError)
    );
}

#[test]
fn bet_burn_event_carries_the_option() {
    let event = process_bet_burn(
        AccountId(7),
        AccountId(100),
        "yes".to_string(),
        2_000,
        50,
        1_234,
    );
    assert_eq!(event.burn_type, BurnType::PredictionBet);
    assert_eq!(event.user, AccountId(7));
    assert_eq!(event.market, AccountId(100));
    assert_eq!(event.amount, 2_000);
    assert_eq!(event.burn_amount, 50);
    assert_eq!(event.prediction_option, Some("yes".to_string()));
    assert_eq!(event.timestamp, 1_234);
    assert_eq!(event.transaction_signature, [0u8; 64]);
}

#[test]
fn reward_and_creation_burn_events_carry_no_option() {
    let event = process_reward_burn(AccountId(7), AccountId(100), 333, 4, 1_234);
    assert_eq!(event.burn_type, BurnType::RewardClaim);
    assert_eq!(event.amount, 333);
    assert_eq!(event.burn_amount, 4);
    assert_eq!(event.prediction_option, None);

    let event = process_market_creation_burn(AccountId(5), AccountId(100), 100_000_000, 500, 99);
    assert_eq!(event.burn_type, BurnType::MarketCreation);
    assert_eq!(event.user, AccountId(5));
    assert_eq!(event.amount, 100_000_000);
    assert_eq!(event.prediction_option, None);
    assert_eq!(event.timestamp, 99);
}
