//! Security-focused checks: index bounds, bet limits, pool caps,
//! division by zero, overflow, rate caps, duration limits, double
//! claims, authority gates and the re-entry lock.

use market_system::AccountId;
use market_system::access_control::{add_market_creator, initialize_access_control};
use market_system::access_control::AccessControlError;
use market_system::betting::{place_prediction, settle_prediction};
use market_system::claims::{claim_reward, settle_claim};
use market_system::market::{
    Market, MarketStatus, Prediction, PredictionMarketError, ReentrancyGuard, create_market,
};
use market_system::platform::PlatformState;
use market_system::resolution::{ResolutionProposal, resolve_market};
use market_system::security_checks::{
    ErrorCode, MAX_BET_AMOUNT, MAX_FEE_RATE, MAX_TOTAL_POOL_SIZE, safe_add, safe_div, safe_mul,
    safe_sub, validate_bet_amount, validate_fee_rate, validate_market_duration,
    validate_option_index, validate_pool_addition, validate_string_length,
};

fn platform(paused: bool) -> PlatformState {
    PlatformState {
        authority: AccountId(1),
        token_mint: AccountId(2),
        treasury: AccountId(3),
        bet_burn_rate: 250,
        claim_burn_rate: 150,
        platform_fee_rate: 100,
        total_burned: 0,
        total_volume: 0,
        is_paused: paused,
        resolution_committee: vec![AccountId(10), AccountId(11)],
    }
}

fn active_market(pools: Vec<u64>, total: u64) -> Market {
    Market {
        key: AccountId(100),
        creator: AccountId(5),
        question: "Will it rain tomorrow?".to_string(),
        options: vec!["yes".to_string(), "no".to_string()],
        category: "weather".to_string(),
        resolution_date: 1_000_000,
        status: MarketStatus::Active,
        pools,
        total_pool: total,
        creator_stake: 100_000_000,
        winning_option: None,
        is_paused: false,
        reentrancy_guard: ReentrancyGuard { entered: false },
    }
}

fn fresh_prediction(user: AccountId, market: AccountId) -> Prediction {
    Prediction { user, market, option_index: 0, net_amount: 0, claimed: false }
}

#[test]
fn test_option_index_bounds() {
    assert!(validate_option_index(0, 3).is_ok());
    assert!(validate_option_index(2, 3).is_ok());
    assert_eq!(validate_option_index(3, 3), Err(ErrorCode::InvalidOptionIndex));

    let mut market = active_market(vec![0, 0], 0);
    let mut prediction = fresh_prediction(AccountId(7), market.key);
    let ps = platform(false);
    let r = place_prediction(&mut market, &ps, &mut prediction, AccountId(7), 2, 1_000, 10, 500);
    assert_eq!(r, Err(PredictionMarketError::InvalidOptionIndex));
    assert_eq!(market.total_pool, 0);
}

#[test]
fn test_bet_amount_limits() {
    assert_eq!(validate_bet_amount(5, 10), Err(ErrorCode::BetTooSmall));
    assert_eq!(validate_bet_amount(MAX_BET_AMOUNT + 1, 10), Err(ErrorCode::BetTooLarge));
    assert!(validate_bet_amount(10, 10).is_ok());
    assert!(validate_bet_amount(MAX_BET_AMOUNT, 10).is_ok());

    let mut market = active_market(vec![0, 0], 0);
    let mut prediction = fresh_prediction(AccountId(7), market.key);
    let ps = platform(false);
    let r = place_prediction(&mut market, &ps, &mut prediction, AccountId(7), 0, 5, 10, 500);
    assert_eq!(r, Err(PredictionMarketError::BetTooSmall));
    let r = place_prediction(
        &mut market,
        &ps,
        &mut prediction,
        AccountId(7),
        0,
        MAX_BET_AMOUNT + 1,
        10,
        500,
    );
    assert_eq!(r, Err(PredictionMarketError::BetTooLarge));
}

#[test]
fn test_pool_overflow_protection() {
    assert!(validate_pool_addition(MAX_TOTAL_POOL_SIZE - 1, 1).is_ok());
    assert_eq!(
        validate_pool_addition(MAX_TOTAL_POOL_SIZE, 1),
        Err(ErrorCode::PoolOverflow)
    );
    assert_eq!(
        validate_pool_addition(u64::MAX, 1),
        Err(ErrorCode::CalculationError)
    );

    let mut market = active_market(vec![MAX_TOTAL_POOL_SIZE - 10, 10], MAX_TOTAL_POOL_SIZE);
    let mut prediction = fresh_prediction(AccountId(7), market.key);
    let ps = platform(false);
    let r = place_prediction(&mut market, &ps, &mut prediction, AccountId(7), 0, 1_000, 10, 500);
    assert_eq!(r, Err(PredictionMarketError::PoolOverflow));
    assert_eq!(market.total_pool, MAX_TOTAL_POOL_SIZE);
}

#[test]
fn test_division_by_zero_protection() {
    assert_eq!(safe_div(1, 0), Err(ErrorCode::DivisionByZero));
    assert_eq!(safe_div(10, 3), Ok(3));

    // A resolved market whose winning pool is somehow empty must fail
    // the claim with DivisionByZero instead of paying out.
    let mut market = active_market(vec![0, 1000], 1000);
    market.status = MarketStatus::Resolved;
    market.winning_option = Some(0);
    let prediction = Prediction {
        user: AccountId(7),
        market: market.key,
        option_index: 0,
        net_amount: 100,
        claimed: false,
    };
    let ps = platform(false);
    let r = claim_reward(&market, &ps, &prediction);
    assert_eq!(r, Err(PredictionMarketError::DivisionByZero));
}

#[test]
fn test_arithmetic_overflow_protection() {
    assert_eq!(safe_mul(u64::MAX, 2), Err(ErrorCode::CalculationError));
    assert_eq!(safe_mul(u64::MAX, 1), Ok(u64::MAX));
    assert_eq!(safe_add(u64::MAX, 1), Err(ErrorCode::CalculationError));
    assert_eq!(safe_add(u64::MAX - 1, 1), Ok(u64::MAX));
    assert_eq!(safe_sub(0, 1), Err(ErrorCode::CalculationError));
    assert_eq!(safe_sub(5, 5), Ok(0));
}

#[test]
fn string_length_is_checked_against_the_field_size() {
    assert!(validate_string_length(50, 50).is_ok());
    assert_eq!(validate_string_length(51, 50), Err(ErrorCode::StringTooLong));
}

#[test]
fn test_fee_rate_limits() {
    assert!(validate_fee_rate(MAX_FEE_RATE).is_ok());
    assert_eq!(validate_fee_rate(MAX_FEE_RATE + 1), Err(ErrorCode::FeeTooHigh));
}

#[test]
fn test_market_duration_limits() {
    let now = 1_000_000;
    assert_eq!(
        validate_market_duration(now + 3599, now),
        Err(ErrorCode::MarketDurationTooShort)
    );
    assert!(validate_market_duration(now + 3600, now).is_ok());
    let two_years = 2 * 365 * 24 * 3600;
    assert!(validate_market_duration(now + two_years, now).is_ok());
    assert_eq!(
        validate_market_duration(now + two_years + 1, now),
        Err(ErrorCode::MarketDurationTooLong)
    );
    assert_eq!(
        validate_market_duration(i64::MIN, i64::MAX),
        Err(ErrorCode::InvalidResolutionDate)
    );
}

#[test]
fn test_double_claim_prevention() {
    let mut market = active_market(vec![300, 700], 1000);
    market.status = MarketStatus::Resolved;
    market.winning_option = Some(0);
    let mut prediction = Prediction {
        user: AccountId(7),
        market: market.key,
        option_index: 0,
        net_amount: 100,
        claimed: false,
    };
    let ps = platform(false);
    let pending = claim_reward(&market, &ps, &prediction).expect("first claim passes the gates");
    let event = settle_claim(&mut prediction, pending, true).expect("transfer succeeded");
    assert!(prediction.claimed);
    assert_eq!(event.user, AccountId(7));
    let second = claim_reward(&market, &ps, &prediction);
    assert_eq!(second, Err(PredictionMarketError::RewardAlreadyClaimed));
}

#[test]
fn test_authority_checks() {
    // Only committee members may resolve.
    let mut market = active_market(vec![100, 200], 300);
    let ps = platform(false);
    let proposal = ResolutionProposal {
        market: market.key,
        proposed_outcome: 0,
        approvals: vec![AccountId(10), AccountId(11)],
        required_approvals: 2,
        expiry_time: 2_000_000,
    };
    let r = resolve_market(&mut market, &ps, &proposal, AccountId(99), 0, 1_500_000);
    assert_eq!(r, Err(PredictionMarketError::UnauthorizedResolver));
    let r = resolve_market(&mut market, &ps, &proposal, AccountId(10), 0, 1_500_000);
    assert!(r.is_ok());

    // Only whitelisted creators may create markets.
    let access = initialize_access_control(AccountId(1));
    let r = create_market(
        &access,
        AccountId(200),
        AccountId(42),
        "Who wins the finals?".to_string(),
        vec!["a".to_string(), "b".to_string()],
        "sports".to_string(),
        5_000,
        100_000_000,
        1_000,
    );
    assert_eq!(r.err(), Some(PredictionMarketError::Unauthorized));

    // Only the admin may extend the allow-list.
    let mut access = initialize_access_control(AccountId(1));
    let r = add_market_creator(&mut access, AccountId(2), AccountId(42));
    assert_eq!(r, Err(AccessControlError::Unauthorized));
}

#[test]
fn test_reentrancy_protection() {
    let mut market = active_market(vec![0, 0], 0);
    let mut prediction = fresh_prediction(AccountId(7), market.key);
    let ps = platform(false);

    let pending =
        place_prediction(&mut market, &ps, &mut prediction, AccountId(7), 0, 1_000, 10, 500)
            .expect("bet passes the gates");
    // The ledger is credited before any external call...
    assert_eq!(market.total_pool, 975);
    assert!(market.reentrancy_guard.entered);
    // ...and a nested attempt while the lock is held is rejected.
    let mut nested = fresh_prediction(AccountId(8), market.key);
    let r = place_prediction(&mut market, &ps, &mut nested, AccountId(8), 0, 1_000, 10, 500);
    assert_eq!(r, Err(PredictionMarketError::ReentrancyDetected));

    let event = settle_prediction(&mut market, &mut prediction, pending, true)
        .expect("transfer succeeded");
    assert!(!market.reentrancy_guard.entered);
    assert_eq!(event.net_amount, 975);
    assert_eq!(event.burn_amount, 25);
}
