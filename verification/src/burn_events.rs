//! Burn audit events, consumed asynchronously by an off-chain
//! settlement service.  The ledger only guarantees the event is built
//! field-for-field; emitting it durably is the host's job.

use vstd::prelude::*;

use crate::AccountId;

verus! {

/// What kind of operation a burn belongs to.
#[derive(Clone, Copy, PartialEq, Eq, Structural, Debug)]
pub enum BurnType {
    PredictionBet,
    RewardClaim,
    MarketCreation,
}

/// One burn, as the off-chain settlement service sees it.
#[derive(PartialEq, Eq, Debug)]
pub struct BurnEvent {
    pub burn_type: BurnType,
    pub user: AccountId,
    pub market: AccountId,
    /// The full amount the burn was carved from.
    pub amount: u64,
    /// The share actually burned.
    pub burn_amount: u64,
    /// The option label bet on, for bet burns only.
    pub prediction_option: Option<String>,
    pub timestamp: i64,
    /// Placeholder until the host fills in the real signature.
    pub transaction_signature: [u8; 64],
}

/// Failure outcome of the burn-amount computation.
#[derive(Clone, Copy, PartialEq, Eq, Structural, Debug)]
pub enum ErrorCode {
    CalculationError,
}

/// Burn share of `amount` at `burn_rate` basis points, rounded down;
/// overflow surfaces as `CalculationError`.
pub fn calculate_burn_amount(amount: u64, burn_rate: u64) -> (r: Result<u64, ErrorCode>)
    ensures
        r is Ok <==> amount * burn_rate <= u64::MAX,
        r is Ok ==> r->Ok_0 == amount * burn_rate / 10000,
        r is Err ==> r->Err_0 == ErrorCode::CalculationError,
{
    match amount.checked_mul(burn_rate) {
        Some(scaled) => Ok(scaled / 10000),
        None => Err(ErrorCode::CalculationError),
    }
}

/// Builds the burn event for a placed bet.
pub fn process_bet_burn(
    user: AccountId,
    market: AccountId,
    prediction_option: String,
    amount: u64,
    burn_amount: u64,
    timestamp: i64,
) -> (event: BurnEvent)
    ensures
        event.burn_type == BurnType::PredictionBet,
        event.user == user,
        event.market == market,
        event.amount == amount,
        event.burn_amount == burn_amount,
        event.prediction_option == Some(prediction_option),
        event.timestamp == timestamp,
        forall|i: int| 0 <= i < 64 ==> event.transaction_signature@[i] == 0,
{
    BurnEvent {
        burn_type: BurnType::PredictionBet,
        user,
        market,
        amount,
        burn_amount,
        prediction_option: Some(prediction_option),
        timestamp,
        transaction_signature: [0u8; 64],
    }
}

/// Builds the burn event for a claimed reward.
pub fn process_reward_burn(
    user: AccountId,
    market: AccountId,
    amount: u64,
    burn_amount: u64,
    timestamp: i64,
) -> (event: BurnEvent)
    ensures
        event.burn_type == BurnType::RewardClaim,
        event.user == user,
        event.market == market,
        event.amount == amount,
        event.burn_amount == burn_amount,
        event.prediction_option is None,
        event.timestamp == timestamp,
        forall|i: int| 0 <= i < 64 ==> event.transaction_signature@[i] == 0,
{
    BurnEvent {
        burn_type: BurnType::RewardClaim,
        user,
        market,
        amount,
        burn_amount,
        prediction_option: None,
        timestamp,
        transaction_signature: [0u8; 64],
    }
}

/// Builds the burn event for a market-creation stake.
pub fn process_market_creation_burn(
    creator: AccountId,
    market: AccountId,
    stake_amount: u64,
    burn_amount: u64,
    timestamp: i64,
) -> (event: BurnEvent)
    ensures
        event.burn_type == BurnType::MarketCreation,
        event.user == creator,
        event.market == market,
        event.amount == stake_amount,
        event.burn_amount == burn_amount,
        event.prediction_option is None,
        event.timestamp == timestamp,
        forall|i: int| 0 <= i < 64 ==> event.transaction_signature@[i] == 0,
{
    BurnEvent {
        burn_type: BurnType::MarketCreation,
        user: creator,
        market,
        amount: stake_amount,
        burn_amount,
        prediction_option: None,
        timestamp,
        transaction_signature: [0u8; 64],
    }
}

} // verus!
