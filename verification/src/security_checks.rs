//! Hard limits of the platform and the checked arithmetic that every
//! monetary computation routes through.

use vstd::prelude::*;

verus! {

/// Maximum pool size, to prevent overflow attacks (100 billion tokens
/// with 6 decimals).
pub const MAX_TOTAL_POOL_SIZE: u64 = 100_000_000_000 * 1_000_000;

/// Maximum bet amount per transaction (1 billion tokens with 6 decimals).
pub const MAX_BET_AMOUNT: u64 = 1_000_000_000 * 1_000_000;

/// Maximum fee rate (10% = 1000 basis points).
pub const MAX_FEE_RATE: u64 = 1000;

/// Minimum market duration: 1 hour in seconds.
pub const MIN_MARKET_DURATION: i64 = 3600;

/// Maximum market duration: 2 years in seconds.
pub const MAX_MARKET_DURATION: i64 = 2 * 365 * 24 * 3600;

/// Failure outcomes of the limit checks and of checked arithmetic.
#[derive(Clone, Copy, PartialEq, Eq, Structural, Debug)]
pub enum ErrorCode {
    InvalidOptionIndex,
    BetTooSmall,
    BetTooLarge,
    PoolOverflow,
    FeeTooHigh,
    InvalidResolutionDate,
    MarketDurationTooShort,
    MarketDurationTooLong,
    DivisionByZero,
    CalculationError,
    StringTooLong,
}

/// Accepts exactly the option indices that address one of the market's
/// `option_count` options.
pub fn validate_option_index(option_index: u8, option_count: u8) -> (r: Result<(), ErrorCode>)
    ensures
        r is Ok <==> option_index < option_count,
        r is Err ==> r->Err_0 == ErrorCode::InvalidOptionIndex,
{
    if option_index < option_count {
        Ok(())
    } else {
        Err(ErrorCode::InvalidOptionIndex)
    }
}

/// Accepts exactly the bet amounts between the configured minimum and the
/// global `MAX_BET_AMOUNT`; too-small and too-large bets fail distinctly.
pub fn validate_bet_amount(amount: u64, min_bet: u64) -> (r: Result<(), ErrorCode>)
    ensures
        r is Ok <==> min_bet <= amount <= MAX_BET_AMOUNT,
        amount < min_bet ==> r == Err::<(), ErrorCode>(ErrorCode::BetTooSmall),
        amount >= min_bet && amount > MAX_BET_AMOUNT ==> r == Err::<(), ErrorCode>(
            ErrorCode::BetTooLarge,
        ),
{
    if amount < min_bet {
        Err(ErrorCode::BetTooSmall)
    } else if amount > MAX_BET_AMOUNT {
        Err(ErrorCode::BetTooLarge)
    } else {
        Ok(())
    }
}

/// Accepts an addition to a pool exactly when the new total neither wraps
/// nor exceeds `MAX_TOTAL_POOL_SIZE`.
pub fn validate_pool_addition(current_pool: u64, amount_to_add: u64) -> (r: Result<
    (),
    ErrorCode,
>)
    ensures
        r is Ok <==> current_pool + amount_to_add <= MAX_TOTAL_POOL_SIZE,
        current_pool + amount_to_add > u64::MAX ==> r == Err::<(), ErrorCode>(
            ErrorCode::CalculationError,
        ),
        u64::MAX >= current_pool + amount_to_add > MAX_TOTAL_POOL_SIZE ==> r == Err::<
            (),
            ErrorCode,
        >(ErrorCode::PoolOverflow),
{
    match current_pool.checked_add(amount_to_add) {
        Some(new_total) => {
            if new_total <= MAX_TOTAL_POOL_SIZE {
                Ok(())
            } else {
                Err(ErrorCode::PoolOverflow)
            }
        },
        None => Err(ErrorCode::CalculationError),
    }
}

/// Accepts exactly the fee rates up to `MAX_FEE_RATE` basis points.
pub fn validate_fee_rate(fee_rate: u64) -> (r: Result<(), ErrorCode>)
    ensures
        r is Ok <==> fee_rate <= MAX_FEE_RATE,
        r is Err ==> r->Err_0 == ErrorCode::FeeTooHigh,
{
    if fee_rate <= MAX_FEE_RATE {
        Ok(())
    } else {
        Err(ErrorCode::FeeTooHigh)
    }
}

/// Accepts exactly the resolution dates between `MIN_MARKET_DURATION` and
/// `MAX_MARKET_DURATION` ahead of the current time.
pub fn validate_market_duration(resolution_date: i64, current_time: i64) -> (r: Result<
    (),
    ErrorCode,
>)
    ensures
        r is Ok <==> MIN_MARKET_DURATION <= resolution_date - current_time
            <= MAX_MARKET_DURATION,
        resolution_date - current_time < i64::MIN || resolution_date - current_time > i64::MAX
            ==> r == Err::<(), ErrorCode>(ErrorCode::InvalidResolutionDate),
        i64::MIN <= resolution_date - current_time < MIN_MARKET_DURATION ==> r == Err::<
            (),
            ErrorCode,
        >(ErrorCode::MarketDurationTooShort),
        MAX_MARKET_DURATION < resolution_date - current_time <= i64::MAX ==> r == Err::<
            (),
            ErrorCode,
        >(ErrorCode::MarketDurationTooLong),
{
    match resolution_date.checked_sub(current_time) {
        Some(duration) => {
            if duration < MIN_MARKET_DURATION {
                Err(ErrorCode::MarketDurationTooShort)
            } else if duration > MAX_MARKET_DURATION {
                Err(ErrorCode::MarketDurationTooLong)
            } else {
                Ok(())
            }
        },
        None => Err(ErrorCode::InvalidResolutionDate),
    }
}

/// Division that fails with `DivisionByZero` instead of trapping.
pub fn safe_div(numerator: u64, denominator: u64) -> (r: Result<u64, ErrorCode>)
    ensures
        r is Ok <==> denominator != 0,
        r is Ok ==> r->Ok_0 == numerator as int / denominator as int,
        r is Err ==> r->Err_0 == ErrorCode::DivisionByZero,
{
    if denominator == 0 {
        Err(ErrorCode::DivisionByZero)
    } else {
        Ok(numerator / denominator)
    }
}

/// Multiplication that fails with `CalculationError` instead of wrapping.
pub fn safe_mul(a: u64, b: u64) -> (r: Result<u64, ErrorCode>)
    ensures
        r is Ok <==> a * b <= u64::MAX,
        r is Ok ==> r->Ok_0 == a * b,
        r is Err ==> r->Err_0 == ErrorCode::CalculationError,
{
    match a.checked_mul(b) {
        Some(v) => Ok(v),
        None => Err(ErrorCode::CalculationError),
    }
}

/// Subtraction that fails with `CalculationError` instead of wrapping.
pub fn safe_sub(a: u64, b: u64) -> (r: Result<u64, ErrorCode>)
    ensures
        r is Ok <==> b <= a,
        r is Ok ==> r->Ok_0 == a - b,
        r is Err ==> r->Err_0 == ErrorCode::CalculationError,
{
    match a.checked_sub(b) {
        Some(v) => Ok(v),
        None => Err(ErrorCode::CalculationError),
    }
}

/// Addition that fails with `CalculationError` instead of wrapping.
pub fn safe_add(a: u64, b: u64) -> (r: Result<u64, ErrorCode>)
    ensures
        r is Ok <==> a + b <= u64::MAX,
        r is Ok ==> r->Ok_0 == a + b,
        r is Err ==> r->Err_0 == ErrorCode::CalculationError,
{
    match a.checked_add(b) {
        Some(v) => Ok(v),
        None => Err(ErrorCode::CalculationError),
    }
}

/// Accepts exactly the lengths that fit a fixed-size field.
pub fn validate_string_length(actual_len: usize, max_len: usize) -> (r: Result<(), ErrorCode>)
    ensures
        r is Ok <==> actual_len <= max_len,
        r is Err ==> r->Err_0 == ErrorCode::StringTooLong,
{
    if actual_len <= max_len {
        Ok(())
    } else {
        Err(ErrorCode::StringTooLong)
    }
}

} // verus!
