//! Bet placement on a market, split at the external-call boundary.
//!
//! `place_prediction` validates the bet, credits the pools and the
//! user's position, and takes the re-entry lock — the ledger commits
//! before any external call.  The host then moves the tokens and hands
//! the outcome to `settle_prediction`, which either releases the lock
//! or rolls the whole credit back, so a failed transfer leaves no trace.

use vstd::prelude::*;

use crate::AccountId;
use crate::market::{
    Market, Prediction, PredictionMarketError, PredictionPlaced, ReentrancyGuard,
    lemma_pool_le_sum, lemma_pool_sum_update, pool_sum, spec_market_expired,
};
use crate::platform::{BASIS_POINTS, PlatformState, basis_share, lemma_basis_share_bounds};
use crate::security_checks::{MAX_BET_AMOUNT, MAX_TOTAL_POOL_SIZE, safe_add, safe_div, safe_mul, safe_sub};
use vstd::arithmetic::mul::lemma_mul_inequality;

verus! {

/// A bet whose ledger credit is committed and whose token transfer is
/// still in the host's hands.
#[derive(Clone, Copy, PartialEq, Eq, Structural, Debug)]
pub struct PendingBet {
    pub user: AccountId,
    pub market: AccountId,
    pub option_index: u8,
    /// What the user pays in total.
    pub amount: u64,
    /// What the position and the pool were credited with.
    pub net_amount: u64,
    /// The burn share carved out of `amount`.
    pub burn_amount: u64,
}

/// Net stake a bet of `amount` adds to the pool, after the burn share.
pub open spec fn bet_net_amount(amount: u64, ps: PlatformState) -> int {
    amount - basis_share(amount, ps.bet_burn_rate)
}

/// The first rejection a `place_prediction` call runs into, if any.
pub open spec fn place_prediction_check(
    market: Market,
    ps: PlatformState,
    prediction: Prediction,
    option_index: u8,
    amount: u64,
    min_bet: u64,
    now: i64,
) -> Option<PredictionMarketError> {
    if market.reentrancy_guard.entered {
        Some(PredictionMarketError::ReentrancyDetected)
    } else if ps.is_paused {
        Some(PredictionMarketError::PlatformPaused)
    } else if market.is_paused {
        Some(PredictionMarketError::MarketPaused)
    } else if !market.is_active() {
        Some(PredictionMarketError::MarketNotActive)
    } else if spec_market_expired(market, now) {
        Some(PredictionMarketError::MarketExpired)
    } else if option_index as int >= market.options@.len() {
        Some(PredictionMarketError::InvalidOptionIndex)
    } else if amount < min_bet {
        Some(PredictionMarketError::BetTooSmall)
    } else if amount > MAX_BET_AMOUNT {
        Some(PredictionMarketError::BetTooLarge)
    } else if prediction.net_amount > 0 && prediction.option_index != option_index {
        Some(PredictionMarketError::InvalidOptionIndex)
    } else if market.total_pool + amount > MAX_TOTAL_POOL_SIZE {
        Some(PredictionMarketError::PoolOverflow)
    } else if prediction.net_amount + bet_net_amount(amount, ps) > u64::MAX {
        Some(PredictionMarketError::CalculationError)
    } else {
        None
    }
}

/// Places a bet: after every gate passes, the net amount (after the burn
/// share) is credited to the user's position, the option pool and the
/// total pool, and the re-entry lock is taken — all before any external
/// call.  A repeat bet accumulates into the existing position and must
/// target the option that position already sits on; any other index is
/// invalid for it.  A rejected bet leaves market and position untouched,
/// so the pool-sum invariant is unaffected by failed attempts.
pub fn place_prediction(
    market: &mut Market,
    platform_state: &PlatformState,
    prediction: &mut Prediction,
    user: AccountId,
    option_index: u8,
    amount: u64,
    min_bet: u64,
    now: i64,
) -> (r: Result<PendingBet, PredictionMarketError>)
    requires
        old(market).wf(),
        platform_state.wf(),
        old(prediction).market == old(market).key,
        old(prediction).user == user,
    ensures
        r is Ok <==> place_prediction_check(
            *old(market),
            *platform_state,
            *old(prediction),
            option_index,
            amount,
            min_bet,
            now,
        ) is None,
        place_prediction_check(
            *old(market),
            *platform_state,
            *old(prediction),
            option_index,
            amount,
            min_bet,
            now,
        ) matches Some(e) ==> r == Err::<PendingBet, PredictionMarketError>(e),
        r is Err ==> *final(market) == *old(market) && *final(prediction) == *old(prediction),
        final(market).wf(),
        pool_sum(final(market).pools@) == final(market).total_pool,
        r is Err ==> pool_sum(final(market).pools@) == pool_sum(old(market).pools@),
        r matches Ok(pending) ==> {
            let net = bet_net_amount(amount, *platform_state);
            &&& pending == (PendingBet {
                user,
                market: old(market).key,
                option_index,
                amount,
                net_amount: net as u64,
                burn_amount: basis_share(amount, platform_state.bet_burn_rate) as u64,
            })
            &&& *final(market) == (Market {
                pools: final(market).pools,
                total_pool: (old(market).total_pool + net) as u64,
                reentrancy_guard: (ReentrancyGuard { entered: true }),
                ..*old(market)
            })
            &&& final(market).pools@ == old(market).pools@.update(
                option_index as int,
                (old(market).pools@[option_index as int] + net) as u64,
            )
            &&& *final(prediction) == (Prediction {
                option_index,
                net_amount: (old(prediction).net_amount + net) as u64,
                ..*old(prediction)
            })
        },
{
    if market.reentrancy_guard.entered {
        return Err(PredictionMarketError::ReentrancyDetected);
    }
    if platform_state.is_paused {
        return Err(PredictionMarketError::PlatformPaused);
    }
    if market.is_paused {
        return Err(PredictionMarketError::MarketPaused);
    }
    if !(market.status == crate::market::MarketStatus::Active) {
        return Err(PredictionMarketError::MarketNotActive);
    }
    if crate::market::is_market_expired(market, now) {
        return Err(PredictionMarketError::MarketExpired);
    }
    if option_index as usize >= market.options.len() {
        return Err(PredictionMarketError::InvalidOptionIndex);
    }
    if amount < min_bet {
        return Err(PredictionMarketError::BetTooSmall);
    }
    if amount > MAX_BET_AMOUNT {
        return Err(PredictionMarketError::BetTooLarge);
    }
    if prediction.net_amount > 0 && prediction.option_index != option_index {
        return Err(PredictionMarketError::InvalidOptionIndex);
    }
    proof {
        lemma_mul_inequality(
            amount as int,
            MAX_BET_AMOUNT as int,
            platform_state.bet_burn_rate as int,
        );
        lemma_mul_inequality(
            platform_state.bet_burn_rate as int,
            BASIS_POINTS as int,
            MAX_BET_AMOUNT as int,
        );
        lemma_basis_share_bounds(amount, platform_state.bet_burn_rate);
    }
    let scaled_burn = match safe_mul(amount, platform_state.bet_burn_rate) {
        Ok(v) => v,
        Err(_) => {
            return Err(PredictionMarketError::CalculationError);
        },
    };
    let burn_amount = match safe_div(scaled_burn, BASIS_POINTS) {
        Ok(v) => v,
        Err(_) => {
            return Err(PredictionMarketError::CalculationError);
        },
    };
    let net_amount = match safe_sub(amount, burn_amount) {
        Ok(v) => v,
        Err(_) => {
            return Err(PredictionMarketError::CalculationError);
        },
    };
    let new_total = match safe_add(market.total_pool, amount) {
        Ok(v) => v,
        Err(_) => {
            return Err(PredictionMarketError::PoolOverflow);
        },
    };
    if new_total > MAX_TOTAL_POOL_SIZE {
        return Err(PredictionMarketError::PoolOverflow);
    }
    let new_position = match safe_add(prediction.net_amount, net_amount) {
        Ok(v) => v,
        Err(_) => {
            return Err(PredictionMarketError::CalculationError);
        },
    };
    let idx = option_index as usize;
    proof {
        lemma_pool_le_sum(market.pools@, idx as int);
    }
    let pool_before = market.pools[idx];
    let new_pool = match safe_add(pool_before, net_amount) {
        Ok(v) => v,
        Err(_) => {
            return Err(PredictionMarketError::CalculationError);
        },
    };
    let committed_total = match safe_add(market.total_pool, net_amount) {
        Ok(v) => v,
        Err(_) => {
            return Err(PredictionMarketError::CalculationError);
        },
    };
    let ghost pools_before = market.pools@;
    market.pools.set(idx, new_pool);
    market.total_pool = committed_total;
    prediction.option_index = option_index;
    prediction.net_amount = new_position;
    match market.reentrancy_guard.enter() {
        Ok(()) => {},
        Err(e) => {
            proof {
                assert(false);
            }
            return Err(e);
        },
    }
    proof {
        lemma_pool_sum_update(pools_before, idx as int, new_pool);
    }
    Ok(
        PendingBet {
            user,
            market: market.key,
            option_index,
            amount,
            net_amount,
            burn_amount,
        },
    )
}

/// Settles a committed bet once the host reports the outcome of the
/// token transfer.  On success only the re-entry lock is released; on
/// failure the pool and position credit is rolled back in full, so the
/// ledger returns to its pre-bet state.
pub fn settle_prediction(
    market: &mut Market,
    prediction: &mut Prediction,
    pending: PendingBet,
    transfer_ok: bool,
) -> (r: Result<PredictionPlaced, PredictionMarketError>)
    requires
        old(market).wf(),
        old(market).reentrancy_guard.entered,
        pending.market == old(market).key,
        (pending.option_index as int) < old(market).pools@.len(),
        pending.net_amount <= old(market).pools@[pending.option_index as int],
        pending.net_amount <= old(prediction).net_amount,
    ensures
        final(market).wf(),
        !final(market).reentrancy_guard.entered,
        r is Ok <==> transfer_ok,
        transfer_ok ==> *final(market) == (Market {
            reentrancy_guard: (ReentrancyGuard { entered: false }),
            ..*old(market)
        }) && *final(prediction) == *old(prediction),
        transfer_ok ==> r == Ok::<PredictionPlaced, PredictionMarketError>(
            PredictionPlaced {
                user: pending.user,
                market: pending.market,
                option_index: pending.option_index,
                amount: pending.amount,
                net_amount: pending.net_amount,
                burn_amount: pending.burn_amount,
            },
        ),
        !transfer_ok ==> r == Err::<PredictionPlaced, PredictionMarketError>(
            PredictionMarketError::TransferFailed,
        ),
        !transfer_ok ==> *final(market) == (Market {
            pools: final(market).pools,
            total_pool: (old(market).total_pool - pending.net_amount) as u64,
            reentrancy_guard: (ReentrancyGuard { entered: false }),
            ..*old(market)
        }),
        !transfer_ok ==> final(market).pools@ == old(market).pools@.update(
            pending.option_index as int,
            (old(market).pools@[pending.option_index as int] - pending.net_amount) as u64,
        ),
        !transfer_ok ==> *final(prediction) == (Prediction {
            net_amount: (old(prediction).net_amount - pending.net_amount) as u64,
            ..*old(prediction)
        }),
{
    if transfer_ok {
        market.reentrancy_guard.exit();
        return Ok(
            PredictionPlaced {
                user: pending.user,
                market: pending.market,
                option_index: pending.option_index,
                amount: pending.amount,
                net_amount: pending.net_amount,
                burn_amount: pending.burn_amount,
            },
        );
    }
    let idx = pending.option_index as usize;
    proof {
        lemma_pool_le_sum(market.pools@, idx as int);
    }
    let pool_before = market.pools[idx];
    let restored_pool = match safe_sub(pool_before, pending.net_amount) {
        Ok(v) => v,
        Err(_) => {
            proof {
                assert(false);
            }
            0
        },
    };
    let restored_total = match safe_sub(market.total_pool, pending.net_amount) {
        Ok(v) => v,
        Err(_) => {
            proof {
                assert(false);
            }
            0
        },
    };
    let restored_position = match safe_sub(prediction.net_amount, pending.net_amount) {
        Ok(v) => v,
        Err(_) => {
            proof {
                assert(false);
            }
            0
        },
    };
    let ghost pools_before = market.pools@;
    market.pools.set(idx, restored_pool);
    market.total_pool = restored_total;
    prediction.net_amount = restored_position;
    market.reentrancy_guard.exit();
    proof {
        lemma_pool_sum_update(pools_before, idx as int, restored_pool);
    }
    Err(PredictionMarketError::TransferFailed)
}

/// While the platform is paused, every bet placement attempt whose
/// market lock is free is rejected with exactly `PlatformPaused`, and a
/// rejected attempt changes no state; unpausing merely clears the flag
/// (see `set_pause_state`), so normal operation resumes with all
/// accumulated totals exactly as they were.
pub proof fn lemma_platform_pause_gates_betting(
    market: Market,
    ps: PlatformState,
    prediction: Prediction,
    option_index: u8,
    amount: u64,
    min_bet: u64,
    now: i64,
)
    requires
        !market.reentrancy_guard.entered,
        ps.is_paused,
    ensures
        place_prediction_check(market, ps, prediction, option_index, amount, min_bet, now)
            == Some(PredictionMarketError::PlatformPaused),
{
}

} // verus!
