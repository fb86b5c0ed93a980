//! Reward claims on a resolved market, split at the external-call
//! boundary.
//!
//! `claim_reward` only computes: it gates the claim and works out the
//! gross reward, the burn share and the net payout.  The host then
//! transfers the net payout and hands the outcome to `settle_claim`,
//! which marks the position claimed only after the transfer succeeded.

use vstd::prelude::*;

use crate::AccountId;
use crate::market::{Market, Prediction, PredictionMarketError, RewardClaimed};
use crate::platform::{BASIS_POINTS, PlatformState, lemma_basis_share_bounds};
use crate::security_checks::{safe_div, safe_mul, safe_sub};

verus! {

/// A claim whose payout is computed and whose token transfer is still
/// in the host's hands.
#[derive(Clone, Copy, PartialEq, Eq, Structural, Debug)]
pub struct PendingClaim {
    pub user: AccountId,
    pub market: AccountId,
    /// Gross reward: the user's share of the total pool.
    pub reward: u64,
    /// Burn share carved out of the gross reward.
    pub burn_amount: u64,
    /// What the user actually receives.
    pub net_reward: u64,
}

/// Gross reward of a winning position: its stake times the total pool,
/// divided by the winning option's pool, rounded down.
pub open spec fn gross_reward(market: Market, prediction: Prediction) -> int
    recommends
        (prediction.option_index as int) < market.pools@.len(),
        market.pools@[prediction.option_index as int] != 0,
{
    prediction.net_amount * market.total_pool / (market.pools@[prediction.option_index as int]
        as int)
}

/// The first rejection a `claim_reward` call runs into, if any.
pub open spec fn claim_reward_check(
    market: Market,
    ps: PlatformState,
    prediction: Prediction,
) -> Option<PredictionMarketError> {
    if ps.is_paused {
        Some(PredictionMarketError::PlatformPaused)
    } else if market.is_paused {
        Some(PredictionMarketError::MarketPaused)
    } else if !market.is_resolved() {
        Some(PredictionMarketError::MarketNotResolved)
    } else if prediction.claimed {
        Some(PredictionMarketError::RewardAlreadyClaimed)
    } else if !(market.winning_option == Some(prediction.option_index) && prediction.net_amount
        > 0) {
        Some(PredictionMarketError::NotAWinner)
    } else if market.pools@[prediction.option_index as int] == 0 {
        Some(PredictionMarketError::DivisionByZero)
    } else if prediction.net_amount * market.total_pool > u64::MAX {
        Some(PredictionMarketError::CalculationError)
    } else if gross_reward(market, prediction) * ps.claim_burn_rate > u64::MAX {
        Some(PredictionMarketError::CalculationError)
    } else {
        None
    }
}

/// Gates a claim and computes its payout: gross reward
/// `stake * total_pool / winning_pool` (rounded down), burn share
/// `gross * claim_burn_rate / 10000`, net the difference.  Nothing is
/// mutated here; the claimed flag moves only in `settle_claim`, after
/// the transfer.  A position that already claimed is rejected with
/// `RewardAlreadyClaimed`; a zero winning pool surfaces as
/// `DivisionByZero`; arithmetic overflow surfaces as
/// `CalculationError`.
pub fn claim_reward(
    market: &Market,
    platform_state: &PlatformState,
    prediction: &Prediction,
) -> (r: Result<PendingClaim, PredictionMarketError>)
    requires
        market.wf(),
        platform_state.wf(),
        prediction.market == market.key,
    ensures
        r is Ok <==> claim_reward_check(*market, *platform_state, *prediction) is None,
        claim_reward_check(*market, *platform_state, *prediction) matches Some(e) ==> r == Err::<
            PendingClaim,
            PredictionMarketError,
        >(e),
        r matches Ok(pending) ==> {
            let gross = gross_reward(*market, *prediction);
            let burn = gross * platform_state.claim_burn_rate / (BASIS_POINTS as int);
            &&& pending == (PendingClaim {
                user: prediction.user,
                market: market.key,
                reward: gross as u64,
                burn_amount: burn as u64,
                net_reward: (gross - burn) as u64,
            })
        },
{
    if platform_state.is_paused {
        return Err(PredictionMarketError::PlatformPaused);
    }
    if market.is_paused {
        return Err(PredictionMarketError::MarketPaused);
    }
    if !(market.status == crate::market::MarketStatus::Resolved) {
        return Err(PredictionMarketError::MarketNotResolved);
    }
    if prediction.claimed {
        return Err(PredictionMarketError::RewardAlreadyClaimed);
    }
    let winning = match market.winning_option {
        Some(w) => w,
        None => {
            proof {
                assert(false);
            }
            return Err(PredictionMarketError::MarketNotResolved);
        },
    };
    if !(winning == prediction.option_index && prediction.net_amount > 0) {
        return Err(PredictionMarketError::NotAWinner);
    }
    let idx = prediction.option_index as usize;
    let winning_pool = market.pools[idx];
    if winning_pool == 0 {
        return Err(PredictionMarketError::DivisionByZero);
    }
    let scaled = match safe_mul(prediction.net_amount, market.total_pool) {
        Ok(v) => v,
        Err(_) => {
            return Err(PredictionMarketError::CalculationError);
        },
    };
    let gross = match safe_div(scaled, winning_pool) {
        Ok(v) => v,
        Err(_) => {
            proof {
                assert(false);
            }
            return Err(PredictionMarketError::DivisionByZero);
        },
    };
    let scaled_burn = match safe_mul(gross, platform_state.claim_burn_rate) {
        Ok(v) => v,
        Err(_) => {
            return Err(PredictionMarketError::CalculationError);
        },
    };
    let burn_amount = match safe_div(scaled_burn, BASIS_POINTS) {
        Ok(v) => v,
        Err(_) => {
            proof {
                assert(false);
            }
            return Err(PredictionMarketError::CalculationError);
        },
    };
    proof {
        lemma_basis_share_bounds(gross, platform_state.claim_burn_rate);
    }
    let net_reward = match safe_sub(gross, burn_amount) {
        Ok(v) => v,
        Err(_) => {
            proof {
                assert(false);
            }
            return Err(PredictionMarketError::CalculationError);
        },
    };
    Ok(
        PendingClaim {
            user: prediction.user,
            market: market.key,
            reward: gross,
            burn_amount,
            net_reward,
        },
    )
}

/// Settles a computed claim once the host reports the outcome of the
/// net-payout transfer.  Only a successful transfer marks the position
/// claimed; a failed one leaves it untouched, so the claim can be
/// retried.
pub fn settle_claim(prediction: &mut Prediction, pending: PendingClaim, transfer_ok: bool) -> (r:
    Result<RewardClaimed, PredictionMarketError>)
    ensures
        r is Ok <==> transfer_ok,
        transfer_ok ==> *final(prediction) == (Prediction { claimed: true, ..*old(prediction) }),
        transfer_ok ==> r == Ok::<RewardClaimed, PredictionMarketError>(
            RewardClaimed {
                user: pending.user,
                market: pending.market,
                amount: pending.reward,
                net_amount: pending.net_reward,
                burn_amount: pending.burn_amount,
            },
        ),
        !transfer_ok ==> *final(prediction) == *old(prediction) && r == Err::<
            RewardClaimed,
            PredictionMarketError,
        >(PredictionMarketError::TransferFailed),
{
    if !transfer_ok {
        return Err(PredictionMarketError::TransferFailed);
    }
    prediction.claimed = true;
    Ok(
        RewardClaimed {
            user: pending.user,
            market: pending.market,
            amount: pending.reward,
            net_amount: pending.net_reward,
            burn_amount: pending.burn_amount,
        },
    )
}

/// A reward is paid out at most once per position: once a claim that
/// passed every gate has marked the position claimed, any further claim
/// on that position — same market, same platform conditions — is
/// rejected with exactly `RewardAlreadyClaimed`.
pub proof fn lemma_reward_claimed_once(
    market: Market,
    ps: PlatformState,
    before: Prediction,
    after: Prediction,
)
    requires
        claim_reward_check(market, ps, before) is None,
        after == (Prediction { claimed: true, ..before }),
    ensures
        claim_reward_check(market, ps, after) == Some(
            PredictionMarketError::RewardAlreadyClaimed,
        ),
{
}

} // verus!
