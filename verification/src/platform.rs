//! Global platform configuration: burn and fee rates in basis points,
//! the pause flag, the resolution committee, and the aggregate burn and
//! volume counters, together with the fee/burn split computations.

use vstd::prelude::*;

use crate::AccountId;
use crate::contains_account;
use crate::security_checks::{safe_add, safe_div, safe_mul};
use vstd::arithmetic::div_mod::{lemma_div_is_ordered, lemma_div_multiples_vanish};
use vstd::arithmetic::mul::{lemma_mul_inequality, lemma_mul_nonnegative};

verus! {

/// Cap on the bet and claim burn rates: 10% in basis points.
pub const MAX_BURN_RATE: u64 = 1000;

/// Cap on the platform fee rate: 5% in basis points.
pub const MAX_PLATFORM_FEE: u64 = 500;

/// Divisor that turns basis points into a fraction.
pub const BASIS_POINTS: u64 = 10000;

/// Failure outcomes of the platform-level operations.
#[derive(Clone, Copy, PartialEq, Eq, Structural, Debug)]
pub enum ErrorCode {
    Unauthorized,
    BurnRateTooHigh,
    FeeTooHigh,
    CalculationError,
    PlatformPaused,
}

/// The platform singleton.  Created once; mutated only by the authority
/// (parameters, pause flag) and by the burn-processing operations
/// (counters).
pub struct PlatformState {
    pub authority: AccountId,
    pub token_mint: AccountId,
    pub treasury: AccountId,
    /// Burn rate applied to bets, in basis points.
    pub bet_burn_rate: u64,
    /// Burn rate applied to claimed rewards, in basis points.
    pub claim_burn_rate: u64,
    /// Platform fee rate applied to bets, in basis points.
    pub platform_fee_rate: u64,
    /// Total tokens ever burned; monotonic.
    pub total_burned: u64,
    /// Total bet volume ever processed; monotonic.
    pub total_volume: u64,
    pub is_paused: bool,
    /// Identities allowed to propose and approve market resolutions.
    pub resolution_committee: Vec<AccountId>,
}

impl PlatformState {
    /// Every rate sits within its cap.
    pub open spec fn wf(self) -> bool {
        &&& self.bet_burn_rate <= MAX_BURN_RATE
        &&& self.claim_burn_rate <= MAX_BURN_RATE
        &&& self.platform_fee_rate <= MAX_PLATFORM_FEE
    }

    /// Whether `who` is the platform authority.
    pub fn is_admin(&self, who: AccountId) -> (r: bool)
        ensures
            r == (who == self.authority),
    {
        who.0 == self.authority.0
    }

    /// Whether `who` may propose and approve market resolutions.
    pub fn is_resolution_committee_member(&self, who: AccountId) -> (r: bool)
        ensures
            r == self.resolution_committee@.contains(who),
    {
        contains_account(&self.resolution_committee, who)
    }
}

/// The two shares that burn processing carves out of a bet.
#[derive(Clone, Copy, PartialEq, Eq, Structural, Debug)]
pub struct BurnSplit {
    /// Share removed from circulation.
    pub burn_amount: u64,
    /// Share forwarded to the treasury.
    pub fee_amount: u64,
}

/// Record of a parameter update, for the event sink.
#[derive(Clone, Copy, PartialEq, Eq, Structural, Debug)]
pub struct PlatformUpdated {
    pub admin: AccountId,
    pub bet_burn_rate: u16,
    pub claim_burn_rate: u16,
    pub platform_fee: u16,
}

/// Record of the platform being paused, for the event sink.
#[derive(Clone, Copy, PartialEq, Eq, Structural, Debug)]
pub struct PlatformPaused {
    pub admin: AccountId,
    pub timestamp: i64,
}

/// Record of the platform being unpaused, for the event sink.
#[derive(Clone, Copy, PartialEq, Eq, Structural, Debug)]
pub struct PlatformUnpaused {
    pub admin: AccountId,
    pub timestamp: i64,
}

/// Sets up the platform.  Each rate is validated against its cap before
/// anything is stored; the counters start at zero and the platform starts
/// unpaused.
pub fn initialize(
    authority: AccountId,
    token_mint: AccountId,
    treasury: AccountId,
    bet_burn_rate: u64,
    claim_burn_rate: u64,
    platform_fee_rate: u64,
    resolution_committee: Vec<AccountId>,
) -> (r: Result<PlatformState, ErrorCode>)
    ensures
        r is Ok <==> bet_burn_rate <= MAX_BURN_RATE && claim_burn_rate <= MAX_BURN_RATE
            && platform_fee_rate <= MAX_PLATFORM_FEE,
        bet_burn_rate > MAX_BURN_RATE || claim_burn_rate > MAX_BURN_RATE ==> r == Err::<
            PlatformState,
            ErrorCode,
        >(ErrorCode::BurnRateTooHigh),
        bet_burn_rate <= MAX_BURN_RATE && claim_burn_rate <= MAX_BURN_RATE && platform_fee_rate
            > MAX_PLATFORM_FEE ==> r == Err::<PlatformState, ErrorCode>(ErrorCode::FeeTooHigh),
        r matches Ok(ps) ==> ps == (PlatformState {
            authority,
            token_mint,
            treasury,
            bet_burn_rate,
            claim_burn_rate,
            platform_fee_rate,
            total_burned: 0,
            total_volume: 0,
            is_paused: false,
            resolution_committee,
        }),
        r matches Ok(ps) ==> ps.wf(),
{
    if bet_burn_rate > MAX_BURN_RATE {
        return Err(ErrorCode::BurnRateTooHigh);
    }
    if claim_burn_rate > MAX_BURN_RATE {
        return Err(ErrorCode::BurnRateTooHigh);
    }
    if platform_fee_rate > MAX_PLATFORM_FEE {
        return Err(ErrorCode::FeeTooHigh);
    }
    Ok(
        PlatformState {
            authority,
            token_mint,
            treasury,
            bet_burn_rate,
            claim_burn_rate,
            platform_fee_rate,
            total_burned: 0,
            total_volume: 0,
            is_paused: false,
            resolution_committee,
        },
    )
}

/// The first rejection an `update_parameters` call runs into, if any.
pub open spec fn update_parameters_check(
    ps: PlatformState,
    caller: AccountId,
    bet_burn_rate: Option<u64>,
    claim_burn_rate: Option<u64>,
    platform_fee_rate: Option<u64>,
) -> Option<ErrorCode> {
    if caller != ps.authority {
        Some(ErrorCode::Unauthorized)
    } else if bet_burn_rate matches Some(rate) && rate > MAX_BURN_RATE {
        Some(ErrorCode::BurnRateTooHigh)
    } else if claim_burn_rate matches Some(rate) && rate > MAX_BURN_RATE {
        Some(ErrorCode::BurnRateTooHigh)
    } else if platform_fee_rate matches Some(rate) && rate > MAX_PLATFORM_FEE {
        Some(ErrorCode::FeeTooHigh)
    } else {
        None
    }
}

/// Updates the rates that are provided, leaving the others alone.  Only
/// the authority may call.  Every provided rate is validated against its
/// cap before any is applied: one bad rate rejects the whole update.
pub fn update_parameters(
    platform_state: &mut PlatformState,
    caller: AccountId,
    bet_burn_rate: Option<u64>,
    claim_burn_rate: Option<u64>,
    platform_fee_rate: Option<u64>,
) -> (r: Result<(), ErrorCode>)
    requires
        old(platform_state).wf(),
    ensures
        final(platform_state).wf(),
        r is Ok <==> update_parameters_check(
            *old(platform_state),
            caller,
            bet_burn_rate,
            claim_burn_rate,
            platform_fee_rate,
        ) is None,
        update_parameters_check(
            *old(platform_state),
            caller,
            bet_burn_rate,
            claim_burn_rate,
            platform_fee_rate,
        ) matches Some(e) ==> r == Err::<(), ErrorCode>(e),
        r is Err ==> *final(platform_state) == *old(platform_state),
        r is Ok ==> *final(platform_state) == (PlatformState {
            bet_burn_rate: match bet_burn_rate {
                Some(rate) => rate,
                None => old(platform_state).bet_burn_rate,
            },
            claim_burn_rate: match claim_burn_rate {
                Some(rate) => rate,
                None => old(platform_state).claim_burn_rate,
            },
            platform_fee_rate: match platform_fee_rate {
                Some(rate) => rate,
                None => old(platform_state).platform_fee_rate,
            },
            ..*old(platform_state)
        }),
{
    if caller.0 != platform_state.authority.0 {
        return Err(ErrorCode::Unauthorized);
    }
    if let Some(rate) = bet_burn_rate {
        if rate > MAX_BURN_RATE {
            return Err(ErrorCode::BurnRateTooHigh);
        }
    }
    if let Some(rate) = claim_burn_rate {
        if rate > MAX_BURN_RATE {
            return Err(ErrorCode::BurnRateTooHigh);
        }
    }
    if let Some(rate) = platform_fee_rate {
        if rate > MAX_PLATFORM_FEE {
            return Err(ErrorCode::FeeTooHigh);
        }
    }
    if let Some(rate) = bet_burn_rate {
        platform_state.bet_burn_rate = rate;
    }
    if let Some(rate) = claim_burn_rate {
        platform_state.claim_burn_rate = rate;
    }
    if let Some(rate) = platform_fee_rate {
        platform_state.platform_fee_rate = rate;
    }
    Ok(())
}

/// Rate caps hold through every update: a multi-field update carrying
/// even one out-of-range rate is rejected whole, and `update_parameters`
/// guarantees a rejected update changes nothing — so a valid state
/// never leaves its caps.
pub proof fn lemma_rate_caps_enforced(
    ps: PlatformState,
    caller: AccountId,
    bet_burn_rate: Option<u64>,
    claim_burn_rate: Option<u64>,
    platform_fee_rate: Option<u64>,
)
    requires
        (bet_burn_rate matches Some(rate) && rate > MAX_BURN_RATE) || (claim_burn_rate
            matches Some(rate) && rate > MAX_BURN_RATE) || (platform_fee_rate matches Some(rate)
            && rate > MAX_PLATFORM_FEE),
    ensures
        update_parameters_check(
            ps,
            caller,
            bet_burn_rate,
            claim_burn_rate,
            platform_fee_rate,
        ) is Some,
{
}

/// Pauses or unpauses the platform.  Only the authority may call; nothing
/// but the pause flag changes, in particular the accumulated totals stay
/// exactly as they were.
pub fn set_pause_state(platform_state: &mut PlatformState, caller: AccountId, paused: bool) -> (r:
    Result<(), ErrorCode>)
    ensures
        r is Ok <==> caller == old(platform_state).authority,
        r is Err ==> r->Err_0 == ErrorCode::Unauthorized && *final(platform_state) == *old(
            platform_state,
        ),
        r is Ok ==> *final(platform_state) == (PlatformState {
            is_paused: paused,
            ..*old(platform_state)
        }),
{
    if caller.0 != platform_state.authority.0 {
        return Err(ErrorCode::Unauthorized);
    }
    platform_state.is_paused = paused;
    Ok(())
}

/// The share a rate in basis points carves out of `amount`, rounded down.
pub open spec fn basis_share(amount: u64, rate: u64) -> int {
    amount * rate / (BASIS_POINTS as int)
}

/// A basis-point share is never negative and never exceeds the amount
/// it is carved from, as long as the rate stays within one whole.
pub proof fn lemma_basis_share_bounds(amount: u64, rate: u64)
    requires
        rate <= BASIS_POINTS,
    ensures
        0 <= basis_share(amount, rate) <= amount,
{
    lemma_mul_nonnegative(amount as int, rate as int);
    lemma_div_is_ordered(0, amount * rate, BASIS_POINTS as int);
    lemma_mul_inequality(rate as int, BASIS_POINTS as int, amount as int);
    lemma_div_is_ordered(amount * rate, BASIS_POINTS * amount, BASIS_POINTS as int);
    lemma_div_multiples_vanish(amount as int, BASIS_POINTS as int);
}

/// The first rejection a `process_bet_burn` call runs into, if any.
pub open spec fn process_bet_burn_check(ps: PlatformState, amount: u64) -> Option<ErrorCode> {
    if ps.is_paused {
        Some(ErrorCode::PlatformPaused)
    } else if amount * ps.bet_burn_rate > u64::MAX {
        Some(ErrorCode::CalculationError)
    } else if amount * ps.platform_fee_rate > u64::MAX {
        Some(ErrorCode::CalculationError)
    } else if ps.total_burned + basis_share(amount, ps.bet_burn_rate) > u64::MAX {
        Some(ErrorCode::CalculationError)
    } else if ps.total_volume + amount > u64::MAX {
        Some(ErrorCode::CalculationError)
    } else {
        None
    }
}

/// Splits a bet of `amount` into its burn share and its treasury fee
/// share, and accumulates the totals.  Fails `PlatformPaused` while the
/// platform is paused, and surfaces any arithmetic overflow; a failed
/// call changes nothing.
pub fn process_bet_burn(platform_state: &mut PlatformState, amount: u64) -> (r: Result<
    BurnSplit,
    ErrorCode,
>)
    ensures
        r is Ok <==> process_bet_burn_check(*old(platform_state), amount) is None,
        process_bet_burn_check(*old(platform_state), amount) matches Some(e) ==> r == Err::<
            BurnSplit,
            ErrorCode,
        >(e),
        r is Err ==> *final(platform_state) == *old(platform_state),
        r matches Ok(split) ==> split.burn_amount == basis_share(
            amount,
            old(platform_state).bet_burn_rate,
        ) && split.fee_amount == basis_share(amount, old(platform_state).platform_fee_rate),
        r matches Ok(split) ==> *final(platform_state) == (PlatformState {
            total_burned: (old(platform_state).total_burned + split.burn_amount) as u64,
            total_volume: (old(platform_state).total_volume + amount) as u64,
            ..*old(platform_state)
        }),
{
    if platform_state.is_paused {
        return Err(ErrorCode::PlatformPaused);
    }
    let scaled_burn = match safe_mul(amount, platform_state.bet_burn_rate) {
        Ok(v) => v,
        Err(_) => {
            return Err(ErrorCode::CalculationError);
        },
    };
    let burn_amount = match safe_div(scaled_burn, BASIS_POINTS) {
        Ok(v) => v,
        Err(_) => {
            return Err(ErrorCode::CalculationError);
        },
    };
    let scaled_fee = match safe_mul(amount, platform_state.platform_fee_rate) {
        Ok(v) => v,
        Err(_) => {
            return Err(ErrorCode::CalculationError);
        },
    };
    let fee_amount = match safe_div(scaled_fee, BASIS_POINTS) {
        Ok(v) => v,
        Err(_) => {
            return Err(ErrorCode::CalculationError);
        },
    };
    let new_burned = match safe_add(platform_state.total_burned, burn_amount) {
        Ok(v) => v,
        Err(_) => {
            return Err(ErrorCode::CalculationError);
        },
    };
    let new_volume = match safe_add(platform_state.total_volume, amount) {
        Ok(v) => v,
        Err(_) => {
            return Err(ErrorCode::CalculationError);
        },
    };
    platform_state.total_burned = new_burned;
    platform_state.total_volume = new_volume;
    Ok(BurnSplit { burn_amount, fee_amount })
}

/// The first rejection a `process_claim_burn` call runs into, if any.
pub open spec fn process_claim_burn_check(ps: PlatformState, amount: u64) -> Option<ErrorCode> {
    if ps.is_paused {
        Some(ErrorCode::PlatformPaused)
    } else if amount * ps.claim_burn_rate > u64::MAX {
        Some(ErrorCode::CalculationError)
    } else if ps.total_burned + basis_share(amount, ps.claim_burn_rate) > u64::MAX {
        Some(ErrorCode::CalculationError)
    } else {
        None
    }
}

/// Computes the burn share of a claimed reward of `amount` and
/// accumulates the burn total.  No platform fee applies to claims.
/// Fails `PlatformPaused` while the platform is paused, and surfaces any
/// arithmetic overflow; a failed call changes nothing.
pub fn process_claim_burn(platform_state: &mut PlatformState, amount: u64) -> (r: Result<
    u64,
    ErrorCode,
>)
    ensures
        r is Ok <==> process_claim_burn_check(*old(platform_state), amount) is None,
        process_claim_burn_check(*old(platform_state), amount) matches Some(e) ==> r == Err::<
            u64,
            ErrorCode,
        >(e),
        r is Err ==> *final(platform_state) == *old(platform_state),
        r matches Ok(burn) ==> burn == basis_share(amount, old(platform_state).claim_burn_rate),
        r matches Ok(burn) ==> *final(platform_state) == (PlatformState {
            total_burned: (old(platform_state).total_burned + burn) as u64,
            ..*old(platform_state)
        }),
{
    if platform_state.is_paused {
        return Err(ErrorCode::PlatformPaused);
    }
    let scaled_burn = match safe_mul(amount, platform_state.claim_burn_rate) {
        Ok(v) => v,
        Err(_) => {
            return Err(ErrorCode::CalculationError);
        },
    };
    let burn_amount = match safe_div(scaled_burn, BASIS_POINTS) {
        Ok(v) => v,
        Err(_) => {
            return Err(ErrorCode::CalculationError);
        },
    };
    let new_burned = match safe_add(platform_state.total_burned, burn_amount) {
        Ok(v) => v,
        Err(_) => {
            return Err(ErrorCode::CalculationError);
        },
    };
    platform_state.total_burned = new_burned;
    Ok(burn_amount)
}

} // verus!
