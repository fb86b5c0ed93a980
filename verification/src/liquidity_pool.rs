//! Ledger side of the external liquidity-pool integration: the pool
//! record, its liquidity counter, and the constant-product swap
//! computation with slippage protection.  The token movements
//! themselves are the host's job; this module decides the amounts.

use vstd::prelude::*;

use crate::AccountId;
use crate::security_checks::{safe_add, safe_div, safe_mul, safe_sub};
use vstd::arithmetic::div_mod::{lemma_div_is_ordered, lemma_div_multiples_vanish};
use vstd::arithmetic::mul::lemma_mul_inequality;

verus! {

/// Failure outcomes of the liquidity-pool operations.
#[derive(Clone, Copy, PartialEq, Eq, Structural, Debug)]
pub enum ErrorCode {
    Unauthorized,
    InvalidMint,
    CalculationError,
    PoolInactive,
    SlippageTooHigh,
}

/// One liquidity pool pairing the platform token with USDC.
pub struct LiquidityPoolState {
    pub authority: AccountId,
    pub token_mint: AccountId,
    pub usdc_mint: AccountId,
    pub pool_id: String,
    pub is_active: bool,
    /// Platform tokens provisioned into the pool.
    pub total_liquidity: u64,
}

/// Arguments of a slippage-protected swap.
#[derive(Clone, Copy, PartialEq, Eq, Structural, Debug)]
pub struct ExecuteSwapArgs {
    pub input_amount: u64,
    /// Least acceptable output; anything lower is rejected.
    pub minimum_output_amount: u64,
    pub is_token_to_usdc: bool,
}

/// Sets up an active, empty pool record.
pub fn initialize_liquidity_pool(
    authority: AccountId,
    token_mint: AccountId,
    usdc_mint: AccountId,
    pool_id: String,
) -> (r: LiquidityPoolState)
    ensures
        r.authority == authority,
        r.token_mint == token_mint,
        r.usdc_mint == usdc_mint,
        r.pool_id@ == pool_id@,
        r.is_active,
        r.total_liquidity == 0,
{
    LiquidityPoolState { authority, token_mint, usdc_mint, pool_id, is_active: true, total_liquidity: 0 }
}

/// Books a liquidity deposit.  An inactive pool takes none; the token
/// side accumulates into `total_liquidity` with overflow surfaced; a
/// failed call changes nothing.
pub fn add_liquidity(
    pool_state: &mut LiquidityPoolState,
    token_amount: u64,
    usdc_amount: u64,
) -> (r: Result<(), ErrorCode>)
    ensures
        r is Ok <==> old(pool_state).is_active && old(pool_state).total_liquidity + token_amount
            <= u64::MAX,
        !old(pool_state).is_active ==> r == Err::<(), ErrorCode>(ErrorCode::PoolInactive),
        old(pool_state).is_active && old(pool_state).total_liquidity + token_amount > u64::MAX
            ==> r == Err::<(), ErrorCode>(ErrorCode::CalculationError),
        r is Err ==> *final(pool_state) == *old(pool_state),
        r is Ok ==> *final(pool_state) == (LiquidityPoolState {
            total_liquidity: (old(pool_state).total_liquidity + token_amount) as u64,
            ..*old(pool_state)
        }),
{
    if !pool_state.is_active {
        return Err(ErrorCode::PoolInactive);
    }
    let new_total = match safe_add(pool_state.total_liquidity, token_amount) {
        Ok(v) => v,
        Err(_) => {
            return Err(ErrorCode::CalculationError);
        },
    };
    pool_state.total_liquidity = new_total;
    Ok(())
}

/// Books a liquidity withdrawal.  An inactive pool gives none; drawing
/// more than the pool holds surfaces as an arithmetic error; a failed
/// call changes nothing.
pub fn remove_liquidity(
    pool_state: &mut LiquidityPoolState,
    token_amount: u64,
    usdc_amount: u64,
) -> (r: Result<(), ErrorCode>)
    ensures
        r is Ok <==> old(pool_state).is_active && token_amount <= old(pool_state).total_liquidity,
        !old(pool_state).is_active ==> r == Err::<(), ErrorCode>(ErrorCode::PoolInactive),
        old(pool_state).is_active && token_amount > old(pool_state).total_liquidity ==> r == Err::<
            (),
            ErrorCode,
        >(ErrorCode::CalculationError),
        r is Err ==> *final(pool_state) == *old(pool_state),
        r is Ok ==> *final(pool_state) == (LiquidityPoolState {
            total_liquidity: (old(pool_state).total_liquidity - token_amount) as u64,
            ..*old(pool_state)
        }),
{
    if !pool_state.is_active {
        return Err(ErrorCode::PoolInactive);
    }
    let new_total = match safe_sub(pool_state.total_liquidity, token_amount) {
        Ok(v) => v,
        Err(_) => {
            return Err(ErrorCode::CalculationError);
        },
    };
    pool_state.total_liquidity = new_total;
    Ok(())
}

/// What a constant-product swap pays out: the input side grows by the
/// input, the product of the two balances is preserved, and the output
/// side hands over the difference, rounded in the pool's favour.
/// `None` marks the computations that overflow or divide by zero.
pub open spec fn swap_output(in_balance: u64, out_balance: u64, input_amount: u64) -> Option<
    int,
> {
    if in_balance + input_amount > u64::MAX {
        None
    } else if in_balance * out_balance > u64::MAX {
        None
    } else if in_balance + input_amount == 0 {
        None
    } else {
        Some(out_balance - in_balance * out_balance / (in_balance + input_amount))
    }
}

/// A constant-product payout never exceeds the output-side balance
/// (and is never negative).
pub proof fn lemma_swap_output_bounds(in_balance: u64, out_balance: u64, input_amount: u64)
    requires
        swap_output(in_balance, out_balance, input_amount) is Some,
    ensures
        swap_output(in_balance, out_balance, input_amount) matches Some(out) ==> 0 <= out
            <= out_balance,
{
    let new_in = in_balance + input_amount;
    lemma_mul_inequality(in_balance as int, new_in, out_balance as int);
    lemma_div_is_ordered(in_balance * out_balance, new_in * out_balance, new_in);
    lemma_div_multiples_vanish(out_balance as int, new_in);
    assert(new_in * out_balance == new_in * (out_balance as int));
    assert(in_balance * out_balance >= 0) by (nonlinear_arith);
    lemma_div_is_ordered(0, in_balance * out_balance, new_in);
}

/// Computes the constant-product output for a swap in either direction:
/// the platform-token side and the USDC side swap roles with
/// `is_token_to_usdc`.  Overflow and an empty input side surface as
/// `CalculationError`.
pub fn calculate_swap_output(
    token_balance: u64,
    usdc_balance: u64,
    input_amount: u64,
    is_token_to_usdc: bool,
) -> (r: Result<u64, ErrorCode>)
    ensures
        is_token_to_usdc ==> {
            &&& r is Ok <==> swap_output(token_balance, usdc_balance, input_amount) is Some
            &&& (swap_output(token_balance, usdc_balance, input_amount) matches Some(out) ==> r
                == Ok::<u64, ErrorCode>(out as u64))
        },
        !is_token_to_usdc ==> {
            &&& r is Ok <==> swap_output(usdc_balance, token_balance, input_amount) is Some
            &&& (swap_output(usdc_balance, token_balance, input_amount) matches Some(out) ==> r
                == Ok::<u64, ErrorCode>(out as u64))
        },
        r is Err ==> r->Err_0 == ErrorCode::CalculationError,
{
    let (in_balance, out_balance) = if is_token_to_usdc {
        (token_balance, usdc_balance)
    } else {
        (usdc_balance, token_balance)
    };
    let new_in_balance = match safe_add(in_balance, input_amount) {
        Ok(v) => v,
        Err(_) => {
            return Err(ErrorCode::CalculationError);
        },
    };
    let product = match safe_mul(in_balance, out_balance) {
        Ok(v) => v,
        Err(_) => {
            return Err(ErrorCode::CalculationError);
        },
    };
    let kept_out = match safe_div(product, new_in_balance) {
        Ok(v) => v,
        Err(_) => {
            return Err(ErrorCode::CalculationError);
        },
    };
    proof {
        lemma_swap_output_bounds(in_balance, out_balance, input_amount);
    }
    let output = match safe_sub(out_balance, kept_out) {
        Ok(v) => v,
        Err(_) => {
            proof {
                assert(false);
            }
            return Err(ErrorCode::CalculationError);
        },
    };
    Ok(output)
}

/// The first rejection a `swap_tokens` call runs into, if any.
pub open spec fn swap_tokens_check(
    pool: LiquidityPoolState,
    token_balance: u64,
    usdc_balance: u64,
    input_amount: u64,
    minimum_output_amount: u64,
    is_token_to_usdc: bool,
) -> Option<ErrorCode> {
    let out = if is_token_to_usdc {
        swap_output(token_balance, usdc_balance, input_amount)
    } else {
        swap_output(usdc_balance, token_balance, input_amount)
    };
    if !pool.is_active {
        Some(ErrorCode::PoolInactive)
    } else {
        match out {
            None => Some(ErrorCode::CalculationError),
            Some(v) => if v < minimum_output_amount {
                Some(ErrorCode::SlippageTooHigh)
            } else {
                None
            },
        }
    }
}

/// Decides a swap against the pool's current balances: an inactive pool
/// swaps nothing, the payout follows the constant-product formula, and
/// a payout under `minimum_output_amount` is rejected as slippage.  The
/// returned amount is what the host must pay out of the opposite side.
pub fn swap_tokens(
    pool_state: &LiquidityPoolState,
    token_balance: u64,
    usdc_balance: u64,
    input_amount: u64,
    minimum_output_amount: u64,
    is_token_to_usdc: bool,
) -> (r: Result<u64, ErrorCode>)
    ensures
        r is Ok <==> swap_tokens_check(
            *pool_state,
            token_balance,
            usdc_balance,
            input_amount,
            minimum_output_amount,
            is_token_to_usdc,
        ) is None,
        swap_tokens_check(
            *pool_state,
            token_balance,
            usdc_balance,
            input_amount,
            minimum_output_amount,
            is_token_to_usdc,
        ) matches Some(e) ==> r == Err::<u64, ErrorCode>(e),
        r matches Ok(out) ==> Some(out as int) == (if is_token_to_usdc {
            swap_output(token_balance, usdc_balance, input_amount)
        } else {
            swap_output(usdc_balance, token_balance, input_amount)
        }),
        r matches Ok(out) ==> out >= minimum_output_amount,
{
    if !pool_state.is_active {
        return Err(ErrorCode::PoolInactive);
    }
    let output = match calculate_swap_output(
        token_balance,
        usdc_balance,
        input_amount,
        is_token_to_usdc,
    ) {
        Ok(v) => v,
        Err(e) => {
            return Err(e);
        },
    };
    proof {
        if is_token_to_usdc {
            lemma_swap_output_bounds(token_balance, usdc_balance, input_amount);
        } else {
            lemma_swap_output_bounds(usdc_balance, token_balance, input_amount);
        }
    }
    if output < minimum_output_amount {
        return Err(ErrorCode::SlippageTooHigh);
    }
    Ok(output)
}

/// Slippage-protected swap entry: same decision as `swap_tokens`, with
/// the arguments bundled.
pub fn execute_swap(
    pool_state: &LiquidityPoolState,
    token_balance: u64,
    usdc_balance: u64,
    args: ExecuteSwapArgs,
) -> (r: Result<u64, ErrorCode>)
    ensures
        r is Ok <==> swap_tokens_check(
            *pool_state,
            token_balance,
            usdc_balance,
            args.input_amount,
            args.minimum_output_amount,
            args.is_token_to_usdc,
        ) is None,
        swap_tokens_check(
            *pool_state,
            token_balance,
            usdc_balance,
            args.input_amount,
            args.minimum_output_amount,
            args.is_token_to_usdc,
        ) matches Some(e) ==> r == Err::<u64, ErrorCode>(e),
        r matches Ok(out) ==> Some(out as int) == (if args.is_token_to_usdc {
            swap_output(token_balance, usdc_balance, args.input_amount)
        } else {
            swap_output(usdc_balance, token_balance, args.input_amount)
        }) && out >= args.minimum_output_amount,
{
    swap_tokens(
        pool_state,
        token_balance,
        usdc_balance,
        args.input_amount,
        args.minimum_output_amount,
        args.is_token_to_usdc,
    )
}

/// Switches the pool on or off.  Only the pool authority may call;
/// nothing but the flag changes.
pub fn set_pool_active(
    pool_state: &mut LiquidityPoolState,
    caller: AccountId,
    is_active: bool,
) -> (r: Result<(), ErrorCode>)
    ensures
        r is Ok <==> caller == old(pool_state).authority,
        r is Err ==> r->Err_0 == ErrorCode::Unauthorized && *final(pool_state) == *old(
            pool_state,
        ),
        r is Ok ==> *final(pool_state) == (LiquidityPoolState {
            is_active,
            ..*old(pool_state)
        }),
{
    if caller.0 != pool_state.authority.0 {
        return Err(ErrorCode::Unauthorized);
    }
    pool_state.is_active = is_active;
    Ok(())
}

} // verus!
