//! The price curve: unit price as a function of the tokens sold so far.

use vstd::arithmetic::div_mod::{lemma_div_is_ordered, lemma_div_pos_is_pos};
use vstd::arithmetic::mul::lemma_mul_inequality;
use crate::error::MigaError;
use vstd::prelude::*;

verus! {

/// Whole supply of the token, in base units (one billion, nine decimals).
pub const TOTAL_SUPPLY: u64 = 1_000_000_000_000_000_000;

/// Share set aside for the liquidity pool (one hundred million).
pub const LP_SUPPLY: u64 = 100_000_000_000_000_000;

/// Share sold on the bonding curve (four hundred million).
pub const BONDING_CURVE_SUPPLY: u64 = 400_000_000_000_000_000;

/// Share kept by the treasury (five hundred million).
pub const TREASURY_SUPPLY: u64 = 500_000_000_000_000_000;

/// Price of one whole token before anything is sold, in lamports.
pub const START_PRICE: u64 = 100;

/// Price of one whole token once the curve's supply is sold out.
pub const END_PRICE: u64 = 10_000;

/// Base units in one whole token.
pub const TOKEN_SCALE: u64 = 1_000_000_000;

/// Basis points in one whole.
pub const BPS: u64 = 10_000;

/// Progress along the curve, in basis points, rounded down.
pub open spec fn progress_bps(tokens_sold: int) -> int {
    tokens_sold * BPS as int / BONDING_CURVE_SUPPLY as int
}

/// Unit price after `tokens_sold` base units have been sold.
pub open spec fn price_at(tokens_sold: int) -> int {
    if tokens_sold >= BONDING_CURVE_SUPPLY as int {
        END_PRICE as int
    } else {
        START_PRICE as int + (END_PRICE - START_PRICE) as int * progress_bps(tokens_sold)
            / BPS as int
    }
}

/// Tokens bought by `payment` at the price sampled once at `tokens_sold`.
pub open spec fn tokens_for_payment(tokens_sold: int, payment: int) -> int {
    payment * TOKEN_SCALE as int / price_at(tokens_sold)
}

/// The price lies between the start and end prices.
pub proof fn lemma_price_bounds(tokens_sold: int)
    requires
        0 <= tokens_sold,
    ensures
        START_PRICE <= price_at(tokens_sold) <= END_PRICE,
{
    if tokens_sold < BONDING_CURVE_SUPPLY as int {
        let p = progress_bps(tokens_sold);
        lemma_div_pos_is_pos(tokens_sold * BPS as int, BONDING_CURVE_SUPPLY as int);
        lemma_mul_inequality(tokens_sold, BONDING_CURVE_SUPPLY as int, BPS as int);
        lemma_div_is_ordered(
            tokens_sold * BPS as int,
            BONDING_CURVE_SUPPLY as int * BPS as int,
            BONDING_CURVE_SUPPLY as int,
        );
        assert(BONDING_CURVE_SUPPLY as int * BPS as int / BONDING_CURVE_SUPPLY as int == BPS)
            by (nonlinear_arith);
        assert(0 <= p <= BPS);
        assert(0 <= 9900 * p <= 9900 * 10000) by (nonlinear_arith)
            requires
                0 <= p <= 10000,
        ;
        lemma_div_pos_is_pos(9900 * p, BPS as int);
        lemma_div_is_ordered(9900 * p, 99_000_000int, BPS as int);
    }
}

/// The price never falls as more tokens are sold; it starts at the start
/// price and stays at the end price from the curve's supply on.
pub proof fn lemma_price_monotonic(a: int, b: int)
    requires
        0 <= a <= b,
    ensures
        price_at(a) <= price_at(b),
        price_at(0) == START_PRICE,
        b >= BONDING_CURVE_SUPPLY ==> price_at(b) == END_PRICE,
{
    lemma_price_bounds(a);
    lemma_price_bounds(b);
    if b < BONDING_CURVE_SUPPLY as int {
        lemma_mul_inequality(a, b, BPS as int);
        lemma_div_is_ordered(a * BPS as int, b * BPS as int, BONDING_CURVE_SUPPLY as int);
        let pa = progress_bps(a);
        let pb = progress_bps(b);
        lemma_mul_inequality(pa, pb, 9900);
        assert(9900 * pa == pa * 9900 && 9900 * pb == pb * 9900) by (nonlinear_arith);
        lemma_div_is_ordered(9900 * pa, 9900 * pb, BPS as int);
    }
    assert(price_at(0) == START_PRICE) by {
        assert(0int * BPS as int == 0);
        assert(9900int * 0 == 0);
    }
}

/// Current unit price after `tokens_sold` base units have been sold.
pub fn get_current_price(tokens_sold: u64) -> (r: u64)
    ensures
        r == price_at(tokens_sold as int),
{
    if tokens_sold >= BONDING_CURVE_SUPPLY {
        return END_PRICE;
    }
    proof {
        lemma_price_bounds(tokens_sold as int);
    }
    let price_range: u128 = (END_PRICE - START_PRICE) as u128;
    assert(tokens_sold as u128 * 10000 <= 400_000_000_000_000_000u128 * 10000) by (nonlinear_arith)
        requires
            tokens_sold < BONDING_CURVE_SUPPLY,
    ;
    let progress: u128 = (tokens_sold as u128 * 10000) / BONDING_CURVE_SUPPLY as u128;
    assert(progress == progress_bps(tokens_sold as int));
    assert(progress <= 10000) by {
        lemma_div_is_ordered(
            tokens_sold as int * 10000,
            BONDING_CURVE_SUPPLY as int * 10000,
            BONDING_CURVE_SUPPLY as int,
        );
        assert(BONDING_CURVE_SUPPLY as int * 10000 / BONDING_CURVE_SUPPLY as int == 10000)
            by (nonlinear_arith);
    }
    assert(price_range * progress <= 9900 * 10000) by (nonlinear_arith)
        requires
            price_range == 9900,
            progress <= 10000,
    ;
    let price_increase: u128 = (price_range * progress) / 10000;
    (START_PRICE as u128 + price_increase) as u64
}

/// Tokens bought by `payment` at the price sampled once at `tokens_sold`;
/// fails when that quantity does not fit in a `u64`.
pub open spec fn tokens_quote(tokens_sold: int, payment: int) -> Result<u64, MigaError> {
    if tokens_for_payment(tokens_sold, payment) <= u64::MAX {
        Ok(tokens_for_payment(tokens_sold, payment) as u64)
    } else {
        Err(MigaError::Overflow)
    }
}

/// Tokens bought by `sol_amount` at the current price. The product and the
/// quotient are taken in 128 bits; a quotient too large for a `u64` is an
/// overflow rather than a truncation.
pub fn calculate_tokens_for_sol(current_sold: u64, sol_amount: u64) -> (r: Result<u64, MigaError>)
    ensures
        r == tokens_quote(current_sold as int, sol_amount as int),
{
    let current_price = get_current_price(current_sold);
    proof {
        lemma_price_bounds(current_sold as int);
    }
    assert(sol_amount as u128 * 1_000_000_000 <= u64::MAX as u128 * 1_000_000_000)
        by (nonlinear_arith);
    let tokens: u128 = (sol_amount as u128 * TOKEN_SCALE as u128) / current_price as u128;
    if tokens > u64::MAX as u128 {
        Err(MigaError::Overflow)
    } else {
        Ok(tokens as u64)
    }
}

} // verus!
