//! Creating the record, buying from the curve, and reading the sale's state.

use crate::address::Address;
use crate::curve::{
    calculate_tokens_for_sol, get_current_price, price_at, progress_bps,
    tokens_for_payment, tokens_quote, BONDING_CURVE_SUPPLY,
};
use crate::error::MigaError;
use crate::events::{InitializeEvent, PurchaseEvent};
use crate::state::{Buy, Config, GetPrice, Initialize, Stats};
use vstd::arithmetic::div_mod::{lemma_div_is_ordered, lemma_div_pos_is_pos};
use vstd::arithmetic::mul::lemma_mul_inequality;
use vstd::prelude::*;

verus! {

/// The record as it stands right after creation.
pub open spec fn initial_config(ctx: Initialize, timestamp: i64) -> Config {
    Config {
        authority: ctx.authority,
        pending_authority: None,
        mint: ctx.mint,
        treasury: ctx.treasury,
        bonding_curve_vault: ctx.bonding_curve_vault,
        lp_vault: ctx.lp_vault,
        bump: ctx.bump,
        tokens_sold: 0,
        sol_raised: 0,
        sale_active: true,
        initialized_at: timestamp,
    }
}

/// Creates the record: nothing sold, nothing raised, the sale open, and the
/// creator as authority with no rotation pending.
pub fn initialize(ctx: &Initialize, timestamp: i64) -> (r: (Config, InitializeEvent))
    ensures
        r.0 == initial_config(*ctx, timestamp),
        r.0.wf(),
        r.1 == (InitializeEvent {
            authority: ctx.authority,
            mint: ctx.mint,
            treasury: ctx.treasury,
            timestamp,
        }),
{
    let config = Config {
        authority: ctx.authority,
        pending_authority: None,
        mint: ctx.mint,
        treasury: ctx.treasury,
        bonding_curve_vault: ctx.bonding_curve_vault,
        lp_vault: ctx.lp_vault,
        bump: ctx.bump,
        tokens_sold: 0,
        sol_raised: 0,
        sale_active: true,
        initialized_at: timestamp,
    };
    let event = InitializeEvent {
        authority: config.authority,
        mint: config.mint,
        treasury: config.treasury,
        timestamp: config.initialized_at,
    };
    (config, event)
}

/// What a purchase of `sol_amount` with slippage floor `min_tokens_out` does
/// on record `c`: the tokens it hands out, or the first rule it breaks.
pub open spec fn buy_outcome(c: Config, sol_amount: u64, min_tokens_out: u64) -> Result<
    u64,
    MigaError,
> {
    if !c.sale_active {
        Err(MigaError::SaleNotActive)
    } else if sol_amount == 0 {
        Err(MigaError::InvalidAmount)
    } else if c.tokens_sold >= BONDING_CURVE_SUPPLY {
        Err(MigaError::SaleComplete)
    } else {
        match tokens_quote(c.tokens_sold as int, sol_amount as int) {
            Err(e) => Err(e),
            Ok(t) => if t < min_tokens_out {
                Err(MigaError::SlippageExceeded)
            } else if c.tokens_sold + t > u64::MAX {
                Err(MigaError::Overflow)
            } else if c.tokens_sold + t > BONDING_CURVE_SUPPLY {
                Err(MigaError::ExceedsSupply)
            } else if c.sol_raised + sol_amount > u64::MAX {
                Err(MigaError::Overflow)
            } else {
                Ok(t)
            },
        }
    }
}

/// The record after a purchase of `tokens_out` for `sol_amount`.
pub open spec fn after_purchase(c: Config, tokens_out: u64, sol_amount: u64) -> Config {
    Config {
        tokens_sold: (c.tokens_sold + tokens_out) as u64,
        sol_raised: (c.sol_raised + sol_amount) as u64,
        ..c
    }
}

/// The event that records a purchase, given the record after it.
pub open spec fn purchase_event(
    buyer: Address,
    after: Config,
    tokens_out: u64,
    sol_amount: u64,
    timestamp: i64,
) -> PurchaseEvent {
    PurchaseEvent {
        buyer,
        sol_amount,
        tokens_received: tokens_out,
        price_per_token: price_at(after.tokens_sold as int) as u64,
        total_sold: after.tokens_sold,
        total_raised: after.sol_raised,
        timestamp,
    }
}

/// Checks a purchase against the record without applying it, and gives the
/// tokens it would hand out. The host moves the payment and the tokens for
/// exactly this quantity, then commits with `buy`.
pub fn quote_buy(config: &Config, sol_amount: u64, min_tokens_out: u64) -> (r: Result<
    u64,
    MigaError,
>)
    ensures
        r == buy_outcome(*config, sol_amount, min_tokens_out),
{
    if !config.sale_active {
        return Err(MigaError::SaleNotActive);
    }
    if sol_amount == 0 {
        return Err(MigaError::InvalidAmount);
    }
    if config.tokens_sold >= BONDING_CURVE_SUPPLY {
        return Err(MigaError::SaleComplete);
    }
    let tokens_out = match calculate_tokens_for_sol(config.tokens_sold, sol_amount) {
        Ok(t) => t,
        Err(e) => {
            return Err(e);
        },
    };
    if tokens_out < min_tokens_out {
        return Err(MigaError::SlippageExceeded);
    }
    let new_sold = match config.tokens_sold.checked_add(tokens_out) {
        Some(s) => s,
        None => {
            return Err(MigaError::Overflow);
        },
    };
    if new_sold > BONDING_CURVE_SUPPLY {
        return Err(MigaError::ExceedsSupply);
    }
    if config.sol_raised.checked_add(sol_amount).is_none() {
        return Err(MigaError::Overflow);
    }
    Ok(tokens_out)
}

/// Buys from the curve: on success the record counts the tokens sold and
/// the payment received, and the purchase's event is returned. On failure
/// nothing changes.
pub fn buy(ctx: &mut Buy, sol_amount: u64, min_tokens_out: u64, timestamp: i64) -> (r: Result<
    PurchaseEvent,
    MigaError,
>)
    ensures
        match buy_outcome(old(ctx).config, sol_amount, min_tokens_out) {
            Ok(t) => {
                &&& final(ctx).buyer == old(ctx).buyer
                &&& final(ctx).config == after_purchase(old(ctx).config, t, sol_amount)
                &&& r == Ok::<PurchaseEvent, MigaError>(
                    purchase_event(old(ctx).buyer, final(ctx).config, t, sol_amount, timestamp),
                )
            },
            Err(e) => r == Err::<PurchaseEvent, MigaError>(e) && *final(ctx) == *old(ctx),
        },
        r is Ok ==> {
            &&& final(ctx).config.wf()
            &&& final(ctx).config.tokens_sold >= old(ctx).config.tokens_sold
            &&& final(ctx).config.sol_raised >= old(ctx).config.sol_raised
        },
        !old(ctx).config.sale_active ==> r == Err::<PurchaseEvent, MigaError>(
            MigaError::SaleNotActive,
        ) && *final(ctx) == *old(ctx),
        old(ctx).config.sale_active && sol_amount == 0 ==> r == Err::<PurchaseEvent, MigaError>(
            MigaError::InvalidAmount,
        ) && *final(ctx) == *old(ctx),
        ({
            let c = old(ctx).config;
            let q = tokens_for_payment(c.tokens_sold as int, sol_amount as int);
            c.sale_active && sol_amount > 0 && c.tokens_sold < BONDING_CURVE_SUPPLY
                && min_tokens_out > q
        }) ==> r == Err::<PurchaseEvent, MigaError>(MigaError::SlippageExceeded) && *final(ctx)
            == *old(ctx),
        ({
            let c = old(ctx).config;
            let q = tokens_for_payment(c.tokens_sold as int, sol_amount as int);
            c.sale_active && sol_amount > 0 && c.tokens_sold < BONDING_CURVE_SUPPLY
                && min_tokens_out <= q && c.tokens_sold + q <= u64::MAX && c.tokens_sold + q
                > BONDING_CURVE_SUPPLY
        }) ==> r == Err::<PurchaseEvent, MigaError>(MigaError::ExceedsSupply) && *final(ctx)
            == *old(ctx),
{
    let tokens_out = match quote_buy(&ctx.config, sol_amount, min_tokens_out) {
        Ok(t) => t,
        Err(e) => {
            return Err(e);
        },
    };
    ctx.config.tokens_sold = ctx.config.tokens_sold + tokens_out;
    ctx.config.sol_raised = ctx.config.sol_raised + sol_amount;
    let current_price = get_current_price(ctx.config.tokens_sold);
    Ok(
        PurchaseEvent {
            buyer: ctx.buyer,
            sol_amount,
            tokens_received: tokens_out,
            price_per_token: current_price,
            total_sold: ctx.config.tokens_sold,
            total_raised: ctx.config.sol_raised,
            timestamp,
        },
    )
}

/// The current unit price.
pub fn get_price(ctx: &GetPrice) -> (r: u64)
    ensures
        r == price_at(ctx.config.tokens_sold as int),
{
    get_current_price(ctx.config.tokens_sold)
}

/// The snapshot that `get_stats` returns for record `c`.
pub open spec fn stats_of(c: Config) -> Stats {
    Stats {
        tokens_sold: c.tokens_sold,
        sol_raised: c.sol_raised,
        current_price: price_at(c.tokens_sold as int) as u64,
        sale_active: c.sale_active,
        remaining_tokens: if c.tokens_sold >= BONDING_CURVE_SUPPLY {
            0
        } else {
            (BONDING_CURVE_SUPPLY - c.tokens_sold) as u64
        },
        percent_complete: progress_bps(c.tokens_sold as int) as u16,
    }
}

/// A snapshot of the sale's progress; it changes nothing.
pub fn get_stats(ctx: &GetPrice) -> (r: Stats)
    requires
        ctx.config.wf(),
    ensures
        r == stats_of(ctx.config),
        0 <= r.percent_complete <= 10000,
        r.percent_complete == progress_bps(ctx.config.tokens_sold as int),
        r.remaining_tokens == BONDING_CURVE_SUPPLY - ctx.config.tokens_sold,
{
    let sold = ctx.config.tokens_sold;
    proof {
        lemma_mul_inequality(sold as int, BONDING_CURVE_SUPPLY as int, 10000);
        lemma_div_pos_is_pos(sold as int * 10000, BONDING_CURVE_SUPPLY as int);
        lemma_div_is_ordered(
            sold as int * 10000,
            BONDING_CURVE_SUPPLY as int * 10000,
            BONDING_CURVE_SUPPLY as int,
        );
        assert(BONDING_CURVE_SUPPLY as int * 10000 / BONDING_CURVE_SUPPLY as int == 10000)
            by (nonlinear_arith);
    }
    let percent: u128 = (sold as u128 * 10000) / BONDING_CURVE_SUPPLY as u128;
    let remaining: u64 = if sold >= BONDING_CURVE_SUPPLY {
        0
    } else {
        BONDING_CURVE_SUPPLY - sold
    };
    Stats {
        tokens_sold: sold,
        sol_raised: ctx.config.sol_raised,
        current_price: get_current_price(sold),
        sale_active: ctx.config.sale_active,
        remaining_tokens: remaining,
        percent_complete: percent as u16,
    }
}

/// Two snapshots of the same record are the same: reading the stats has no
/// effect that a second reading could see.
pub proof fn lemma_stats_repeatable(c: Config, first: Stats, second: Stats)
    requires
        first == stats_of(c),
        second == stats_of(c),
    ensures
        first == second,
{
}

} // verus!
