use miga::address::Address;
use miga::admin::{accept_authority, toggle_sale, transfer_authority, update_treasury};
use miga::curve::{
    calculate_tokens_for_sol, get_current_price, BONDING_CURVE_SUPPLY, END_PRICE, LP_SUPPLY,
    START_PRICE, TOTAL_SUPPLY, TREASURY_SUPPLY,
};
use miga::error::MigaError;
use miga::sale::{buy, get_price, get_stats, initialize, quote_buy};
use miga::state::{AcceptAuthority, AdminOnly, Buy, Config, GetPrice, Initialize};

fn addr(b: u8) -> Address {
    Address::new([b; 32])
}

fn fresh() -> Config {
    let ctx = Initialize {
        authority: addr(1),
        mint: addr(2),
        treasury: addr(3),
        bonding_curve_vault: addr(4),
        lp_vault: addr(5),
        bump: 254,
    };
    initialize(&ctx, 1_700_000_000).0
}

fn with_sold(sold: u64) -> Config {
    let mut c = fresh();
    c.tokens_sold = sold;
    c
}

#[test]
fn supplies_add_up() {
    assert_eq!(LP_SUPPLY + BONDING_CURVE_SUPPLY + TREASURY_SUPPLY, TOTAL_SUPPLY);
    assert_eq!(BONDING_CURVE_SUPPLY, 400_000_000 * 1_000_000_000);
}

#[test]
fn initialize_sets_record_and_event() {
    let ctx = Initialize {
        authority: addr(1),
        mint: addr(2),
        treasury: addr(3),
        bonding_curve_vault: addr(4),
        lp_vault: addr(5),
        bump: 254,
    };
    let (c, ev) = initialize(&ctx, 42);
    assert!(c.authority == addr(1));
    assert!(c.pending_authority.is_none());
    assert!(c.treasury == addr(3));
    assert!(c.lp_vault == addr(5));
    assert_eq!(c.bump, 254);
    assert_eq!(c.tokens_sold, 0);
    assert_eq!(c.sol_raised, 0);
    assert!(c.sale_active);
    assert_eq!(c.initialized_at, 42);
    assert!(ev.authority == addr(1));
    assert!(ev.mint == addr(2));
    assert!(ev.treasury == addr(3));
    assert_eq!(ev.timestamp, 42);
}

#[test]
fn price_endpoints() {
    assert_eq!(get_current_price(0), START_PRICE);
    assert_eq!(get_current_price(BONDING_CURVE_SUPPLY), END_PRICE);
    assert_eq!(get_current_price(u64::MAX), END_PRICE);
    assert_eq!(get_current_price(BONDING_CURVE_SUPPLY - 1), 100 + 9900 * 9999 / 10000);
}

#[test]
fn price_midpoint() {
    // Half the supply sold: 5000 bps of progress.
    assert_eq!(get_current_price(BONDING_CURVE_SUPPLY / 2), 100 + 9900 / 2);
    // A quarter: 2500 bps.
    assert_eq!(get_current_price(BONDING_CURVE_SUPPLY / 4), 100 + 2475);
}

#[test]
fn price_is_non_decreasing() {
    let mut prev = get_current_price(0);
    let step = BONDING_CURVE_SUPPLY / 997;
    let mut sold: u64 = 0;
    while sold <= BONDING_CURVE_SUPPLY + step {
        let p = get_current_price(sold);
        assert!(p >= prev);
        assert!(p >= START_PRICE && p <= END_PRICE);
        prev = p;
        sold += step;
    }
}

#[test]
fn tokens_for_payment_at_start() {
    assert_eq!(calculate_tokens_for_sol(0, 1000), Ok(10_000_000_000));
    assert_eq!(calculate_tokens_for_sol(0, 1), Ok(10_000_000));
}

#[test]
fn tokens_for_payment_at_end_price() {
    assert_eq!(calculate_tokens_for_sol(BONDING_CURVE_SUPPLY, 10_000), Ok(1_000_000_000));
}

#[test]
fn tokens_for_payment_too_large_is_overflow() {
    assert_eq!(calculate_tokens_for_sol(0, u64::MAX), Err(MigaError::Overflow));
}

#[test]
fn scenario_first_purchase() {
    let mut ctx = Buy { buyer: addr(9), config: fresh() };
    let ev = buy(&mut ctx, 1000, 0, 77).unwrap();
    assert_eq!(ev.tokens_received, 10_000_000_000);
    assert_eq!(ev.sol_amount, 1000);
    assert_eq!(ev.total_sold, 10_000_000_000);
    assert_eq!(ev.total_raised, 1000);
    assert_eq!(ev.price_per_token, get_current_price(10_000_000_000));
    assert_eq!(ev.timestamp, 77);
    assert!(ev.buyer == addr(9));
    assert_eq!(ctx.config.tokens_sold, 10_000_000_000);
    assert_eq!(ctx.config.sol_raised, 1000);
}

#[test]
fn successful_buys_keep_bounds_and_grow() {
    let mut ctx = Buy { buyer: addr(9), config: fresh() };
    let mut i = 0;
    while i < 20 {
        let before = ctx.config;
        let r = buy(&mut ctx, 1_000_000_000_000 * (i + 1), 0, i as i64);
        if r.is_ok() {
            assert!(ctx.config.tokens_sold <= BONDING_CURVE_SUPPLY);
            assert!(ctx.config.tokens_sold >= before.tokens_sold);
            assert!(ctx.config.sol_raised >= before.sol_raised);
        } else {
            assert_eq!(ctx.config.tokens_sold, before.tokens_sold);
            assert_eq!(ctx.config.sol_raised, before.sol_raised);
        }
        i += 1;
    }
}

#[test]
fn buy_when_sale_inactive() {
    let mut c = with_sold(5);
    c.sol_raised = 7;
    c.sale_active = false;
    let mut ctx = Buy { buyer: addr(9), config: c };
    assert_eq!(buy(&mut ctx, 1000, 0, 0).unwrap_err(), MigaError::SaleNotActive);
    assert_eq!(ctx.config.tokens_sold, 5);
    assert_eq!(ctx.config.sol_raised, 7);
}

#[test]
fn buy_with_zero_payment() {
    let mut ctx = Buy { buyer: addr(9), config: fresh() };
    assert_eq!(buy(&mut ctx, 0, 0, 0).unwrap_err(), MigaError::InvalidAmount);
    assert_eq!(ctx.config.tokens_sold, 0);
}

#[test]
fn buy_when_sold_out() {
    let mut ctx = Buy { buyer: addr(9), config: with_sold(BONDING_CURVE_SUPPLY) };
    assert_eq!(buy(&mut ctx, 1000, 0, 0).unwrap_err(), MigaError::SaleComplete);
    assert_eq!(ctx.config.tokens_sold, BONDING_CURVE_SUPPLY);
}

#[test]
fn buy_below_slippage_floor() {
    let mut ctx = Buy { buyer: addr(9), config: fresh() };
    let r = buy(&mut ctx, 1000, 10_000_000_001, 0);
    assert_eq!(r.unwrap_err(), MigaError::SlippageExceeded);
    assert_eq!(ctx.config.tokens_sold, 0);
    assert_eq!(ctx.config.sol_raised, 0);
    // Exactly the quote is accepted.
    assert!(buy(&mut ctx, 1000, 10_000_000_000, 0).is_ok());
}

#[test]
fn buy_past_supply_is_refused_whole() {
    let sold = BONDING_CURVE_SUPPLY - 1_000;
    let mut ctx = Buy { buyer: addr(9), config: with_sold(sold) };
    let r = buy(&mut ctx, 1_000_000, 0, 0);
    assert_eq!(r.unwrap_err(), MigaError::ExceedsSupply);
    assert_eq!(ctx.config.tokens_sold, sold);
    assert_eq!(ctx.config.sol_raised, 0);
}

#[test]
fn buy_that_fills_supply_exactly() {
    // Near the end of the curve, with little supply left.
    let sold = BONDING_CURVE_SUPPLY - 10_000_000;
    let price = get_current_price(sold);
    let mut ctx = Buy { buyer: addr(9), config: with_sold(sold) };
    // Pays for at most the remaining 10_000_000 units.
    let pay = 10_000_000 * price / 1_000_000_000;
    let expected = pay * 1_000_000_000 / price;
    let ev = buy(&mut ctx, pay, 0, 0).unwrap();
    assert_eq!(ev.tokens_received, expected);
    assert!(ctx.config.tokens_sold <= BONDING_CURVE_SUPPLY);
}

#[test]
fn buy_overflowing_raised_total() {
    let mut c = fresh();
    c.sol_raised = u64::MAX;
    let mut ctx = Buy { buyer: addr(9), config: c };
    assert_eq!(buy(&mut ctx, 1, 0, 0).unwrap_err(), MigaError::Overflow);
    assert_eq!(ctx.config.tokens_sold, 0);
    assert_eq!(ctx.config.sol_raised, u64::MAX);
}

#[test]
fn quote_matches_buy() {
    let c = with_sold(123_456_789_000_000_000);
    let q = quote_buy(&c, 5_000, 0).unwrap();
    let mut ctx = Buy { buyer: addr(9), config: c };
    let ev = buy(&mut ctx, 5_000, 0, 0).unwrap();
    assert_eq!(q, ev.tokens_received);
    assert_eq!(quote_buy(&c, 5_000, q + 1), Err(MigaError::SlippageExceeded));
}

#[test]
fn price_is_sampled_before_the_purchase() {
    let sold = BONDING_CURVE_SUPPLY / 2;
    let price = get_current_price(sold);
    let mut ctx = Buy { buyer: addr(9), config: with_sold(sold) };
    let ev = buy(&mut ctx, 50_000, 0, 0).unwrap();
    assert_eq!(ev.tokens_received, 50_000 * 1_000_000_000 / price);
    assert_eq!(ev.price_per_token, get_current_price(sold + ev.tokens_received));
}

#[test]
fn stats_of_fresh_record() {
    let s = get_stats(&GetPrice { config: fresh() });
    assert_eq!(s.tokens_sold, 0);
    assert_eq!(s.sol_raised, 0);
    assert_eq!(s.current_price, START_PRICE);
    assert!(s.sale_active);
    assert_eq!(s.remaining_tokens, BONDING_CURVE_SUPPLY);
    assert_eq!(s.percent_complete, 0);
}

#[test]
fn stats_percent_complete() {
    let s = get_stats(&GetPrice { config: with_sold(BONDING_CURVE_SUPPLY / 3) });
    assert_eq!(s.percent_complete, 3333);
    assert_eq!(s.remaining_tokens, BONDING_CURVE_SUPPLY - BONDING_CURVE_SUPPLY / 3);
    let full = get_stats(&GetPrice { config: with_sold(BONDING_CURVE_SUPPLY) });
    assert_eq!(full.percent_complete, 10000);
    assert_eq!(full.remaining_tokens, 0);
    assert_eq!(full.current_price, END_PRICE);
}

#[test]
fn stats_twice_are_equal() {
    let g = GetPrice { config: with_sold(987_654_321) };
    assert_eq!(get_stats(&g), get_stats(&g));
    assert_eq!(get_price(&g), get_stats(&g).current_price);
}

#[test]
fn toggle_sale_by_authority() {
    let mut ctx = AdminOnly { authority: addr(1), config: fresh() };
    let ev = toggle_sale(&mut ctx, 3).unwrap();
    assert!(!ev.active);
    assert!(!ctx.config.sale_active);
    assert!(ev.authority == addr(1));
    assert!(toggle_sale(&mut ctx, 4).unwrap().active);
    assert!(ctx.config.sale_active);
}

#[test]
fn toggle_sale_by_stranger() {
    let mut ctx = AdminOnly { authority: addr(8), config: fresh() };
    assert_eq!(toggle_sale(&mut ctx, 3).unwrap_err(), MigaError::Unauthorized);
    assert!(ctx.config.sale_active);
}

#[test]
fn update_treasury_rules() {
    let mut ctx = AdminOnly { authority: addr(1), config: fresh() };
    assert_eq!(
        update_treasury(&mut ctx, Address::new([0; 32]), 0).unwrap_err(),
        MigaError::InvalidAddress
    );
    assert!(ctx.config.treasury == addr(3));
    let ev = update_treasury(&mut ctx, addr(6), 11).unwrap();
    assert!(ev.old_treasury == addr(3));
    assert!(ev.new_treasury == addr(6));
    assert!(ctx.config.treasury == addr(6));
    let mut other = AdminOnly { authority: addr(8), config: ctx.config };
    assert_eq!(update_treasury(&mut other, addr(7), 0).unwrap_err(), MigaError::Unauthorized);
    assert!(other.config.treasury == addr(6));
}

#[test]
fn transfer_authority_rejects_null_and_strangers() {
    let mut ctx = AdminOnly { authority: addr(1), config: fresh() };
    assert_eq!(
        transfer_authority(&mut ctx, Address::new([0; 32]), 0).unwrap_err(),
        MigaError::InvalidAddress
    );
    assert!(ctx.config.pending_authority.is_none());
    let mut other = AdminOnly { authority: addr(8), config: fresh() };
    assert_eq!(transfer_authority(&mut other, addr(8), 0).unwrap_err(), MigaError::Unauthorized);
    assert!(other.config.pending_authority.is_none());
}

#[test]
fn authority_rotation() {
    let a = addr(1);
    let b = addr(2);
    let mut admin = AdminOnly { authority: a, config: fresh() };
    let ev = transfer_authority(&mut admin, b, 5).unwrap();
    assert!(ev.current_authority == a);
    assert!(ev.pending_authority == b);
    assert!(admin.config.authority == a);
    assert!(admin.config.pending_authority == Some(b));

    let mut wrong = AcceptAuthority { new_authority: addr(3), config: admin.config };
    assert_eq!(accept_authority(&mut wrong, 6).unwrap_err(), MigaError::Unauthorized);
    assert!(wrong.config.authority == a);
    assert!(wrong.config.pending_authority == Some(b));

    let mut right = AcceptAuthority { new_authority: b, config: admin.config };
    let done = accept_authority(&mut right, 7).unwrap();
    assert!(done.old_authority == a);
    assert!(done.new_authority == b);
    assert!(right.config.authority == b);
    assert!(right.config.pending_authority.is_none());

    let mut by_a = AdminOnly { authority: a, config: right.config };
    assert_eq!(toggle_sale(&mut by_a, 8).unwrap_err(), MigaError::Unauthorized);
    let mut by_b = AdminOnly { authority: b, config: right.config };
    assert!(toggle_sale(&mut by_b, 8).is_ok());
}

#[test]
fn authority_candidate_can_be_replaced() {
    let mut admin = AdminOnly { authority: addr(1), config: fresh() };
    transfer_authority(&mut admin, addr(2), 0).unwrap();
    transfer_authority(&mut admin, addr(3), 0).unwrap();
    let mut first = AcceptAuthority { new_authority: addr(2), config: admin.config };
    assert_eq!(accept_authority(&mut first, 0).unwrap_err(), MigaError::Unauthorized);
    let mut second = AcceptAuthority { new_authority: addr(3), config: admin.config };
    assert!(accept_authority(&mut second, 0).is_ok());
}

#[test]
fn accept_without_pending_rotation() {
    let mut ctx = AcceptAuthority { new_authority: addr(1), config: fresh() };
    assert_eq!(accept_authority(&mut ctx, 0).unwrap_err(), MigaError::Unauthorized);
}

#[test]
fn address_helpers() {
    assert!(Address::new([0; 32]).is_default());
    let mut bytes = [0u8; 32];
    bytes[31] = 1;
    assert!(!Address::new(bytes).is_default());
    assert_eq!(Address::new(bytes).to_bytes(), bytes);
    assert!(Address::new(bytes) != Address::new([0; 32]));
    assert!(addr(4) == addr(4));
}

#[test]
fn error_messages() {
    assert_eq!(MigaError::SaleNotActive.message(), "Sale is not currently active");
    assert_eq!(MigaError::Overflow.message(), "Arithmetic overflow");
}
