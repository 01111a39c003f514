//! The ledger record and the accounts each operation sees.

use crate::address::Address;
use crate::curve::BONDING_CURVE_SUPPLY;
use vstd::prelude::*;

verus! {

/// The single record that holds the sale's progress and who administers it.
#[derive(Clone, Copy, Debug)]
pub struct Config {
    /// Identity allowed to run the administrative operations.
    pub authority: Address,
    /// Candidate for the authority, awaiting its acceptance.
    pub pending_authority: Option<Address>,
    pub mint: Address,
    /// Where payments go.
    pub treasury: Address,
    /// Token account the curve's tokens are paid out from.
    pub bonding_curve_vault: Address,
    pub lp_vault: Address,
    /// Seed byte of the record's program-derived address.
    pub bump: u8,
    /// Base units sold so far.
    pub tokens_sold: u64,
    /// Payments received so far.
    pub sol_raised: u64,
    /// Whether purchases are accepted.
    pub sale_active: bool,
    /// When the record was created.
    pub initialized_at: i64,
}

impl Config {
    /// The record's invariant: no more than the curve's supply is ever sold.
    pub open spec fn wf(self) -> bool {
        self.tokens_sold <= BONDING_CURVE_SUPPLY
    }
}

/// A snapshot of the sale's progress.
#[derive(Clone, Copy, Debug, PartialEq, Eq, Structural)]
pub struct Stats {
    pub tokens_sold: u64,
    pub sol_raised: u64,
    pub current_price: u64,
    pub sale_active: bool,
    pub remaining_tokens: u64,
    /// Share of the curve's supply sold, in basis points.
    pub percent_complete: u16,
}

/// The accounts named when the record is created.
#[derive(Clone, Copy, Debug)]
pub struct Initialize {
    /// The creator, who becomes the first authority.
    pub authority: Address,
    pub mint: Address,
    pub treasury: Address,
    pub bonding_curve_vault: Address,
    pub lp_vault: Address,
    /// Seed byte found for the record's program-derived address.
    pub bump: u8,
}

/// A purchase: the buyer and the record.
#[derive(Clone, Copy, Debug)]
pub struct Buy {
    pub buyer: Address,
    pub config: Config,
}

/// A read-only view of the record.
#[derive(Clone, Copy, Debug)]
pub struct GetPrice {
    pub config: Config,
}

/// An administrative operation: the signer and the record.
#[derive(Clone, Copy, Debug)]
pub struct AdminOnly {
    pub authority: Address,
    pub config: Config,
}

/// Acceptance of a pending authority: the signer and the record.
#[derive(Clone, Copy, Debug)]
pub struct AcceptAuthority {
    pub new_authority: Address,
    pub config: Config,
}

} // verus!
