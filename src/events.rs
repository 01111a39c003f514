//! The records the operations hand to the host's event log.

use crate::address::Address;
use vstd::prelude::*;

verus! {

#[derive(Clone, Copy, Debug)]
pub struct InitializeEvent {
    pub authority: Address,
    pub mint: Address,
    pub treasury: Address,
    pub timestamp: i64,
}

#[derive(Clone, Copy, Debug)]
pub struct PurchaseEvent {
    pub buyer: Address,
    pub sol_amount: u64,
    pub tokens_received: u64,
    /// Unit price after the purchase.
    pub price_per_token: u64,
    pub total_sold: u64,
    pub total_raised: u64,
    pub timestamp: i64,
}

#[derive(Clone, Copy, Debug)]
pub struct SaleStatusEvent {
    pub active: bool,
    pub authority: Address,
    pub timestamp: i64,
}

#[derive(Clone, Copy, Debug)]
pub struct TreasuryUpdateEvent {
    pub old_treasury: Address,
    pub new_treasury: Address,
    pub authority: Address,
    pub timestamp: i64,
}

#[derive(Clone, Copy, Debug)]
pub struct AuthorityTransferInitiated {
    pub current_authority: Address,
    pub pending_authority: Address,
    pub timestamp: i64,
}

#[derive(Clone, Copy, Debug)]
pub struct AuthorityTransferCompleted {
    pub old_authority: Address,
    pub new_authority: Address,
    pub timestamp: i64,
}

} // verus!
