//! A fixed-supply token sale on a linear bonding curve, with a two-step
//! rotation of the administrative authority.
//!
//! The ledger record, the price curve, the purchase rules and the authority
//! rules are all verified here. Moving the currency and the token, reading the
//! clock and publishing events are left to the host that calls this library.

pub mod address;
pub mod curve;
pub mod error;
pub mod events;
pub mod state;
pub mod sale;
pub mod admin;
