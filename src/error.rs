//! Why an operation on the ledger was refused.

use vstd::prelude::*;

verus! {

/// The ways an operation can fail. A failed operation changes nothing.
#[derive(Clone, Copy, Debug, PartialEq, Eq, Structural)]
pub enum MigaError {
    /// Purchases are switched off.
    SaleNotActive,
    /// The payment is zero.
    InvalidAmount,
    /// Every token on the curve has been sold.
    SaleComplete,
    /// The buyer would get fewer tokens than the minimum they asked for.
    SlippageExceeded,
    /// The purchase would sell more than the curve's supply.
    ExceedsSupply,
    /// A counter would leave the range of its integer type.
    Overflow,
    /// The caller is not the identity the operation demands.
    Unauthorized,
    /// The address given is the all-zero address.
    InvalidAddress,
}

impl MigaError {
    /// A short human-readable description of the error.
    pub fn message(&self) -> &'static str {
        match self {
            MigaError::SaleNotActive => "Sale is not currently active",
            MigaError::InvalidAmount => "Invalid amount - must be greater than zero",
            MigaError::SaleComplete => "Bonding curve sale is complete",
            MigaError::SlippageExceeded => "Slippage tolerance exceeded",
            MigaError::ExceedsSupply => "Would exceed bonding curve supply",
            MigaError::Overflow => "Arithmetic overflow",
            MigaError::Unauthorized => "Unauthorized",
            MigaError::InvalidAddress => "Invalid address",
        }
    }
}

} // verus!
