use vstd::prelude::*;

verus! {

/// The ways an operation can be refused. Every refusal leaves the market
/// state untouched and emits no payment instruction.
#[derive(Debug, Clone, Copy, PartialEq, Eq, Structural)]
pub enum ContractError {
    /// A mint asked for a creator royalty outside the allowed 0..=20 range.
    InvalidRoyaltyPercent,
    /// The given token id was never minted.
    TokenNotFound,
    /// A buy carried no coin in the settlement denomination.
    NoFundsSent,
    /// A buy attached less than the current unit price.
    InsufficientFunds,
    /// A sell was asked of a token with no circulating units.
    NoTokensToSell,
    /// Instantiation asked for a platform fee above 100 percent.
    InvalidPlatformFeePercent,
    /// A mint would let the platform fee and the creator royalty together
    /// exceed the whole trade price, which would make settlement underflow.
    FeeAndRoyaltyTooHigh,
}

} // verus!
