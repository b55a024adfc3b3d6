//! Errors of the token and of the treasury.

use vstd::prelude::*;

verus! {

#[derive(Clone, Copy, Debug, PartialEq, Eq, Structural)]
pub enum ContractError {
    /// A transfer of zero tokens.
    InvalidZeroAmount,
    /// The sender holds less than the amount it moves.
    InsufficientFunds,
    /// A credited balance would exceed the largest amount.
    Overflow,
    /// The caller is not the configured admin.
    Unauthorized,
    /// A transfer event that the token did not send to itself.
    NotContract,
    /// A global tax rate above one.
    GlobalRateTooHigh,
    /// A reflection and a burn share that add up to more than one.
    ShareRatesTooHigh,
    /// Rates reported for a liquify that no valid configuration holds.
    InvalidRates,
    /// A pair that liquify needs has not been bound.
    ConfigurationMissing,
    /// The quote asset differs from that of the pair bound before.
    MismatchedQuoteAsset,
    /// The pool reports a native coin where the token belongs.
    NotCw20Token,
    /// The liquidity pair does not start with this token.
    NotOwnToken,
    /// An asset that the pool does not hold.
    AssetNotInPool,
    /// The liquidity-share token may not be withdrawn.
    LiquidityTokenProtected,
}

} // verus!
