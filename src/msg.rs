//! Messages whose handling is decided here.

use vstd::prelude::*;

verus! {

/// Queries the treasury answers.
#[derive(Clone, Copy, Debug, PartialEq, Eq, Structural)]
pub enum QueryMsg {
    /// The treasury's balance of the token.
    Balance,
}

/// Queries the treasury sends to the token.
#[derive(Clone, Copy, Debug, PartialEq, Eq, Structural)]
pub enum TokenQueryMsg {
    /// The current rates.
    QueryRates,
}

/// What the token may ask of the treasury when it sends tokens to it.
#[derive(Clone, Copy, Debug, PartialEq, Eq, Structural)]
pub enum Cw20HookMsg {
    Liquify,
}

/// Parameters of a migration.
#[derive(Clone, Debug, PartialEq, Eq, Default)]
pub struct MigrateMsg {
    pub msg: String,
}

} // verus!
