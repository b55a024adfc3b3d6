//! Fixed-point rates and the tax-rate configuration.

use cosmwasm_std::{Decimal, Uint128};
use vstd::prelude::*;

verus! {

/// Scale of a [`Rate`]: a rate with `atomics == DECIMAL_FRACTIONAL` is one.
pub const DECIMAL_FRACTIONAL: u128 = 1_000_000_000_000_000_000u128;

/// A non-negative fraction with eighteen decimal places, stored as
/// `atomics / DECIMAL_FRACTIONAL`.
#[derive(Clone, Copy, Debug, PartialEq, Eq, Structural)]
pub struct Rate {
    pub atomics: u128,
}

/// `amount * rate`, rounded down.
pub open spec fn mul_floor(amount: int, rate: Rate) -> int {
    amount * rate.atomics / (DECIMAL_FRACTIONAL as int)
}

impl Rate {
    /// The rate lies in `[0, 1]`.
    pub open spec fn is_fraction(self) -> bool {
        self.atomics <= DECIMAL_FRACTIONAL
    }

    pub fn zero() -> (r: Rate)
        ensures
            r.atomics == 0,
    {
        Rate { atomics: 0 }
    }

    pub fn one() -> (r: Rate)
        ensures
            r.atomics == DECIMAL_FRACTIONAL,
    {
        Rate { atomics: DECIMAL_FRACTIONAL }
    }

    /// The rate `atomics / 10^18`.
    pub fn raw(atomics: u128) -> (r: Rate)
        ensures
            r.atomics == atomics,
    {
        Rate { atomics }
    }

    /// The rate `percent / 100`.
    pub fn percent(percent: u64) -> (r: Rate)
        requires
            percent <= 100,
        ensures
            r.atomics == percent * (DECIMAL_FRACTIONAL / 100),
    {
        Rate { atomics: percent as u128 * (DECIMAL_FRACTIONAL / 100) }
    }
}

/// Relies on `Mul<Decimal> for Uint128` of cosmwasm-std: the product is
/// `amount * atomics / 10^18` rounded down, and it panics only when that
/// quotient does not fit in a `u128`.
#[verifier::external_body]
fn decimal_mul(amount: u128, rate: Rate) -> (r: u128)
    requires
        mul_floor(amount as int, rate) <= u128::MAX,
    ensures
        r == mul_floor(amount as int, rate),
{
    (Uint128::new(amount) * Decimal::raw(rate.atomics)).u128()
}

/// A fraction of an amount rounded down is at most the amount, and two
/// fractions whose rates add up to at most one add up to at most the amount.
pub proof fn lemma_mul_floor_split(amount: int, a: Rate, b: Rate)
    requires
        amount >= 0,
        a.atomics + b.atomics <= DECIMAL_FRACTIONAL,
    ensures
        0 <= mul_floor(amount, a) <= amount,
        0 <= mul_floor(amount, b) <= amount,
        mul_floor(amount, a) + mul_floor(amount, b) <= amount,
{
    let d = DECIMAL_FRACTIONAL as int;
    let x = amount * a.atomics;
    let y = amount * b.atomics;
    assert(x >= 0 && y >= 0) by (nonlinear_arith)
        requires
            amount >= 0,
            x == amount * a.atomics,
            y == amount * b.atomics,
    ;
    assert(x + y <= amount * d) by (nonlinear_arith)
        requires
            amount >= 0,
            x == amount * a.atomics,
            y == amount * b.atomics,
            a.atomics + b.atomics <= d,
    ;
    vstd::arithmetic::div_mod::lemma_fundamental_div_mod(x, d);
    vstd::arithmetic::div_mod::lemma_fundamental_div_mod(y, d);
    let qx = x / d;
    let qy = y / d;
    assert(0 <= x % d < d && 0 <= y % d < d) by {
        vstd::arithmetic::div_mod::lemma_mod_bound(x, d);
        vstd::arithmetic::div_mod::lemma_mod_bound(y, d);
    }
    assert(qx >= 0 && qy >= 0 && qx + qy <= amount) by (nonlinear_arith)
        requires
            d > 0,
            x == d * qx + x % d,
            y == d * qy + y % d,
            0 <= x % d < d,
            0 <= y % d < d,
            x >= 0,
            y >= 0,
            x + y <= amount * d,
    ;
}

/// `amount * rate` rounded down, for a rate in `[0, 1]`.
pub fn apply_rate(amount: u128, rate: Rate) -> (r: u128)
    requires
        rate.is_fraction(),
    ensures
        r == mul_floor(amount as int, rate),
        r <= amount,
{
    proof {
        lemma_mul_floor_split(amount as int, rate, Rate { atomics: 0 });
    }
    decimal_mul(amount, rate)
}

/// The token's tax parameters.
#[derive(Clone, Copy, Debug, PartialEq, Eq, Structural)]
pub struct RateConfig {
    /// Share of a taxed transfer that is withheld.
    pub tax_rate: Rate,
    /// Share of the tax that is reflected.
    pub reflection_rate: Rate,
    /// Share of the tax that is burned.
    pub burn_rate: Rate,
    /// Share of the supply above which a transfer counts as large.
    pub max_transfer_supply_rate: Rate,
}

/// A tax rate and a reflection and burn share that may be stored together.
pub open spec fn rates_valid(tax_rate: Rate, reflection_rate: Rate, burn_rate: Rate) -> bool {
    &&& tax_rate.is_fraction()
    &&& reflection_rate.atomics + burn_rate.atomics <= DECIMAL_FRACTIONAL
}

impl RateConfig {
    pub open spec fn wf(self) -> bool {
        &&& rates_valid(self.tax_rate, self.reflection_rate, self.burn_rate)
        &&& self.max_transfer_supply_rate.is_fraction()
    }

    /// No tax, and no cap on the share of the supply that one transfer may
    /// move.
    pub open spec fn new_spec() -> RateConfig {
        RateConfig {
            tax_rate: Rate { atomics: 0 },
            reflection_rate: Rate { atomics: 0 },
            burn_rate: Rate { atomics: 0 },
            max_transfer_supply_rate: Rate { atomics: DECIMAL_FRACTIONAL },
        }
    }

    /// The configuration a token starts with.
    pub fn new() -> (r: RateConfig)
        ensures
            r == RateConfig::new_spec(),
            r.wf(),
    {
        RateConfig {
            tax_rate: Rate::zero(),
            reflection_rate: Rate::zero(),
            burn_rate: Rate::zero(),
            max_transfer_supply_rate: Rate::one(),
        }
    }
}

} // verus!
