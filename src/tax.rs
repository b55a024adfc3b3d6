//! Splitting the tax on one transfer.

use crate::rate::{apply_rate, lemma_mul_floor_split, mul_floor, RateConfig};
use vstd::prelude::*;

verus! {

/// How one transfer amount divides under the current rates.
#[derive(Clone, Copy, Debug, PartialEq, Eq, Structural, Default)]
pub struct QueryTaxResponse {
    /// Withheld from the transfer and credited to the treasury.
    pub taxed_amount: u128,
    /// What the recipient receives.
    pub after_tax: u128,
    /// Part of the tax meant for reflection.
    pub reflection_amount: u128,
    /// Part of the tax meant for burning.
    pub burn_amount: u128,
    /// The rest of the tax, meant for liquidity.
    pub liquidity_amount: u128,
}

/// The breakdown of `amount` under `rates`, each rate applied with rounding down.
pub open spec fn tax_breakdown(rates: RateConfig, amount: int) -> (int, int, int, int, int) {
    let taxed = mul_floor(amount, rates.tax_rate);
    let reflection = mul_floor(taxed, rates.reflection_rate);
    let burn = mul_floor(taxed, rates.burn_rate);
    (taxed, amount - taxed, reflection, burn, taxed - reflection - burn)
}

impl QueryTaxResponse {
    pub open spec fn matches(self, t: (int, int, int, int, int)) -> bool {
        &&& self.taxed_amount == t.0
        &&& self.after_tax == t.1
        &&& self.reflection_amount == t.2
        &&& self.burn_amount == t.3
        &&& self.liquidity_amount == t.4
    }
}

/// Computes the tax on a transfer of `amount`.
pub fn query_tax(rates: &RateConfig, amount: u128) -> (r: QueryTaxResponse)
    requires
        rates.wf(),
    ensures
        r.matches(tax_breakdown(*rates, amount as int)),
        r.taxed_amount + r.after_tax == amount,
        r.reflection_amount + r.burn_amount + r.liquidity_amount == r.taxed_amount,
{
    let taxed_amount = apply_rate(amount, rates.tax_rate);
    let after_tax = amount - taxed_amount;
    let reflection_amount = apply_rate(taxed_amount, rates.reflection_rate);
    let burn_amount = apply_rate(taxed_amount, rates.burn_rate);
    proof {
        lemma_mul_floor_split(taxed_amount as int, rates.reflection_rate, rates.burn_rate);
    }
    let liquidity_amount = taxed_amount - reflection_amount - burn_amount;
    QueryTaxResponse { taxed_amount, after_tax, reflection_amount, burn_amount, liquidity_amount }
}

/// For every valid configuration and amount, the reflection and burn parts
/// together never exceed the tax, so the liquidity part is never negative,
/// and the tax never exceeds the amount.
pub proof fn lemma_tax_split_bounded(rates: RateConfig, amount: int)
    requires
        rates.wf(),
        amount >= 0,
    ensures
        ({
            let t = tax_breakdown(rates, amount);
            &&& 0 <= t.0 <= amount
            &&& t.1 >= 0
            &&& t.2 >= 0 && t.3 >= 0
            &&& t.2 + t.3 <= t.0
            &&& t.4 >= 0
        }),
{
    let zero = crate::rate::Rate { atomics: 0 };
    lemma_mul_floor_split(amount, rates.tax_rate, zero);
    let taxed = mul_floor(amount, rates.tax_rate);
    lemma_mul_floor_split(taxed, rates.reflection_rate, rates.burn_rate);
}

} // verus!
