//! Gas price data of a destination domain, and the quote computed from it.

use vstd::prelude::*;
use vstd::arithmetic::div_mod::lemma_div_is_ordered;
use vstd::arithmetic::mul::lemma_mul_inequality;
use vstd::arithmetic::mul::lemma_mul_nonnegative;
use crate::error::IgpError;
use crate::wide::{mul_div, mul_div_spec};

verus! {

/// The denominator of a token exchange rate: a rate of `10^19` stands for 1.
pub const TOKEN_EXCHANGE_RATE_SCALE: u64 = 10_000_000_000_000_000_000;

/// The price data configured for one destination domain.
#[derive(Clone, Copy, Debug, PartialEq, Eq, Structural)]
pub struct GasOracle {
    /// Value of the destination's gas-price asset in the local asset, scaled
    /// by `TOKEN_EXCHANGE_RATE_SCALE`.
    pub token_exchange_rate: u128,
    /// Price of one unit of gas on the destination.
    pub gas_price: u128,
}

/// The gas that is charged for: the declared amount plus the overhead.
pub open spec fn effective_gas(overhead: u64, gas_amount: u64) -> int {
    gas_amount + overhead
}

/// The cost of the charged gas in the destination's asset.
pub open spec fn destination_cost(oracle: GasOracle, overhead: u64, gas_amount: u64) -> int {
    effective_gas(overhead, gas_amount) * oracle.gas_price
}

/// The cost in the local asset, rounded down.
pub open spec fn origin_cost(oracle: GasOracle, overhead: u64, gas_amount: u64) -> int {
    mul_div_spec(
        destination_cost(oracle, overhead, gas_amount),
        oracle.token_exchange_rate as int,
        TOKEN_EXCHANGE_RATE_SCALE as int,
    )
}

/// The payment required for `gas_amount` units of gas under `oracle` and
/// `overhead`. It is `Overflow` where the charged gas exceeds 64 bits, the
/// destination cost exceeds 128 bits, or the payment exceeds 64 bits.
pub open spec fn quote_amount(oracle: GasOracle, overhead: u64, gas_amount: u64) -> Result<
    u64,
    IgpError,
> {
    if effective_gas(overhead, gas_amount) > u64::MAX {
        Err(IgpError::Overflow)
    } else if destination_cost(oracle, overhead, gas_amount) > u128::MAX {
        Err(IgpError::Overflow)
    } else if origin_cost(oracle, overhead, gas_amount) > u64::MAX {
        Err(IgpError::Overflow)
    } else {
        Ok(origin_cost(oracle, overhead, gas_amount) as u64)
    }
}

/// Computes the payment required for `gas_amount` units of gas.
pub fn compute_quote(oracle: &GasOracle, overhead: u64, gas_amount: u64) -> (quote: Result<
    u64,
    IgpError,
>)
    ensures
        quote == quote_amount(*oracle, overhead, gas_amount),
{
    let effective: u64 = match gas_amount.checked_add(overhead) {
        Some(e) => e,
        None => {
            return Err(IgpError::Overflow);
        },
    };
    let cost: u128 = match (effective as u128).checked_mul(oracle.gas_price) {
        Some(c) => c,
        None => {
            return Err(IgpError::Overflow);
        },
    };
    match mul_div(cost, oracle.token_exchange_rate, TOKEN_EXCHANGE_RATE_SCALE) {
        Some(amount) => {
            if amount > u64::MAX as u128 {
                Err(IgpError::Overflow)
            } else {
                Ok(amount as u64)
            }
        },
        None => Err(IgpError::Overflow),
    }
}

/// The three quantities of a quote never decrease when the gas amount grows.
pub proof fn lemma_costs_monotonic(oracle: GasOracle, overhead: u64, g1: u64, g2: u64)
    requires
        g1 <= g2,
    ensures
        0 <= effective_gas(overhead, g1) <= effective_gas(overhead, g2),
        0 <= destination_cost(oracle, overhead, g1) <= destination_cost(oracle, overhead, g2),
        0 <= origin_cost(oracle, overhead, g1) <= origin_cost(oracle, overhead, g2),
{
    let e1 = effective_gas(overhead, g1);
    let e2 = effective_gas(overhead, g2);
    let p = oracle.gas_price as int;
    let r = oracle.token_exchange_rate as int;
    lemma_mul_nonnegative(e1, p);
    lemma_mul_inequality(e1, e2, p);
    let c1 = e1 * p;
    let c2 = e2 * p;
    lemma_mul_nonnegative(c1, r);
    lemma_mul_inequality(c1, c2, r);
    lemma_div_is_ordered(0, c1 * r, TOKEN_EXCHANGE_RATE_SCALE as int);
    lemma_div_is_ordered(c1 * r, c2 * r, TOKEN_EXCHANGE_RATE_SCALE as int);
}

/// A quote is non-decreasing in the gas amount: where the larger amount can
/// be quoted, so can the smaller, and for no more.
pub proof fn lemma_quote_monotonic(oracle: GasOracle, overhead: u64, g1: u64, g2: u64)
    requires
        g1 <= g2,
        quote_amount(oracle, overhead, g2) is Ok,
    ensures
        quote_amount(oracle, overhead, g1) is Ok,
        quote_amount(oracle, overhead, g1)->Ok_0 <= quote_amount(oracle, overhead, g2)->Ok_0,
{
    lemma_costs_monotonic(oracle, overhead, g1, g2);
}

/// The rounding of a quote loses less than one unit of the local asset:
/// `scale * quote <= cost * rate < scale * (quote + 1)`.
pub proof fn lemma_quote_rounds_down(oracle: GasOracle, overhead: u64, gas_amount: u64)
    ensures
        TOKEN_EXCHANGE_RATE_SCALE * origin_cost(oracle, overhead, gas_amount) <= destination_cost(
            oracle,
            overhead,
            gas_amount,
        ) * oracle.token_exchange_rate,
        destination_cost(oracle, overhead, gas_amount) * oracle.token_exchange_rate
            < TOKEN_EXCHANGE_RATE_SCALE * (origin_cost(oracle, overhead, gas_amount) + 1),
{
    let n = destination_cost(oracle, overhead, gas_amount) * oracle.token_exchange_rate;
    vstd::arithmetic::div_mod::lemma_fundamental_div_mod(n, TOKEN_EXCHANGE_RATE_SCALE as int);
    vstd::arithmetic::div_mod::lemma_mod_bound(n, TOKEN_EXCHANGE_RATE_SCALE as int);
}

} // verus!
