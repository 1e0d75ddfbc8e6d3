//! Conversion from wei, the smallest currency unit, into whole currency
//! units. One unit of the currency is `10^18` wei.
//!
//! The conversion is exact: it returns the whole-unit quotient together with
//! the remaining wei. Rendering the pair as a single fractional number (with
//! the precision loss that entails) is left to the caller.

use vstd::arithmetic::div_mod::lemma_fundamental_div_mod;
use vstd::prelude::*;

verus! {

/// Number of wei in one whole unit of the currency.
pub const WEI_PER_ETH: u128 = 1_000_000_000_000_000_000;

/// Splits an amount of wei into whole currency units and remaining wei.
pub fn wei_to_eth_parts(wei: u128) -> (r: (u128, u128))
    ensures
        r.0 == wei / WEI_PER_ETH,
        r.1 == wei % WEI_PER_ETH,
        r.1 < WEI_PER_ETH,
        wei == r.0 * WEI_PER_ETH + r.1,
{
    let whole = wei / WEI_PER_ETH;
    let rest = wei % WEI_PER_ETH;
    proof {
        lemma_fundamental_div_mod(wei as int, WEI_PER_ETH as int);
    }
    (whole, rest)
}

} // verus!
