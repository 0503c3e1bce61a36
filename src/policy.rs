//! The fee a registration must pay and the gas a claim may forward.
//!
//! A depositor prepays exactly the gas that the eventual claim's callback is
//! granted, priced at the registry's fee per gas, so that no party pays for
//! another's claim.

use vstd::prelude::*;

verus! {

/// Estimated gas the registry needs to finish a call after its forwarded callback returns.
pub const WIND_DOWN_GAS: u128 = 10_000;

/// How many times the wind-down cost must still be available before a callback is forwarded.
pub const WIND_DOWN_MULTIPLE: u128 = 2;

/// The fee per gas that applies: the one given, or the basis fee where it is zero.
pub open spec fn effective_fee_per_gas(fee_per_gas: u128, base_fee_per_gas: u128) -> u128 {
    if fee_per_gas == 0 {
        base_fee_per_gas
    } else {
        fee_per_gas
    }
}

/// The payment a registration owes for `claim_gas` units of gas.
pub open spec fn fee_due(claim_gas: u128, fee_per_gas: u128, base_fee_per_gas: u128) -> int {
    claim_gas * effective_fee_per_gas(fee_per_gas, base_fee_per_gas)
}

/// The least gas with which a callback may be forwarded.
pub open spec fn min_gas_to_forward() -> int {
    WIND_DOWN_MULTIPLE * WIND_DOWN_GAS
}

/// The gas granted to a callback: all but a sixty-fourth of what is left,
/// capped at the claim gas that was paid for.
pub open spec fn gas_budget(gas_left: u128, claim_gas: u128) -> int {
    let scaled = gas_left - gas_left / 64;
    if scaled < claim_gas {
        scaled
    } else {
        claim_gas as int
    }
}

/// The fee for `claim_gas` units of gas, or `None` where it exceeds `u128::MAX`.
pub fn required_fee(claim_gas: u128, fee_per_gas: u128, base_fee_per_gas: u128) -> (r: Option<u128>)
    ensures
        r is Some <==> fee_due(claim_gas, fee_per_gas, base_fee_per_gas) <= u128::MAX,
        r matches Some(f) ==> f == fee_due(claim_gas, fee_per_gas, base_fee_per_gas),
{
    let per_gas: u128 = if fee_per_gas == 0 {
        base_fee_per_gas
    } else {
        fee_per_gas
    };
    claim_gas.checked_mul(per_gas)
}

/// Tells whether `payment` is exactly the fee for `claim_gas` units of gas.
pub fn fee_matches(claim_gas: u128, fee_per_gas: u128, base_fee_per_gas: u128, payment: u128) -> (r:
    bool)
    ensures
        r == (payment == fee_due(claim_gas, fee_per_gas, base_fee_per_gas)),
{
    match required_fee(claim_gas, fee_per_gas, base_fee_per_gas) {
        Some(f) => f == payment,
        None => false,
    }
}

/// The gas to forward to a claim's callback, or `None` where too little is
/// left to forward one.
pub fn forwarded_gas_budget(gas_left: u128, claim_gas: u128) -> (r: Option<u128>)
    ensures
        r is None <==> gas_left < min_gas_to_forward(),
        r matches Some(b) ==> b == gas_budget(gas_left, claim_gas),
{
    if gas_left < WIND_DOWN_MULTIPLE * WIND_DOWN_GAS {
        return None;
    }
    let scaled: u128 = gas_left - gas_left / 64;
    if scaled < claim_gas {
        Some(scaled)
    } else {
        Some(claim_gas)
    }
}

} // verus!
