//! Ratio arithmetic in basis points.

use vstd::prelude::*;

verus! {

/// Basis points in one whole.
pub const BASIS_POINTS: u64 = 10000;

/// Value of the collateral per unit of debt, in basis points, rounded down;
/// zero where there is no debt.
pub open spec fn health_ratio(collateral_value: u64, loan_amount: u64) -> int {
    if loan_amount == 0 {
        0
    } else {
        (collateral_value * 10000) / (loan_amount as int)
    }
}

/// Price of one unit of collateral at which debt of `loan_amount` reaches
/// `threshold` basis points of the value of `collateral_amount` units,
/// rounded down; zero where there is no collateral.
pub open spec fn liquidation_price(loan_amount: u64, collateral_amount: u64, threshold: u64) -> int {
    if collateral_amount == 0 {
        0
    } else {
        (loan_amount * threshold) / (collateral_amount * 10000)
    }
}

/// The health ratio of a loan: collateral value over debt, in basis points.
///
/// The ratio fits in 64 bits.
pub fn calculate_health_ratio(collateral_value: u64, loan_amount: u64) -> (ratio: u64)
    requires
        health_ratio(collateral_value, loan_amount) <= u64::MAX,
    ensures
        ratio == health_ratio(collateral_value, loan_amount),
{
    if loan_amount == 0 {
        return 0;
    }
    let scaled: u128 = collateral_value as u128 * 10000;
    (scaled / loan_amount as u128) as u64
}

/// Whether a health ratio is at or above a threshold, both in basis points.
pub fn is_healthy_ratio(health_ratio: u64, threshold: u64) -> (healthy: bool)
    ensures
        healthy == (health_ratio >= threshold),
{
    health_ratio >= threshold
}

/// The liquidation price of one unit of collateral.
///
/// The price fits in 64 bits.
pub fn calculate_liquidation_price(loan_amount: u64, collateral_amount: u64, threshold: u64) -> (price:
    u64)
    requires
        liquidation_price(loan_amount, collateral_amount, threshold) <= u64::MAX,
    ensures
        price == liquidation_price(loan_amount, collateral_amount, threshold),
{
    if collateral_amount == 0 {
        return 0;
    }
    assert(loan_amount * threshold <= 0xffff_ffff_ffff_ffff * 0xffff_ffff_ffff_ffff)
        by (nonlinear_arith);
    let debt: u128 = loan_amount as u128 * threshold as u128;
    let collateral: u128 = collateral_amount as u128 * 10000;
    (debt / collateral) as u64
}

} // verus!
