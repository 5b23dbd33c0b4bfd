//! Collateral valuation: the risk-weighted value of a deposit and the test
//! that a withdrawal leaves a position healthy.

use vstd::prelude::*;
use vstd::arithmetic::power::pow;
use crate::math::{div_trunc, fits_i128, lemma_scaled_is_not_min, pow10, trunc_div};

verus! {

/// What is done to a collateral balance.
#[derive(Clone, Copy, Debug, PartialEq, Eq, Structural)]
pub enum CollateralOperation {
    Deposit,
    Withdraw,
    Liquidate,
}

/// The value of `amount` units with `decimals` decimals at `price`.
pub open spec fn asset_value(amount: int, price: int, decimals: nat) -> int {
    trunc_div(amount * price, pow(10, decimals))
}

/// The value of a deposit counted at `collateral_factor` basis points.
pub open spec fn weighted_value(amount: int, price: int, collateral_factor: int, decimals: nat) -> int {
    trunc_div(asset_value(amount, price, decimals) * collateral_factor, 10000)
}

/// The weighted collateral value of `amount` units of an asset: its value at
/// `price`, scaled by `collateral_factor` basis points. The result has the
/// scale of the price.
pub fn calculate_weighted_value(
    amount: i128,
    price: i128,
    collateral_factor: u32,
    decimals: u32,
) -> (r: i128)
    requires
        decimals <= 38,
        fits_i128(amount * price),
        fits_i128(asset_value(amount as int, price as int, decimals as nat) * collateral_factor),
    ensures
        r == weighted_value(amount as int, price as int, collateral_factor as int, decimals as nat),
{
    let base: i128 = pow10(decimals);
    let value: i128 = amount * price / base;
    value * collateral_factor as i128 / 10000
}

/// The health factor that is left after a withdrawal.
pub open spec fn health_after_withdrawal(current_weighted_value: int, withdrawal_weighted_value: int, current_debt: int) -> int {
    trunc_div((current_weighted_value - withdrawal_weighted_value) * 10000, current_debt)
}

/// Whether a withdrawal keeps the position at or above `min_health_factor`
/// (basis points). Without debt every withdrawal is safe.
pub fn is_withdrawal_safe(
    current_weighted_value: i128,
    withdrawal_weighted_value: i128,
    current_debt: i128,
    min_health_factor: i128,
) -> (r: bool)
    requires
        current_debt != 0 ==> fits_i128(current_weighted_value - withdrawal_weighted_value)
            && fits_i128((current_weighted_value - withdrawal_weighted_value) * 10000),
    ensures
        r == (current_debt == 0 || health_after_withdrawal(
            current_weighted_value as int,
            withdrawal_weighted_value as int,
            current_debt as int,
        ) >= min_health_factor),
{
    if current_debt == 0 {
        return true;
    }
    let new_weighted_value: i128 = current_weighted_value - withdrawal_weighted_value;
    proof {
        lemma_scaled_is_not_min(new_weighted_value as int);
    }
    let health_factor: i128 = div_trunc(new_weighted_value * 10000, current_debt);
    health_factor >= min_health_factor
}

/// The weighted value can be computed: the power of ten and both products
/// can be held in an `i128`.
pub open spec fn weighted_value_fits(amount: int, price: int, collateral_factor: int, decimals: nat) -> bool {
    &&& decimals <= 38
    &&& fits_i128(amount * price)
    &&& fits_i128(asset_value(amount, price, decimals) * collateral_factor)
}

/// The weighted collateral value, or `None` where a step on the way would
/// leave `i128`.
pub fn try_calculate_weighted_value(
    amount: i128,
    price: i128,
    collateral_factor: u32,
    decimals: u32,
) -> (r: Option<i128>)
    ensures
        r.is_none() == !weighted_value_fits(
            amount as int,
            price as int,
            collateral_factor as int,
            decimals as nat,
        ),
        r.is_some() ==> r.unwrap() == weighted_value(
            amount as int,
            price as int,
            collateral_factor as int,
            decimals as nat,
        ),
{
    if decimals > 38 {
        return None;
    }
    let product: i128 = match amount.checked_mul(price) {
        Some(p) => p,
        None => {
            return None;
        },
    };
    let value: i128 = product / pow10(decimals);
    match value.checked_mul(collateral_factor as i128) {
        Some(_) => Some(calculate_weighted_value(amount, price, collateral_factor, decimals)),
        None => None,
    }
}

/// The safety of a withdrawal can be decided: with debt, what is left and
/// its scaling can be held in an `i128`.
pub open spec fn withdrawal_fits(current_weighted_value: int, withdrawal_weighted_value: int, current_debt: int) -> bool {
    current_debt != 0 ==> fits_i128(current_weighted_value - withdrawal_weighted_value) && fits_i128(
        (current_weighted_value - withdrawal_weighted_value) * 10000,
    )
}

/// Whether a withdrawal is safe, or `None` where a step on the way would
/// leave `i128`.
pub fn try_is_withdrawal_safe(
    current_weighted_value: i128,
    withdrawal_weighted_value: i128,
    current_debt: i128,
    min_health_factor: i128,
) -> (r: Option<bool>)
    ensures
        r.is_none() == !withdrawal_fits(
            current_weighted_value as int,
            withdrawal_weighted_value as int,
            current_debt as int,
        ),
        r.is_some() ==> r.unwrap() == (current_debt == 0 || health_after_withdrawal(
            current_weighted_value as int,
            withdrawal_weighted_value as int,
            current_debt as int,
        ) >= min_health_factor),
{
    if current_debt != 0 {
        match current_weighted_value.checked_sub(withdrawal_weighted_value) {
            Some(left) => {
                if left.checked_mul(10000).is_none() {
                    return None;
                }
            },
            None => {
                return None;
            },
        }
    }
    Some(
        is_withdrawal_safe(
            current_weighted_value,
            withdrawal_weighted_value,
            current_debt,
            min_health_factor,
        ),
    )
}

} // verus!
