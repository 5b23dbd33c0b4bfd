//! Volatility-adjusted loan-to-value: the borrow ceiling of a collateral
//! shrinks by `k * sigma * sqrt(T)`, never below a floor.

use vstd::prelude::*;
use crate::math::{
    div_trunc, fits_i128, floor_sqrt, integer_sqrt, lemma_floor_sqrt_bound, trunc_div,
};

verus! {

/// The square root of a horizon of `days`, in years, scaled by 1000: the root
/// of the days over 19, which stands for the root of 365.
pub open spec fn sqrt_horizon_scaled(days: int) -> int {
    floor_sqrt(days) * 1000 / 19
}

/// What volatility takes off the base ratio, in basis points.
pub open spec fn ltv_adjustment(volatility: int, k_factor: int, days: int) -> int {
    (k_factor * volatility * sqrt_horizon_scaled(days)) / 10000000
}

/// The base ratio less the adjustment, held at `min_ltv` from below. No
/// floor is negative, so it makes no difference whether the difference is
/// first held at zero.
pub open spec fn adjusted_ltv(base_ltv: int, volatility: int, k_factor: int, days: int, min_ltv: int) -> int {
    let adjusted = base_ltv - ltv_adjustment(volatility, k_factor, days);
    if adjusted < min_ltv {
        min_ltv
    } else {
        adjusted
    }
}

/// `value` scaled by a ratio in basis points.
pub open spec fn scale_bp(value: int, ratio_bp: int) -> int {
    trunc_div(value * ratio_bp, 10000)
}

/// Borrow cost less collateral yield, in the unit of the principal.
pub open spec fn effective_cost(borrow_rate: int, yield_rate: int, principal: int, collateral: int) -> int {
    scale_bp(principal, borrow_rate) - scale_bp(collateral, yield_rate)
}

/// The effective cost as a rate on the principal, in basis points.
pub open spec fn effective_rate(borrow_rate: int, yield_rate: int, principal: int, collateral: int) -> int {
    if principal == 0 {
        0
    } else {
        trunc_div(effective_cost(borrow_rate, yield_rate, principal, collateral) * 10000, principal)
    }
}

/// The loan-to-value ratio after the volatility adjustment, in basis points.
///
/// All five arguments are basis points but `time_horizon_days`. With no
/// volatility the base ratio comes back unchanged; the result never falls
/// below `min_ltv` and never exceeds the larger of `base_ltv` and `min_ltv`.
pub fn calculate_adjusted_ltv(
    base_ltv: u32,
    volatility: u32,
    k_factor: u32,
    time_horizon_days: u32,
    min_ltv: u32,
) -> (r: u32)
    ensures
        r == adjusted_ltv(base_ltv as int, volatility as int, k_factor as int, time_horizon_days as int, min_ltv as int),
        r >= min_ltv,
        r <= base_ltv || r == min_ltv,
        volatility == 0 && base_ltv >= min_ltv ==> r == base_ltv,
{
    let sqrt_days: i128 = integer_sqrt(time_horizon_days as i128);
    proof {
        lemma_floor_sqrt_bound(time_horizon_days as int, sqrt_days as int, 65536);
    }
    let sqrt_t: i128 = sqrt_days * 1000 / 19;
    proof {
        assert(0 <= k_factor * volatility <= 0xffff_ffff * 0xffff_ffff) by (nonlinear_arith)
            requires
                0 <= k_factor <= 0xffff_ffff,
                0 <= volatility <= 0xffff_ffff,
        ;
    }
    let weight: i128 = k_factor as i128 * volatility as i128;
    proof {
        assert(0 <= weight * sqrt_t <= 0xffff_ffff * 0xffff_ffff * 3449210) by (nonlinear_arith)
            requires
                0 <= weight <= 0xffff_ffff * 0xffff_ffff,
                0 <= sqrt_t <= 3449210,
        ;
        assert(volatility == 0 ==> weight * sqrt_t == 0) by (nonlinear_arith)
            requires
                weight == k_factor * volatility,
        ;
    }
    let adjustment: i128 = weight * sqrt_t / 10000000;
    let adjusted: i128 = base_ltv as i128 - adjustment;
    if adjusted < min_ltv as i128 {
        min_ltv
    } else {
        adjusted as u32
    }
}

/// The amount that may safely be borrowed against `collateral_value` at the
/// ratio `adjusted_ltv` (basis points), in the unit of the collateral value.
pub fn calculate_safe_borrow(collateral_value: i128, adjusted_ltv: u32) -> (r: i128)
    requires
        fits_i128(collateral_value * adjusted_ltv),
    ensures
        r == scale_bp(collateral_value as int, adjusted_ltv as int),
{
    collateral_value * adjusted_ltv as i128 / 10000
}

/// The borrow rate net of the yield that the collateral earns, in basis
/// points of the principal; negative where the yield exceeds the cost. A
/// rate outside `i32` keeps its low 32 bits.
pub fn calculate_effective_rate(
    borrow_rate: i32,
    yield_rate: i32,
    principal: i128,
    collateral: i128,
) -> (r: i32)
    requires
        principal != 0 ==> fits_i128(principal * borrow_rate) && fits_i128(collateral * yield_rate)
            && fits_i128(effective_cost(borrow_rate as int, yield_rate as int, principal as int, collateral as int))
            && fits_i128(effective_cost(borrow_rate as int, yield_rate as int, principal as int, collateral as int) * 10000),
    ensures
        r == effective_rate(borrow_rate as int, yield_rate as int, principal as int, collateral as int) as i32,
        principal == 0 ==> r == 0,
        i32::MIN <= effective_rate(borrow_rate as int, yield_rate as int, principal as int, collateral as int) <= i32::MAX
            ==> r == effective_rate(borrow_rate as int, yield_rate as int, principal as int, collateral as int),
{
    if principal == 0 {
        return 0;
    }
    let cost: i128 = principal * borrow_rate as i128 / 10000;
    let yield_earned: i128 = collateral * yield_rate as i128 / 10000;
    let effective: i128 = cost - yield_earned;
    let scaled: i128 = effective * 10000;
    proof {
        assert(scaled != i128::MIN) by {
            assert(scaled % 10000 == 0) by (nonlinear_arith)
                requires
                    scaled == effective * 10000,
            ;
        }
    }
    let rate: i128 = div_trunc(scaled, principal);
    #[verifier::truncate]
    (rate as i32)
}

/// The safe borrow, or `None` where scaling the collateral value would leave
/// `i128`.
pub fn try_calculate_safe_borrow(collateral_value: i128, adjusted_ltv: u32) -> (r: Option<i128>)
    ensures
        r.is_none() == !fits_i128(collateral_value * adjusted_ltv),
        r.is_some() ==> r.unwrap() == scale_bp(collateral_value as int, adjusted_ltv as int),
{
    match collateral_value.checked_mul(adjusted_ltv as i128) {
        Some(_) => Some(calculate_safe_borrow(collateral_value, adjusted_ltv)),
        None => None,
    }
}

/// The effective rate can be computed: with a principal, both products, the
/// effective cost and its scaling can be held in an `i128`.
pub open spec fn effective_rate_fits(borrow_rate: int, yield_rate: int, principal: int, collateral: int) -> bool {
    principal != 0 ==> {
        &&& fits_i128(principal * borrow_rate)
        &&& fits_i128(collateral * yield_rate)
        &&& fits_i128(effective_cost(borrow_rate, yield_rate, principal, collateral))
        &&& fits_i128(effective_cost(borrow_rate, yield_rate, principal, collateral) * 10000)
    }
}

/// The effective rate, or `None` where a step on the way would leave `i128`.
pub fn try_calculate_effective_rate(
    borrow_rate: i32,
    yield_rate: i32,
    principal: i128,
    collateral: i128,
) -> (r: Option<i32>)
    ensures
        r.is_none() == !effective_rate_fits(
            borrow_rate as int,
            yield_rate as int,
            principal as int,
            collateral as int,
        ),
        r.is_some() ==> r.unwrap() == effective_rate(
            borrow_rate as int,
            yield_rate as int,
            principal as int,
            collateral as int,
        ) as i32,
{
    if principal != 0 {
        let cost: i128 = match principal.checked_mul(borrow_rate as i128) {
            Some(product) => product / 10000,
            None => {
                return None;
            },
        };
        let yield_earned: i128 = match collateral.checked_mul(yield_rate as i128) {
            Some(product) => product / 10000,
            None => {
                return None;
            },
        };
        match cost.checked_sub(yield_earned) {
            Some(effective) => {
                if effective.checked_mul(10000).is_none() {
                    return None;
                }
            },
            None => {
                return None;
            },
        }
    }
    Some(calculate_effective_rate(borrow_rate, yield_rate, principal, collateral))
}

} // verus!
