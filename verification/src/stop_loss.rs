//! Stop-loss: a swap of collateral into the borrowed asset before a position
//! becomes liquidatable, which spares the owner the liquidation penalty.

use vstd::prelude::*;
use crate::math::{fits_i128, trunc_div};

verus! {

/// What an owner has set for stop-loss.
pub struct StopLossConfig {
    pub user: soroban_sdk::Address,
    pub enabled: bool,
    /// The health factor at or below which stop-loss acts, in basis points.
    pub trigger_threshold: i128,
    /// The health factor that the swap aims for, in basis points.
    pub target_health: i128,
    /// The assets to swap, the preferred one first.
    pub swap_order: soroban_sdk::Vec<soroban_sdk::Address>,
    /// The most slippage that a swap may have, in basis points.
    pub max_slippage: u32,
    /// Swaps below this amount are not made.
    pub min_swap_amount: i128,
}

/// What one stop-loss did.
pub struct StopLossResult {
    pub collateral_swapped: i128,
    pub asset_swapped: soroban_sdk::Address,
    pub usdc_received: i128,
    pub debt_reduced: i128,
    pub new_health_factor: i128,
    /// The slippage of the swap in basis points.
    pub slippage: u32,
}

/// The swap `S` that solves `(C - S) / (D - S) = H / 10000` for a swap at par,
/// before it is held to what the position has.
pub open spec fn swap_to_target(collateral: int, debt: int, target_health: int) -> int {
    trunc_div(
        (trunc_div(target_health * debt, 10000) - collateral) * 10000,
        target_health - 10000,
    )
}

/// The collateral to swap: nothing without debt, at or above the target, or
/// for a target at or below par; else the solved swap, held to the collateral
/// from above and then to zero from below.
pub open spec fn swap_amount(collateral: int, debt: int, health: int, target_health: int) -> int {
    let swap = swap_to_target(collateral, debt, target_health);
    if debt == 0 || health >= target_health || target_health <= 10000 {
        0
    } else if swap > collateral {
        collateral
    } else if swap < 0 {
        0
    } else {
        swap
    }
}

/// Every product and difference on the way to `swap_amount` can be held in
/// an `i128`.
pub open spec fn swap_amount_fits(collateral: int, debt: int, health: int, target_health: int) -> bool {
    debt != 0 && health < target_health && target_health > 10000 ==> {
        &&& fits_i128(target_health * debt)
        &&& fits_i128(trunc_div(target_health * debt, 10000) - collateral)
        &&& fits_i128((trunc_div(target_health * debt, 10000) - collateral) * 10000)
    }
}

/// Whether the swap can be computed: whether `calculate_swap_amount` may be
/// called.
pub fn swap_amount_computable(
    current_collateral: i128,
    current_debt: i128,
    current_health: i128,
    target_health: i128,
) -> (ok: bool)
    ensures
        ok == swap_amount_fits(
            current_collateral as int,
            current_debt as int,
            current_health as int,
            target_health as int,
        ),
{
    if current_debt == 0 || current_health >= target_health || target_health <= 10000 {
        return true;
    }
    let scaled: i128 = match target_health.checked_mul(current_debt) {
        Some(product) => product,
        None => {
            return false;
        },
    };
    match (scaled / 10000).checked_sub(current_collateral) {
        Some(numerator) => numerator.checked_mul(10000).is_some(),
        None => false,
    }
}

/// The collateral to swap so that the health factor reaches `target_health`,
/// for a swap at par without slippage.
pub fn calculate_swap_amount(
    current_collateral: i128,
    current_debt: i128,
    current_health: i128,
    target_health: i128,
) -> (r: i128)
    requires
        swap_amount_fits(
            current_collateral as int,
            current_debt as int,
            current_health as int,
            target_health as int,
        ),
    ensures
        r == swap_amount(
            current_collateral as int,
            current_debt as int,
            current_health as int,
            target_health as int,
        ),
        current_collateral >= 0 ==> 0 <= r <= current_collateral,
{
    if current_debt == 0 || current_health >= target_health {
        return 0;
    }
    if target_health <= 10000 {
        return 0;
    }
    let denominator: i128 = target_health - 10000;
    let target_normalized: i128 = target_health * current_debt / 10000;
    let numerator: i128 = target_normalized - current_collateral;
    let swap_amount: i128 = numerator * 10000 / denominator;
    if swap_amount > current_collateral {
        current_collateral
    } else if swap_amount < 0 {
        0
    } else {
        swap_amount
    }
}

/// Stop-loss triggers in the zone between the two thresholds, both of them
/// included: at or below the trigger, and not yet below the liquidation
/// threshold.
pub fn should_trigger_stop_loss(
    health_factor: i128,
    trigger_threshold: i128,
    liquidation_threshold: i128,
) -> (r: bool)
    ensures
        r == (liquidation_threshold <= health_factor <= trigger_threshold),
{
    health_factor <= trigger_threshold && health_factor >= liquidation_threshold
}

/// The least output of a swap that is still accepted: the expected output
/// less `max_slippage` basis points of it.
pub fn calculate_min_output(expected_output: i128, max_slippage: u32) -> (r: i128)
    requires
        fits_i128(expected_output * (10000 - max_slippage)),
    ensures
        r == trunc_div(expected_output * (10000 - max_slippage), 10000),
{
    expected_output * (10000 - max_slippage as i128) / 10000
}

/// The least accepted output, or `None` where the product would leave
/// `i128`.
pub fn try_calculate_min_output(expected_output: i128, max_slippage: u32) -> (r: Option<i128>)
    ensures
        r.is_none() == !fits_i128(expected_output * (10000 - max_slippage)),
        r.is_some() ==> r.unwrap() == trunc_div(expected_output * (10000 - max_slippage), 10000),
{
    match expected_output.checked_mul(10000 - max_slippage as i128) {
        Some(_) => Some(calculate_min_output(expected_output, max_slippage)),
        None => None,
    }
}

/// The collateral to swap, or `None` where a step on the way would leave
/// `i128`.
pub fn try_calculate_swap_amount(
    current_collateral: i128,
    current_debt: i128,
    current_health: i128,
    target_health: i128,
) -> (r: Option<i128>)
    ensures
        r.is_none() == !swap_amount_fits(
            current_collateral as int,
            current_debt as int,
            current_health as int,
            target_health as int,
        ),
        r.is_some() ==> r.unwrap() == swap_amount(
            current_collateral as int,
            current_debt as int,
            current_health as int,
            target_health as int,
        ),
{
    if swap_amount_computable(current_collateral, current_debt, current_health, target_health) {
        Some(calculate_swap_amount(current_collateral, current_debt, current_health, target_health))
    } else {
        None
    }
}

} // verus!
