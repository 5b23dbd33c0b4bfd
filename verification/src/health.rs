//! The health factor of a position: weighted collateral over debt, its
//! status, the shortfall to the healthy threshold and what may be withdrawn.

use vstd::prelude::*;
use crate::liquidation::{
    calculate_partial_liquidation, partial_liquidation, partial_liquidation_fits,
    try_calculate_partial_liquidation,
};
use crate::math::{div_trunc, fits_i128, lemma_scaled_is_not_min, trunc_div};

verus! {

/// At or above 1.1 a position is healthy.
pub const HEALTH_FACTOR_HEALTHY: i128 = 11000;

/// 1.05, the warning zone.
pub const HEALTH_FACTOR_WARNING: i128 = 10500;

/// Below 1.02 a position is critical: the zone in which stop-loss acts.
pub const HEALTH_FACTOR_CRITICAL: i128 = 10200;

/// Below 1.0 a position may be liquidated.
pub const HEALTH_FACTOR_LIQUIDATION: i128 = 10000;

/// 1.05, the health factor that a liquidation restores.
pub const HEALTH_FACTOR_TARGET: i128 = 10500;

/// The risk class of a position, by its health factor.
#[derive(Clone, Copy, Debug, PartialEq, Eq, Structural)]
pub enum HealthStatus {
    /// At or above 11000.
    Healthy,
    /// From 10200 up to 11000.
    Warning,
    /// From 10000 up to 10200.
    Critical,
    /// Below 10000.
    Liquidatable,
}

/// The health of a position at one moment. It is computed on demand from
/// collateral and debt and never stored as the truth.
#[derive(Clone, Copy, Debug)]
pub struct HealthFactor {
    /// Collateral over debt in basis points; `i128::MAX` without debt.
    pub value: i128,
    pub status: HealthStatus,
    /// The weighted collateral value.
    pub collateral_value: i128,
    /// Principal and accrued interest.
    pub debt_value: i128,
    /// The collateral value that is missing to the healthy threshold.
    pub shortfall: i128,
    /// The collateral value above what the healthy threshold needs.
    pub available_to_withdraw: i128,
}

/// Collateral over debt in basis points; without debt the largest `i128`,
/// which stands for infinite health.
pub open spec fn health_value(collateral_value: int, debt_value: int) -> int {
    if debt_value == 0 {
        i128::MAX as int
    } else {
        trunc_div(collateral_value * 10000, debt_value)
    }
}

/// The status ladder over a health factor.
pub open spec fn status_of(value: int) -> HealthStatus {
    if value >= 11000 {
        HealthStatus::Healthy
    } else if value >= 10200 {
        HealthStatus::Warning
    } else if value >= 10000 {
        HealthStatus::Critical
    } else {
        HealthStatus::Liquidatable
    }
}

/// The collateral value that keeps `debt_value` exactly at the healthy
/// threshold.
pub open spec fn healthy_collateral(debt_value: int) -> int {
    trunc_div(debt_value * 11000, 10000)
}

/// The collateral value missing to the healthy threshold; 0 for a position
/// that is healthy or has no positive debt.
pub open spec fn shortfall(collateral_value: int, debt_value: int) -> int {
    if health_value(collateral_value, debt_value) < 11000 && debt_value > 0 && healthy_collateral(
        debt_value,
    ) > collateral_value {
        healthy_collateral(debt_value) - collateral_value
    } else {
        0
    }
}

/// The collateral value above what the healthy threshold needs; without debt
/// all of the collateral.
pub open spec fn withdrawable(collateral_value: int, debt_value: int) -> int {
    if debt_value == 0 {
        collateral_value
    } else if collateral_value > healthy_collateral(debt_value) {
        collateral_value - healthy_collateral(debt_value)
    } else {
        0
    }
}

/// Every product and difference on the way to a health factor can be held
/// in an `i128`.
pub open spec fn health_fits(collateral_value: int, debt_value: int) -> bool {
    debt_value != 0 ==> {
        &&& fits_i128(collateral_value * 10000)
        &&& fits_i128(debt_value * 11000)
        &&& fits_i128(shortfall(collateral_value, debt_value))
        &&& fits_i128(withdrawable(collateral_value, debt_value))
    }
}

impl HealthFactor {
    /// The fields agree with one another: value, status, shortfall and
    /// withdrawable amount are those of the collateral and debt that the
    /// value holds.
    pub open spec fn well_formed(&self) -> bool {
        &&& self.value == health_value(self.collateral_value as int, self.debt_value as int)
        &&& self.status == status_of(self.value as int)
        &&& self.shortfall == shortfall(self.collateral_value as int, self.debt_value as int)
        &&& self.available_to_withdraw == withdrawable(
            self.collateral_value as int,
            self.debt_value as int,
        )
    }

    /// The health of a position from its weighted collateral value and its
    /// total debt.
    pub fn calculate(collateral_value: i128, debt_value: i128) -> (r: HealthFactor)
        requires
            health_fits(collateral_value as int, debt_value as int),
        ensures
            r.collateral_value == collateral_value,
            r.debt_value == debt_value,
            r.well_formed(),
            debt_value == 0 ==> r.value == i128::MAX && r.status == HealthStatus::Healthy,
    {
        let value: i128 = if debt_value == 0 {
            i128::MAX
        } else {
            proof {
                lemma_scaled_is_not_min(collateral_value as int);
            }
            div_trunc(collateral_value * 10000, debt_value)
        };
        let status = if value >= HEALTH_FACTOR_HEALTHY {
            HealthStatus::Healthy
        } else if value >= HEALTH_FACTOR_CRITICAL {
            HealthStatus::Warning
        } else if value >= HEALTH_FACTOR_LIQUIDATION {
            HealthStatus::Critical
        } else {
            HealthStatus::Liquidatable
        };
        let shortfall: i128 = if value < HEALTH_FACTOR_HEALTHY && debt_value > 0 {
            let needed: i128 = debt_value * HEALTH_FACTOR_HEALTHY / 10000;
            if needed > collateral_value {
                needed - collateral_value
            } else {
                0
            }
        } else {
            0
        };
        let available_to_withdraw: i128 = if debt_value == 0 {
            collateral_value
        } else {
            let min_collateral: i128 = debt_value * HEALTH_FACTOR_HEALTHY / 10000;
            if collateral_value > min_collateral {
                collateral_value - min_collateral
            } else {
                0
            }
        };
        HealthFactor {
            value,
            status,
            collateral_value,
            debt_value,
            shortfall,
            available_to_withdraw,
        }
    }

    /// The position is healthy.
    pub fn is_healthy(&self) -> (r: bool)
        ensures
            r == (self.status == HealthStatus::Healthy),
            self.well_formed() ==> r == (self.value >= 11000),
    {
        matches!(self.status, HealthStatus::Healthy)
    }

    /// The position may be liquidated.
    pub fn is_liquidatable(&self) -> (r: bool)
        ensures
            r == (self.status == HealthStatus::Liquidatable),
            self.well_formed() ==> r == (self.value < 10000),
    {
        matches!(self.status, HealthStatus::Liquidatable)
    }

    /// The position is in the critical zone, where stop-loss acts.
    pub fn should_trigger_stop_loss(&self) -> (r: bool)
        ensures
            r == (self.status == HealthStatus::Critical),
            self.well_formed() ==> r == (10000 <= self.value < 10200),
    {
        matches!(self.status, HealthStatus::Critical)
    }
}

/// The collateral to liquidate and the debt to repay so that the position
/// reaches `target_health`, at a penalty of `liquidation_penalty` basis
/// points: the plan of the partial liquidation solver.
pub fn calculate_liquidation_amount(
    current_collateral: i128,
    current_debt: i128,
    liquidation_penalty: u32,
    target_health: i128,
) -> (r: (i128, i128))
    requires
        partial_liquidation_fits(
            current_collateral as int,
            current_debt as int,
            liquidation_penalty as int,
            target_health as int,
        ),
    ensures
        (r.0 as int, r.1 as int) == partial_liquidation(
            current_collateral as int,
            current_debt as int,
            liquidation_penalty as int,
            target_health as int,
        ),
        current_collateral >= 0 && current_debt >= 0 ==> 0 <= r.0 <= current_collateral && 0 <= r.1
            <= current_debt,
        current_debt > 0 ==> r == (0i128, 0i128) || r == (current_collateral, current_debt),
{
    calculate_partial_liquidation(
        current_collateral,
        current_debt,
        liquidation_penalty,
        target_health,
    )
}

/// The health of a position, or `None` where a step on the way would leave
/// `i128`.
pub fn try_calculate_health(collateral_value: i128, debt_value: i128) -> (r: Option<HealthFactor>)
    ensures
        r.is_none() == !health_fits(collateral_value as int, debt_value as int),
        r.is_some() ==> r.unwrap().collateral_value == collateral_value && r.unwrap().debt_value
            == debt_value && r.unwrap().well_formed(),
{
    if debt_value != 0 {
        let scaled: i128 = match collateral_value.checked_mul(10000) {
            Some(product) => product,
            None => {
                return None;
            },
        };
        let needed: i128 = match debt_value.checked_mul(11000) {
            Some(product) => product / 10000,
            None => {
                return None;
            },
        };
        proof {
            lemma_scaled_is_not_min(collateral_value as int);
        }
        let value: i128 = div_trunc(scaled, debt_value);
        if value < 11000 && debt_value > 0 && needed > collateral_value && needed.checked_sub(
            collateral_value,
        ).is_none() {
            return None;
        }
        if collateral_value > needed && collateral_value.checked_sub(needed).is_none() {
            return None;
        }
    }
    Some(HealthFactor::calculate(collateral_value, debt_value))
}

/// The plan of the partial liquidation solver, or `None` where a step on the
/// way would leave `i128`.
pub fn try_calculate_liquidation_amount(
    current_collateral: i128,
    current_debt: i128,
    liquidation_penalty: u32,
    target_health: i128,
) -> (r: Option<(i128, i128)>)
    ensures
        r.is_none() == !partial_liquidation_fits(
            current_collateral as int,
            current_debt as int,
            liquidation_penalty as int,
            target_health as int,
        ),
        r.is_some() ==> (r.unwrap().0 as int, r.unwrap().1 as int) == partial_liquidation(
            current_collateral as int,
            current_debt as int,
            liquidation_penalty as int,
            target_health as int,
        ),
{
    try_calculate_partial_liquidation(
        current_collateral,
        current_debt,
        liquidation_penalty,
        target_health,
    )
}

} // verus!
