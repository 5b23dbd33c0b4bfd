//! The risk engine's rules over explicit inputs: the protocol's risk
//! parameters, the borrow ceiling under volatility, when stop-loss acts and
//! what a liquidation seizes.
//!
//! The health factor, the collateral and the volatility always come from the
//! caller; nothing here makes one up.

use vstd::prelude::*;
use crate::math::{fits_i128, floor_sqrt, is_floor_sqrt, min_int, trunc_div};
use crate::health::HealthStatus;
use crate::liquidation::{
    calculate_liquidation_bonus, calculate_partial_liquidation, liquidation_bonus_fits,
    partial_liquidation, partial_liquidation_fits, penalty_factor, protocol_share,
    try_calculate_liquidation_bonus, try_calculate_partial_liquidation,
};
use crate::stop_loss::{
    calculate_swap_amount, swap_amount, swap_amount_computable, swap_amount_fits,
};
use crate::volatility::{adjusted_ltv, calculate_adjusted_ltv, scale_bp, try_calculate_safe_borrow};

verus! {

/// The most slippage that a stop-loss may allow (10%), in basis points.
pub const MAX_STOP_LOSS_SLIPPAGE: u32 = 1000;

/// The protocol's risk parameters. The admin owns them; every rule reads
/// them.
#[derive(Copy, Clone, Debug, PartialEq, Eq, Structural)]
pub struct RiskParameters {
    /// Sensitivity of the borrow ceiling to volatility, in basis points.
    pub k_factor: u32,
    /// The horizon of the volatility adjustment in days.
    pub time_horizon_days: u32,
    /// At or below this health factor stop-loss acts.
    pub stop_loss_threshold: i128,
    /// Below this health factor a position may be liquidated.
    pub liquidation_threshold: i128,
    /// The health factor that a liquidation restores.
    pub target_health_factor: i128,
    /// What a liquidation seizes beyond the debt repaid, in basis points.
    pub liquidation_penalty: u32,
    /// The protocol's fee on a liquidation, in basis points.
    pub protocol_fee: u32,
    /// The floor under the adjusted loan-to-value ratio, in basis points.
    pub min_collateral_factor: u32,
}

impl RiskParameters {
    /// The parameters that hold where none were set.
    pub open spec fn standard() -> RiskParameters {
        RiskParameters {
            k_factor: 100,
            time_horizon_days: 30,
            stop_loss_threshold: 10200,
            liquidation_threshold: 10000,
            target_health_factor: 10500,
            liquidation_penalty: 500,
            protocol_fee: 100,
            min_collateral_factor: 3000,
        }
    }
}

impl Default for RiskParameters {
    fn default() -> (r: RiskParameters)
        ensures
            r == RiskParameters::standard(),
    {
        RiskParameters {
            k_factor: 100,
            time_horizon_days: 30,
            stop_loss_threshold: 10200,
            liquidation_threshold: 10000,
            target_health_factor: 10500,
            liquidation_penalty: 500,
            protocol_fee: 100,
            min_collateral_factor: 3000,
        }
    }
}

/// Why the risk engine refuses.
#[derive(Copy, Clone, Debug, PartialEq, Eq, Structural)]
pub enum RiskError {
    /// The caller may not do this.
    Unauthorized,
    /// The position may not be liquidated; for a stop-loss: it is already
    /// below the liquidation threshold, where stop-loss comes too late.
    NotLiquidatable,
    /// The position is above the stop-loss threshold.
    PositionHealthy,
    /// The owner has not enabled stop-loss.
    StopLossNotEnabled,
    /// The swap failed.
    SwapFailed,
    /// A parameter is out of range.
    InvalidParams,
    /// The oracle failed.
    OracleError,
    /// The pool failed.
    PoolError,
    /// The collateral does not cover the swap.
    InsufficientCollateral,
    /// The lending back-end failed.
    BlendAdapterError,
    /// The contract is initialised already.
    AlreadyInitialized,
}

impl RiskError {
    /// The number by which the error is known outside.
    pub fn code(&self) -> (r: u32)
        ensures
            r == match *self {
                RiskError::Unauthorized => 1u32,
                RiskError::NotLiquidatable => 2u32,
                RiskError::PositionHealthy => 3u32,
                RiskError::StopLossNotEnabled => 4u32,
                RiskError::SwapFailed => 5u32,
                RiskError::InvalidParams => 6u32,
                RiskError::OracleError => 7u32,
                RiskError::PoolError => 8u32,
                RiskError::InsufficientCollateral => 9u32,
                RiskError::BlendAdapterError => 10u32,
                RiskError::AlreadyInitialized => 11u32,
            },
    {
        match self {
            RiskError::Unauthorized => 1,
            RiskError::NotLiquidatable => 2,
            RiskError::PositionHealthy => 3,
            RiskError::StopLossNotEnabled => 4,
            RiskError::SwapFailed => 5,
            RiskError::InvalidParams => 6,
            RiskError::OracleError => 7,
            RiskError::PoolError => 8,
            RiskError::InsufficientCollateral => 9,
            RiskError::BlendAdapterError => 10,
            RiskError::AlreadyInitialized => 11,
        }
    }
}

/// What an owner has set for stop-loss.
#[derive(Copy, Clone, Debug, PartialEq, Eq, Structural)]
pub struct UserStopLossConfig {
    pub enabled: bool,
    /// The owner's own trigger threshold; the protocol's where this is not
    /// positive.
    pub custom_threshold: i128,
    /// The most slippage that a swap may have, in basis points.
    pub max_slippage: u32,
}

/// The amounts of one liquidation and when it happened.
#[derive(Copy, Clone, Debug, PartialEq, Eq, Structural)]
pub struct LiquidationEvent {
    pub collateral_seized: i128,
    pub debt_repaid: i128,
    /// What was seized beyond the debt repaid.
    pub penalty: i128,
    pub protocol_fee: i128,
    pub timestamp: u64,
}

/// The threshold at which stop-loss acts for this owner.
pub open spec fn stop_loss_trigger(params: RiskParameters, config: UserStopLossConfig) -> int {
    if config.custom_threshold > 0 {
        config.custom_threshold as int
    } else {
        params.stop_loss_threshold as int
    }
}

/// The collateral to swap, or why stop-loss does not act.
pub open spec fn stop_loss_answer(
    params: RiskParameters,
    config: Option<UserStopLossConfig>,
    collateral: int,
    debt: int,
    health: int,
) -> Result<int, RiskError> {
    if config.is_none() || !config.unwrap().enabled {
        Err(RiskError::StopLossNotEnabled)
    } else if health > stop_loss_trigger(params, config.unwrap()) {
        Err(RiskError::PositionHealthy)
    } else if health < params.liquidation_threshold {
        Err(RiskError::NotLiquidatable)
    } else {
        Ok(swap_amount(collateral, debt, health, params.target_health_factor as int))
    }
}

/// A stop-loss can be decided: where it acts, the swap can be computed.
pub open spec fn stop_loss_computes(
    params: RiskParameters,
    config: Option<UserStopLossConfig>,
    collateral: int,
    debt: int,
    health: int,
) -> bool {
    stop_loss_answer(params, config, collateral, debt, health).is_ok() ==> swap_amount_fits(
        collateral,
        debt,
        health,
        params.target_health_factor as int,
    )
}

/// The most debt that the collateral pays for at the penalty.
pub open spec fn max_liquidation_debt(params: RiskParameters, collateral: int) -> int {
    trunc_div(collateral * 10000, penalty_factor(params.liquidation_penalty as int))
}

/// The plan of the partial liquidation solver under the protocol's penalty
/// and target: the pair (collateral to seize, debt to repay).
pub open spec fn liquidation_plan(params: RiskParameters, collateral: int, debt: int) -> (int, int) {
    partial_liquidation(
        collateral,
        debt,
        params.liquidation_penalty as int,
        params.target_health_factor as int,
    )
}

/// The debt that a liquidation repays: what the liquidator offers, held to
/// the repayment of the plan.
pub open spec fn liquidation_repay(params: RiskParameters, collateral: int, debt: int, debt_to_repay: int) -> int {
    min_int(debt_to_repay, liquidation_plan(params, collateral, debt).1)
}

/// The collateral that a liquidation seizes: the debt repaid at the penalty
/// factor, held to the collateral of the plan.
pub open spec fn liquidation_seize(params: RiskParameters, collateral: int, debt: int, debt_to_repay: int) -> int {
    min_int(
        trunc_div(
            liquidation_repay(params, collateral, debt, debt_to_repay) * penalty_factor(
                params.liquidation_penalty as int,
            ),
            10000,
        ),
        liquidation_plan(params, collateral, debt).0,
    )
}

/// The protocol's fee: its share of the bonus, which is what is seized
/// beyond what is repaid.
pub open spec fn liquidation_fee(params: RiskParameters, collateral: int, debt: int, debt_to_repay: int) -> int {
    protocol_share(
        liquidation_seize(params, collateral, debt, debt_to_repay),
        liquidation_repay(params, collateral, debt, debt_to_repay),
        params.protocol_fee as int,
    )
}

/// No step on the way to a liquidation leaves `i128`.
pub open spec fn liquidation_fits(params: RiskParameters, collateral: int, debt: int, debt_to_repay: int) -> bool {
    let repay = liquidation_repay(params, collateral, debt, debt_to_repay);
    &&& partial_liquidation_fits(
        collateral,
        debt,
        params.liquidation_penalty as int,
        params.target_health_factor as int,
    )
    &&& fits_i128(repay * penalty_factor(params.liquidation_penalty as int))
    &&& liquidation_bonus_fits(
        liquidation_seize(params, collateral, debt, debt_to_repay),
        repay,
        params.protocol_fee as int,
    )
}

/// The status of a position under the protocol's thresholds: healthy from
/// 11000, warning from the stop-loss threshold, critical from the
/// liquidation threshold, liquidatable below it.
pub open spec fn status_under(params: RiskParameters, health: int) -> HealthStatus {
    if health >= 11000 {
        HealthStatus::Healthy
    } else if health >= params.stop_loss_threshold {
        HealthStatus::Warning
    } else if health >= params.liquidation_threshold {
        HealthStatus::Critical
    } else {
        HealthStatus::Liquidatable
    }
}

/// The namespace of the risk engine's rules.
pub struct RiskEngineContract;

impl RiskEngineContract {
    /// Integer square root by Newton's method.
    pub fn integer_sqrt(n: i128) -> (r: i128)
        ensures
            r == floor_sqrt(n as int),
            n <= 0 ==> r == 0,
            n >= 0 ==> is_floor_sqrt(n as int, r as int),
    {
        crate::math::integer_sqrt(n)
    }

    /// The loan-to-value ratio of an asset under the protocol's parameters,
    /// at the asset's annualised volatility.
    pub fn calculate_adjusted_ltv(params: &RiskParameters, volatility_bp: u32, base_ltv: u32) -> (r: u32)
        ensures
            r == adjusted_ltv(
                base_ltv as int,
                volatility_bp as int,
                params.k_factor as int,
                params.time_horizon_days as int,
                params.min_collateral_factor as int,
            ),
            r >= params.min_collateral_factor,
    {
        calculate_adjusted_ltv(
            base_ltv,
            volatility_bp,
            params.k_factor,
            params.time_horizon_days,
            params.min_collateral_factor,
        )
    }

    /// What may safely be borrowed against `collateral_value` of an asset
    /// with the given volatility and base ratio.
    pub fn calculate_safe_borrow(
        params: &RiskParameters,
        volatility_bp: u32,
        collateral_value: i128,
        base_ltv: u32,
    ) -> (r: i128)
        requires
            fits_i128(
                collateral_value * adjusted_ltv(
                    base_ltv as int,
                    volatility_bp as int,
                    params.k_factor as int,
                    params.time_horizon_days as int,
                    params.min_collateral_factor as int,
                ),
            ),
        ensures
            r == scale_bp(
                collateral_value as int,
                adjusted_ltv(
                    base_ltv as int,
                    volatility_bp as int,
                    params.k_factor as int,
                    params.time_horizon_days as int,
                    params.min_collateral_factor as int,
                ),
            ),
    {
        let ltv: u32 = Self::calculate_adjusted_ltv(params, volatility_bp, base_ltv);
        collateral_value * ltv as i128 / 10000
    }

    /// Accepts an owner's stop-loss settings, unless they allow more than
    /// 10% slippage.
    pub fn enable_stop_loss(config: UserStopLossConfig) -> (r: Result<UserStopLossConfig, RiskError>)
        ensures
            config.max_slippage > 1000 ==> r == Err::<UserStopLossConfig, RiskError>(
                RiskError::InvalidParams,
            ),
            config.max_slippage <= 1000 ==> r == Ok::<UserStopLossConfig, RiskError>(config),
    {
        if config.max_slippage > MAX_STOP_LOSS_SLIPPAGE {
            return Err(RiskError::InvalidParams);
        }
        Ok(config)
    }

    /// Whether a stop-loss can be decided: whether `trigger_stop_loss` may be
    /// called.
    pub fn stop_loss_computable(
        params: &RiskParameters,
        config: Option<UserStopLossConfig>,
        collateral: i128,
        debt: i128,
        health_factor: i128,
    ) -> (ok: bool)
        ensures
            ok == stop_loss_computes(
                *params,
                config,
                collateral as int,
                debt as int,
                health_factor as int,
            ),
    {
        let settings = match config {
            Some(c) => c,
            None => {
                return true;
            },
        };
        let threshold: i128 = if settings.custom_threshold > 0 {
            settings.custom_threshold
        } else {
            params.stop_loss_threshold
        };
        if !settings.enabled || health_factor > threshold || health_factor
            < params.liquidation_threshold {
            return true;
        }
        swap_amount_computable(collateral, debt, health_factor, params.target_health_factor)
    }

    /// Decides a stop-loss for a position and gives the collateral to swap.
    ///
    /// Stop-loss acts for an owner who has enabled it, on a health factor at
    /// or below the trigger and not below the liquidation threshold.
    pub fn trigger_stop_loss(
        params: &RiskParameters,
        config: Option<UserStopLossConfig>,
        collateral: i128,
        debt: i128,
        health_factor: i128,
    ) -> (r: Result<i128, RiskError>)
        requires
            stop_loss_computes(*params, config, collateral as int, debt as int, health_factor as int),
        ensures
            match (
                r,
                stop_loss_answer(*params, config, collateral as int, debt as int, health_factor as int),
            ) {
                (Ok(swap), Ok(expected)) => swap == expected,
                (Err(e), Err(expected)) => e == expected,
                _ => false,
            },
    {
        let settings = match config {
            Some(c) => c,
            None => {
                return Err(RiskError::StopLossNotEnabled);
            },
        };
        if !settings.enabled {
            return Err(RiskError::StopLossNotEnabled);
        }
        let threshold: i128 = if settings.custom_threshold > 0 {
            settings.custom_threshold
        } else {
            params.stop_loss_threshold
        };
        if health_factor > threshold {
            return Err(RiskError::PositionHealthy);
        }
        if health_factor < params.liquidation_threshold {
            return Err(RiskError::NotLiquidatable);
        }
        Ok(calculate_swap_amount(collateral, debt, health_factor, params.target_health_factor))
    }

    /// The most that one liquidation may take from a position: all of its
    /// collateral, and the debt that this collateral pays for at the penalty.
    pub fn calculate_max_liquidation(params: &RiskParameters, collateral: i128) -> (r: (i128, i128))
        requires
            fits_i128(collateral * 10000),
        ensures
            r.0 == collateral,
            r.1 == max_liquidation_debt(*params, collateral as int),
    {
        let max_debt: i128 = collateral * 10000 / (10000 + params.liquidation_penalty as i128);
        (collateral, max_debt)
    }

    /// The most that one liquidation may take, or `None` where scaling the
    /// collateral would leave `i128`.
    pub fn try_calculate_max_liquidation(params: &RiskParameters, collateral: i128) -> (r: Option<
        (i128, i128),
    >)
        ensures
            r.is_none() == !fits_i128(collateral * 10000),
            r.is_some() ==> r.unwrap().0 == collateral && r.unwrap().1 == max_liquidation_debt(
                *params,
                collateral as int,
            ),
    {
        match collateral.checked_mul(10000) {
            Some(_) => Some(Self::calculate_max_liquidation(params, collateral)),
            None => None,
        }
    }

    /// Whether the amounts of a liquidation can be computed: whether
    /// `liquidate` may be called on a position below the liquidation
    /// threshold.
    pub fn liquidation_computable(
        params: &RiskParameters,
        collateral: i128,
        debt: i128,
        debt_to_repay: i128,
    ) -> (ok: bool)
        ensures
            ok == liquidation_fits(*params, collateral as int, debt as int, debt_to_repay as int),
    {
        let plan = match try_calculate_partial_liquidation(
            collateral,
            debt,
            params.liquidation_penalty,
            params.target_health_factor,
        ) {
            Some(p) => p,
            None => {
                return false;
            },
        };
        let penalty_factor: i128 = 10000 + params.liquidation_penalty as i128;
        let repay: i128 = if debt_to_repay > plan.1 { plan.1 } else { debt_to_repay };
        let at_penalty: i128 = match repay.checked_mul(penalty_factor) {
            Some(product) => product,
            None => {
                return false;
            },
        };
        let seized: i128 = if at_penalty / 10000 > plan.0 { plan.0 } else { at_penalty / 10000 };
        try_calculate_liquidation_bonus(seized, repay, params.protocol_fee).is_some()
    }

    /// Liquidates a position at `now`, for up to `debt_to_repay`.
    ///
    /// A position at or above the liquidation threshold is not touched.
    /// Else the solver gives the plan that restores the target. The debt
    /// repaid is the liquidator's offer, held to the plan; the collateral
    /// seized is that debt at the penalty factor, held to the plan; the
    /// penalty is what is seized beyond what is repaid, and the fee is the
    /// protocol's share of it.
    pub fn liquidate(
        params: &RiskParameters,
        health_factor: i128,
        collateral: i128,
        debt: i128,
        debt_to_repay: i128,
        now: u64,
    ) -> (r: Result<LiquidationEvent, RiskError>)
        requires
            health_factor < params.liquidation_threshold ==> liquidation_fits(
                *params,
                collateral as int,
                debt as int,
                debt_to_repay as int,
            ),
        ensures
            health_factor >= params.liquidation_threshold ==> r == Err::<
                LiquidationEvent,
                RiskError,
            >(RiskError::NotLiquidatable),
            health_factor < params.liquidation_threshold ==> r.is_ok() && {
                let event = r.unwrap();
                &&& event.debt_repaid == liquidation_repay(
                    *params,
                    collateral as int,
                    debt as int,
                    debt_to_repay as int,
                )
                &&& event.collateral_seized == liquidation_seize(
                    *params,
                    collateral as int,
                    debt as int,
                    debt_to_repay as int,
                )
                &&& event.penalty == event.collateral_seized - event.debt_repaid
                &&& event.protocol_fee == liquidation_fee(
                    *params,
                    collateral as int,
                    debt as int,
                    debt_to_repay as int,
                )
                &&& event.timestamp == now
            },
    {
        if health_factor >= params.liquidation_threshold {
            return Err(RiskError::NotLiquidatable);
        }
        let (plan_collateral, plan_debt) = calculate_partial_liquidation(
            collateral,
            debt,
            params.liquidation_penalty,
            params.target_health_factor,
        );
        let actual_debt_repay: i128 = if debt_to_repay > plan_debt { plan_debt } else { debt_to_repay };
        let penalty_factor: i128 = 10000 + params.liquidation_penalty as i128;
        let collateral_to_seize: i128 = actual_debt_repay * penalty_factor / 10000;
        let final_collateral: i128 = if collateral_to_seize > plan_collateral {
            plan_collateral
        } else {
            collateral_to_seize
        };
        let (_, protocol_fee_amount) = calculate_liquidation_bonus(
            final_collateral,
            actual_debt_repay,
            params.protocol_fee,
        );
        Ok(
            LiquidationEvent {
                collateral_seized: final_collateral,
                debt_repaid: actual_debt_repay,
                penalty: final_collateral - actual_debt_repay,
                protocol_fee: protocol_fee_amount,
                timestamp: now,
            },
        )
    }

    /// What may safely be borrowed, or `None` where scaling the collateral
    /// value would leave `i128`.
    pub fn try_calculate_safe_borrow(
        params: &RiskParameters,
        volatility_bp: u32,
        collateral_value: i128,
        base_ltv: u32,
    ) -> (r: Option<i128>)
        ensures
            r.is_none() == !fits_i128(
                collateral_value * adjusted_ltv(
                    base_ltv as int,
                    volatility_bp as int,
                    params.k_factor as int,
                    params.time_horizon_days as int,
                    params.min_collateral_factor as int,
                ),
            ),
            r.is_some() ==> r.unwrap() == scale_bp(
                collateral_value as int,
                adjusted_ltv(
                    base_ltv as int,
                    volatility_bp as int,
                    params.k_factor as int,
                    params.time_horizon_days as int,
                    params.min_collateral_factor as int,
                ),
            ),
    {
        let ltv: u32 = Self::calculate_adjusted_ltv(params, volatility_bp, base_ltv);
        try_calculate_safe_borrow(collateral_value, ltv)
    }

    /// Whether the contract may be initialised: only once.
    pub fn initialize(initialized: bool) -> (r: Result<(), RiskError>)
        ensures
            r == if initialized {
                Err::<(), RiskError>(RiskError::AlreadyInitialized)
            } else {
                Ok::<(), RiskError>(())
            },
    {
        if initialized {
            Err(RiskError::AlreadyInitialized)
        } else {
            Ok(())
        }
    }

    /// The health factor with its status under the protocol's thresholds.
    pub fn check_position_health(params: &RiskParameters, health_factor: i128) -> (r: (
        i128,
        HealthStatus,
    ))
        ensures
            r.0 == health_factor,
            r.1 == status_under(*params, health_factor as int),
    {
        let status = if health_factor >= 11000 {
            HealthStatus::Healthy
        } else if health_factor >= params.stop_loss_threshold {
            HealthStatus::Warning
        } else if health_factor >= params.liquidation_threshold {
            HealthStatus::Critical
        } else {
            HealthStatus::Liquidatable
        };
        (health_factor, status)
    }
}

} // verus!
