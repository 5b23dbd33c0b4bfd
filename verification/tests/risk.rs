use vantis_risk::health::HealthStatus;
use vantis_risk::risk::{
    LiquidationEvent, RiskEngineContract, RiskError, RiskParameters, UserStopLossConfig,
};

#[test]
fn test_update_params() {
    let initial_params = RiskParameters::default();
    let new_params = RiskParameters {
        k_factor: 200,         // Changed
        time_horizon_days: 60, // Changed
        ..initial_params
    };
    assert_eq!(new_params.k_factor, 200);
    assert_eq!(new_params.time_horizon_days, 60);
    assert_eq!(new_params.min_collateral_factor, 3000);
}

#[test]
fn test_enable_disable_stop_loss() {
    let config = UserStopLossConfig {
        enabled: true,
        custom_threshold: 10300, // 1.03
        max_slippage: 100,       // 1%
    };
    let stored = RiskEngineContract::enable_stop_loss(config);
    assert!(stored.is_ok());
    assert!(stored.unwrap().enabled);
    assert_eq!(stored.unwrap().custom_threshold, 10300);
}

#[test]
fn test_calculate_safe_borrow() {
    let params = RiskParameters {
        k_factor: 100,
        time_horizon_days: 30,
        min_collateral_factor: 3000,
        ..RiskParameters::default()
    };
    let collateral_value = 1000_0000000i128; // 1000 USD
    let base_ltv = 7500; // 75%

    let safe_borrow =
        RiskEngineContract::calculate_safe_borrow(&params, 5000, collateral_value, base_ltv);

    let max_borrow = collateral_value * 7500 / 10000;
    assert!(safe_borrow <= max_borrow);
    assert!(safe_borrow > 0);
    assert_eq!(safe_borrow, 748_7000000);
}

#[test]
fn test_check_position_health() {
    let params = RiskParameters::default();
    let (health, status) = RiskEngineContract::check_position_health(&params, 11000);
    assert_eq!(health, 11000);
    assert_eq!(status, HealthStatus::Healthy);
}

#[test]
fn default_parameters() {
    let params = RiskParameters::default();
    assert_eq!(
        params,
        RiskParameters {
            k_factor: 100,
            time_horizon_days: 30,
            stop_loss_threshold: 10200,
            liquidation_threshold: 10000,
            target_health_factor: 10500,
            liquidation_penalty: 500,
            protocol_fee: 100,
            min_collateral_factor: 3000,
        }
    );
}

#[test]
fn position_health_ladder() {
    let params = RiskParameters::default();
    assert_eq!(RiskEngineContract::check_position_health(&params, 10999).1, HealthStatus::Warning);
    assert_eq!(RiskEngineContract::check_position_health(&params, 10200).1, HealthStatus::Warning);
    assert_eq!(RiskEngineContract::check_position_health(&params, 10199).1, HealthStatus::Critical);
    assert_eq!(RiskEngineContract::check_position_health(&params, 10000).1, HealthStatus::Critical);
    assert_eq!(
        RiskEngineContract::check_position_health(&params, 9999),
        (9999, HealthStatus::Liquidatable)
    );
}

#[test]
fn stop_loss_slippage_is_capped() {
    let config = UserStopLossConfig { enabled: true, custom_threshold: 0, max_slippage: 1001 };
    assert_eq!(RiskEngineContract::enable_stop_loss(config), Err(RiskError::InvalidParams));
    let config = UserStopLossConfig { enabled: true, custom_threshold: 0, max_slippage: 1000 };
    assert_eq!(RiskEngineContract::enable_stop_loss(config), Ok(config));
}

#[test]
fn trigger_stop_loss_answers() {
    let params = RiskParameters::default();
    let on = UserStopLossConfig { enabled: true, custom_threshold: 0, max_slippage: 100 };
    let off = UserStopLossConfig { enabled: false, custom_threshold: 0, max_slippage: 100 };
    assert_eq!(
        RiskEngineContract::trigger_stop_loss(&params, None, 1010, 1000, 10100),
        Err(RiskError::StopLossNotEnabled)
    );
    assert_eq!(
        RiskEngineContract::trigger_stop_loss(&params, Some(off), 1010, 1000, 10100),
        Err(RiskError::StopLossNotEnabled)
    );
    assert_eq!(
        RiskEngineContract::trigger_stop_loss(&params, Some(on), 1021, 1000, 10210),
        Err(RiskError::PositionHealthy)
    );
    assert_eq!(
        RiskEngineContract::trigger_stop_loss(&params, Some(on), 999, 1000, 9990),
        Err(RiskError::NotLiquidatable)
    );
    // target 10500: (1050 - 1010) * 10000 / 500 = 800.
    assert_eq!(RiskEngineContract::trigger_stop_loss(&params, Some(on), 1010, 1000, 10100), Ok(800));
    // The owner's own threshold takes the place of the protocol's.
    let custom = UserStopLossConfig { enabled: true, custom_threshold: 10300, max_slippage: 100 };
    // (1050 - 1025) * 10000 / 500 = 500.
    assert_eq!(
        RiskEngineContract::trigger_stop_loss(&params, Some(custom), 1025, 1000, 10250),
        Ok(500)
    );
}

#[test]
fn liquidate_answers() {
    let params = RiskParameters::default();
    assert_eq!(
        RiskEngineContract::liquidate(&params, 10000, 105000, 110000, 40000, 9),
        Err(RiskError::NotLiquidatable)
    );
    // Collateral 1050 pays for a debt of 1000 at the penalty of 5%.
    assert_eq!(RiskEngineContract::calculate_max_liquidation(&params, 1050), (1050, 1000));
    // Collateral 105000 on a debt of 110000: the penalty factor 10500 does
    // not exceed the target, so the plan is the whole position. An offer of
    // 40000 seizes 42000; the bonus is 2000, of which the protocol has 1%.
    assert_eq!(
        RiskEngineContract::liquidate(&params, 9545, 105000, 110000, 40000, 9),
        Ok(LiquidationEvent {
            collateral_seized: 42000,
            debt_repaid: 40000,
            penalty: 2000,
            protocol_fee: 20,
            timestamp: 9,
        })
    );
    // An offer above the debt is held to it, and what it seizes to the
    // collateral; no bonus is left, and no fee.
    assert_eq!(
        RiskEngineContract::liquidate(&params, 9000, 105000, 110000, 500000, 9),
        Ok(LiquidationEvent {
            collateral_seized: 105000,
            debt_repaid: 110000,
            penalty: -5000,
            protocol_fee: 0,
            timestamp: 9,
        })
    );
    // With a penalty factor above the target no repayment restores it: the
    // plan is empty and so is the liquidation.
    let steep = RiskParameters { liquidation_penalty: 1000, ..RiskParameters::default() };
    assert_eq!(
        RiskEngineContract::liquidate(&steep, 9000, 105000, 110000, 40000, 9),
        Ok(LiquidationEvent {
            collateral_seized: 0,
            debt_repaid: 0,
            penalty: 0,
            protocol_fee: 0,
            timestamp: 9,
        })
    );
}

#[test]
fn adjusted_ltv_under_the_parameters() {
    let params = RiskParameters::default();
    assert_eq!(RiskEngineContract::calculate_adjusted_ltv(&params, 5000, 7500), 7487);
    assert_eq!(RiskEngineContract::calculate_adjusted_ltv(&params, 0, 7500), 7500);
    assert_eq!(RiskEngineContract::calculate_adjusted_ltv(&params, 0, 2000), 3000);
    assert_eq!(RiskEngineContract::integer_sqrt(30), 5);
}

#[test]
fn risk_error_codes() {
    assert_eq!(RiskError::Unauthorized.code(), 1);
    assert_eq!(RiskError::NotLiquidatable.code(), 2);
    assert_eq!(RiskError::PositionHealthy.code(), 3);
    assert_eq!(RiskError::StopLossNotEnabled.code(), 4);
    assert_eq!(RiskError::SwapFailed.code(), 5);
    assert_eq!(RiskError::InvalidParams.code(), 6);
    assert_eq!(RiskError::OracleError.code(), 7);
    assert_eq!(RiskError::PoolError.code(), 8);
    assert_eq!(RiskError::InsufficientCollateral.code(), 9);
    assert_eq!(RiskError::BlendAdapterError.code(), 10);
    assert_eq!(RiskError::AlreadyInitialized.code(), 11);
    assert_eq!(RiskEngineContract::initialize(false), Ok(()));
    assert_eq!(RiskEngineContract::initialize(true), Err(RiskError::AlreadyInitialized));
}

#[test]
fn checks_before_risk_decisions() {
    let params = RiskParameters::default();
    let on = UserStopLossConfig { enabled: true, custom_threshold: 0, max_slippage: 100 };
    assert!(RiskEngineContract::stop_loss_computable(&params, Some(on), 1010, 1000, 10100));
    assert!(!RiskEngineContract::stop_loss_computable(&params, Some(on), 1010, i128::MAX, 10100));
    // Where stop-loss does not act nothing is computed.
    assert!(RiskEngineContract::stop_loss_computable(&params, None, 1010, i128::MAX, 10100));
    assert!(RiskEngineContract::stop_loss_computable(&params, Some(on), 1010, i128::MAX, 10300));
    assert!(RiskEngineContract::stop_loss_computable(&params, Some(on), 1010, i128::MAX, 9000));

    assert_eq!(
        RiskEngineContract::try_calculate_max_liquidation(&params, 1050),
        Some((1050, 1000))
    );
    assert_eq!(RiskEngineContract::try_calculate_max_liquidation(&params, i128::MAX), None);
    assert!(RiskEngineContract::liquidation_computable(&params, 1050, 1100, 400));
    assert!(!RiskEngineContract::liquidation_computable(&params, i128::MAX, 1100, 400));
    assert!(!RiskEngineContract::liquidation_computable(&params, 1050, 1100, i128::MIN));

    assert_eq!(
        RiskEngineContract::try_calculate_safe_borrow(&params, 5000, 1000_0000000, 7500),
        Some(748_7000000)
    );
    assert_eq!(RiskEngineContract::try_calculate_safe_borrow(&params, 5000, i128::MAX, 7500), None);
}
