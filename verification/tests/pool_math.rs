use soroban_sdk::{Address, Env};
use vantis_risk::borrow::{
    calculate_interest, calculate_interest_rate, calculate_utilization, interest_rate_computable,
    try_calculate_interest, try_calculate_interest_rate, try_calculate_utilization, BorrowPosition,
};
use vantis_risk::collateral::{
    calculate_weighted_value, is_withdrawal_safe, try_calculate_weighted_value,
    try_is_withdrawal_safe,
};
use vantis_risk::health::{
    calculate_liquidation_amount, try_calculate_health, try_calculate_liquidation_amount,
    HealthFactor, HealthStatus,
};

#[test]
fn test_health_factor_calculation() {
    // 1000 collateral, 500 debt = HF 2.0
    let hf = HealthFactor::calculate(1000, 500);
    assert_eq!(hf.value, 20000); // 2.0 in basis points
    assert!(hf.is_healthy());

    // 1000 collateral, 1000 debt = HF 1.0 (at threshold = Critical)
    let hf = HealthFactor::calculate(1000, 1000);
    assert_eq!(hf.value, 10000);
    assert_eq!(hf.status, HealthStatus::Critical);

    // 900 collateral, 1000 debt = HF 0.9 (below threshold = Liquidatable)
    let hf = HealthFactor::calculate(900, 1000);
    assert_eq!(hf.value, 9000);
    assert_eq!(hf.status, HealthStatus::Liquidatable);
    assert!(hf.is_liquidatable());

    // No debt = infinite health
    let hf = HealthFactor::calculate(1000, 0);
    assert_eq!(hf.value, i128::MAX);
    assert!(hf.is_healthy());
}

#[test]
fn test_health_status() {
    // > 1.1 = healthy
    let hf = HealthFactor::calculate(1200, 1000);
    assert_eq!(hf.status, HealthStatus::Healthy);

    // 1.0 - 1.1 = warning
    let hf = HealthFactor::calculate(1050, 1000);
    assert_eq!(hf.status, HealthStatus::Warning);

    // ~1.02 = critical
    let hf = HealthFactor::calculate(1015, 1000);
    assert_eq!(hf.status, HealthStatus::Critical);

    // < 1.0 = liquidatable
    let hf = HealthFactor::calculate(900, 1000);
    assert_eq!(hf.status, HealthStatus::Liquidatable);
}

#[test]
fn test_liquidation_amount() {
    // Position: 900 collateral, 1000 debt (HF = 0.9)
    // Target: HF = 1.05
    // Penalty: 5%
    let (collateral, debt) = calculate_liquidation_amount(
        900, 1000, 500,   // 5% penalty
        10500, // target 1.05
    );

    assert!(collateral > 0);
    assert!(debt > 0);
    assert!(collateral <= 900);
    assert!(debt <= 1000);
}

#[test]
fn test_interest_calculation() {
    // 1000 principal, 10% APR, 1 year
    let interest = calculate_interest(1000, 1000, 365 * 24 * 60 * 60);
    assert_eq!(interest, 100); // 10% of 1000

    // Half year
    let interest = calculate_interest(1000, 1000, 365 * 24 * 60 * 60 / 2);
    assert_eq!(interest, 50); // 5% of 1000
}

#[test]
fn test_utilization() {
    assert_eq!(calculate_utilization(0, 1000), 0);
    assert_eq!(calculate_utilization(500, 1000), 5000); // 50%
    assert_eq!(calculate_utilization(1000, 1000), 10000); // 100%
}

#[test]
fn test_interest_rate_kink() {
    // Below optimal (80%)
    let rate = calculate_interest_rate(
        5000, // 50% utilization
        200,  // 2% base
        400,  // 4% slope1
        7500, // 75% slope2
        8000, // 80% optimal
    );
    // At 50% util: 2% + (50/80 * 4%) = 2% + 2.5% = 4.5% = 450 bp
    assert_eq!(rate, 450);

    // Above optimal
    let rate = calculate_interest_rate(
        9000, // 90% utilization
        200, 400, 7500, 8000,
    );
    // At 90%: 2% + 4% + ((90-80)/(100-80) * 75%) = 6% + 37.5% = 43.5%
    assert_eq!(rate, 4350);
}

#[test]
fn health_status_boundaries() {
    assert_eq!(HealthFactor::calculate(11000, 10000).status, HealthStatus::Healthy);
    assert_eq!(HealthFactor::calculate(10999, 10000).status, HealthStatus::Warning);
    assert_eq!(HealthFactor::calculate(10200, 10000).status, HealthStatus::Warning);
    assert_eq!(HealthFactor::calculate(10199, 10000).status, HealthStatus::Critical);
    assert_eq!(HealthFactor::calculate(10000, 10000).status, HealthStatus::Critical);
    assert_eq!(HealthFactor::calculate(9999, 10000).status, HealthStatus::Liquidatable);
    assert!(HealthFactor::calculate(10100, 10000).should_trigger_stop_loss());
    assert!(!HealthFactor::calculate(10200, 10000).should_trigger_stop_loss());
}

#[test]
fn health_shortfall_and_withdrawable() {
    // Healthy threshold needs 1100 for a debt of 1000.
    let hf = HealthFactor::calculate(1000, 1000);
    assert_eq!(hf.shortfall, 100);
    assert_eq!(hf.available_to_withdraw, 0);
    assert_eq!(hf.collateral_value, 1000);
    assert_eq!(hf.debt_value, 1000);

    let hf = HealthFactor::calculate(1500, 1000);
    assert_eq!(hf.shortfall, 0);
    assert_eq!(hf.available_to_withdraw, 400);

    // Without debt all collateral may go and nothing is missing.
    let hf = HealthFactor::calculate(1500, 0);
    assert_eq!(hf.shortfall, 0);
    assert_eq!(hf.available_to_withdraw, 1500);
    assert_eq!(hf.status, HealthStatus::Healthy);
}

#[test]
fn liquidation_amount_exact_values() {
    // P = 10500 does not exceed the target 10500: the whole position.
    assert_eq!(calculate_liquidation_amount(900, 1000, 500, 10500), (900, 1000));
    // P = 11000 exceeds the target: every repayment at that penalty takes
    // health further from the target, so nothing is liquidated.
    assert_eq!(calculate_liquidation_amount(1000, 1000, 1000, 10500), (0, 0));
    assert_eq!(calculate_liquidation_amount(1040, 1000, 1000, 10500), (0, 0));
    // At the target, and without debt: nothing.
    assert_eq!(calculate_liquidation_amount(1050, 1000, 1000, 10500), (0, 0));
    assert_eq!(calculate_liquidation_amount(10, 0, 1000, 10500), (0, 0));
}

#[test]
fn interest_is_zero_without_principal_rate_or_time() {
    assert_eq!(calculate_interest(0, 1000, 1000), 0);
    assert_eq!(calculate_interest(-5, 1000, 1000), 0);
    assert_eq!(calculate_interest(1000, 0, 1000), 0);
    assert_eq!(calculate_interest(1000, 1000, 0), 0);
}

#[test]
fn interest_over_two_halves_is_within_one_of_the_whole() {
    let year: u64 = 365 * 24 * 60 * 60;
    let whole = calculate_interest(1001, 999, year);
    let halves = calculate_interest(1001, 999, year / 2) + calculate_interest(1001, 999, year / 2);
    assert_eq!(whole, 99);
    assert_eq!(halves, 98);
    assert!(whole - halves <= 1 && halves <= whole);
}

#[test]
fn utilization_of_an_empty_pool_is_zero() {
    assert_eq!(calculate_utilization(500, 0), 0);
    assert_eq!(calculate_utilization(1, 3), 3333);
}

#[test]
fn interest_rate_at_the_kink() {
    assert_eq!(calculate_interest_rate(8000, 200, 400, 7500, 8000), 600);
    assert_eq!(calculate_interest_rate(0, 200, 400, 7500, 8000), 200);
    assert_eq!(calculate_interest_rate(10000, 200, 400, 7500, 8000), 8100);
}

#[test]
fn weighted_value_scales_by_price_decimals_and_factor() {
    // 100 units with 7 decimals at a price of 2.0 (14 decimals), factor 75%.
    let amount: i128 = 100_0000000;
    let price: i128 = 200_000_000_000_000;
    assert_eq!(calculate_weighted_value(amount, price, 7500, 7), 150 * 100_000_000_000_000);
    assert_eq!(calculate_weighted_value(7, 3, 5000, 1), 1);
    assert_eq!(calculate_weighted_value(7, 3, 5000, 0), 10);
}

#[test]
fn withdrawal_safety() {
    assert!(is_withdrawal_safe(2000, 500, 1000, 15000));
    assert!(!is_withdrawal_safe(2000, 501, 1000, 15000));
    assert!(is_withdrawal_safe(2000, 5000, 0, 15000));
}

#[test]
fn interest_rate_computable_tells_when_the_curve_is_defined() {
    assert!(interest_rate_computable(5000, 200, 400, 7500, 8000));
    assert!(interest_rate_computable(9000, 200, 400, 7500, 8000));
    assert!(!interest_rate_computable(0, 200, 400, 7500, 0));
    assert!(!interest_rate_computable(10001, 200, 400, 7500, 10000));
    assert!(!interest_rate_computable(5000, 200, u32::MAX, 7500, 8000));
    assert!(!interest_rate_computable(5000, u32::MAX, 8000, 7500, 8000));
    assert!(!interest_rate_computable(9000, u32::MAX, 1, 7500, 8000));
}

#[test]
fn borrow_position_debt() {
    let env = Env::default();
    let owner =
        Address::from_str(&env, "GAAAAAAAAAAAAAAAAAAAAAAAAAAAAAAAAAAAAAAAAAAAAAAAAAAAAWHF");
    let mut position = BorrowPosition {
        owner,
        principal: 1000,
        accrued_interest: 25,
        borrow_rate: 450,
        last_accrual: 0,
        borrow_time: 0,
    };
    assert_eq!(position.total_debt(), 1025);
    assert_eq!(position.try_total_debt(), Some(1025));
    assert!(position.has_debt());
    position.principal = 0;
    assert!(position.has_debt());
    position.accrued_interest = 0;
    assert!(!position.has_debt());
    assert_eq!(position.total_debt(), 0);
    position.principal = i128::MAX;
    position.accrued_interest = 1;
    assert_eq!(position.try_total_debt(), None);
}

#[test]
fn pool_arithmetic_overflow_is_reported() {
    let year: u64 = 365 * 24 * 60 * 60;
    assert_eq!(try_calculate_interest(1000, 1000, year), Some(100));
    assert_eq!(try_calculate_interest(i128::MAX, 1000, year), None);
    assert_eq!(try_calculate_interest(i128::MAX / 1000, 1000, 2), None);
    assert_eq!(try_calculate_interest(i128::MAX, 0, year), Some(0));
    assert_eq!(try_calculate_interest(-5, 1000, year), Some(0));

    assert_eq!(try_calculate_utilization(500, 1000), Some(5000));
    assert_eq!(try_calculate_utilization(i128::MAX, 1000), None);
    assert_eq!(try_calculate_utilization(i128::MAX, 0), Some(0));

    assert_eq!(try_calculate_interest_rate(5000, 200, 400, 7500, 8000), Some(450));
    assert_eq!(try_calculate_interest_rate(0, 200, 400, 7500, 0), None);

    assert_eq!(try_calculate_weighted_value(7, 3, 5000, 1), Some(1));
    assert_eq!(try_calculate_weighted_value(7, 3, 5000, 39), None);
    assert_eq!(try_calculate_weighted_value(i128::MAX, 3, 5000, 1), None);
    assert_eq!(try_calculate_weighted_value(i128::MAX, 1, 20000, 0), None);

    assert_eq!(try_is_withdrawal_safe(2000, 500, 1000, 15000), Some(true));
    assert_eq!(try_is_withdrawal_safe(2000, 501, 1000, 15000), Some(false));
    assert_eq!(try_is_withdrawal_safe(i128::MAX, -1, 1000, 15000), None);
    assert_eq!(try_is_withdrawal_safe(i128::MAX, 0, 1000, 15000), None);
    assert_eq!(try_is_withdrawal_safe(i128::MAX, -1, 0, 15000), Some(true));

    let health = try_calculate_health(1000, 500).unwrap();
    assert_eq!(health.value, 20000);
    assert_eq!(health.status, HealthStatus::Healthy);
    assert!(try_calculate_health(i128::MAX, 500).is_none());
    assert!(try_calculate_health(1000, i128::MAX).is_none());
    assert_eq!(try_calculate_health(i128::MAX, 0).unwrap().value, i128::MAX);

    assert_eq!(try_calculate_liquidation_amount(900, 1000, 500, 10500), Some((900, 1000)));
    assert_eq!(try_calculate_liquidation_amount(i128::MAX, 1000, 500, 10500), None);
}
