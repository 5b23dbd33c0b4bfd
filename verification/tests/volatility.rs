use vantis_risk::math::integer_sqrt;
use vantis_risk::volatility::{
    calculate_adjusted_ltv, calculate_effective_rate, calculate_safe_borrow,
    try_calculate_effective_rate, try_calculate_safe_borrow,
};

#[test]
fn test_adjusted_ltv_no_volatility() {
    let result = calculate_adjusted_ltv(
        7500, // 75% base
        0,    // 0% volatility
        100,  // 1% k factor
        30,   // 30 days
        3000, // 30% minimum
    );
    assert_eq!(result, 7500); // No adjustment without volatility
}

#[test]
fn test_adjusted_ltv_with_volatility() {
    let result = calculate_adjusted_ltv(
        7500, // 75% base
        5000, // 50% volatility
        100,  // 1% k factor
        30,   // 30 days
        3000, // 30% minimum
    );
    // Should be less than 75% due to volatility
    assert!(result < 7500);
    assert!(result >= 3000); // Above minimum
}

#[test]
fn test_adjusted_ltv_floor() {
    let result = calculate_adjusted_ltv(
        5000,  // 50% base
        10000, // 100% volatility (very high)
        500,   // 5% k factor (aggressive)
        90,    // 90 days
        3000,  // 30% minimum
    );
    assert!(result < 5000);
    assert!(result >= 3000);
}

#[test]
fn volatility_test_safe_borrow_calculation() {
    let collateral = 1000_0000000i128; // 1000 units
    let ltv = 7500; // 75%

    let safe_borrow = calculate_safe_borrow(collateral, ltv);
    assert_eq!(safe_borrow, 750_0000000); // 750 units
}

#[test]
fn test_effective_rate_positive() {
    // Borrow rate 10%, yield 5% -> effective 5%
    let rate = calculate_effective_rate(
        1000, // 10% borrow
        500,  // 5% yield
        1000, // principal
        1000, // collateral
    );
    assert_eq!(rate, 500); // 5% net cost
}

#[test]
fn test_effective_rate_negative() {
    // Borrow rate 5%, yield 10% -> effective -5% (earning)
    let rate = calculate_effective_rate(
        500,  // 5% borrow
        1000, // 10% yield
        1000, // principal
        1000, // collateral
    );
    assert_eq!(rate, -500); // -5% (user earns)
}

#[test]
fn volatility_test_integer_sqrt() {
    assert_eq!(integer_sqrt(0), 0);
    assert_eq!(integer_sqrt(1), 1);
    assert_eq!(integer_sqrt(4), 2);
    assert_eq!(integer_sqrt(9), 3);
    assert_eq!(integer_sqrt(100), 10);
    assert_eq!(integer_sqrt(30), 5); // √30 ≈ 5.47, floor is 5
}

#[test]
fn test_volatility_adjusted_ltv() {
    // Base 75%, 50% volatility, 1% k, 30 days
    let adjusted = calculate_adjusted_ltv(7500, 5000, 100, 30, 3000);

    // Should be reduced from base
    assert!(adjusted < 7500);
    // Should be above minimum
    assert!(adjusted >= 3000);
}

#[test]
fn test_effective_rate_calculation() {
    // When yield exceeds borrow rate
    let rate = calculate_effective_rate(500, 1000, 1000, 1000);
    assert!(rate < 0); // Negative = user earning

    // When borrow rate exceeds yield
    let rate = calculate_effective_rate(1000, 500, 1000, 1000);
    assert!(rate > 0); // Positive = user paying
}

#[test]
fn adjusted_ltv_exact_values() {
    // sqrt(30) = 5, 5 * 1000 / 19 = 263; 100 * 5000 * 263 / 10_000_000 = 13.
    assert_eq!(calculate_adjusted_ltv(7500, 5000, 100, 30, 3000), 7487);
    // sqrt(90) = 9, 9 * 1000 / 19 = 473; 500 * 10000 * 473 / 10_000_000 = 236.
    assert_eq!(calculate_adjusted_ltv(5000, 10000, 500, 90, 3000), 4764);
}

#[test]
fn adjusted_ltv_stops_at_the_floor() {
    // sqrt(365) = 19, scaled 1000; 10000 * 10000 * 1000 / 10_000_000 = 10000.
    assert_eq!(calculate_adjusted_ltv(7500, 10000, 10000, 365, 3000), 3000);
    // An adjustment far beyond the base ratio still gives the floor.
    assert_eq!(calculate_adjusted_ltv(7500, u32::MAX, u32::MAX, u32::MAX, 3000), 3000);
    // A floor above the base ratio wins even without volatility.
    assert_eq!(calculate_adjusted_ltv(2000, 0, 100, 30, 3000), 3000);
}

#[test]
fn safe_borrow_is_exact_in_basis_points() {
    assert_eq!(calculate_safe_borrow(1000, 7500), 750);
    assert_eq!(calculate_safe_borrow(999, 7500), 749);
    assert_eq!(calculate_safe_borrow(-999, 7500), -749);
    assert_eq!(calculate_safe_borrow(0, 7500), 0);
}

#[test]
fn effective_rate_is_zero_without_principal() {
    assert_eq!(calculate_effective_rate(1000, 500, 0, 1000), 0);
}

#[test]
fn effective_rate_weighs_collateral_against_principal() {
    // cost 100, yield 2000 * 500 / 10000 = 100: net 0.
    assert_eq!(calculate_effective_rate(1000, 500, 1000, 2000), 0);
    // negative principal: cost -100, yield 50, net -150; -150 * 10000 / -1000 = 1500.
    assert_eq!(calculate_effective_rate(1000, 500, -1000, 1000), 1500);
}

#[test]
fn integer_sqrt_brackets_its_argument() {
    let samples: [i128; 12] = [
        0, 1, 2, 3, 4, 8, 15, 16, 17, 1_000_000, 999_999_999_999, i128::MAX,
    ];
    for n in samples {
        let r = integer_sqrt(n);
        assert!(r >= 0);
        assert!(r.checked_mul(r).unwrap() <= n);
        match (r + 1).checked_mul(r + 1) {
            Some(next) => assert!(n < next),
            None => {}
        }
    }
    assert_eq!(integer_sqrt(i128::MAX), 13043817825332782212);
}

#[test]
fn integer_sqrt_of_a_negative_is_zero() {
    assert_eq!(integer_sqrt(-1), 0);
    assert_eq!(integer_sqrt(i128::MIN), 0);
}

#[test]
fn safe_borrow_overflow_is_reported() {
    assert_eq!(try_calculate_safe_borrow(1000, 7500), Some(750));
    assert_eq!(try_calculate_safe_borrow(i128::MAX, 7500), None);
    assert_eq!(try_calculate_safe_borrow(i128::MIN, 2), None);
    assert_eq!(try_calculate_safe_borrow(i128::MAX, 1), Some(i128::MAX / 10000));
    assert_eq!(try_calculate_safe_borrow(i128::MAX, 0), Some(0));
}

#[test]
fn effective_rate_overflow_is_reported() {
    assert_eq!(try_calculate_effective_rate(1000, 500, 1000, 1000), Some(500));
    assert_eq!(try_calculate_effective_rate(1000, 500, 0, i128::MAX), Some(0));
    assert_eq!(try_calculate_effective_rate(1000, 500, i128::MAX, 1000), None);
    assert_eq!(try_calculate_effective_rate(1000, 500, 1000, i128::MAX), None);
    assert_eq!(try_calculate_effective_rate(10000, 0, i128::MAX / 10000, 0), Some(10000));
    // Cost less a negative yield, times 10000, leaves i128.
    assert_eq!(
        try_calculate_effective_rate(10000, -10000, i128::MAX / 10000, i128::MAX / 10000),
        None
    );
}
