use vantis_risk::collateral::CollateralOperation;
use vantis_risk::pool::{
    BorrowData, CollateralEntry, InterestRateParams, PoolError, Position, VantisPoolContract,
};

fn params() -> InterestRateParams {
    InterestRateParams { base_rate: 200, slope1: 400, slope2: 7500, optimal_utilization: 8000 }
}

fn position_with_xlm() -> Position {
    let mut position = Position::new();
    // XLM: collateral factor 75%, liquidation threshold 80%.
    position.add_asset(7500, 8000);
    position
}

#[test]
fn test_deposit_and_withdraw() {
    let mut position = position_with_xlm();
    VantisPoolContract::deposit(&mut position, 0, 500_0000000).unwrap(); // 500 XLM
    assert_eq!(position.balance(0), 500_0000000);

    VantisPoolContract::withdraw(&mut position, 0, 200_0000000).unwrap(); // 200 XLM
    assert_eq!(position.balance(0), 300_0000000);
}

#[test]
fn test_supply_and_borrow() {
    let mut pool = VantisPoolContract::new(params());
    let mut position = position_with_xlm();

    pool.supply(5000_0000000).unwrap(); // 5000 USDC
    assert_eq!(pool.reserves, 5000_0000000);

    VantisPoolContract::deposit(&mut position, 0, 1000_0000000).unwrap(); // 1000 XLM
    pool.borrow(&mut position, 500_0000000, 0).unwrap(); // 500 USDC

    assert_eq!(position.borrow.principal, 500_0000000);
    assert_eq!(pool.reserves, 4500_0000000);
    assert_eq!(pool.total_borrows, 500_0000000);
}

#[test]
fn test_repay() {
    let mut pool = VantisPoolContract::new(params());
    let mut position = position_with_xlm();
    pool.supply(5000_0000000).unwrap();
    VantisPoolContract::deposit(&mut position, 0, 1000_0000000).unwrap();
    pool.borrow(&mut position, 500_0000000, 0).unwrap();

    pool.repay(&mut position, 250_0000000, 0).unwrap();
    assert_eq!(position.borrow.principal, 250_0000000);

    pool.repay(&mut position, 250_0000000, 0).unwrap();
    assert_eq!(position.borrow.principal, 0);
}

#[test]
fn test_health_factor() {
    let mut pool = VantisPoolContract::new(params());
    let mut position = position_with_xlm();
    pool.supply(5000_0000000).unwrap();
    VantisPoolContract::deposit(&mut position, 0, 1000_0000000).unwrap();

    // No borrow = max health factor
    let hf = VantisPoolContract::calculate_health_factor(&position);
    assert_eq!(hf, i128::MAX);

    pool.borrow(&mut position, 500_0000000, 0).unwrap();

    // 1000 * 0.8 / 500 = 1.6 = 16000 basis points
    let hf = VantisPoolContract::calculate_health_factor(&position);
    assert_eq!(hf, 16000);
}

#[test]
fn deposit_then_withdraw_restores_the_position() {
    let mut position = position_with_xlm();
    position.add_asset(5000, 6000);
    VantisPoolContract::deposit(&mut position, 1, 40).unwrap();
    let before: Vec<CollateralEntry> = position.collateral.clone();

    VantisPoolContract::deposit(&mut position, 0, 777).unwrap();
    VantisPoolContract::withdraw(&mut position, 0, 777).unwrap();

    assert_eq!(position.collateral, before);
    assert_eq!(VantisPoolContract::calculate_health_factor(&position), i128::MAX);
}

#[test]
fn deposit_errors() {
    let mut position = position_with_xlm();
    assert_eq!(VantisPoolContract::deposit(&mut position, 0, 0), Err(PoolError::InvalidAmount));
    assert_eq!(VantisPoolContract::deposit(&mut position, 0, -5), Err(PoolError::InvalidAmount));
    assert_eq!(
        VantisPoolContract::deposit(&mut position, 1, 5),
        Err(PoolError::AssetNotSupported)
    );
    assert_eq!(position.balance(0), 0);
    assert_eq!(position.balance(1), 0);
}

#[test]
fn withdraw_errors() {
    let mut pool = VantisPoolContract::new(params());
    let mut position = position_with_xlm();
    pool.supply(1000).unwrap();
    VantisPoolContract::deposit(&mut position, 0, 1000).unwrap();
    assert_eq!(VantisPoolContract::withdraw(&mut position, 0, 0), Err(PoolError::InvalidAmount));
    assert_eq!(
        VantisPoolContract::withdraw(&mut position, 0, 1001),
        Err(PoolError::InsufficientCollateral)
    );
    assert_eq!(
        VantisPoolContract::withdraw(&mut position, 3, 1),
        Err(PoolError::InsufficientCollateral)
    );
    pool.borrow(&mut position, 300, 0).unwrap();
    // 1000 - 626 = 374 at 80% is 299: health 9966, below 10000.
    assert_eq!(
        VantisPoolContract::withdraw(&mut position, 0, 626),
        Err(PoolError::WithdrawalWouldLiquidate)
    );
    assert_eq!(position.balance(0), 1000);
    // 1000 - 625 = 375 at 80% is 300: health 10000.
    assert_eq!(VantisPoolContract::withdraw(&mut position, 0, 625), Ok(()));
    assert_eq!(position.balance(0), 375);
}

#[test]
fn borrow_errors() {
    let mut pool = VantisPoolContract::new(params());
    let mut position = position_with_xlm();
    pool.supply(1000).unwrap();
    VantisPoolContract::deposit(&mut position, 0, 1000).unwrap();
    assert_eq!(pool.borrow(&mut position, 0, 0), Err(PoolError::InvalidAmount));
    assert_eq!(pool.borrow(&mut position, 1001, 0), Err(PoolError::InsufficientLiquidity));
    // Capacity 750.
    assert_eq!(pool.borrow(&mut position, 751, 0), Err(PoolError::InsufficientCollateral));
    assert_eq!(pool.reserves, 1000);
    assert_eq!(pool.total_borrows, 0);
    assert_eq!(position.borrow, BorrowData { principal: 0, accrued_interest: 0, last_accrual: 0 });
    assert_eq!(pool.borrow(&mut position, 300, 7), Ok(()));
    assert_eq!(position.borrow, BorrowData { principal: 300, accrued_interest: 0, last_accrual: 7 });
    // What may still be borrowed is 750 - 300 = 450, and the debt counts
    // once more against it: 300 + 151 > 450.
    assert_eq!(VantisPoolContract::get_borrow_capacity(&position), 450);
    assert_eq!(pool.borrow(&mut position, 151, 7), Err(PoolError::InsufficientCollateral));
    assert_eq!(pool.borrow(&mut position, 150, 7), Ok(()));
}

#[test]
fn repay_errors_and_order() {
    let mut pool = VantisPoolContract::new(params());
    let mut position = position_with_xlm();
    assert_eq!(pool.repay(&mut position, 0, 0), Err(PoolError::InvalidAmount));
    assert_eq!(pool.repay(&mut position, 10, 0), Err(PoolError::NoBorrowPosition));

    position.borrow = BorrowData { principal: 1000, accrued_interest: 40, last_accrual: 0 };
    pool.reserves = 0;
    pool.total_borrows = 1000;
    // Interest first.
    assert_eq!(pool.repay(&mut position, 30, 0), Ok(30));
    assert_eq!(position.borrow, BorrowData { principal: 1000, accrued_interest: 10, last_accrual: 0 });
    // Then the principal.
    assert_eq!(pool.repay(&mut position, 110, 0), Ok(110));
    assert_eq!(position.borrow, BorrowData { principal: 900, accrued_interest: 0, last_accrual: 0 });
    // No more than the debt is taken.
    assert_eq!(pool.repay(&mut position, 5000, 0), Ok(900));
    assert_eq!(position.borrow.principal, 0);
    assert_eq!(pool.reserves, 1040);
    assert_eq!(pool.total_borrows, -40);
}

#[test]
fn supply_errors() {
    let mut pool = VantisPoolContract::new(params());
    assert_eq!(pool.supply(0), Err(PoolError::InvalidAmount));
    assert_eq!(pool.supply(-1), Err(PoolError::InvalidAmount));
    assert_eq!(pool.reserves, 0);
}

#[test]
fn accrual_over_one_year() {
    let year: u64 = 365 * 24 * 60 * 60;
    let mut debt = BorrowData { principal: 1000, accrued_interest: 0, last_accrual: 0 };
    VantisPoolContract::accrue_interest(&mut debt, 1000, year);
    assert_eq!(debt, BorrowData { principal: 1000, accrued_interest: 100, last_accrual: year });

    // Nothing accrues on no principal, and nothing at the same moment.
    let mut none = BorrowData { principal: 0, accrued_interest: 5, last_accrual: 3 };
    VantisPoolContract::accrue_interest(&mut none, 1000, year);
    assert_eq!(none, BorrowData { principal: 0, accrued_interest: 5, last_accrual: 3 });
    VantisPoolContract::accrue_interest(&mut debt, 1000, year);
    assert_eq!(debt.accrued_interest, 100);
}

#[test]
fn accrual_in_two_halves() {
    let year: u64 = 365 * 24 * 60 * 60;
    let mut debt = BorrowData { principal: 1000, accrued_interest: 0, last_accrual: 0 };
    VantisPoolContract::accrue_interest(&mut debt, 1000, year / 2);
    assert_eq!(debt.accrued_interest, 50);
    VantisPoolContract::accrue_interest(&mut debt, 1000, year);
    assert_eq!(debt.accrued_interest, 100);
    assert_eq!(debt.last_accrual, year);
}

#[test]
fn current_interest_rate_follows_utilization() {
    let mut pool = VantisPoolContract::new(params());
    // No liquidity: the base rate.
    assert_eq!(pool.get_current_interest_rate(), 200);
    pool.reserves = 500;
    pool.total_borrows = 500;
    // 50% utilisation: 200 + 5000 * 400 / 8000.
    assert_eq!(pool.get_current_interest_rate(), 450);
    pool.reserves = 100;
    pool.total_borrows = 900;
    assert_eq!(pool.get_current_interest_rate(), 4350);
}

#[test]
fn borrow_accrues_interest_first() {
    let year: u64 = 365 * 24 * 60 * 60;
    let mut pool = VantisPoolContract::new(params());
    let mut position = position_with_xlm();
    pool.supply(1000).unwrap();
    VantisPoolContract::deposit(&mut position, 0, 10000).unwrap();
    pool.borrow(&mut position, 500, 0).unwrap();
    // Utilisation 50%: rate 450. A year on: 500 * 450 / 10000 = 22.
    pool.borrow(&mut position, 100, year).unwrap();
    assert_eq!(
        position.borrow,
        BorrowData { principal: 600, accrued_interest: 22, last_accrual: year }
    );
}

#[test]
fn pool_error_codes() {
    assert_eq!(PoolError::Unauthorized.code(), 1);
    assert_eq!(PoolError::AssetNotSupported.code(), 2);
    assert_eq!(PoolError::InsufficientCollateral.code(), 3);
    assert_eq!(PoolError::InsufficientLiquidity.code(), 4);
    assert_eq!(PoolError::UnhealthyPosition.code(), 5);
    assert_eq!(PoolError::InvalidAmount.code(), 6);
    assert_eq!(PoolError::NoBorrowPosition.code(), 7);
    assert_eq!(PoolError::WithdrawalWouldLiquidate.code(), 8);
    assert_eq!(PoolError::RepayExceedsDebt.code(), 9);
    assert_eq!(PoolError::OracleError.code(), 10);
    assert_eq!(PoolError::BlendAdapterError.code(), 11);
    assert_eq!(PoolError::AlreadyInitialized.code(), 12);
    assert_eq!(VantisPoolContract::initialize(false), Ok(()));
    assert_eq!(VantisPoolContract::initialize(true), Err(PoolError::AlreadyInitialized));
    assert_eq!(BorrowData::default(), BorrowData { principal: 0, accrued_interest: 0, last_accrual: 0 });
}

#[test]
fn checks_before_accrual() {
    let mut pool = VantisPoolContract::new(params());
    assert!(pool.rate_computable());
    pool.reserves = i128::MAX;
    pool.total_borrows = 1;
    assert!(!pool.rate_computable());
    pool.reserves = 500;
    pool.total_borrows = 500;
    assert!(pool.rate_computable());
    // An optimum of zero leaves the curve undefined below the kink.
    pool.interest_params.optimal_utilization = 0;
    pool.total_borrows = 0;
    assert!(!pool.rate_computable());
    pool.interest_params.optimal_utilization = 8000;

    let debt = BorrowData { principal: 1000, accrued_interest: 0, last_accrual: 10 };
    assert!(pool.can_accrue(&debt, 10));
    assert!(pool.can_accrue(&debt, 11));
    // Time does not run backwards.
    assert!(!pool.can_accrue(&debt, 9));
    assert!(!VantisPoolContract::accrual_computable(&debt, 1000, 9));
    let huge = BorrowData { principal: i128::MAX / 2, accrued_interest: 0, last_accrual: 10 };
    assert!(!VantisPoolContract::accrual_computable(&huge, 1000, 11));
    assert!(VantisPoolContract::accrual_computable(&huge, 0, 11));
    let none = BorrowData { principal: 0, accrued_interest: 0, last_accrual: 10 };
    assert!(pool.can_accrue(&none, 0));
}

#[test]
fn checks_before_pool_operations() {
    let mut pool = VantisPoolContract::new(params());
    let mut position = position_with_xlm();
    pool.supply(1000).unwrap();
    VantisPoolContract::deposit(&mut position, 0, 1000).unwrap();
    assert!(VantisPoolContract::health_computable(&position));
    assert!(VantisPoolContract::capacity_computable(&position));
    assert!(VantisPoolContract::can_withdraw(&position, 0, 10));
    assert!(pool.can_borrow(&position, 300, 0));
    assert!(pool.can_repay(&position, 300, 0));

    // A balance whose weighted value leaves i128: without debt the health
    // factor needs no sum, with debt it does.
    position.collateral[0].amount = i128::MAX;
    assert!(VantisPoolContract::health_computable(&position));
    assert_eq!(VantisPoolContract::get_health_factor(&position), Some(i128::MAX));
    assert!(VantisPoolContract::can_withdraw(&position, 0, 10));
    assert!(!VantisPoolContract::capacity_computable(&position));
    assert!(!pool.can_borrow(&position, 300, 0));
    position.borrow = BorrowData { principal: 5, accrued_interest: 0, last_accrual: 0 };
    assert!(!VantisPoolContract::health_computable(&position));
    assert_eq!(VantisPoolContract::get_health_factor(&position), None);
    assert!(!VantisPoolContract::can_withdraw(&position, 0, 10));
    position.borrow = BorrowData { principal: 0, accrued_interest: 0, last_accrual: 0 };
    // What is refused before any sum is made needs no sum.
    assert!(VantisPoolContract::can_withdraw(&position, 0, 0));
    assert!(VantisPoolContract::can_withdraw(&position, 5, 10));
    assert!(pool.can_borrow(&position, 0, 0));
    assert!(pool.can_borrow(&position, 1001, 0));

    // A debt whose sum leaves i128.
    position.collateral[0].amount = 1000;
    position.borrow = BorrowData { principal: i128::MAX, accrued_interest: 1, last_accrual: 0 };
    assert!(!VantisPoolContract::health_computable(&position));
    assert!(!pool.can_repay(&position, 5, 0));
    assert!(pool.can_repay(&position, 0, 0));
    // Time that runs backwards.
    position.borrow = BorrowData { principal: 10, accrued_interest: 1, last_accrual: 5 };
    assert!(!pool.can_repay(&position, 5, 4));
    assert!(!pool.can_borrow(&position, 5, 4));
    assert!(pool.can_repay(&position, 5, 5));
}

#[test]
fn total_deposits_follow_the_movements() {
    let after = VantisPoolContract::total_deposits_after(1000, CollateralOperation::Deposit, 250);
    assert_eq!(after, Some(1250));
    assert_eq!(
        VantisPoolContract::total_deposits_after(1250, CollateralOperation::Withdraw, 250),
        Some(1000)
    );
    assert_eq!(
        VantisPoolContract::total_deposits_after(1250, CollateralOperation::Liquidate, 50),
        Some(1200)
    );
    assert_eq!(
        VantisPoolContract::total_deposits_after(i128::MAX, CollateralOperation::Deposit, 1),
        None
    );
    assert_eq!(
        VantisPoolContract::total_deposits_after(i128::MIN, CollateralOperation::Withdraw, 1),
        None
    );
}

#[test]
fn health_factor_without_debt_is_the_sentinel() {
    let mut position = position_with_xlm();
    position.add_asset(5000, 6000);
    VantisPoolContract::deposit(&mut position, 0, 777).unwrap();
    VantisPoolContract::deposit(&mut position, 1, 9).unwrap();
    VantisPoolContract::withdraw(&mut position, 0, 777).unwrap();
    assert_eq!(VantisPoolContract::get_health_factor(&position), Some(i128::MAX));
    assert_eq!(position.balance(0), 0);
    assert_eq!(position.balance(1), 9);
    position.borrow = BorrowData { principal: 3, accrued_interest: 0, last_accrual: 0 };
    // 9 at 60% is 5; 5 * 10000 / 3.
    assert_eq!(VantisPoolContract::get_health_factor(&position), Some(16666));
}

#[test]
fn checks_before_deposit_and_supply() {
    let mut pool = VantisPoolContract::new(params());
    let mut position = position_with_xlm();
    assert!(VantisPoolContract::can_deposit(&position, 0, 10));
    assert!(VantisPoolContract::can_deposit(&position, 0, 0));
    assert!(VantisPoolContract::can_deposit(&position, 7, i128::MAX));
    position.collateral[0].amount = i128::MAX;
    assert!(!VantisPoolContract::can_deposit(&position, 0, 1));
    assert!(pool.can_supply(5));
    pool.reserves = i128::MAX;
    assert!(!pool.can_supply(5));
    assert!(pool.can_supply(-5));
}
