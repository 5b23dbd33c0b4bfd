//! The interface to the lending back-end: the requests that are sent to it,
//! the data that it reports, and the checks made before a request goes out.

use vstd::prelude::*;
use crate::math::{div_trunc, fits_i128, lemma_scaled_is_not_min, trunc_div};

verus! {

/// Why the adapter refuses.
#[derive(Copy, Clone, Debug, PartialEq, Eq, Structural)]
pub enum AdapterError {
    /// The caller may not do this.
    Unauthorized,
    /// The asset is not registered.
    AssetNotSupported,
    /// No pool, or no borrow asset, is configured.
    PoolNotConfigured,
    /// The amount is not positive.
    InvalidAmount,
    /// The back-end refused the request.
    BlendOperationFailed,
    /// The balance does not cover the request.
    InsufficientBalance,
    /// The position would be unhealthy.
    UnhealthyPosition,
    /// The adapter is initialised already.
    AlreadyInitialized,
}

impl AdapterError {
    /// The number by which the error is known outside.
    pub fn code(&self) -> (r: u32)
        ensures
            r == match *self {
                AdapterError::Unauthorized => 1u32,
                AdapterError::AssetNotSupported => 2u32,
                AdapterError::PoolNotConfigured => 3u32,
                AdapterError::InvalidAmount => 4u32,
                AdapterError::BlendOperationFailed => 5u32,
                AdapterError::InsufficientBalance => 6u32,
                AdapterError::UnhealthyPosition => 7u32,
                AdapterError::AlreadyInitialized => 8u32,
            },
    {
        match self {
            AdapterError::Unauthorized => 1,
            AdapterError::AssetNotSupported => 2,
            AdapterError::PoolNotConfigured => 3,
            AdapterError::InvalidAmount => 4,
            AdapterError::BlendOperationFailed => 5,
            AdapterError::InsufficientBalance => 6,
            AdapterError::UnhealthyPosition => 7,
            AdapterError::AlreadyInitialized => 8,
        }
    }
}

/// What a request asks the back-end to do.
#[derive(Copy, Clone, Debug, PartialEq, Eq, Structural)]
pub enum RequestType {
    SupplyCollateral,
    WithdrawCollateral,
    SupplyLiquidity,
    WithdrawLiquidity,
    Borrow,
    Repay,
    FillUserLiquidationAuction,
    FillBadDebtAuction,
    FillInterestAuction,
    DeleteLiquidationAuction,
}

impl RequestType {
    /// The number by which the back-end knows the request type.
    pub fn code(&self) -> (r: u32)
        ensures
            r == match *self {
                RequestType::SupplyCollateral => 0u32,
                RequestType::WithdrawCollateral => 1u32,
                RequestType::SupplyLiquidity => 2u32,
                RequestType::WithdrawLiquidity => 3u32,
                RequestType::Borrow => 4u32,
                RequestType::Repay => 5u32,
                RequestType::FillUserLiquidationAuction => 6u32,
                RequestType::FillBadDebtAuction => 7u32,
                RequestType::FillInterestAuction => 8u32,
                RequestType::DeleteLiquidationAuction => 9u32,
            },
    {
        match self {
            RequestType::SupplyCollateral => 0,
            RequestType::WithdrawCollateral => 1,
            RequestType::SupplyLiquidity => 2,
            RequestType::WithdrawLiquidity => 3,
            RequestType::Borrow => 4,
            RequestType::Repay => 5,
            RequestType::FillUserLiquidationAuction => 6,
            RequestType::FillBadDebtAuction => 7,
            RequestType::FillInterestAuction => 8,
            RequestType::DeleteLiquidationAuction => 9,
        }
    }
}

/// One request to the back-end.
pub struct Request {
    pub request_type: RequestType,
    /// The asset that the request is about.
    pub address: soroban_sdk::Address,
    /// The amount, in the asset's own decimals.
    pub amount: i128,
}

/// The configuration of one reserve of the back-end.
#[derive(Copy, Clone, Debug, PartialEq, Eq, Structural)]
pub struct ReserveConfig {
    pub index: u32,
    pub decimals: u32,
    /// Collateral factor in basis points.
    pub c_factor: u32,
    /// Liability factor in basis points.
    pub l_factor: u32,
    /// The utilisation at which the rate curve kinks.
    pub util: u32,
    pub max_util: u32,
    pub r_base: u32,
    pub r_one: u32,
    pub r_two: u32,
    pub r_three: u32,
    pub reactivity: u32,
}

/// The state of one reserve of the back-end.
#[derive(Copy, Clone, Debug, PartialEq, Eq, Structural)]
pub struct ReserveData {
    pub b_rate: i128,
    pub d_rate: i128,
    pub ir_mod: i128,
    pub b_supply: i128,
    pub d_supply: i128,
    pub backstop_credit: i128,
    pub last_time: u64,
}

/// A liquidation auction of the back-end.
#[derive(Copy, Clone, Debug, PartialEq, Eq, Structural)]
pub struct AuctionData {
    pub bid: i128,
    pub lot: i128,
    pub block: u32,
}

/// A health factor with the two totals it was made from.
#[derive(Copy, Clone, Debug, PartialEq, Eq, Structural)]
pub struct HealthFactorResult {
    /// Collateral over liabilities in basis points; `i128::MAX` without
    /// liabilities.
    pub health_factor: i128,
    pub total_collateral: i128,
    pub total_liabilities: i128,
    /// The health factor is below 10000 and there are liabilities.
    pub is_liquidatable: bool,
}

/// The health factor of two totals.
pub open spec fn totals_health(total_collateral: int, total_liabilities: int) -> int {
    if total_liabilities == 0 {
        i128::MAX as int
    } else {
        trunc_div(total_collateral * 10000, total_liabilities)
    }
}

/// Whether a request may go out, and if not, why: the amount must be
/// positive, the asset registered, the pool configured, in this order.
pub open spec fn request_check(amount: int, asset_supported: bool, pool_configured: bool) -> Result<(), AdapterError> {
    if amount <= 0 {
        Err(AdapterError::InvalidAmount)
    } else if !asset_supported {
        Err(AdapterError::AssetNotSupported)
    } else if !pool_configured {
        Err(AdapterError::PoolNotConfigured)
    } else {
        Ok(())
    }
}

/// The namespace of the adapter's rules.
pub struct BlendAdapterContract;

impl BlendAdapterContract {
    /// Whether the contract may be initialised: only once.
    pub fn initialize(initialized: bool) -> (r: Result<(), AdapterError>)
        ensures
            r == if initialized {
                Err::<(), AdapterError>(AdapterError::AlreadyInitialized)
            } else {
                Ok::<(), AdapterError>(())
            },
    {
        if initialized {
            Err(AdapterError::AlreadyInitialized)
        } else {
            Ok(())
        }
    }

    /// The check before any request goes out.
    fn check_request(amount: i128, asset_supported: bool, pool_configured: bool) -> (r: Result<(), AdapterError>)
        ensures
            r == request_check(amount as int, asset_supported, pool_configured),
    {
        if amount <= 0 {
            return Err(AdapterError::InvalidAmount);
        }
        if !asset_supported {
            return Err(AdapterError::AssetNotSupported);
        }
        if !pool_configured {
            return Err(AdapterError::PoolNotConfigured);
        }
        Ok(())
    }

    /// The request that deposits `amount` of `asset` as collateral.
    pub fn deposit_collateral(
        asset: soroban_sdk::Address,
        amount: i128,
        asset_supported: bool,
        pool_configured: bool,
    ) -> (r: Result<Request, AdapterError>)
        ensures
            r.is_ok() == request_check(amount as int, asset_supported, pool_configured).is_ok(),
            r.is_err() ==> r == Err::<Request, AdapterError>(
                request_check(
                amount as int,
                asset_supported,
                pool_configured,
                )->Err_0,
            ),
            r.is_ok() ==> r.unwrap().request_type == RequestType::SupplyCollateral && r.unwrap().amount
                == amount && r.unwrap().address == asset,
    {
        match Self::check_request(amount, asset_supported, pool_configured) {
            Err(e) => Err(e),
            Ok(_) => Ok(Request { request_type: RequestType::SupplyCollateral, address: asset, amount }),
        }
    }

    /// The request that withdraws `amount` of the collateral `asset`.
    pub fn withdraw_collateral(
        asset: soroban_sdk::Address,
        amount: i128,
        asset_supported: bool,
        pool_configured: bool,
    ) -> (r: Result<Request, AdapterError>)
        ensures
            r.is_ok() == request_check(amount as int, asset_supported, pool_configured).is_ok(),
            r.is_err() ==> r == Err::<Request, AdapterError>(
                request_check(
                amount as int,
                asset_supported,
                pool_configured,
                )->Err_0,
            ),
            r.is_ok() ==> r.unwrap().request_type == RequestType::WithdrawCollateral
                && r.unwrap().amount == amount && r.unwrap().address == asset,
    {
        match Self::check_request(amount, asset_supported, pool_configured) {
            Err(e) => Err(e),
            Ok(_) => Ok(
                Request { request_type: RequestType::WithdrawCollateral, address: asset, amount },
            ),
        }
    }

    /// The request that borrows `amount` of the borrow asset, if one is
    /// configured (`usdc`) and so is the pool.
    pub fn borrow(usdc: Option<soroban_sdk::Address>, amount: i128, pool_configured: bool) -> (r: Result<
        Request,
        AdapterError,
    >)
        ensures
            r.is_ok() == request_check(amount as int, true, usdc.is_some() && pool_configured).is_ok(),
            r.is_err() ==> r == Err::<Request, AdapterError>(
                request_check(
                amount as int,
                true,
                usdc.is_some() && pool_configured,
                )->Err_0,
            ),
            r.is_ok() ==> r.unwrap().request_type == RequestType::Borrow && r.unwrap().amount
                == amount && r.unwrap().address == usdc.unwrap(),
    {
        if amount <= 0 {
            return Err(AdapterError::InvalidAmount);
        }
        let asset = match usdc {
            Some(a) => a,
            None => {
                return Err(AdapterError::PoolNotConfigured);
            },
        };
        if !pool_configured {
            return Err(AdapterError::PoolNotConfigured);
        }
        Ok(Request { request_type: RequestType::Borrow, address: asset, amount })
    }

    /// The request that repays `amount` of the borrow asset, if one is
    /// configured (`usdc`) and so is the pool.
    pub fn repay(usdc: Option<soroban_sdk::Address>, amount: i128, pool_configured: bool) -> (r: Result<
        Request,
        AdapterError,
    >)
        ensures
            r.is_ok() == request_check(amount as int, true, usdc.is_some() && pool_configured).is_ok(),
            r.is_err() ==> r == Err::<Request, AdapterError>(
                request_check(
                amount as int,
                true,
                usdc.is_some() && pool_configured,
                )->Err_0,
            ),
            r.is_ok() ==> r.unwrap().request_type == RequestType::Repay && r.unwrap().amount == amount
                && r.unwrap().address == usdc.unwrap(),
    {
        if amount <= 0 {
            return Err(AdapterError::InvalidAmount);
        }
        let asset = match usdc {
            Some(a) => a,
            None => {
                return Err(AdapterError::PoolNotConfigured);
            },
        };
        if !pool_configured {
            return Err(AdapterError::PoolNotConfigured);
        }
        Ok(Request { request_type: RequestType::Repay, address: asset, amount })
    }

    /// The health factor of a position from the totals of its collateral and
    /// its liabilities, both weighted and in the base currency.
    pub fn get_health_factor(total_collateral: i128, total_liabilities: i128) -> (r: HealthFactorResult)
        requires
            total_liabilities != 0 ==> fits_i128(total_collateral * 10000),
        ensures
            r.health_factor == totals_health(total_collateral as int, total_liabilities as int),
            r.total_collateral == total_collateral,
            r.total_liabilities == total_liabilities,
            r.is_liquidatable == (r.health_factor < 10000 && total_liabilities > 0),
    {
        let health_factor: i128 = if total_liabilities == 0 {
            i128::MAX
        } else {
            proof {
                lemma_scaled_is_not_min(total_collateral as int);
            }
            div_trunc(total_collateral * 10000, total_liabilities)
        };
        HealthFactorResult {
            health_factor,
            total_collateral,
            total_liabilities,
            is_liquidatable: health_factor < 10000 && total_liabilities > 0,
        }
    }
}

/// The request that fills the liquidation auction of a position for
/// `collateral_amount` of `collateral_asset`.
pub fn build_blend_liquidation_request(collateral_asset: soroban_sdk::Address, collateral_amount: i128) -> (r: Request)
    ensures
        r.request_type == RequestType::FillUserLiquidationAuction,
        r.address == collateral_asset,
        r.amount == collateral_amount,
{
    Request {
        request_type: RequestType::FillUserLiquidationAuction,
        address: collateral_asset,
        amount: collateral_amount,
    }
}

/// The request that withdraws `amount` of `collateral_asset` for a
/// stop-loss.
pub fn build_blend_withdraw_request(collateral_asset: soroban_sdk::Address, amount: i128) -> (r: Request)
    ensures
        r.request_type == RequestType::WithdrawCollateral,
        r.address == collateral_asset,
        r.amount == amount,
{
    Request { request_type: RequestType::WithdrawCollateral, address: collateral_asset, amount }
}

/// The request that repays `amount` of `usdc_asset` for a stop-loss.
pub fn build_blend_repay_request(usdc_asset: soroban_sdk::Address, amount: i128) -> (r: Request)
    ensures
        r.request_type == RequestType::Repay,
        r.address == usdc_asset,
        r.amount == amount,
{
    Request { request_type: RequestType::Repay, address: usdc_asset, amount }
}

impl BlendAdapterContract {
    /// The health factor of two totals, or `None` where scaling the
    /// collateral would leave `i128`.
    pub fn try_get_health_factor(total_collateral: i128, total_liabilities: i128) -> (r: Option<
        HealthFactorResult,
    >)
        ensures
            r.is_none() == (total_liabilities != 0 && !fits_i128(total_collateral * 10000)),
            r.is_some() ==> {
                &&& r.unwrap().health_factor == totals_health(
                    total_collateral as int,
                    total_liabilities as int,
                )
                &&& r.unwrap().total_collateral == total_collateral
                &&& r.unwrap().total_liabilities == total_liabilities
                &&& r.unwrap().is_liquidatable == (r.unwrap().health_factor < 10000
                    && total_liabilities > 0)
            },
    {
        if total_liabilities != 0 && total_collateral.checked_mul(10000).is_none() {
            return None;
        }
        Some(Self::get_health_factor(total_collateral, total_liabilities))
    }
}

} // verus!
