//! The lending pool's book-keeping over explicit state: a position's
//! collateral and debt, the pool's reserves and borrows, and the rules of
//! deposit, withdrawal, borrowing, repayment and interest accrual.
//!
//! Nothing here moves funds or touches storage. Every operation takes the
//! state it works on and leaves it untouched when it refuses.

use vstd::prelude::*;
use crate::borrow::{interest_rate, interest_rate_fits, utilization};
use crate::collateral::CollateralOperation;
use crate::math::{div_trunc, fits_i128, lemma_scaled_is_not_min, trunc_div};

verus! {

/// Why the pool refuses an operation.
#[derive(Copy, Clone, Debug, PartialEq, Eq, Structural)]
pub enum PoolError {
    /// The caller may not do this.
    Unauthorized,
    /// The asset is not registered as collateral.
    AssetNotSupported,
    /// The collateral does not cover the operation.
    InsufficientCollateral,
    /// The pool's reserves do not cover the loan.
    InsufficientLiquidity,
    /// The health factor is too low.
    UnhealthyPosition,
    /// The amount is not positive.
    InvalidAmount,
    /// The position has no debt.
    NoBorrowPosition,
    /// The withdrawal would leave the position liquidatable.
    WithdrawalWouldLiquidate,
    /// The repayment exceeds the debt.
    RepayExceedsDebt,
    /// No price is available.
    OracleError,
    /// The lending back-end failed.
    BlendAdapterError,
    /// The contract is initialised already.
    AlreadyInitialized,
}

impl PoolError {
    /// The number by which the error is known outside.
    pub fn code(&self) -> (r: u32)
        ensures
            r == match *self {
                PoolError::Unauthorized => 1u32,
                PoolError::AssetNotSupported => 2u32,
                PoolError::InsufficientCollateral => 3u32,
                PoolError::InsufficientLiquidity => 4u32,
                PoolError::UnhealthyPosition => 5u32,
                PoolError::InvalidAmount => 6u32,
                PoolError::NoBorrowPosition => 7u32,
                PoolError::WithdrawalWouldLiquidate => 8u32,
                PoolError::RepayExceedsDebt => 9u32,
                PoolError::OracleError => 10u32,
                PoolError::BlendAdapterError => 11u32,
                PoolError::AlreadyInitialized => 12u32,
            },
    {
        match self {
            PoolError::Unauthorized => 1,
            PoolError::AssetNotSupported => 2,
            PoolError::InsufficientCollateral => 3,
            PoolError::InsufficientLiquidity => 4,
            PoolError::UnhealthyPosition => 5,
            PoolError::InvalidAmount => 6,
            PoolError::NoBorrowPosition => 7,
            PoolError::WithdrawalWouldLiquidate => 8,
            PoolError::RepayExceedsDebt => 9,
            PoolError::OracleError => 10,
            PoolError::BlendAdapterError => 11,
            PoolError::AlreadyInitialized => 12,
        }
    }
}

/// The debt of one position.
#[derive(Copy, Clone, Debug, PartialEq, Eq, Structural)]
pub struct BorrowData {
    /// What was borrowed and is not yet repaid.
    pub principal: i128,
    /// Interest accrued and not yet repaid.
    pub accrued_interest: i128,
    /// When interest was last accrued.
    pub last_accrual: u64,
}

impl Default for BorrowData {
    fn default() -> (r: BorrowData)
        ensures
            r == (BorrowData { principal: 0, accrued_interest: 0, last_accrual: 0 }),
    {
        BorrowData { principal: 0, accrued_interest: 0, last_accrual: 0 }
    }
}

impl BorrowData {
    /// Principal and accrued interest together.
    pub open spec fn debt(&self) -> int {
        self.principal + self.accrued_interest
    }
}

/// The kink model's parameters, all in basis points.
#[derive(Copy, Clone, Debug, PartialEq, Eq, Structural)]
pub struct InterestRateParams {
    /// The yearly rate of an unused pool.
    pub base_rate: u32,
    /// What the rate gains up to the optimal utilisation.
    pub slope1: u32,
    /// What the rate gains from the optimal utilisation to a full one.
    pub slope2: u32,
    /// The utilisation at which the curve kinks.
    pub optimal_utilization: u32,
}

/// The balance of one registered collateral asset in a position, with the
/// two factors of that asset. Its place in the position is the asset's id.
#[derive(Copy, Clone, Debug, PartialEq, Eq, Structural)]
pub struct CollateralEntry {
    /// The deposited amount, valued at par with the borrowed asset.
    pub amount: i128,
    /// The share of the amount that counts toward the borrow capacity.
    pub collateral_factor: u32,
    /// The share of the amount that counts toward the health factor.
    pub liquidation_threshold: u32,
}

/// One owner's collateral and debt. It is made on the first deposit or loan
/// and never deleted: zero balances stay.
pub struct Position {
    /// One entry for each registered asset, in the order of registration.
    pub collateral: Vec<CollateralEntry>,
    pub borrow: BorrowData,
}

/// The pool-wide state.
pub struct VantisPoolContract {
    /// What is there to borrow.
    pub reserves: i128,
    /// What is lent out.
    pub total_borrows: i128,
    pub interest_params: InterestRateParams,
}

/// An entry's amount counted at its collateral factor.
pub open spec fn capacity_of(entry: CollateralEntry) -> int {
    trunc_div(entry.amount * entry.collateral_factor, 10000)
}

/// An entry's amount counted at its liquidation threshold.
pub open spec fn liquidation_value_of(entry: CollateralEntry) -> int {
    trunc_div(entry.amount * entry.liquidation_threshold, 10000)
}

/// The sum of the entries' capacities.
pub open spec fn total_capacity(entries: Seq<CollateralEntry>) -> int
    decreases entries.len(),
{
    if entries.len() == 0 {
        0
    } else {
        total_capacity(entries.drop_last()) + capacity_of(entries.last())
    }
}

/// The weighted collateral value: the sum of the entries' liquidation
/// values.
pub open spec fn weighted_collateral(entries: Seq<CollateralEntry>) -> int
    decreases entries.len(),
{
    if entries.len() == 0 {
        0
    } else {
        weighted_collateral(entries.drop_last()) + liquidation_value_of(entries.last())
    }
}

/// Every product and running sum on the way to `total_capacity` can be held
/// in an `i128`.
pub open spec fn capacity_fits(entries: Seq<CollateralEntry>) -> bool {
    &&& forall|k: int|
        0 <= k < entries.len() ==> fits_i128(
            (#[trigger] entries[k]).amount * entries[k].collateral_factor,
        )
    &&& forall|k: int| 0 <= k <= entries.len() ==> fits_i128(#[trigger] total_capacity(entries.take(k)))
}

/// Every product and running sum on the way to `weighted_collateral` can be
/// held in an `i128`.
pub open spec fn weighted_fits(entries: Seq<CollateralEntry>) -> bool {
    &&& forall|k: int|
        0 <= k < entries.len() ==> fits_i128(
            (#[trigger] entries[k]).amount * entries[k].liquidation_threshold,
        )
    &&& forall|k: int|
        0 <= k <= entries.len() ==> fits_i128(#[trigger] weighted_collateral(entries.take(k)))
}

/// What a position may still borrow: its capacity less its debt, or nothing
/// where the debt exceeds it.
pub open spec fn borrow_capacity(entries: Seq<CollateralEntry>, borrow: BorrowData) -> int {
    if total_capacity(entries) - borrow.debt() > 0 {
        total_capacity(entries) - borrow.debt()
    } else {
        0
    }
}

/// The health factor of a position in basis points; without debt the
/// largest `i128`, which stands for infinite health.
pub open spec fn position_health(entries: Seq<CollateralEntry>, borrow: BorrowData) -> int {
    if borrow.debt() == 0 {
        i128::MAX as int
    } else {
        trunc_div(weighted_collateral(entries) * 10000, borrow.debt())
    }
}

/// The health factor of a position can be computed: the debt can be held in
/// an `i128` and, where there is debt, so can every product, sum and running
/// sum on the way. Without debt nothing else is computed.
pub open spec fn health_computes(entries: Seq<CollateralEntry>, borrow: BorrowData) -> bool {
    &&& fits_i128(borrow.debt())
    &&& borrow.debt() != 0 ==> weighted_fits(entries) && fits_i128(
        weighted_collateral(entries) * 10000,
    )
}

/// What a position may still borrow can be computed: no product, sum or
/// running sum on the way leaves `i128`.
pub open spec fn capacity_computes(entries: Seq<CollateralEntry>, borrow: BorrowData) -> bool {
    &&& capacity_fits(entries)
    &&& fits_i128(borrow.debt())
    &&& fits_i128(total_capacity(entries) - borrow.debt())
}

/// A withdrawal can be decided: where the balance covers it, the health
/// factor that it leaves can be computed.
pub open spec fn withdraw_computes(entries: Seq<CollateralEntry>, borrow: BorrowData, asset: int, amount: int) -> bool {
    amount > 0 && 0 <= asset < entries.len() && entries[asset].amount >= amount
        ==> health_computes(entries_with(entries, asset, -amount), borrow)
}

/// The total deposits of an asset after `amount` of it moved.
pub open spec fn total_after(total: int, operation: CollateralOperation, amount: int) -> int {
    match operation {
        CollateralOperation::Deposit => total + amount,
        CollateralOperation::Withdraw => total - amount,
        CollateralOperation::Liquidate => total - amount,
    }
}

/// The entries with `amount` added to the balance of `asset`.
pub open spec fn entries_with(entries: Seq<CollateralEntry>, asset: int, amount: int) -> Seq<CollateralEntry> {
    entries.update(
        asset,
        CollateralEntry {
            amount: (entries[asset].amount + amount) as i128,
            collateral_factor: entries[asset].collateral_factor,
            liquidation_threshold: entries[asset].liquidation_threshold,
        },
    )
}

/// The entries with `amount` added to the balance of `asset`, or as they are
/// where `asset` is none of theirs.
pub open spec fn changed_entries(entries: Seq<CollateralEntry>, asset: int, amount: int) -> Seq<CollateralEntry> {
    if 0 <= asset < entries.len() {
        entries_with(entries, asset, amount)
    } else {
        entries
    }
}

/// The interest that a debt gathers at `rate` basis points a year from its
/// last accrual to `now`: none on a principal of zero.
pub open spec fn accrual(borrow: BorrowData, rate: int, now: int) -> int {
    if borrow.principal == 0 || now == borrow.last_accrual {
        0
    } else {
        trunc_div(borrow.principal * rate * (now - borrow.last_accrual), 315360000000)
    }
}

/// Interest can be accrued on the debt up to `now`: time has not run
/// backwards since the last accrual, and no step leaves `i128`. A debt
/// without principal always qualifies.
pub open spec fn accrual_fits(borrow: BorrowData, rate: int, now: u64) -> bool {
    borrow.principal != 0 ==> {
        &&& now >= borrow.last_accrual
        &&& now != borrow.last_accrual ==> {
            &&& fits_i128(borrow.principal * rate)
            &&& fits_i128(borrow.principal * rate * (now - borrow.last_accrual))
            &&& fits_i128(borrow.accrued_interest + accrual(borrow, rate, now as int))
        }
    }
}

/// A debt after accrual at `now`: the interest is added and the time of the
/// last accrual moves to `now`; a debt without principal, and one accrued at
/// `now` already, stays as it is.
pub open spec fn accrued(borrow: BorrowData, rate: int, now: u64) -> BorrowData {
    if borrow.principal == 0 || now == borrow.last_accrual {
        borrow
    } else {
        BorrowData {
            principal: borrow.principal,
            accrued_interest: (borrow.accrued_interest + accrual(borrow, rate, now as int)) as i128,
            last_accrual: now,
        }
    }
}

/// A debt after a repayment of `paid`, which goes to the interest first and
/// then to the principal.
pub open spec fn repaid(borrow: BorrowData, paid: int, now: u64) -> BorrowData {
    if paid <= borrow.accrued_interest {
        BorrowData {
            principal: borrow.principal,
            accrued_interest: (borrow.accrued_interest - paid) as i128,
            last_accrual: now,
        }
    } else {
        BorrowData {
            principal: (borrow.principal - (paid - borrow.accrued_interest)) as i128,
            accrued_interest: 0,
            last_accrual: now,
        }
    }
}

impl Position {
    /// The health factor of the position.
    pub open spec fn health(&self) -> int {
        position_health(self.collateral@, self.borrow)
    }

    /// A position without collateral entries and without debt.
    pub fn new() -> (r: Position)
        ensures
            r.collateral@ == Seq::<CollateralEntry>::empty(),
            r.borrow == (BorrowData { principal: 0, accrued_interest: 0, last_accrual: 0 }),
    {
        Position {
            collateral: Vec::new(),
            borrow: BorrowData { principal: 0, accrued_interest: 0, last_accrual: 0 },
        }
    }

    /// Registers one more asset with the position, with a balance of zero.
    pub fn add_asset(&mut self, collateral_factor: u32, liquidation_threshold: u32)
        ensures
            final(self).borrow == old(self).borrow,
            final(self).collateral@ == old(self).collateral@.push(
                CollateralEntry { amount: 0, collateral_factor, liquidation_threshold },
            ),
    {
        self.collateral.push(CollateralEntry { amount: 0, collateral_factor, liquidation_threshold });
    }

    /// The balance of `asset`; 0 for an asset that the position does not
    /// know.
    pub fn balance(&self, asset: usize) -> (r: i128)
        ensures
            r == if asset < self.collateral@.len() {
                self.collateral@[asset as int].amount
            } else {
                0
            },
    {
        if asset < self.collateral.len() {
            self.collateral[asset].amount
        } else {
            0
        }
    }
}

impl VantisPoolContract {
    /// The utilisation of the pool in basis points, as the rate curve reads
    /// it.
    pub open spec fn utilization(&self) -> int {
        utilization(self.total_borrows as int, self.reserves + self.total_borrows) as u32 as int
    }

    /// The yearly borrow rate of the pool in basis points: the base rate for
    /// a pool without liquidity, else the kink model at the utilisation.
    pub open spec fn current_rate(&self) -> int {
        if self.reserves + self.total_borrows == 0 {
            self.interest_params.base_rate as int
        } else {
            interest_rate(
                self.utilization(),
                self.interest_params.base_rate as int,
                self.interest_params.slope1 as int,
                self.interest_params.slope2 as int,
                self.interest_params.optimal_utilization as int,
            )
        }
    }

    /// The current rate can be computed: no step leaves its integer type.
    pub open spec fn rate_fits(&self) -> bool {
        &&& fits_i128(self.reserves + self.total_borrows)
        &&& self.reserves + self.total_borrows != 0 ==> {
            &&& fits_i128(self.total_borrows * 10000)
            &&& interest_rate_fits(
                self.utilization(),
                self.interest_params.base_rate as int,
                self.interest_params.slope1 as int,
                self.interest_params.slope2 as int,
                self.interest_params.optimal_utilization as int,
            )
        }
    }

    /// The pool can accrue interest on the debt up to `now`: where any is
    /// due, its rate can be computed and so can the interest at that rate.
    pub open spec fn accrues(&self, borrow: BorrowData, now: u64) -> bool {
        &&& borrow.principal != 0 ==> now >= borrow.last_accrual
        &&& borrow.principal != 0 && now != borrow.last_accrual ==> self.rate_fits() && accrual_fits(
            borrow,
            self.current_rate(),
            now,
        )
    }

    /// A loan can be decided: the interest due can be accrued and, where
    /// the reserves cover the loan, no sum on the way leaves `i128`.
    pub open spec fn borrow_computes(&self, entries: Seq<CollateralEntry>, borrow: BorrowData, amount: int, now: u64) -> bool {
        let due = accrued(borrow, self.current_rate(), now);
        amount > 0 ==> {
            &&& self.accrues(borrow, now)
            &&& self.reserves >= amount ==> {
                &&& capacity_computes(entries, due)
                &&& fits_i128(due.debt() + amount)
                &&& fits_i128(due.principal + amount)
                &&& fits_i128(self.total_borrows + amount)
            }
        }
    }

    /// A repayment can be decided: the interest due can be accrued and no
    /// sum or difference on the way leaves `i128`.
    pub open spec fn repay_computes(&self, borrow: BorrowData, amount: int, now: u64) -> bool {
        let due = accrued(borrow, self.current_rate(), now);
        let paid = if amount > due.debt() {
            due.debt()
        } else {
            amount
        };
        amount > 0 ==> {
            &&& self.accrues(borrow, now)
            &&& fits_i128(due.debt())
            &&& due.debt() != 0 ==> {
                &&& fits_i128(paid - due.accrued_interest)
                &&& fits_i128(due.principal - (paid - due.accrued_interest))
                &&& fits_i128(due.accrued_interest - paid)
                &&& fits_i128(self.reserves + paid)
                &&& fits_i128(self.total_borrows - paid)
            }
        }
    }

    /// Whether the contract may be initialised: only once.
    pub fn initialize(initialized: bool) -> (r: Result<(), PoolError>)
        ensures
            r == if initialized {
                Err::<(), PoolError>(PoolError::AlreadyInitialized)
            } else {
                Ok::<(), PoolError>(())
            },
    {
        if initialized {
            Err(PoolError::AlreadyInitialized)
        } else {
            Ok(())
        }
    }

    /// A pool without reserves and without borrows.
    pub fn new(interest_params: InterestRateParams) -> (r: VantisPoolContract)
        ensures
            r.reserves == 0,
            r.total_borrows == 0,
            r.interest_params == interest_params,
    {
        VantisPoolContract { reserves: 0, total_borrows: 0, interest_params }
    }

    /// Whether the pool's current rate can be computed: whether
    /// `get_current_interest_rate` may be called.
    pub fn rate_computable(&self) -> (ok: bool)
        ensures
            ok == self.rate_fits(),
    {
        let total_liquidity: i128 = match self.reserves.checked_add(self.total_borrows) {
            Some(sum) => sum,
            None => {
                return false;
            },
        };
        if total_liquidity == 0 {
            return true;
        }
        if self.total_borrows.checked_mul(10000).is_none() {
            return false;
        }
        let used: u32 = crate::borrow::calculate_utilization(self.total_borrows, total_liquidity);
        crate::borrow::interest_rate_computable(
            used,
            self.interest_params.base_rate,
            self.interest_params.slope1,
            self.interest_params.slope2,
            self.interest_params.optimal_utilization,
        )
    }

    /// Whether the pool can accrue interest on the debt up to `now`: whether
    /// the accrual that `borrow` and `repay` begin with can be made.
    pub fn can_accrue(&self, borrow: &BorrowData, now: u64) -> (ok: bool)
        ensures
            ok == self.accrues(*borrow, now),
    {
        if borrow.principal == 0 {
            return true;
        }
        if now < borrow.last_accrual {
            return false;
        }
        if now == borrow.last_accrual {
            return true;
        }
        if !self.rate_computable() {
            return false;
        }
        let rate: u32 = self.get_current_interest_rate();
        Self::accrual_computable(borrow, rate, now)
    }

    /// Whether interest can be accrued on the debt up to `now` at `rate`:
    /// whether `accrue_interest` may be called.
    pub fn accrual_computable(borrow: &BorrowData, rate: u32, now: u64) -> (ok: bool)
        ensures
            ok == accrual_fits(*borrow, rate as int, now),
    {
        if borrow.principal == 0 {
            return true;
        }
        if now < borrow.last_accrual {
            return false;
        }
        if now == borrow.last_accrual {
            return true;
        }
        let time_elapsed: u64 = now - borrow.last_accrual;
        let yearly: i128 = match borrow.principal.checked_mul(rate as i128) {
            Some(product) => product,
            None => {
                return false;
            },
        };
        let total: i128 = match yearly.checked_mul(time_elapsed as i128) {
            Some(product) => product,
            None => {
                return false;
            },
        };
        borrow.accrued_interest.checked_add(total / 315360000000).is_some()
    }

    /// The yearly borrow rate at the pool's utilisation, in basis points.
    pub fn get_current_interest_rate(&self) -> (r: u32)
        requires
            self.rate_fits(),
        ensures
            r == self.current_rate(),
    {
        let total_liquidity: i128 = self.reserves + self.total_borrows;
        if total_liquidity == 0 {
            return self.interest_params.base_rate;
        }
        let used: u32 = crate::borrow::calculate_utilization(self.total_borrows, total_liquidity);
        crate::borrow::calculate_interest_rate(
            used,
            self.interest_params.base_rate,
            self.interest_params.slope1,
            self.interest_params.slope2,
            self.interest_params.optimal_utilization,
        )
    }

    /// The sum of the entries' capacities, or `None` where a step leaves
    /// `i128`.
    fn checked_capacity(position: &Position) -> (r: Option<i128>)
        ensures
            r.is_some() == capacity_fits(position.collateral@),
            r.is_some() ==> r.unwrap() == total_capacity(position.collateral@),
    {
        let ghost entries = position.collateral@;
        let mut total: i128 = 0;
        let mut i: usize = 0;
        proof {
            assert(entries.take(0).len() == 0);
        }
        while i < position.collateral.len()
            invariant
                i <= entries.len(),
                entries == position.collateral@,
                forall|m: int|
                    0 <= m < i ==> fits_i128(
                        (#[trigger] entries[m]).amount * entries[m].collateral_factor,
                    ),
                forall|m: int| 0 <= m <= i ==> fits_i128(#[trigger] total_capacity(entries.take(m))),
                total == total_capacity(entries.take(i as int)),
            decreases entries.len() - i,
        {
            let entry = position.collateral[i];
            proof {
                let next = entries.take(i + 1);
                assert(next.drop_last() == entries.take(i as int));
                assert(next.last() == entry);
                assert(entry == entries[i as int]);
            }
            let product: i128 = match entry.amount.checked_mul(entry.collateral_factor as i128) {
                Some(p) => p,
                None => {
                    proof {
                        assert(!fits_i128(entries[i as int].amount * entries[i as int].collateral_factor));
                    }
                    return None;
                },
            };
            total = match total.checked_add(product / 10000) {
                Some(t) => t,
                None => {
                    proof {
                        assert(!fits_i128(total_capacity(entries.take(i + 1))));
                    }
                    return None;
                },
            };
            i = i + 1;
        }
        proof {
            assert(entries.take(i as int) == entries);
        }
        Some(total)
    }

    /// The weighted collateral of the position with `delta` added to the
    /// balance of `asset`, or `None` where a step leaves `i128`. An `asset`
    /// that the position does not know changes nothing.
    fn checked_weighted(position: &Position, asset: usize, delta: i128) -> (r: Option<i128>)
        requires
            asset < position.collateral@.len() ==> fits_i128(
                position.collateral@[asset as int].amount + delta,
            ),
        ensures
            r.is_some() == weighted_fits(changed_entries(position.collateral@, asset as int, delta as int)),
            r.is_some() ==> r.unwrap() == weighted_collateral(
                changed_entries(position.collateral@, asset as int, delta as int),
            ),
    {
        let ghost entries = changed_entries(position.collateral@, asset as int, delta as int);
        let mut total: i128 = 0;
        let mut i: usize = 0;
        proof {
            assert(entries.take(0).len() == 0);
        }
        while i < position.collateral.len()
            invariant
                i <= entries.len(),
                entries.len() == position.collateral@.len(),
                entries == changed_entries(position.collateral@, asset as int, delta as int),
                asset < position.collateral@.len() ==> fits_i128(
                    position.collateral@[asset as int].amount + delta,
                ),
                forall|m: int|
                    0 <= m < i ==> fits_i128(
                        (#[trigger] entries[m]).amount * entries[m].liquidation_threshold,
                    ),
                forall|m: int|
                    0 <= m <= i ==> fits_i128(#[trigger] weighted_collateral(entries.take(m))),
                total == weighted_collateral(entries.take(i as int)),
            decreases entries.len() - i,
        {
            let entry = position.collateral[i];
            let amount: i128 = if i == asset { entry.amount + delta } else { entry.amount };
            proof {
                let next = entries.take(i + 1);
                assert(next.drop_last() == entries.take(i as int));
                assert(next.last() == entries[i as int]);
                assert(entries[i as int].amount == amount);
                assert(entries[i as int].liquidation_threshold == entry.liquidation_threshold);
            }
            let product: i128 = match amount.checked_mul(entry.liquidation_threshold as i128) {
                Some(p) => p,
                None => {
                    proof {
                        assert(!fits_i128(
                            entries[i as int].amount * entries[i as int].liquidation_threshold,
                        ));
                    }
                    return None;
                },
            };
            total = match total.checked_add(product / 10000) {
                Some(t) => t,
                None => {
                    proof {
                        assert(!fits_i128(weighted_collateral(entries.take(i + 1))));
                    }
                    return None;
                },
            };
            i = i + 1;
        }
        proof {
            assert(entries.take(i as int) == entries);
        }
        Some(total)
    }

    /// Whether the health factor can be computed of the position with
    /// `delta` added to the balance of `asset`.
    fn health_computable_with(position: &Position, asset: usize, delta: i128) -> (ok: bool)
        requires
            asset < position.collateral@.len() ==> fits_i128(
                position.collateral@[asset as int].amount + delta,
            ),
        ensures
            ok == health_computes(
                changed_entries(position.collateral@, asset as int, delta as int),
                position.borrow,
            ),
    {
        let debt: i128 = match position.borrow.principal.checked_add(position.borrow.accrued_interest) {
            Some(d) => d,
            None => {
                return false;
            },
        };
        if debt == 0 {
            return true;
        }
        match Self::checked_weighted(position, asset, delta) {
            Some(weighted) => weighted.checked_mul(10000).is_some(),
            None => false,
        }
    }

    /// Whether the health factor of the position can be computed: whether
    /// `calculate_health_factor` may be called.
    pub fn health_computable(position: &Position) -> (ok: bool)
        ensures
            ok == health_computes(position.collateral@, position.borrow),
    {
        Self::health_computable_with(position, position.collateral.len(), 0)
    }

    /// Whether what the position may still borrow can be computed: whether
    /// `get_borrow_capacity` may be called.
    pub fn capacity_computable(position: &Position) -> (ok: bool)
        ensures
            ok == capacity_computes(position.collateral@, position.borrow),
    {
        Self::capacity_computable_at(position, position.borrow)
    }

    /// Whether what the position may still borrow can be computed with
    /// `borrow` for its debt.
    fn capacity_computable_at(position: &Position, borrow: BorrowData) -> (ok: bool)
        ensures
            ok == capacity_computes(position.collateral@, borrow),
    {
        let capacity: i128 = match Self::checked_capacity(position) {
            Some(c) => c,
            None => {
                return false;
            },
        };
        match borrow.principal.checked_add(borrow.accrued_interest) {
            Some(debt) => capacity.checked_sub(debt).is_some(),
            None => false,
        }
    }

    /// Whether a withdrawal can be decided: whether `withdraw` may be
    /// called.
    pub fn can_withdraw(position: &Position, asset: usize, amount: i128) -> (ok: bool)
        ensures
            ok == withdraw_computes(
                position.collateral@,
                position.borrow,
                asset as int,
                amount as int,
            ),
    {
        if amount <= 0 || asset >= position.collateral.len() {
            return true;
        }
        if position.collateral[asset].amount < amount {
            return true;
        }
        Self::health_computable_with(position, asset, -amount)
    }

    /// The debt with the interest that is due at `now`.
    fn with_interest_due(&self, borrow: BorrowData, now: u64) -> (due: BorrowData)
        requires
            self.accrues(borrow, now),
        ensures
            due == accrued(borrow, self.current_rate(), now),
    {
        let mut due: BorrowData = borrow;
        if due.principal != 0 && now != due.last_accrual {
            let rate: u32 = self.get_current_interest_rate();
            Self::accrue_interest(&mut due, rate, now);
        }
        due
    }

    /// Whether a loan can be decided: whether `borrow` may be called.
    pub fn can_borrow(&self, position: &Position, amount: i128, now: u64) -> (ok: bool)
        ensures
            ok == self.borrow_computes(position.collateral@, position.borrow, amount as int, now),
    {
        if amount <= 0 {
            return true;
        }
        if !self.can_accrue(&position.borrow, now) {
            return false;
        }
        if self.reserves < amount {
            return true;
        }
        let due: BorrowData = self.with_interest_due(position.borrow, now);
        if !Self::capacity_computable_at(position, due) {
            return false;
        }
        let debt: i128 = due.principal + due.accrued_interest;
        debt.checked_add(amount).is_some() && due.principal.checked_add(amount).is_some()
            && self.total_borrows.checked_add(amount).is_some()
    }

    /// Whether a repayment can be decided: whether `repay` may be called.
    pub fn can_repay(&self, position: &Position, amount: i128, now: u64) -> (ok: bool)
        ensures
            ok == self.repay_computes(position.borrow, amount as int, now),
    {
        if amount <= 0 {
            return true;
        }
        if !self.can_accrue(&position.borrow, now) {
            return false;
        }
        let due: BorrowData = self.with_interest_due(position.borrow, now);
        let debt: i128 = match due.principal.checked_add(due.accrued_interest) {
            Some(d) => d,
            None => {
                return false;
            },
        };
        if debt == 0 {
            return true;
        }
        let paid: i128 = if amount > debt { debt } else { amount };
        let beyond_interest: i128 = match paid.checked_sub(due.accrued_interest) {
            Some(d) => d,
            None => {
                return false;
            },
        };
        due.principal.checked_sub(beyond_interest).is_some() && due.accrued_interest.checked_sub(
            paid,
        ).is_some() && self.reserves.checked_add(paid).is_some() && self.total_borrows.checked_sub(
            paid,
        ).is_some()
    }

    /// What the position may still borrow.
    pub fn get_borrow_capacity(position: &Position) -> (r: i128)
        requires
            capacity_computes(position.collateral@, position.borrow),
        ensures
            r == borrow_capacity(position.collateral@, position.borrow),
            r >= 0,
    {
        let mut total: i128 = 0;
        let mut i: usize = 0;
        while i < position.collateral.len()
            invariant
                i <= position.collateral@.len(),
                capacity_fits(position.collateral@),
                total == total_capacity(position.collateral@.take(i as int)),
            decreases position.collateral@.len() - i,
        {
            let entry = position.collateral[i];
            proof {
                let next = position.collateral@.take(i + 1);
                assert(next.drop_last() == position.collateral@.take(i as int));
                assert(next.last() == entry);
                assert(entry == position.collateral@[i as int]);
                assert(fits_i128(total_capacity(next)));
            }
            total = total + entry.amount * entry.collateral_factor as i128 / 10000;
            i = i + 1;
        }
        proof {
            assert(position.collateral@.take(i as int) == position.collateral@);
        }
        let current_debt: i128 = position.borrow.principal + position.borrow.accrued_interest;
        let available: i128 = total - current_debt;
        if available > 0 {
            available
        } else {
            0
        }
    }

    /// The health factor of the position in basis points.
    pub fn calculate_health_factor(position: &Position) -> (r: i128)
        requires
            health_computes(position.collateral@, position.borrow),
        ensures
            r == position.health(),
            position.borrow.debt() == 0 ==> r == i128::MAX,
    {
        let total_debt: i128 = position.borrow.principal + position.borrow.accrued_interest;
        if total_debt == 0 {
            return i128::MAX;
        }
        let mut total: i128 = 0;
        let mut i: usize = 0;
        while i < position.collateral.len()
            invariant
                i <= position.collateral@.len(),
                weighted_fits(position.collateral@),
                total == weighted_collateral(position.collateral@.take(i as int)),
            decreases position.collateral@.len() - i,
        {
            let entry = position.collateral[i];
            proof {
                let next = position.collateral@.take(i + 1);
                assert(next.drop_last() == position.collateral@.take(i as int));
                assert(next.last() == entry);
                assert(entry == position.collateral@[i as int]);
                assert(fits_i128(weighted_collateral(next)));
            }
            total = total + entry.amount * entry.liquidation_threshold as i128 / 10000;
            i = i + 1;
        }
        proof {
            assert(position.collateral@.take(i as int) == position.collateral@);
        }
        proof {
            lemma_scaled_is_not_min(total as int);
        }
        div_trunc(total * 10000, total_debt)
    }

    /// The health factor of the position in basis points, or `None` where a
    /// step on the way would leave `i128`. A position without debt always
    /// has the largest `i128` for its health, whatever its collateral.
    pub fn get_health_factor(position: &Position) -> (r: Option<i128>)
        ensures
            r.is_none() == !health_computes(position.collateral@, position.borrow),
            r.is_some() ==> r.unwrap() == position.health(),
            position.borrow.debt() == 0 ==> r == Some(i128::MAX),
    {
        if Self::health_computable(position) {
            Some(Self::calculate_health_factor(position))
        } else {
            None
        }
    }

    /// The total deposits of an asset after `amount` of it moved: a deposit
    /// adds to them, a withdrawal and a liquidation take from them. `None`
    /// where the total would leave `i128`.
    pub fn total_deposits_after(total: i128, operation: CollateralOperation, amount: i128) -> (r:
        Option<i128>)
        ensures
            r.is_none() == !fits_i128(total_after(total as int, operation, amount as int)),
            r.is_some() ==> r.unwrap() == total_after(total as int, operation, amount as int),
    {
        match operation {
            CollateralOperation::Deposit => total.checked_add(amount),
            CollateralOperation::Withdraw => total.checked_sub(amount),
            CollateralOperation::Liquidate => total.checked_sub(amount),
        }
    }

    /// Accrues interest on a debt up to `now` at `rate` basis points a year.
    /// Time does not run backwards: `now` is not before the last accrual.
    pub fn accrue_interest(borrow: &mut BorrowData, rate: u32, now: u64)
        requires
            accrual_fits(*old(borrow), rate as int, now),
        ensures
            *final(borrow) == accrued(*old(borrow), rate as int, now),
    {
        if borrow.principal == 0 {
            return ;
        }
        let time_elapsed: u64 = now - borrow.last_accrual;
        if time_elapsed == 0 {
            return ;
        }
        let interest: i128 = borrow.principal * rate as i128 * time_elapsed as i128 / 315360000000;
        borrow.accrued_interest = borrow.accrued_interest + interest;
        borrow.last_accrual = now;
    }

    /// Adds `amount` to the position's balance of `asset`.
    pub fn deposit(position: &mut Position, asset: usize, amount: i128) -> (r: Result<(), PoolError>)
        requires
            amount > 0 && asset < old(position).collateral@.len() ==> fits_i128(
                old(position).collateral@[asset as int].amount + amount,
            ),
        ensures
            amount <= 0 ==> r == Err::<(), PoolError>(PoolError::InvalidAmount),
            amount > 0 && asset >= old(position).collateral@.len() ==> r == Err::<(), PoolError>(
                PoolError::AssetNotSupported,
            ),
            amount > 0 && asset < old(position).collateral@.len() ==> r.is_ok(),
            final(position).borrow == old(position).borrow,
            r.is_err() ==> final(position).collateral@ == old(position).collateral@,
            r.is_ok() ==> final(position).collateral@ == entries_with(
                old(position).collateral@,
                asset as int,
                amount as int,
            ),
    {
        if amount <= 0 {
            return Err(PoolError::InvalidAmount);
        }
        if asset >= position.collateral.len() {
            return Err(PoolError::AssetNotSupported);
        }
        let entry = position.collateral[asset];
        position.collateral.set(
            asset,
            CollateralEntry {
                amount: entry.amount + amount,
                collateral_factor: entry.collateral_factor,
                liquidation_threshold: entry.liquidation_threshold,
            },
        );
        Ok(())
    }

    /// Takes `amount` off the position's balance of `asset`, unless the
    /// balance is too small or the health factor would fall below 10000.
    pub fn withdraw(position: &mut Position, asset: usize, amount: i128) -> (r: Result<(), PoolError>)
        requires
            withdraw_computes(
                old(position).collateral@,
                old(position).borrow,
                asset as int,
                amount as int,
            ),
        ensures
            r == withdraw_answer(old(position).collateral@, old(position).borrow, asset as int, amount as int),
            final(position).borrow == old(position).borrow,
            r.is_err() ==> final(position).collateral@ == old(position).collateral@,
            r.is_ok() ==> final(position).collateral@ == entries_with(
                old(position).collateral@,
                asset as int,
                -amount,
            ),
    {
        if amount <= 0 {
            return Err(PoolError::InvalidAmount);
        }
        if asset >= position.collateral.len() {
            return Err(PoolError::InsufficientCollateral);
        }
        let entry = position.collateral[asset];
        if entry.amount < amount {
            return Err(PoolError::InsufficientCollateral);
        }
        position.collateral.set(
            asset,
            CollateralEntry {
                amount: entry.amount - amount,
                collateral_factor: entry.collateral_factor,
                liquidation_threshold: entry.liquidation_threshold,
            },
        );
        let health_factor: i128 = Self::calculate_health_factor(position);
        if health_factor < 10000 {
            position.collateral.set(asset, entry);
            proof {
                assert(position.collateral@ == old(position).collateral@);
            }
            return Err(PoolError::WithdrawalWouldLiquidate);
        }
        Ok(())
    }

    /// Whether a deposit can be booked: whether `deposit` may be called.
    pub fn can_deposit(position: &Position, asset: usize, amount: i128) -> (ok: bool)
        ensures
            ok == (amount > 0 && asset < position.collateral@.len() ==> fits_i128(
                position.collateral@[asset as int].amount + amount,
            )),
    {
        if amount <= 0 || asset >= position.collateral.len() {
            return true;
        }
        position.collateral[asset].amount.checked_add(amount).is_some()
    }

    /// Whether a supply can be booked: whether `supply` may be called.
    pub fn can_supply(&self, amount: i128) -> (ok: bool)
        ensures
            ok == (amount > 0 ==> fits_i128(self.reserves + amount)),
    {
        amount <= 0 || self.reserves.checked_add(amount).is_some()
    }

    /// Adds `amount` to the reserves.
    pub fn supply(&mut self, amount: i128) -> (r: Result<(), PoolError>)
        requires
            amount > 0 ==> fits_i128(old(self).reserves + amount),
        ensures
            amount <= 0 ==> r == Err::<(), PoolError>(PoolError::InvalidAmount) && *final(self) == *old(self),
            amount > 0 ==> r.is_ok() && final(self).reserves == old(self).reserves + amount
                && final(self).total_borrows == old(self).total_borrows
                && final(self).interest_params == old(self).interest_params,
    {
        if amount <= 0 {
            return Err(PoolError::InvalidAmount);
        }
        self.reserves = self.reserves + amount;
        Ok(())
    }

    /// Lends `amount` to the position at `now`.
    ///
    /// Interest is accrued first. The loan is refused where the amount is
    /// not positive, where the reserves are smaller, and where the debt
    /// with the loan exceeds what the position may still borrow.
    pub fn borrow(&mut self, position: &mut Position, amount: i128, now: u64) -> (r: Result<(), PoolError>)
        requires
            old(self).borrow_computes(
                old(position).collateral@,
                old(position).borrow,
                amount as int,
                now,
            ),
        ensures
            r == borrow_answer(*old(self), old(position).collateral@, old(position).borrow, amount as int, now),
            final(position).collateral@ == old(position).collateral@,
            final(self).interest_params == old(self).interest_params,
            r.is_err() ==> *final(self) == *old(self) && final(position).borrow == old(position).borrow,
            r.is_ok() ==> {
                let due = accrued(old(position).borrow, old(self).current_rate(), now);
                &&& final(position).borrow == (BorrowData {
                    principal: (due.principal + amount) as i128,
                    accrued_interest: due.accrued_interest,
                    last_accrual: now,
                })
                &&& final(self).reserves == old(self).reserves - amount
                &&& final(self).total_borrows == old(self).total_borrows + amount
            },
    {
        if amount <= 0 {
            return Err(PoolError::InvalidAmount);
        }
        let due: BorrowData = self.with_interest_due(position.borrow, now);
        if self.reserves < amount {
            return Err(PoolError::InsufficientLiquidity);
        }
        let before: BorrowData = position.borrow;
        position.borrow = due;
        let borrow_capacity: i128 = Self::get_borrow_capacity(position);
        let total_debt: i128 = due.principal + due.accrued_interest;
        if total_debt + amount > borrow_capacity {
            position.borrow = before;
            return Err(PoolError::InsufficientCollateral);
        }
        position.borrow = BorrowData {
            principal: due.principal + amount,
            accrued_interest: due.accrued_interest,
            last_accrual: now,
        };
        self.reserves = self.reserves - amount;
        self.total_borrows = self.total_borrows + amount;
        Ok(())
    }

    /// Takes a repayment of up to `amount` on the position's debt at `now`.
    ///
    /// Interest is accrued first. No more than the debt is taken; it pays
    /// the interest first and then the principal. The amount taken comes
    /// back.
    pub fn repay(&mut self, position: &mut Position, amount: i128, now: u64) -> (r: Result<i128, PoolError>)
        requires
            old(self).repay_computes(old(position).borrow, amount as int, now),
        ensures
            amount <= 0 ==> r == Err::<i128, PoolError>(PoolError::InvalidAmount),
            amount > 0 && accrued(old(position).borrow, old(self).current_rate(), now).debt() == 0 ==> r
                == Err::<i128, PoolError>(PoolError::NoBorrowPosition),
            amount > 0 && accrued(old(position).borrow, old(self).current_rate(), now).debt() != 0
                ==> r.is_ok(),
            final(position).collateral@ == old(position).collateral@,
            final(self).interest_params == old(self).interest_params,
            r.is_err() ==> *final(self) == *old(self) && final(position).borrow == old(position).borrow,
            r.is_ok() ==> {
                let due = accrued(old(position).borrow, old(self).current_rate(), now);
                let paid = if amount > due.debt() { due.debt() } else { amount as int };
                &&& r.unwrap() == paid
                &&& final(position).borrow == repaid(due, paid, now)
                &&& final(self).reserves == old(self).reserves + paid
                &&& final(self).total_borrows == old(self).total_borrows - paid
            },
    {
        if amount <= 0 {
            return Err(PoolError::InvalidAmount);
        }
        let mut due: BorrowData = self.with_interest_due(position.borrow, now);
        let total_debt: i128 = due.principal + due.accrued_interest;
        if total_debt == 0 {
            return Err(PoolError::NoBorrowPosition);
        }
        let repay_amount: i128 = if amount > total_debt { total_debt } else { amount };
        if repay_amount <= due.accrued_interest {
            due.accrued_interest = due.accrued_interest - repay_amount;
        } else {
            let remaining: i128 = repay_amount - due.accrued_interest;
            due.accrued_interest = 0;
            due.principal = due.principal - remaining;
        }
        due.last_accrual = now;
        position.borrow = due;
        self.reserves = self.reserves + repay_amount;
        self.total_borrows = self.total_borrows - repay_amount;
        Ok(repay_amount)
    }
}

/// What a withdrawal is answered with.
pub open spec fn withdraw_answer(entries: Seq<CollateralEntry>, borrow: BorrowData, asset: int, amount: int) -> Result<(), PoolError> {
    if amount <= 0 {
        Err(PoolError::InvalidAmount)
    } else if asset >= entries.len() || entries[asset].amount < amount {
        Err(PoolError::InsufficientCollateral)
    } else if position_health(entries_with(entries, asset, -amount), borrow) < 10000 {
        Err(PoolError::WithdrawalWouldLiquidate)
    } else {
        Ok(())
    }
}

/// What a request for a loan is answered with.
pub open spec fn borrow_answer(pool: VantisPoolContract, entries: Seq<CollateralEntry>, borrow: BorrowData, amount: int, now: u64) -> Result<(), PoolError> {
    let due = accrued(borrow, pool.current_rate(), now);
    if amount <= 0 {
        Err(PoolError::InvalidAmount)
    } else if pool.reserves < amount {
        Err(PoolError::InsufficientLiquidity)
    } else if due.debt() + amount > borrow_capacity(entries, due) {
        Err(PoolError::InsufficientCollateral)
    } else {
        Ok(())
    }
}


/// A deposit followed by a withdrawal of the same amount, on a position
/// without debt whose balance of the asset is not negative, can be decided
/// whatever else the position holds, is accepted, and gives back the entries
/// as they were: the weighted collateral value is unchanged, the health
/// factor stays at its infinite sentinel, and the asset's total deposits are
/// what they were.
pub proof fn lemma_deposit_withdraw_round_trip(entries: Seq<CollateralEntry>, borrow: BorrowData, asset: int, amount: int, total: int)
    requires
        0 <= asset < entries.len(),
        amount > 0,
        borrow.debt() == 0,
        entries[asset].amount >= 0,
        fits_i128(entries[asset].amount + amount),
    ensures
        withdraw_computes(entries_with(entries, asset, amount), borrow, asset, amount),
        total_after(
            total_after(total, CollateralOperation::Deposit, amount),
            CollateralOperation::Withdraw,
            amount,
        ) == total,
        withdraw_answer(entries_with(entries, asset, amount), borrow, asset, amount) == Ok::<(), PoolError>(()),
        entries_with(entries_with(entries, asset, amount), asset, -amount) == entries,
        weighted_collateral(entries_with(entries_with(entries, asset, amount), asset, -amount))
            == weighted_collateral(entries),
        position_health(entries_with(entries, asset, amount), borrow) == i128::MAX,
        position_health(entries_with(entries_with(entries, asset, amount), asset, -amount), borrow)
            == i128::MAX,
{
    let deposited = entries_with(entries, asset, amount);
    assert(deposited[asset].amount == entries[asset].amount + amount);
    assert(entries_with(deposited, asset, -amount) =~= entries);
}


/// Accruing in two steps gives what accruing once gives, up to the one unit
/// that rounding down twice may lose: on a positive principal the interest
/// after the two steps is at most that after the one, and at least that less
/// one.
pub proof fn lemma_accrual_splits(borrow: BorrowData, rate: int, mid: u64, end: u64)
    requires
        borrow.principal > 0,
        rate >= 0,
        borrow.last_accrual <= mid <= end,
        fits_i128(borrow.accrued_interest + accrual(borrow, rate, end as int)),
    ensures
        accrued(accrued(borrow, rate, mid), rate, end).principal == accrued(borrow, rate, end).principal,
        accrued(accrued(borrow, rate, mid), rate, end).accrued_interest <= accrued(
            borrow,
            rate,
            end,
        ).accrued_interest,
        accrued(borrow, rate, end).accrued_interest <= accrued(
            accrued(borrow, rate, mid),
            rate,
            end,
        ).accrued_interest + 1,
{
    let first = mid - borrow.last_accrual;
    let second = end - mid;
    crate::borrow::lemma_interest_splits(borrow.principal as int, rate, first, second);
    lemma_accrual_is_interest(borrow.principal as int, rate, first);
    lemma_accrual_is_interest(borrow.principal as int, rate, second);
    lemma_accrual_is_interest(borrow.principal as int, rate, first + second);
    let half = accrued(borrow, rate, mid);
    assert(half.principal == borrow.principal);
    assert(half.accrued_interest == borrow.accrued_interest + crate::borrow::interest(
        borrow.principal as int,
        rate,
        first,
    ));
}

/// On a positive principal the accrual over a stretch of time is the simple
/// interest over it, and it is not negative.
proof fn lemma_accrual_is_interest(principal: int, rate: int, elapsed: int)
    requires
        principal > 0,
        rate >= 0,
        elapsed >= 0,
    ensures
        trunc_div(principal * rate * elapsed, 315360000000) == crate::borrow::interest(
            principal,
            rate,
            elapsed,
        ),
        crate::borrow::interest(principal, rate, elapsed) >= 0,
{
    assert(principal * rate * elapsed >= 0) by (nonlinear_arith)
        requires
            principal > 0,
            rate >= 0,
            elapsed >= 0,
    ;
    if rate == 0 || elapsed == 0 {
        assert(principal * rate * elapsed == 0) by (nonlinear_arith)
            requires
                rate == 0 || elapsed == 0,
        ;
    }
    vstd::arithmetic::div_mod::lemma_div_pos_is_pos(principal * rate * elapsed, 315360000000);
}

} // verus!
