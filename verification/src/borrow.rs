//! The interest-rate model: utilisation of the pool, the kinked rate curve
//! over it, and simple interest over elapsed time.

use vstd::prelude::*;
use crate::math::{div_trunc, fits_i128, fits_u32, lemma_scaled_is_not_min, trunc_div};

verus! {

/// Seconds in a year of 365 days.
pub const SECONDS_PER_YEAR: u64 = 31536000;

/// The debt of one owner.
pub struct BorrowPosition {
    pub owner: soroban_sdk::Address,
    /// What was borrowed and is not yet repaid.
    pub principal: i128,
    /// Interest accrued and not yet repaid.
    pub accrued_interest: i128,
    /// The yearly rate at the time of the loan, in basis points.
    pub borrow_rate: u32,
    /// When interest was last accrued.
    pub last_accrual: u64,
    /// When the loan was first taken.
    pub borrow_time: u64,
}

impl BorrowPosition {
    /// Principal and accrued interest together.
    pub fn total_debt(&self) -> (r: i128)
        requires
            fits_i128(self.principal + self.accrued_interest),
        ensures
            r == self.principal + self.accrued_interest,
    {
        self.principal + self.accrued_interest
    }

    /// Whether anything is owed: a positive principal or positive interest.
    pub fn has_debt(&self) -> (r: bool)
        ensures
            r == (self.principal > 0 || self.accrued_interest > 0),
    {
        self.principal > 0 || self.accrued_interest > 0
    }
}

/// Simple interest on `principal` at `rate` basis points a year over
/// `time_elapsed` seconds; nothing on a principal that is not positive.
pub open spec fn interest(principal: int, rate: int, time_elapsed: int) -> int {
    if principal <= 0 || rate == 0 || time_elapsed == 0 {
        0
    } else {
        principal * rate * time_elapsed / 315360000000
    }
}

/// The interest that accrues on `principal` at `rate` basis points a year
/// over `time_elapsed` seconds.
pub fn calculate_interest(principal: i128, rate: u32, time_elapsed: u64) -> (r: i128)
    requires
        principal > 0 ==> fits_i128(principal * rate * time_elapsed),
    ensures
        r == interest(principal as int, rate as int, time_elapsed as int),
        r >= 0,
{
    if principal <= 0 || rate == 0 || time_elapsed == 0 {
        return 0;
    }
    proof {
        assert(0 < principal * rate <= principal * rate * time_elapsed) by (nonlinear_arith)
            requires
                principal > 0,
                rate > 0,
                time_elapsed > 0,
        ;
    }
    principal * rate as i128 * time_elapsed as i128 / (SECONDS_PER_YEAR as i128 * 10000)
}

/// Interest over two stretches of time is the interest over their sum, up
/// to the one unit that rounding down twice may lose.
pub proof fn lemma_interest_splits(principal: int, rate: int, first: int, second: int)
    requires
        rate >= 0,
        first >= 0,
        second >= 0,
    ensures
        interest(principal, rate, first) + interest(principal, rate, second) <= interest(
            principal,
            rate,
            first + second,
        ),
        interest(principal, rate, first + second) <= interest(principal, rate, first) + interest(
            principal,
            rate,
            second,
        ) + 1,
{
    if principal > 0 && rate > 0 {
        let a = principal * rate * first;
        let b = principal * rate * second;
        let d = 315360000000int;
        assert(principal * rate * (first + second) == a + b) by (nonlinear_arith)
            requires
                a == principal * rate * first,
                b == principal * rate * second,
        ;
        assert(a >= 0 && b >= 0) by (nonlinear_arith)
            requires
                a == principal * rate * first,
                b == principal * rate * second,
                principal > 0,
                rate > 0,
                first >= 0,
                second >= 0,
        ;
        vstd::arithmetic::div_mod::lemma_fundamental_div_mod(a, d);
        vstd::arithmetic::div_mod::lemma_fundamental_div_mod(b, d);
        vstd::arithmetic::div_mod::lemma_fundamental_div_mod(a + b, d);
        let qa = a / d;
        let qb = b / d;
        let qs = (a + b) / d;
        assert(d * qs + (a + b) % d == d * qa + a % d + d * qb + b % d);
        assert(qa + qb <= qs <= qa + qb + 1) by (nonlinear_arith)
            requires
                d * qs + (a + b) % d == d * qa + a % d + d * qb + b % d,
                0 <= (a + b) % d < d,
                0 <= a % d < d,
                0 <= b % d < d,
                d > 0,
        ;
        assert(a == 0 ==> qa == 0);
        assert(b == 0 ==> qb == 0);
        assert(first == 0 ==> a == 0) by (nonlinear_arith)
            requires
                a == principal * rate * first,
        ;
        assert(second == 0 ==> b == 0) by (nonlinear_arith)
            requires
                b == principal * rate * second,
        ;
    }
}

/// Borrows over liquidity in basis points; 0 for a pool without liquidity.
pub open spec fn utilization(total_borrows: int, total_liquidity: int) -> int {
    if total_liquidity == 0 {
        0
    } else {
        trunc_div(total_borrows * 10000, total_liquidity)
    }
}

/// The share of the pool's liquidity that is lent out, in basis points
/// (10000 = all of it). A ratio outside `u32` keeps its low 32 bits.
pub fn calculate_utilization(total_borrows: i128, total_liquidity: i128) -> (r: u32)
    requires
        total_liquidity != 0 ==> fits_i128(total_borrows * 10000),
    ensures
        r == utilization(total_borrows as int, total_liquidity as int) as u32,
        fits_u32(utilization(total_borrows as int, total_liquidity as int)) ==> r == utilization(
            total_borrows as int,
            total_liquidity as int,
        ),
{
    if total_liquidity == 0 {
        return 0;
    }
    proof {
        lemma_scaled_is_not_min(total_borrows as int);
    }
    let ratio: i128 = div_trunc(total_borrows * 10000, total_liquidity);
    #[verifier::truncate]
    (ratio as u32)
}

/// The borrow rate at a utilisation: up to the optimum the base rate plus a
/// share of `slope1`; beyond it the base rate, all of `slope1` and a share of
/// `slope2`.
pub open spec fn interest_rate(utilization: int, base_rate: int, slope1: int, slope2: int, optimal_utilization: int) -> int {
    if utilization <= optimal_utilization {
        base_rate + utilization * slope1 / optimal_utilization
    } else {
        base_rate + slope1 + (utilization - optimal_utilization) * slope2 / (10000
            - optimal_utilization)
    }
}

/// The curve is defined at this utilisation and no step of it leaves `u32`:
/// below the kink the optimum is not zero, above it the optimum is below
/// 10000.
pub open spec fn interest_rate_fits(utilization: int, base_rate: int, slope1: int, slope2: int, optimal_utilization: int) -> bool {
    if utilization <= optimal_utilization {
        &&& optimal_utilization > 0
        &&& fits_u32(utilization * slope1)
        &&& fits_u32(base_rate + utilization * slope1 / optimal_utilization)
    } else {
        &&& optimal_utilization < 10000
        &&& fits_u32(base_rate + slope1)
        &&& fits_u32((utilization - optimal_utilization) * slope2)
        &&& fits_u32(
            base_rate + slope1 + (utilization - optimal_utilization) * slope2 / (10000
                - optimal_utilization),
        )
    }
}

/// Whether the rate curve can be computed at `utilization`: whether
/// `calculate_interest_rate` may be called.
pub fn interest_rate_computable(
    utilization: u32,
    base_rate: u32,
    slope1: u32,
    slope2: u32,
    optimal_utilization: u32,
) -> (ok: bool)
    ensures
        ok == interest_rate_fits(
            utilization as int,
            base_rate as int,
            slope1 as int,
            slope2 as int,
            optimal_utilization as int,
        ),
{
    if utilization <= optimal_utilization {
        if optimal_utilization == 0 {
            return false;
        }
        match utilization.checked_mul(slope1) {
            Some(product) => base_rate.checked_add(product / optimal_utilization).is_some(),
            None => false,
        }
    } else {
        if optimal_utilization >= 10000 {
            return false;
        }
        let at_optimal: u32 = match base_rate.checked_add(slope1) {
            Some(sum) => sum,
            None => {
                return false;
            },
        };
        match (utilization - optimal_utilization).checked_mul(slope2) {
            Some(product) => at_optimal.checked_add(product / (10000 - optimal_utilization)).is_some(),
            None => false,
        }
    }
}

/// The yearly borrow rate in basis points at `utilization`, by the kink
/// model.
pub fn calculate_interest_rate(
    utilization: u32,
    base_rate: u32,
    slope1: u32,
    slope2: u32,
    optimal_utilization: u32,
) -> (r: u32)
    requires
        interest_rate_fits(
            utilization as int,
            base_rate as int,
            slope1 as int,
            slope2 as int,
            optimal_utilization as int,
        ),
    ensures
        r == interest_rate(
            utilization as int,
            base_rate as int,
            slope1 as int,
            slope2 as int,
            optimal_utilization as int,
        ),
{
    if utilization <= optimal_utilization {
        base_rate + utilization * slope1 / optimal_utilization
    } else {
        let rate_at_optimal: u32 = base_rate + slope1;
        let excess: u32 = utilization - optimal_utilization;
        let remaining: u32 = 10000 - optimal_utilization;
        rate_at_optimal + excess * slope2 / remaining
    }
}

/// The interest, or `None` where the product of principal, rate and time
/// would leave `i128`.
pub fn try_calculate_interest(principal: i128, rate: u32, time_elapsed: u64) -> (r: Option<i128>)
    ensures
        r.is_none() == (principal > 0 && !fits_i128(principal * rate * time_elapsed)),
        r.is_some() ==> r.unwrap() == interest(principal as int, rate as int, time_elapsed as int),
{
    if principal <= 0 {
        return Some(0);
    }
    if rate == 0 || time_elapsed == 0 {
        proof {
            assert(principal * rate * time_elapsed == 0) by (nonlinear_arith)
                requires
                    rate == 0 || time_elapsed == 0,
            ;
        }
        return Some(0);
    }
    proof {
        assert(0 < principal * rate <= principal * rate * time_elapsed) by (nonlinear_arith)
            requires
                principal > 0,
                rate > 0,
                time_elapsed > 0,
        ;
    }
    let yearly: i128 = match principal.checked_mul(rate as i128) {
        Some(product) => product,
        None => {
            return None;
        },
    };
    match yearly.checked_mul(time_elapsed as i128) {
        Some(_) => Some(calculate_interest(principal, rate, time_elapsed)),
        None => None,
    }
}

/// The utilisation, or `None` where scaling the borrows would leave `i128`.
pub fn try_calculate_utilization(total_borrows: i128, total_liquidity: i128) -> (r: Option<u32>)
    ensures
        r.is_none() == (total_liquidity != 0 && !fits_i128(total_borrows * 10000)),
        r.is_some() ==> r.unwrap() == utilization(total_borrows as int, total_liquidity as int) as u32,
{
    if total_liquidity != 0 && total_borrows.checked_mul(10000).is_none() {
        return None;
    }
    Some(calculate_utilization(total_borrows, total_liquidity))
}

/// The borrow rate, or `None` where the curve is not defined at the
/// utilisation or a step on the way would leave `u32`.
pub fn try_calculate_interest_rate(
    utilization: u32,
    base_rate: u32,
    slope1: u32,
    slope2: u32,
    optimal_utilization: u32,
) -> (r: Option<u32>)
    ensures
        r.is_none() == !interest_rate_fits(
            utilization as int,
            base_rate as int,
            slope1 as int,
            slope2 as int,
            optimal_utilization as int,
        ),
        r.is_some() ==> r.unwrap() == interest_rate(
            utilization as int,
            base_rate as int,
            slope1 as int,
            slope2 as int,
            optimal_utilization as int,
        ),
{
    if interest_rate_computable(utilization, base_rate, slope1, slope2, optimal_utilization) {
        Some(calculate_interest_rate(utilization, base_rate, slope1, slope2, optimal_utilization))
    } else {
        None
    }
}

impl BorrowPosition {
    /// Principal and accrued interest together, or `None` where the sum
    /// would leave `i128`.
    pub fn try_total_debt(&self) -> (r: Option<i128>)
        ensures
            r.is_none() == !fits_i128(self.principal + self.accrued_interest),
            r.is_some() ==> r.unwrap() == self.principal + self.accrued_interest,
    {
        self.principal.checked_add(self.accrued_interest)
    }
}

} // verus!
