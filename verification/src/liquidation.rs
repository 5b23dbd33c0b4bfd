//! Partial liquidation: the least repayment that brings an unhealthy
//! position back to a target health factor, the split of the bonus, and the
//! discount schedule of the auction that sells the seized collateral.

use vstd::prelude::*;
use crate::math::{div_trunc, fits_i128, lemma_scaled_is_not_min, min_int, trunc_div};

verus! {

/// The health factor that a liquidation aims for (1.05), in basis points.
pub const TARGET_HEALTH_FACTOR: i128 = 10500;

/// What one liquidation did.
pub struct LiquidationResult {
    pub user: soroban_sdk::Address,
    pub collateral_asset: soroban_sdk::Address,
    pub collateral_amount: i128,
    /// The seized collateral in USD.
    pub collateral_value: i128,
    pub debt_repaid: i128,
    pub liquidator_bonus: i128,
    pub protocol_fee: i128,
    pub health_before: i128,
    pub health_after: i128,
}

/// A Dutch auction whose discount moves in a straight line from
/// `start_discount` to `end_discount` (basis points) over `duration` seconds
/// from `start_time`.
#[derive(Clone, Copy, Debug)]
pub struct DutchAuctionParams {
    pub start_discount: u32,
    pub end_discount: u32,
    pub duration: u64,
    pub start_time: u64,
}

impl DutchAuctionParams {
    /// The auction has begun at `time` and has not yet run its course.
    pub open spec fn is_running_at(&self, time: int) -> bool {
        self.start_time <= time && time - self.start_time < self.duration
    }

    /// How far the auction has come at `time`, in basis points of its
    /// duration.
    pub open spec fn progress_at(&self, time: int) -> int {
        (time - self.start_time) * 10000 / (self.duration as int)
    }

    /// The discount at `time`: the start discount before the auction, the end
    /// discount once it has run its course, and the interpolation between.
    pub open spec fn discount_at(&self, time: int) -> int {
        if time < self.start_time {
            self.start_discount as int
        } else if time - self.start_time >= self.duration {
            self.end_discount as int
        } else {
            self.start_discount + (self.end_discount - self.start_discount) * self.progress_at(time)
                / 10000
        }
    }

    /// The discount that the auction offers at `current_time`.
    ///
    /// While the auction runs the discount rises, so it must not start above
    /// its end.
    pub fn current_discount(&self, current_time: u64) -> (r: u32)
        requires
            self.is_running_at(current_time as int) ==> self.start_discount <= self.end_discount,
        ensures
            r == self.discount_at(current_time as int),
            current_time < self.start_time ==> r == self.start_discount,
            current_time >= self.start_time + self.duration ==> r == self.end_discount,
            self.is_running_at(current_time as int) ==> self.start_discount <= r <= self.end_discount,
            self.duration > 0 && current_time == self.start_time ==> r == self.start_discount,
    {
        if current_time < self.start_time {
            return self.start_discount;
        }
        let elapsed: u64 = current_time - self.start_time;
        if elapsed >= self.duration {
            return self.end_discount;
        }
        let progress: u128 = elapsed as u128 * 10000 / self.duration as u128;
        proof {
            assert(elapsed * 10000 < self.duration * 10000);
            vstd::arithmetic::div_mod::lemma_div_is_ordered(
                elapsed * 10000,
                self.duration * 10000,
                self.duration as int,
            );
            vstd::arithmetic::div_mod::lemma_div_multiples_vanish(10000, self.duration as int);
            assert(self.duration * 10000 == 10000 * self.duration);
            assert(progress <= 10000);
        }
        let discount_range: u128 = (self.end_discount - self.start_discount) as u128;
        proof {
            assert(0 <= discount_range * progress <= discount_range * 10000) by (nonlinear_arith)
                requires
                    0 <= progress <= 10000,
                    0 <= discount_range,
            ;
            vstd::arithmetic::div_mod::lemma_div_is_ordered(
                (discount_range * progress) as int,
                (discount_range * 10000) as int,
                10000,
            );
            vstd::arithmetic::div_mod::lemma_div_multiples_vanish(discount_range as int, 10000);
            assert(discount_range * 10000 == 10000 * discount_range);
            assert(elapsed == 0 ==> discount_range * progress == 0) by (nonlinear_arith)
                requires
                    elapsed == 0 ==> progress == 0,
            ;
        }
        let additional_discount: u128 = discount_range * progress / 10000;
        self.start_discount + additional_discount as u32
    }

    /// Halfway through an auction of even duration the discount is the start
    /// discount plus half the range.
    pub proof fn lemma_midpoint_discount(&self)
        requires
            self.duration > 0,
            self.duration % 2 == 0,
            self.start_discount <= self.end_discount,
        ensures
            self.discount_at(self.start_time + self.duration / 2) == self.start_discount + (
            self.end_discount - self.start_discount) / 2,
    {
        let half = (self.duration / 2) as int;
        let range = self.end_discount - self.start_discount;
        assert(half * 10000 == 5000 * (self.duration as int));
        vstd::arithmetic::div_mod::lemma_div_multiples_vanish(5000, self.duration as int);
        assert(self.progress_at(self.start_time + self.duration / 2) == 5000);
        assert(range * 5000 / 10000 == range / 2) by {
            vstd::arithmetic::div_mod::lemma_div_denominator(range * 5000, 5000, 2);
            vstd::arithmetic::div_mod::lemma_div_multiples_vanish(range, 5000);
            assert(range * 5000 == 5000 * range);
        }
    }
}

/// Collateral over debt in basis points, rounded toward zero.
pub open spec fn health_ratio(collateral: int, debt: int) -> int {
    trunc_div(collateral * 10000, debt)
}

/// The collateral seized for each 10000 of debt repaid.
pub open spec fn penalty_factor(liquidation_penalty: int) -> int {
    10000 + liquidation_penalty
}

/// The repayment `R` that solves `(C - R * P / 10000) / (D - R) = H / 10000`.
pub open spec fn repay_to_target(collateral: int, debt: int, liquidation_penalty: int, target_health: int) -> int {
    trunc_div(
        10000 * collateral - target_health * debt,
        penalty_factor(liquidation_penalty) - target_health,
    )
}

/// The pair (collateral to seize, debt to repay) of a partial liquidation.
///
/// Nothing is liquidated where there is no debt, where the position is at or
/// above the target, or where the solved repayment is not positive. Where the
/// penalty factor does not exceed the target no partial repayment reaches
/// it: the whole position is liquidated, all collateral for all debt. Else
/// the solved repayment and its collateral, each held to what the position
/// has.
pub open spec fn partial_liquidation(collateral: int, debt: int, liquidation_penalty: int, target_health: int) -> (int, int) {
    let factor = penalty_factor(liquidation_penalty);
    let repay = repay_to_target(collateral, debt, liquidation_penalty, target_health);
    if debt == 0 || health_ratio(collateral, debt) >= target_health {
        (0, 0)
    } else if factor <= target_health {
        (collateral, debt)
    } else if repay <= 0 {
        (0, 0)
    } else {
        (min_int(trunc_div(repay * factor, 10000), collateral), min_int(repay, debt))
    }
}

/// On a positive debt a liquidation is all or nothing: where the penalty
/// factor exceeds the target, the solved repayment of a position below the
/// target is never positive, so nothing is liquidated; where it does not,
/// the whole position goes. So no plan leaves a position with less health
/// than it had.
pub proof fn lemma_partial_liquidation_of_positive_debt(collateral: int, debt: int, liquidation_penalty: int, target_health: int)
    requires
        debt > 0,
        liquidation_penalty >= 0,
    ensures
        partial_liquidation(collateral, debt, liquidation_penalty, target_health) == (0int, 0int)
            || (penalty_factor(liquidation_penalty) <= target_health && health_ratio(collateral, debt)
            < target_health && partial_liquidation(
            collateral,
            debt,
            liquidation_penalty,
            target_health,
        ) == (collateral, debt)),
{
    let factor = penalty_factor(liquidation_penalty);
    let scaled = collateral * 10000;
    if health_ratio(collateral, debt) < target_health && factor > target_health {
        let numerator = 10000 * collateral - target_health * debt;
        assert(scaled < target_health * debt) by {
            let q = trunc_div(scaled, debt);
            if scaled >= 0 {
                vstd::arithmetic::div_mod::lemma_fundamental_div_mod(scaled, debt);
                assert(scaled < (q + 1) * debt) by (nonlinear_arith)
                    requires
                        scaled == debt * q + scaled % debt,
                        0 <= scaled % debt < debt,
                ;
                assert(q == scaled / debt);
                assert((q + 1) * debt <= target_health * debt) by (nonlinear_arith)
                    requires
                        q + 1 <= target_health,
                        debt > 0,
                ;
            } else {
                vstd::arithmetic::div_mod::lemma_fundamental_div_mod(-scaled, debt);
                let p = (-scaled) / debt;
                assert(q == -p);
                assert(-scaled >= debt * p) by (nonlinear_arith)
                    requires
                        -scaled == debt * p + (-scaled) % debt,
                        0 <= (-scaled) % debt,
                ;
                assert(scaled < target_health * debt) by (nonlinear_arith)
                    requires
                        -scaled >= debt * p,
                        -p < target_health,
                        debt > 0,
                        scaled < 0,
                ;
            }
        }
        assert(numerator < 0);
        crate::math::lemma_trunc_div_bounds(numerator, factor - target_health);
    }
}

/// Every product and difference on the way to `partial_liquidation` can be
/// held in an `i128`.
pub open spec fn partial_liquidation_fits(collateral: int, debt: int, liquidation_penalty: int, target_health: int) -> bool {
    let factor = penalty_factor(liquidation_penalty);
    let repay = repay_to_target(collateral, debt, liquidation_penalty, target_health);
    debt != 0 ==> {
        &&& fits_i128(collateral * 10000)
        &&& (health_ratio(collateral, debt) < target_health && factor > target_health ==> {
            &&& fits_i128(target_health * debt)
            &&& fits_i128(10000 * collateral - target_health * debt)
            &&& fits_i128(factor - target_health)
            &&& (repay > 0 ==> fits_i128(repay * factor))
        })
    }
}

/// The least liquidation that restores `target_health`: the pair (collateral
/// to seize, debt to repay).
pub fn calculate_partial_liquidation(
    current_collateral: i128,
    current_debt: i128,
    liquidation_penalty: u32,
    target_health: i128,
) -> (r: (i128, i128))
    requires
        partial_liquidation_fits(
            current_collateral as int,
            current_debt as int,
            liquidation_penalty as int,
            target_health as int,
        ),
    ensures
        (r.0 as int, r.1 as int) == partial_liquidation(
            current_collateral as int,
            current_debt as int,
            liquidation_penalty as int,
            target_health as int,
        ),
        current_collateral >= 0 && current_debt >= 0 ==> 0 <= r.0 <= current_collateral && 0 <= r.1
            <= current_debt,
        current_debt > 0 ==> r == (0i128, 0i128) || r == (current_collateral, current_debt),
{
    if current_debt == 0 {
        return (0, 0);
    }
    proof {
        lemma_scaled_is_not_min(current_collateral as int);
        if current_debt > 0 {
            lemma_partial_liquidation_of_positive_debt(
                current_collateral as int,
                current_debt as int,
                liquidation_penalty as int,
                target_health as int,
            );
        }
    }
    let current_health: i128 = div_trunc(current_collateral * 10000, current_debt);
    if current_health >= target_health {
        return (0, 0);
    }
    let penalty_factor: i128 = 10000 + liquidation_penalty as i128;
    if penalty_factor <= target_health {
        return (current_collateral, current_debt);
    }
    let numerator: i128 = 10000 * current_collateral - target_health * current_debt;
    let denominator: i128 = penalty_factor - target_health;
    let debt_to_repay: i128 = numerator / denominator;
    if debt_to_repay <= 0 {
        return (0, 0);
    }
    let collateral_to_seize: i128 = debt_to_repay * penalty_factor / 10000;
    let final_debt: i128 = if debt_to_repay < current_debt { debt_to_repay } else { current_debt };
    let final_collateral: i128 = if collateral_to_seize < current_collateral {
        collateral_to_seize
    } else {
        current_collateral
    };
    (final_collateral, final_debt)
}

/// A partial liquidation under a close factor: where the repayment exceeds
/// `close_factor` basis points of the debt, it is held to that much, and the
/// collateral seized to what that repayment seizes at the penalty factor.
pub open spec fn capped_liquidation(
    collateral: int,
    debt: int,
    liquidation_penalty: int,
    target_health: int,
    close_factor: int,
) -> (int, int) {
    let plan = partial_liquidation(collateral, debt, liquidation_penalty, target_health);
    let cap = trunc_div(debt * close_factor, 10000);
    if plan.1 <= cap {
        plan
    } else {
        (min_int(trunc_div(cap * penalty_factor(liquidation_penalty), 10000), plan.0), cap)
    }
}

/// The least liquidation that restores `target_health`, held to the most
/// that one transaction may repay where a close factor is given.
pub fn calculate_capped_liquidation(
    current_collateral: i128,
    current_debt: i128,
    liquidation_penalty: u32,
    target_health: i128,
    close_factor: Option<u32>,
) -> (r: (i128, i128))
    requires
        partial_liquidation_fits(
            current_collateral as int,
            current_debt as int,
            liquidation_penalty as int,
            target_health as int,
        ),
        close_factor.is_some() ==> fits_i128(current_debt * close_factor.unwrap()) && fits_i128(
            trunc_div(current_debt * close_factor.unwrap(), 10000) * penalty_factor(
                liquidation_penalty as int,
            ),
        ),
    ensures
        close_factor.is_none() ==> (r.0 as int, r.1 as int) == partial_liquidation(
            current_collateral as int,
            current_debt as int,
            liquidation_penalty as int,
            target_health as int,
        ),
        close_factor.is_some() ==> (r.0 as int, r.1 as int) == capped_liquidation(
            current_collateral as int,
            current_debt as int,
            liquidation_penalty as int,
            target_health as int,
            close_factor.unwrap() as int,
        ),
{
    let (seized, repay) = calculate_partial_liquidation(
        current_collateral,
        current_debt,
        liquidation_penalty,
        target_health,
    );
    match close_factor {
        None => (seized, repay),
        Some(factor) => {
            let cap: i128 = max_single_liquidation(current_debt, factor);
            if repay <= cap {
                (seized, repay)
            } else {
                let at_cap: i128 = cap * (10000 + liquidation_penalty as i128) / 10000;
                (if at_cap < seized { at_cap } else { seized }, cap)
            }
        },
    }
}

/// The penalty that a liquidation takes: what is seized beyond what is
/// repaid, or nothing where that is not positive.
pub open spec fn total_bonus(collateral_seized: int, debt_repaid: int) -> int {
    if collateral_seized - debt_repaid <= 0 {
        0
    } else {
        collateral_seized - debt_repaid
    }
}

/// The protocol's share of the bonus.
pub open spec fn protocol_share(collateral_seized: int, debt_repaid: int, protocol_fee_bp: int) -> int {
    trunc_div(total_bonus(collateral_seized, debt_repaid) * protocol_fee_bp, 10000)
}

/// Splits the bonus of a liquidation into (liquidator's bonus, protocol fee).
/// The two always add up to the whole bonus.
pub fn calculate_liquidation_bonus(
    collateral_seized: i128,
    debt_repaid: i128,
    protocol_fee_bp: u32,
) -> (r: (i128, i128))
    requires
        fits_i128(collateral_seized - debt_repaid),
        fits_i128(total_bonus(collateral_seized as int, debt_repaid as int) * protocol_fee_bp),
    ensures
        r.1 == protocol_share(collateral_seized as int, debt_repaid as int, protocol_fee_bp as int),
        r.0 + r.1 == total_bonus(collateral_seized as int, debt_repaid as int),
        r.1 >= 0,
        protocol_fee_bp <= 10000 ==> r.0 >= 0,
{
    let total_bonus: i128 = collateral_seized - debt_repaid;
    if total_bonus <= 0 {
        return (0, 0);
    }
    proof {
        assert(0 <= total_bonus * protocol_fee_bp) by (nonlinear_arith)
            requires
                total_bonus > 0,
                protocol_fee_bp >= 0,
        ;
        if protocol_fee_bp <= 10000 {
            assert(total_bonus * protocol_fee_bp <= total_bonus * 10000) by (nonlinear_arith)
                requires
                    total_bonus > 0,
                    protocol_fee_bp <= 10000,
            ;
            vstd::arithmetic::div_mod::lemma_div_is_ordered(
                total_bonus * protocol_fee_bp,
                total_bonus * 10000,
                10000,
            );
            vstd::arithmetic::div_mod::lemma_div_multiples_vanish(total_bonus as int, 10000);
            assert(total_bonus * 10000 == 10000 * total_bonus);
        }
    }
    let protocol_fee: i128 = total_bonus * protocol_fee_bp as i128 / 10000;
    let liquidator_bonus: i128 = total_bonus - protocol_fee;
    (liquidator_bonus, protocol_fee)
}

/// A position may be liquidated when its health factor is strictly below the
/// threshold; at the threshold itself it may not.
pub fn is_liquidatable(health_factor: i128, liquidation_threshold: i128) -> (r: bool)
    ensures
        r == (health_factor < liquidation_threshold),
{
    health_factor < liquidation_threshold
}

/// The most debt that one liquidation may repay: `close_factor` basis points
/// of the total debt.
pub fn max_single_liquidation(total_debt: i128, close_factor: u32) -> (r: i128)
    requires
        fits_i128(total_debt * close_factor),
    ensures
        r == trunc_div(total_debt * close_factor, 10000),
{
    total_debt * close_factor as i128 / 10000
}

/// Whether a partial liquidation can be computed: whether
/// `calculate_partial_liquidation` may be called.
pub fn partial_liquidation_computable(
    current_collateral: i128,
    current_debt: i128,
    liquidation_penalty: u32,
    target_health: i128,
) -> (ok: bool)
    ensures
        ok == partial_liquidation_fits(
            current_collateral as int,
            current_debt as int,
            liquidation_penalty as int,
            target_health as int,
        ),
{
    if current_debt == 0 {
        return true;
    }
    let scaled: i128 = match current_collateral.checked_mul(10000) {
        Some(product) => product,
        None => {
            return false;
        },
    };
    proof {
        lemma_scaled_is_not_min(current_collateral as int);
    }
    let penalty_factor: i128 = 10000 + liquidation_penalty as i128;
    if div_trunc(scaled, current_debt) >= target_health || penalty_factor <= target_health {
        return true;
    }
    let weighted_debt: i128 = match target_health.checked_mul(current_debt) {
        Some(product) => product,
        None => {
            return false;
        },
    };
    let numerator: i128 = match scaled.checked_sub(weighted_debt) {
        Some(difference) => difference,
        None => {
            return false;
        },
    };
    let denominator: i128 = match penalty_factor.checked_sub(target_health) {
        Some(difference) => difference,
        None => {
            return false;
        },
    };
    let repay: i128 = numerator / denominator;
    repay <= 0 || repay.checked_mul(penalty_factor).is_some()
}

/// The partial liquidation, or `None` where a step on the way would leave
/// `i128`.
pub fn try_calculate_partial_liquidation(
    current_collateral: i128,
    current_debt: i128,
    liquidation_penalty: u32,
    target_health: i128,
) -> (r: Option<(i128, i128)>)
    ensures
        r.is_none() == !partial_liquidation_fits(
            current_collateral as int,
            current_debt as int,
            liquidation_penalty as int,
            target_health as int,
        ),
        r.is_some() ==> (r.unwrap().0 as int, r.unwrap().1 as int) == partial_liquidation(
            current_collateral as int,
            current_debt as int,
            liquidation_penalty as int,
            target_health as int,
        ),
{
    if partial_liquidation_computable(
        current_collateral,
        current_debt,
        liquidation_penalty,
        target_health,
    ) {
        Some(
            calculate_partial_liquidation(
                current_collateral,
                current_debt,
                liquidation_penalty,
                target_health,
            ),
        )
    } else {
        None
    }
}

/// The bonus of a liquidation can be split: the bonus and the fee's product
/// can be held in an `i128`.
pub open spec fn liquidation_bonus_fits(collateral_seized: int, debt_repaid: int, protocol_fee_bp: int) -> bool {
    &&& fits_i128(collateral_seized - debt_repaid)
    &&& fits_i128(total_bonus(collateral_seized, debt_repaid) * protocol_fee_bp)
}

/// The split of the bonus, or `None` where a step on the way would leave
/// `i128`.
pub fn try_calculate_liquidation_bonus(
    collateral_seized: i128,
    debt_repaid: i128,
    protocol_fee_bp: u32,
) -> (r: Option<(i128, i128)>)
    ensures
        r.is_none() == !liquidation_bonus_fits(
            collateral_seized as int,
            debt_repaid as int,
            protocol_fee_bp as int,
        ),
        r.is_some() ==> r.unwrap().1 == protocol_share(
            collateral_seized as int,
            debt_repaid as int,
            protocol_fee_bp as int,
        ) && r.unwrap().0 + r.unwrap().1 == total_bonus(collateral_seized as int, debt_repaid as int),
{
    let bonus: i128 = match collateral_seized.checked_sub(debt_repaid) {
        Some(difference) => difference,
        None => {
            return None;
        },
    };
    if bonus > 0 && bonus.checked_mul(protocol_fee_bp as i128).is_none() {
        return None;
    }
    Some(calculate_liquidation_bonus(collateral_seized, debt_repaid, protocol_fee_bp))
}

/// The most debt that one liquidation may repay, or `None` where the product
/// would leave `i128`.
pub fn try_max_single_liquidation(total_debt: i128, close_factor: u32) -> (r: Option<i128>)
    ensures
        r.is_none() == !fits_i128(total_debt * close_factor),
        r.is_some() ==> r.unwrap() == trunc_div(total_debt * close_factor, 10000),
{
    match total_debt.checked_mul(close_factor as i128) {
        Some(_) => Some(max_single_liquidation(total_debt, close_factor)),
        None => None,
    }
}

/// A capped liquidation can be computed: the partial liquidation can, and
/// with a close factor so can the cap and what it seizes.
pub open spec fn capped_liquidation_fits(
    collateral: int,
    debt: int,
    liquidation_penalty: int,
    target_health: int,
    close_factor: Option<u32>,
) -> bool {
    &&& partial_liquidation_fits(collateral, debt, liquidation_penalty, target_health)
    &&& close_factor.is_some() ==> fits_i128(debt * close_factor.unwrap()) && fits_i128(
        trunc_div(debt * close_factor.unwrap(), 10000) * penalty_factor(liquidation_penalty),
    )
}

/// The capped liquidation, or `None` where a step on the way would leave
/// `i128`.
pub fn try_calculate_capped_liquidation(
    current_collateral: i128,
    current_debt: i128,
    liquidation_penalty: u32,
    target_health: i128,
    close_factor: Option<u32>,
) -> (r: Option<(i128, i128)>)
    ensures
        r.is_none() == !capped_liquidation_fits(
            current_collateral as int,
            current_debt as int,
            liquidation_penalty as int,
            target_health as int,
            close_factor,
        ),
        r.is_some() && close_factor.is_none() ==> (r.unwrap().0 as int, r.unwrap().1 as int)
            == partial_liquidation(
            current_collateral as int,
            current_debt as int,
            liquidation_penalty as int,
            target_health as int,
        ),
        r.is_some() && close_factor.is_some() ==> (r.unwrap().0 as int, r.unwrap().1 as int)
            == capped_liquidation(
            current_collateral as int,
            current_debt as int,
            liquidation_penalty as int,
            target_health as int,
            close_factor.unwrap() as int,
        ),
{
    if !partial_liquidation_computable(
        current_collateral,
        current_debt,
        liquidation_penalty,
        target_health,
    ) {
        return None;
    }
    match close_factor {
        Some(factor) => {
            match try_max_single_liquidation(current_debt, factor) {
                Some(cap) => {
                    if cap.checked_mul(10000 + liquidation_penalty as i128).is_none() {
                        return None;
                    }
                },
                None => {
                    return None;
                },
            }
        },
        None => {},
    }
    Some(
        calculate_capped_liquidation(
            current_collateral,
            current_debt,
            liquidation_penalty,
            target_health,
            close_factor,
        ),
    )
}

impl DutchAuctionParams {
    /// The discount at `current_time`, or `None` for an auction that is
    /// running and starts above its end, whose discount has no value.
    pub fn try_current_discount(&self, current_time: u64) -> (r: Option<u32>)
        ensures
            r.is_none() == (self.is_running_at(current_time as int) && self.start_discount
                > self.end_discount),
            r.is_some() ==> r.unwrap() == self.discount_at(current_time as int),
    {
        if current_time >= self.start_time && current_time - self.start_time < self.duration
            && self.start_discount > self.end_discount {
            return None;
        }
        Some(self.current_discount(current_time))
    }
}

} // verus!
