//! Fixed-point helpers shared by the whole crate: truncating division,
//! powers of ten and the integer square root.

use vstd::prelude::*;
use vstd::arithmetic::power::pow;

verus! {

/// One whole (100%) in basis points.
pub const BASIS_POINTS: i128 = 10000;

/// The quotient of `a` by `b` rounded toward zero (0 where `b` is 0).
pub open spec fn trunc_div(a: int, b: int) -> int {
    if b == 0 {
        0
    } else if a >= 0 && b > 0 {
        a / b
    } else if a < 0 && b > 0 {
        -((-a) / b)
    } else if a >= 0 && b < 0 {
        -(a / (-b))
    } else {
        (-a) / (-b)
    }
}

/// `x` can be held in an `i128`.
pub open spec fn fits_i128(x: int) -> bool {
    i128::MIN <= x <= i128::MAX
}

/// `x` can be held in a `u32`.
pub open spec fn fits_u32(x: int) -> bool {
    0 <= x <= u32::MAX
}

/// Rounding toward zero never grows a magnitude, keeps the sign that the
/// operands give, and shrinks every nonzero dividend once the divisor's
/// magnitude is 2 or more.
pub proof fn lemma_trunc_div_bounds(a: int, b: int)
    requires
        b != 0,
    ensures
        a >= 0 ==> -a <= trunc_div(a, b) <= a,
        a <= 0 ==> a <= trunc_div(a, b) <= -a,
        (a >= 0) == (b > 0) ==> trunc_div(a, b) >= 0,
        (a > 0) == (b < 0) ==> trunc_div(a, b) <= 0,
        a != 0 && (b >= 2 || b <= -2) ==> a != trunc_div(a, b) && -a != trunc_div(a, b),
{
    let x = if a >= 0 { a } else { -a };
    let d = if b > 0 { b } else { -b };
    vstd::arithmetic::div_mod::lemma_div_pos_is_pos(x, d);
    vstd::arithmetic::div_mod::lemma_div_nonincreasing(x, d);
    if x > 0 && d > 1 {
        vstd::arithmetic::div_mod::lemma_div_decreases(x, d);
    }
}

/// The quotient of `a` by `b` rounded toward zero, for either sign of each.
pub fn div_trunc(a: i128, b: i128) -> (r: i128)
    requires
        b != 0,
        !(a == i128::MIN && b == -1),
    ensures
        r == trunc_div(a as int, b as int),
{
    if b > 0 {
        a / b
    } else if b == i128::MIN {
        proof {
            let x = if a >= 0 { a as int } else { -(a as int) };
            if x < -(b as int) {
                vstd::arithmetic::div_mod::lemma_basic_div(x, -(b as int));
            } else {
                vstd::arithmetic::div_mod::lemma_div_by_self(x);
            }
        }
        if a == i128::MIN {
            1
        } else {
            0
        }
    } else {
        proof {
            lemma_trunc_div_bounds(a as int, -(b as int));
        }
        let q: i128 = a / (-b);
        -q
    }
}

/// The smaller of two numbers.
pub open spec fn min_int(a: int, b: int) -> int {
    if a <= b {
        a
    } else {
        b
    }
}

/// No multiple of 10000 is the least `i128`, so a quotient of such a
/// multiple never overflows.
pub proof fn lemma_scaled_is_not_min(x: int)
    ensures
        x * 10000 != i128::MIN,
{
    assert((x * 10000) % 10000 == 0) by (nonlinear_arith);
}

/// `r` is the floor of the square root of `n`.
pub open spec fn is_floor_sqrt(n: int, r: int) -> bool {
    r >= 0 && r * r <= n < (r + 1) * (r + 1)
}

/// The floor of the square root of `n`; 0 for every `n` below 1.
pub open spec fn floor_sqrt(n: int) -> int {
    if n <= 0 {
        0
    } else {
        choose|r: int| is_floor_sqrt(n, r)
    }
}

/// At most one number is the floor of the square root of `n`.
pub proof fn lemma_floor_sqrt_unique(n: int, r1: int, r2: int)
    requires
        is_floor_sqrt(n, r1),
        is_floor_sqrt(n, r2),
    ensures
        r1 == r2,
{
    if r1 < r2 {
        assert((r1 + 1) * (r1 + 1) <= r2 * r2) by (nonlinear_arith)
            requires
                0 <= r1,
                r1 + 1 <= r2,
        ;
    } else if r2 < r1 {
        assert((r2 + 1) * (r2 + 1) <= r1 * r1) by (nonlinear_arith)
            requires
                0 <= r2,
                r2 + 1 <= r1,
        ;
    }
}

/// A number that brackets `n` between its square and the next square is
/// `floor_sqrt(n)`.
pub proof fn lemma_floor_sqrt_is(n: int, r: int)
    requires
        n >= 0,
        is_floor_sqrt(n, r),
    ensures
        floor_sqrt(n) == r,
{
    if n == 0 {
        assert(r == 0) by (nonlinear_arith)
            requires
                r >= 0,
                r * r <= 0,
        ;
    } else {
        let c = choose|c: int| is_floor_sqrt(n, c);
        lemma_floor_sqrt_unique(n, r, c);
    }
}

/// The floor of a square root grows with its argument.
pub proof fn lemma_floor_sqrt_bound(n: int, r: int, limit: int)
    requires
        is_floor_sqrt(n, r),
        limit >= 0,
        n < limit * limit,
    ensures
        r < limit,
{
    if r >= limit {
        assert(limit * limit <= r * r) by (nonlinear_arith)
            requires
                0 <= limit <= r,
        ;
    }
}

/// One Newton step from any positive `x` lands at or above the root of `n`.
proof fn lemma_newton_step(n: int, x: int)
    requires
        n >= 0,
        x >= 1,
    ensures
        ((x + n / x) / 2 + 1) * ((x + n / x) / 2 + 1) > n,
        n / x >= 0,
        x * (n / x) <= n,
{
    let q = n / x;
    let y = (x + q) / 2;
    vstd::arithmetic::div_mod::lemma_fundamental_div_mod(n, x);
    vstd::arithmetic::div_mod::lemma_div_pos_is_pos(n, x);
    assert(n == x * q + n % x);
    assert(n < x * (q + 1)) by (nonlinear_arith)
        requires
            n == x * q + n % x,
            0 <= n % x < x,
    ;
    assert(2 * (y + 1) >= x + q + 1);
    assert(4 * ((y + 1) * (y + 1)) >= (x + q + 1) * (x + q + 1)) by (nonlinear_arith)
        requires
            2 * (y + 1) >= x + q + 1,
            x + q + 1 >= 0,
    ;
    assert((x - (q + 1)) * (x - (q + 1)) >= 0) by (nonlinear_arith);
    assert((x + q + 1) * (x + q + 1) >= 4 * (x * (q + 1))) by (nonlinear_arith)
        requires
            (x - (q + 1)) * (x - (q + 1)) >= 0,
    ;
}

/// Integer square root by Newton's method: the largest `r` with `r * r <= n`.
/// Every `n` below 1 gives 0.
pub fn integer_sqrt(n: i128) -> (r: i128)
    ensures
        r == floor_sqrt(n as int),
        n <= 0 ==> r == 0,
        n >= 0 ==> is_floor_sqrt(n as int, r as int),
{
    if n <= 0 {
        proof {
            if n == 0 {
                assert(is_floor_sqrt(0, 0));
            }
        }
        return 0;
    }
    if n == 1 {
        proof {
            assert(is_floor_sqrt(1, 1));
            lemma_floor_sqrt_is(1, 1);
        }
        return 1;
    }
    let mut x: i128 = n;
    let mut y: i128 = x / 2 + x % 2;
    proof {
        assert(n / n == 1) by (nonlinear_arith)
            requires
                n >= 2,
        ;
        assert(y == (x + n / x) / 2);
        lemma_newton_step(n as int, n as int);
        assert((x + 1) * (x + 1) > n) by (nonlinear_arith)
            requires
                x == n,
                n >= 2,
        ;
    }
    while y < x
        invariant
            n >= 2,
            1 <= x <= n,
            (x + 1) * (x + 1) > n,
            (y + 1) * (y + 1) > n,
            y == (x + n / x) / 2,
            y < x ==> 2 * y <= n + 1,
        decreases x,
    {
        proof {
            if y <= 0 {
                assert((y + 1) * (y + 1) <= 1) by (nonlinear_arith)
                    requires
                        -1 <= y + 1 <= 1,
                ;
            }
        }
        x = y;
        proof {
            lemma_newton_step(n as int, x as int);
            if x == 1 {
                assert((x + 1) * (x + 1) == 4) by (nonlinear_arith)
                    requires
                        x == 1,
                ;
            } else {
                assert(2 * (n / x) <= n) by (nonlinear_arith)
                    requires
                        x >= 2,
                        x * (n / x) <= n,
                        n / x >= 0,
                ;
            }
        }
        y = (x + n / x) / 2;
    }
    proof {
        let q = n as int / x as int;
        lemma_newton_step(n as int, x as int);
        assert(q >= x);
        assert(x * x <= n) by (nonlinear_arith)
            requires
                x * q <= n,
                q >= x,
                x >= 1,
        ;
        lemma_floor_sqrt_is(n as int, x as int);
    }
    x
}

/// Ten to the power `exp`, for every power that an `i128` holds.
pub fn pow10(exp: u32) -> (r: i128)
    requires
        exp <= 38,
    ensures
        r == pow(10, exp as nat),
        r >= 1,
{
    let mut r: i128 = 1;
    let mut i: u32 = 0;
    proof {
        vstd::arithmetic::power::lemma_pow0(10);
        lemma_pow10_bounds(0);
    }
    while i < exp
        invariant
            i <= exp <= 38,
            r == pow(10, i as nat),
            r >= 1,
        decreases exp - i,
    {
        proof {
            lemma_pow10_bounds(i as nat);
            lemma_pow10_bounds((i + 1) as nat);
            vstd::arithmetic::power::lemma_pow1(10);
            vstd::arithmetic::power::lemma_pow_adds(10, i as nat, 1);
        }
        r = r * 10;
        i = i + 1;
    }
    r
}

/// Every power of ten up to the 38th is positive and below `i128::MAX`.
pub proof fn lemma_pow10_bounds(e: nat)
    requires
        e <= 38,
    ensures
        1 <= pow(10, e) <= 100000000000000000000000000000000000000,
    decreases e,
{
    if e == 0 {
        vstd::arithmetic::power::lemma_pow0(10);
    } else {
        lemma_pow10_bounds((e - 1) as nat);
        lemma_pow10_step((e - 1) as nat);
        lemma_pow10_upper(e);
        let a = pow(10, e);
        let b = pow(10, (38 - e) as nat);
        assert(a <= 100000000000000000000000000000000000000) by (nonlinear_arith)
            requires
                a * b == 100000000000000000000000000000000000000,
                a >= 1,
                b >= 1,
        ;
    }
}

proof fn lemma_pow10_step(e: nat)
    ensures
        pow(10, e + 1) == 10 * pow(10, e),
{
    vstd::arithmetic::power::lemma_pow1(10);
    vstd::arithmetic::power::lemma_pow_adds(10, 1, e);
}

proof fn lemma_pow10_upper(e: nat)
    requires
        e <= 38,
    ensures
        pow(10, e) * pow(10, (38 - e) as nat) == 100000000000000000000000000000000000000,
        pow(10, (38 - e) as nat) >= 1,
    decreases 38 - e,
{
    if e == 38 {
        vstd::arithmetic::power::lemma_pow0(10);
        lemma_pow10_38();
    } else {
        lemma_pow10_upper(e + 1);
        lemma_pow10_step(e);
        lemma_pow10_step((38 - e - 1) as nat);
        let a = pow(10, e);
        let b = pow(10, (38 - e - 1) as nat);
        assert((10 * a) * b == a * (10 * b)) by (nonlinear_arith);
    }
}

proof fn lemma_pow10_38()
    ensures
        pow(10, 38) == 100000000000000000000000000000000000000,
{
    reveal_with_fuel(pow, 39);
}

} // verus!
