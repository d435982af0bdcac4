//! Fixed-point scalar arithmetic.
//!
//! A scalar is an `i64` counting millionths of a unit (a radian, a
//! normalized device coordinate, a pixel). Division follows the hardware
//! rule, truncating toward zero.

use vstd::prelude::*;

verus! {

/// One million fixed-point steps make one unit.
pub const SCALE: i64 = 1_000_000;

/// Half a turn, in millionths of a radian.
pub const PI_MICRO: i64 = 3_141_592;

/// A full turn, in millionths of a radian.
pub const TWO_PI_MICRO: i64 = 6_283_185;

/// Truncating (toward zero) division, the semantics of a hardware divide;
/// on nonnegative operands it coincides with Euclidean division.
pub open spec fn div_trunc(a: int, b: int) -> int
    recommends
        b != 0,
{
    if b > 0 {
        if a >= 0 {
            a / b
        } else {
            -((-a) / b)
        }
    } else {
        if a >= 0 {
            -(a / (-b))
        } else {
            (-a) / (-b)
        }
    }
}

/// Truncating division of two fixed-point values.
pub fn div_fp(n: i64, d: i64) -> (r: i64)
    requires
        d != 0,
        n != i64::MIN,
        d != i64::MIN,
    ensures
        r == div_trunc(n as int, d as int),
{
    let nn: i64 = if n < 0 { -n } else { n };
    let dd: i64 = if d < 0 { -d } else { d };
    let q: i64 = nn / dd;
    if (n < 0) != (d < 0) {
        -q
    } else {
        q
    }
}

/// Divides a fixed-point value by the scale, truncating toward zero.
pub fn div_scale(n: i64) -> (r: i64)
    requires
        n != i64::MIN,
    ensures
        r == div_trunc(n as int, SCALE as int),
{
    div_fp(n, SCALE)
}

/// Truncated remainder, the semantics of the hardware `%`: it carries the
/// sign of the dividend.
pub open spec fn rem_trunc(a: int, b: int) -> int
    recommends
        b != 0,
{
    a - b * div_trunc(a, b)
}

/// Truncated remainder of two fixed-point values.
pub fn rem_fp(n: i64, d: i64) -> (r: i64)
    requires
        d > 0,
        n != i64::MIN,
    ensures
        r == rem_trunc(n as int, d as int),
        -d < r < d,
        n >= 0 ==> r >= 0,
        n < 0 ==> r <= 0,
{
    let q: i64 = div_fp(n, d);
    proof {
        if n >= 0 {
            vstd::arithmetic::div_mod::lemma_fundamental_div_mod(n as int, d as int);
            vstd::arithmetic::div_mod::lemma_mod_bound(n as int, d as int);
        } else {
            let m: int = -n as int;
            vstd::arithmetic::div_mod::lemma_fundamental_div_mod(m, d as int);
            vstd::arithmetic::div_mod::lemma_mod_bound(m, d as int);
            assert(d as int * (-(m / d as int)) == -(d as int * (m / d as int))) by (
            nonlinear_arith);
            assert(n as int - d as int * div_trunc(n as int, d as int) == -(m - d as int * (m
                / d as int)));
        }
    }
    n - d * q
}

/// Floor division by a positive divisor: the quotient rounds toward
/// negative infinity.
pub fn floor_div_pos(n: i64, d: i64) -> (r: i64)
    requires
        d > 0,
        i64::MIN + d < n,
    ensures
        r == n as int / d as int,
{
    if n >= 0 {
        n / d
    } else {
        let m: i64 = -n;
        let q: i64 = (m + (d - 1)) / d;
        proof {
            lemma_ceil_neg(m as int, d as int);
        }
        -q
    }
}

proof fn lemma_ceil_neg(m: int, d: int)
    requires
        m > 0,
        d > 0,
    ensures
        -((m + d - 1) / d) == (-m) / d,
{
    let q: int = (m + d - 1) / d;
    let r: int = (m + d - 1) % d;
    vstd::arithmetic::div_mod::lemma_fundamental_div_mod(m + d - 1, d);
    vstd::arithmetic::div_mod::lemma_mod_bound(m + d - 1, d);
    assert(m + d - 1 == d * q + r && 0 <= r < d);
    let r2: int = (-m) % d;
    let q2: int = (-m) / d;
    vstd::arithmetic::div_mod::lemma_fundamental_div_mod(-m, d);
    vstd::arithmetic::div_mod::lemma_mod_bound(-m, d);
    assert(-m == d * q2 + r2 && 0 <= r2 < d);
    assert(q + q2 == 0) by (nonlinear_arith)
        requires
            d > 0,
            m > 0,
            m + d - 1 == d * q + r,
            0 <= r < d,
            -m == d * q2 + r2,
            0 <= r2 < d,
    ;
}

/// The product of two fixed-point values, brought back to the scale.
pub open spec fn fp_mul_spec(a: int, b: int) -> int {
    div_trunc(a * b, SCALE as int)
}

/// Fixed-point multiplication: multiply, then drop the extra scale factor.
pub fn fp_mul(a: i64, b: i64) -> (r: i64)
    requires
        i64::MIN < a * b <= i64::MAX,
    ensures
        r == fp_mul_spec(a as int, b as int),
{
    let p: i64 = a * b;
    div_scale(p)
}

/// A plain product that stops at the representable range instead of
/// overflowing: far off-screen coordinates stay far off-screen.
pub open spec fn sat_mul_spec(a: int, b: int) -> int {
    if a * b > i64::MAX {
        i64::MAX as int
    } else if a * b < i64::MIN {
        i64::MIN as int
    } else {
        a * b
    }
}

/// Saturating multiplication of two fixed-point values.
pub fn sat_mul(a: i64, b: i64) -> (r: i64)
    ensures
        r == sat_mul_spec(a as int, b as int),
{
    match a.checked_mul(b) {
        Some(p) => p,
        None => {
            if (a < 0) == (b < 0) {
                proof {
                    lemma_same_signs_product(a as int, b as int);
                }
                i64::MAX
            } else {
                proof {
                    lemma_opposite_signs_product(a as int, b as int);
                }
                i64::MIN
            }
        },
    }
}

proof fn lemma_same_signs_product(a: int, b: int)
    requires
        (a < 0) == (b < 0),
    ensures
        a * b >= 0,
{
    if a < 0 {
        assert(a * b >= 0) by (nonlinear_arith)
            requires
                a < 0,
                b < 0,
        ;
    } else {
        assert(a * b >= 0) by (nonlinear_arith)
            requires
                a >= 0,
                b >= 0,
        ;
    }
}

proof fn lemma_opposite_signs_product(a: int, b: int)
    requires
        (a < 0) != (b < 0),
    ensures
        a * b <= 0,
{
    if a < 0 {
        assert(a * b <= 0) by (nonlinear_arith)
            requires
                a < 0,
                b >= 0,
        ;
    } else {
        assert(a * b <= 0) by (nonlinear_arith)
            requires
                a >= 0,
                b < 0,
        ;
    }
}

/// A plain sum that stops at the representable range instead of
/// overflowing.
pub open spec fn sat_add_spec(a: int, b: int) -> int {
    if a + b > i64::MAX {
        i64::MAX as int
    } else if a + b < i64::MIN {
        i64::MIN as int
    } else {
        a + b
    }
}

/// Saturating addition of two fixed-point values.
pub fn sat_add(a: i64, b: i64) -> (r: i64)
    ensures
        r == sat_add_spec(a as int, b as int),
{
    match a.checked_add(b) {
        Some(s) => s,
        None => {
            if a > 0 {
                i64::MAX
            } else {
                i64::MIN
            }
        },
    }
}

/// A product of bounded factors is bounded by the product of the bounds.
pub proof fn lemma_mul_bound(a: int, b: int, ba: int, bb: int)
    requires
        -ba <= a <= ba,
        -bb <= b <= bb,
        0 <= ba,
        0 <= bb,
    ensures
        -(ba * bb) <= a * b <= ba * bb,
{
    assert(-(ba * bb) <= a * b <= ba * bb) by (nonlinear_arith)
        requires
            -ba <= a <= ba,
            -bb <= b <= bb,
            0 <= ba,
            0 <= bb,
    ;
}

/// Clamps a value into a closed interval.
pub fn clamp_fp(v: i64, lo: i64, hi: i64) -> (r: i64)
    requires
        lo <= hi,
    ensures
        r == clamp_spec(v as int, lo as int, hi as int),
{
    if v < lo {
        lo
    } else if v > hi {
        hi
    } else {
        v
    }
}

/// The nearest point of the interval `[lo, hi]`.
pub open spec fn clamp_spec(v: int, lo: int, hi: int) -> int {
    if v < lo {
        lo
    } else if v > hi {
        hi
    } else {
        v
    }
}

/// Truncating division never grows a bound: if `|a| <= k * b`, the quotient
/// stays within `[-k, k]`.
pub proof fn lemma_div_trunc_bound(a: int, b: int, k: int)
    requires
        b > 0,
        k >= 0,
        -(k * b) <= a <= k * b,
    ensures
        -k <= div_trunc(a, b) <= k,
{
    if a >= 0 {
        assert(a / b <= k) by (nonlinear_arith)
            requires
                b > 0,
                0 <= a <= k * b,
        ;
        assert(a / b >= 0) by (nonlinear_arith)
            requires
                b > 0,
                a >= 0,
        ;
    } else {
        assert((-a) / b <= k) by (nonlinear_arith)
            requires
                b > 0,
                0 <= -a <= k * b,
        ;
        assert((-a) / b >= 0) by (nonlinear_arith)
            requires
                b > 0,
                -a >= 0,
        ;
    }
}

} // verus!
