//! Signed 16.16 fixed-point scalars.
//!
//! A scalar is an `i64` whose value is `raw / 65536`. Every operation
//! saturates to the `i64` range, so all routines are total and panic-free;
//! the saturation is part of each contract.

use vstd::prelude::*;

verus! {

/// Raw representation of 1.0.
pub const FX_ONE: i64 = 65536;
/// Raw representation of pi, rounded to the nearest unit.
pub const FX_PI: i64 = 205887;
/// Raw representation of 2*pi, rounded to the nearest unit.
pub const FX_TWO_PI: i64 = 411775;
/// Raw representation of pi/2, rounded to the nearest unit.
pub const FX_HALF_PI: i64 = 102944;

/// Clamp a mathematical integer into the `i64` range.
pub open spec fn sat64(x: int) -> int {
    if x > i64::MAX {
        i64::MAX as int
    } else if x < i64::MIN {
        i64::MIN as int
    } else {
        x
    }
}

/// Absolute value on mathematical integers.
pub open spec fn iabs(a: int) -> int {
    if a < 0 {
        -a
    } else {
        a
    }
}

/// Division rounding toward zero, as the hardware divide does.
pub open spec fn tdiv(a: int, b: int) -> int
    recommends
        b != 0,
{
    if (a < 0) == (b < 0) {
        iabs(a) / iabs(b)
    } else {
        -(iabs(a) / iabs(b))
    }
}

/// Smaller of two mathematical integers.
pub open spec fn imin(a: int, b: int) -> int {
    if a <= b {
        a
    } else {
        b
    }
}

/// Larger of two mathematical integers.
pub open spec fn imax(a: int, b: int) -> int {
    if a >= b {
        a
    } else {
        b
    }
}

/// Clamp into `[lo, hi]`.
pub open spec fn iclamp(a: int, lo: int, hi: int) -> int {
    if a < lo {
        lo
    } else if a > hi {
        hi
    } else {
        a
    }
}

/// Clamp a fixed-point scalar into `[0, 1]`.
pub open spec fn clamp01(x: int) -> int {
    if x < 0 {
        0
    } else if x > 65536 {
        65536
    } else {
        x
    }
}

/// Saturating fixed-point sum.
pub open spec fn fx_add_s(a: int, b: int) -> int {
    sat64(a + b)
}

/// Saturating fixed-point difference.
pub open spec fn fx_sub_s(a: int, b: int) -> int {
    sat64(a - b)
}

/// Saturating fixed-point negation.
pub open spec fn fx_neg_s(a: int) -> int {
    sat64(-a)
}

/// Saturating fixed-point product: the full product rescaled by 2^-16,
/// rounded toward zero.
pub open spec fn fx_mul_s(a: int, b: int) -> int {
    sat64(tdiv(a * b, 65536))
}

/// Saturating fixed-point quotient, rounded toward zero.
pub open spec fn fx_div_s(a: int, b: int) -> int
    recommends
        b != 0,
{
    sat64(tdiv(a * 65536, b))
}

/// Integer square root: the greatest `r` with `r * r <= n`.
pub open spec fn isqrt_s(n: nat) -> nat
    decreases n,
{
    if n == 0 {
        0
    } else {
        let r = isqrt_s((n - 1) as nat);
        if (r + 1) * (r + 1) <= n {
            r + 1
        } else {
            r
        }
    }
}

/// Fixed-point square root of a non-negative scalar.
pub open spec fn fx_sqrt_s(a: int) -> int
    recommends
        a >= 0,
{
    isqrt_s((a * 65536) as nat) as int
}

/// `isqrt_s(n)` is indeed the integer square root of `n`.
pub proof fn lemma_isqrt_bounds(n: nat)
    ensures
        isqrt_s(n) * isqrt_s(n) <= n,
        n < (isqrt_s(n) + 1) * (isqrt_s(n) + 1),
    decreases n,
{
    if n == 0 {
        assert(isqrt_s(0) == 0);
        assert((isqrt_s(n) + 1) * (isqrt_s(n) + 1) == 1) by (nonlinear_arith)
            requires
                isqrt_s(n) == 0,
        ;
    } else {
        lemma_isqrt_bounds((n - 1) as nat);
        let r = isqrt_s((n - 1) as nat);
        if (r + 1) * (r + 1) <= n {
            assert(isqrt_s(n) == r + 1);
            assert((r + 1) * (r + 1) < (r + 2) * (r + 2)) by (nonlinear_arith)
                requires
                    r >= 0,
            ;
            assert(isqrt_s(n) * isqrt_s(n) <= n);
            assert(n < (isqrt_s(n) + 1) * (isqrt_s(n) + 1));
        } else {
            assert(isqrt_s(n) == r);
            assert(isqrt_s(n) * isqrt_s(n) <= n);
            assert(n < (isqrt_s(n) + 1) * (isqrt_s(n) + 1));
        }
    }
}

/// Any `r` with `r^2 <= n < (r+1)^2` equals `isqrt_s(n)`.
pub proof fn lemma_isqrt_unique(n: nat, r: nat)
    requires
        r * r <= n,
        n < (r + 1) * (r + 1),
    ensures
        r == isqrt_s(n),
{
    lemma_isqrt_bounds(n);
    let s = isqrt_s(n);
    if r < s {
        assert((r + 1) * (r + 1) <= s * s) by (nonlinear_arith)
            requires
                r + 1 <= s,
        ;
    }
    if s < r {
        assert((s + 1) * (s + 1) <= r * r) by (nonlinear_arith)
            requires
                s + 1 <= r,
        ;
    }
}

/// The magnitude of the product is the product of the magnitudes, and the
/// product is negative exactly when the signs differ (and neither factor
/// is zero).
proof fn lemma_abs_mul(a: int, b: int)
    ensures
        iabs(a * b) == iabs(a) * iabs(b),
        (a * b < 0) <==> ((a < 0) != (b < 0)) && a != 0 && b != 0,
{
    if a >= 0 && b >= 0 {
        assert(a * b >= 0) by (nonlinear_arith)
            requires
                a >= 0 && b >= 0,
        ;
    } else if a < 0 && b < 0 {
        assert(a * b == (-a) * (-b) && (-a) * (-b) > 0) by (nonlinear_arith)
            requires
                a < 0 && b < 0,
        ;
    } else if a < 0 && b >= 0 {
        assert(a * b == -((-a) * b) && (-a) * b >= 0 && (b != 0 ==> (-a) * b > 0))
            by (nonlinear_arith)
            requires
                a < 0 && b >= 0,
        ;
    } else {
        assert(a * b == -(a * (-b)) && a * (-b) >= 0 && (a != 0 ==> a * (-b) > 0))
            by (nonlinear_arith)
            requires
                a >= 0 && b < 0,
        ;
    }
}

/// Magnitude of an `i64`, computed without overflow.
fn abs_u128(a: i64) -> (r: u128)
    ensures
        r == iabs(a as int),
{
    if a >= 0 {
        a as u128
    } else {
        (-(a as i128)) as u128
    }
}

/// Clamp a non-negative magnitude with a sign into the `i64` range.
fn sat_signed(neg: bool, q: u128) -> (r: i64)
    ensures
        r == sat64(if neg { -(q as int) } else { q as int }),
{
    if neg {
        if q >= 9223372036854775808u128 {
            i64::MIN
        } else {
            -(q as i64)
        }
    } else {
        if q > i64::MAX as u128 {
            i64::MAX
        } else {
            q as i64
        }
    }
}

/// Saturating fixed-point addition.
pub fn fx_add(a: i64, b: i64) -> (r: i64)
    ensures
        r == fx_add_s(a as int, b as int),
{
    let s: i128 = a as i128 + b as i128;
    if s > i64::MAX as i128 {
        i64::MAX
    } else if s < i64::MIN as i128 {
        i64::MIN
    } else {
        s as i64
    }
}

/// Saturating fixed-point subtraction.
pub fn fx_sub(a: i64, b: i64) -> (r: i64)
    ensures
        r == fx_sub_s(a as int, b as int),
{
    let s: i128 = a as i128 - b as i128;
    if s > i64::MAX as i128 {
        i64::MAX
    } else if s < i64::MIN as i128 {
        i64::MIN
    } else {
        s as i64
    }
}

/// Saturating fixed-point negation.
pub fn fx_neg(a: i64) -> (r: i64)
    ensures
        r == fx_neg_s(a as int),
{
    if a == i64::MIN {
        i64::MAX
    } else {
        -a
    }
}

/// Saturating fixed-point multiplication.
pub fn fx_mul(a: i64, b: i64) -> (r: i64)
    ensures
        r == fx_mul_s(a as int, b as int),
{
    let neg: bool = (a < 0) != (b < 0);
    let aa: u128 = abs_u128(a);
    let bb: u128 = abs_u128(b);
    proof {
        lemma_abs_mul(a as int, b as int);
        assert(aa * bb <= 9223372036854775808 * 9223372036854775808) by (nonlinear_arith)
            requires
                aa <= 9223372036854775808 && bb <= 9223372036854775808,
        ;
    }
    let q: u128 = (aa * bb) / 65536;
    let r = sat_signed(neg, q);
    proof {
        if a as int * b as int == 0 {
            assert(aa * bb == 0);
        }
    }
    r
}

/// Saturating fixed-point division.
pub fn fx_div(a: i64, b: i64) -> (r: i64)
    requires
        b != 0,
    ensures
        r == fx_div_s(a as int, b as int),
{
    let neg: bool = (a < 0) != (b < 0);
    let aa: u128 = abs_u128(a);
    let bb: u128 = abs_u128(b);
    let q: u128 = (aa * 65536) / bb;
    proof {
        lemma_abs_mul(a as int, 65536);
        assert(iabs(a as int * 65536) / iabs(b as int) == (aa * 65536) as int / bb as int);
        if a as int * 65536 == 0 {
            assert(aa * 65536 == 0);
        }
    }
    sat_signed(neg, q)
}

/// Smaller of two scalars.
pub fn fx_min(a: i64, b: i64) -> (r: i64)
    ensures
        r == if a <= b { a } else { b },
{
    if a <= b {
        a
    } else {
        b
    }
}

/// Larger of two scalars.
pub fn fx_max(a: i64, b: i64) -> (r: i64)
    ensures
        r == if a >= b { a } else { b },
{
    if a >= b {
        a
    } else {
        b
    }
}

/// Clamp a scalar into `[lo, hi]`.
pub fn fx_clamp(a: i64, lo: i64, hi: i64) -> (r: i64)
    requires
        lo <= hi,
    ensures
        r == iclamp(a as int, lo as int, hi as int),
{
    if a < lo {
        lo
    } else if a > hi {
        hi
    } else {
        a
    }
}

/// Saturating absolute value.
pub fn fx_abs(a: i64) -> (r: i64)
    ensures
        r == sat64(iabs(a as int)),
{
    if a == i64::MIN {
        i64::MAX
    } else if a < 0 {
        -a
    } else {
        a
    }
}

/// Binary search for the integer square root.
fn isqrt_exec(n: u128) -> (r: u128)
    requires
        n < 0x100000000000000000000,
    ensures
        r == isqrt_s(n as nat),
        r * r <= n,
{
    let mut lo: u128 = 0;
    let mut hi: u128 = 0x10000000000;
    proof {
        assert(0x10000000000u128 * 0x10000000000u128 == 0x100000000000000000000);
    }
    while hi - lo > 1
        invariant
            lo < hi,
            hi <= 0x10000000000,
            lo * lo <= n,
            n < hi * hi,
        decreases hi - lo,
    {
        let mid: u128 = lo + (hi - lo) / 2;
        proof {
            assert(mid * mid <= 0x10000000000 * 0x10000000000) by (nonlinear_arith)
                requires
                    mid <= 0x10000000000u128,
            ;
        }
        if mid * mid <= n {
            lo = mid;
        } else {
            hi = mid;
        }
    }
    proof {
        lemma_isqrt_unique(n as nat, lo as nat);
    }
    lo
}

/// Fixed-point square root of a non-negative scalar.
pub fn fx_sqrt(a: i64) -> (r: i64)
    requires
        a >= 0,
    ensures
        r == fx_sqrt_s(a as int),
        r >= 0,
{
    let n: u128 = (a as u128) * 65536;
    let s: u128 = isqrt_exec(n);
    proof {
        if s >= 0x10000000000 {
            assert(s * s >= 0x10000000000u128 * 0x10000000000u128) by (nonlinear_arith)
                requires
                    s >= 0x10000000000u128,
            ;
        }
    }
    s as i64
}

/// Fixed-point power with a whole-number exponent: `e` saturating
/// multiplications starting from 1.
pub open spec fn fx_pow_s(b: int, e: nat) -> int
    decreases e,
{
    if e == 0 {
        65536
    } else {
        fx_mul_s(b, fx_pow_s(b, (e - 1) as nat))
    }
}

/// Fixed-point power with a whole-number exponent.
pub fn fx_pow(b: i64, e: u32) -> (r: i64)
    ensures
        r == fx_pow_s(b as int, e as nat),
{
    let mut acc: i64 = FX_ONE;
    let mut k: u32 = 0;
    while k < e
        invariant
            0 <= k <= e,
            acc == fx_pow_s(b as int, k as nat),
        decreases e - k,
    {
        acc = fx_mul(b, acc);
        k = k + 1;
    }
    acc
}

/// The fixed-point scalar representing the whole number `n`.
pub open spec fn fx_of_int_s(n: int) -> int {
    sat64(n * 65536)
}

/// The fixed-point scalar representing the whole number `n`.
pub fn fx_of_usize(n: usize) -> (r: i64)
    ensures
        r == fx_of_int_s(n as int),
{
    let v: u128 = (n as u128) * 65536;
    if v > i64::MAX as u128 {
        i64::MAX
    } else {
        v as i64
    }
}

/// The rational sine approximation on `[0, pi]`:
/// `16 x (pi - x) / (5 pi^2 - 4 x (pi - x))`, clamped into `[0, 1]`.
pub open spec fn sin_half_s(x: int) -> int
    recommends
        0 <= x <= FX_PI,
{
    let a = fx_mul_s(x, fx_sub_s(FX_PI as int, x));
    let num = fx_mul_s(1048576, a);
    let den = fx_sub_s(
        fx_mul_s(327680, fx_mul_s(FX_PI as int, FX_PI as int)),
        fx_mul_s(262144, a),
    );
    iclamp(fx_div_s(num, den), 0, 65536)
}

/// Sine of a fixed-point angle in radians: the angle is folded into
/// `[0, 2 pi)` and the half-wave approximation applied with the right sign.
pub open spec fn fx_sin_s(x: int) -> int {
    let xm = x % (FX_TWO_PI as int);
    if xm <= FX_PI {
        sin_half_s(xm)
    } else {
        fx_neg_s(sin_half_s(xm - FX_PI))
    }
}

/// Cosine as the sine shifted a quarter turn.
pub open spec fn fx_cos_s(x: int) -> int {
    fx_sin_s(fx_add_s(x, FX_HALF_PI as int))
}

/// The core product `x (pi - x)` of the sine approximation stays within
/// `[0, (pi/2)^2]`, so its denominator stays positive.
proof fn lemma_sin_core_bounds(x: int)
    requires
        0 <= x <= FX_PI,
    ensures
        0 <= fx_mul_s(x, fx_sub_s(FX_PI as int, x)) <= 161702,
{
    let p: int = FX_PI as int;
    let prod = x * (p - x);
    assert(0 <= x * (205887 - x) && 4 * (x * (205887 - x)) <= 205887 * 205887)
        by (nonlinear_arith)
        requires
            0 <= x <= 205887,
    ;
    assert(fx_mul_s(x, fx_sub_s(p, x)) == sat64(tdiv(prod, 65536)));
    assert(tdiv(prod, 65536) == prod / 65536);
    vstd::arithmetic::div_mod::lemma_div_is_ordered(prod, 10597364192, 65536);
}

/// The half-wave sine approximation on `[0, pi]`.
fn sin_half(x: i64) -> (r: i64)
    requires
        0 <= x <= FX_PI,
    ensures
        r == sin_half_s(x as int),
        0 <= r <= 65536,
{
    proof {
        lemma_sin_core_bounds(x as int);
    }
    let a: i64 = fx_mul(x, fx_sub(FX_PI, x));
    let num: i64 = fx_mul(1048576, a);
    let den: i64 = fx_sub(fx_mul(327680, fx_mul(FX_PI, FX_PI)), fx_mul(262144, a));
    fx_clamp(fx_div(num, den), 0, 65536)
}

/// Sine of a fixed-point angle in radians, in `[-1, 1]`.
pub fn fx_sin(x: i64) -> (r: i64)
    ensures
        r == fx_sin_s(x as int),
        -65536 <= r <= 65536,
{
    let xm: i64 = fx_emod(x, FX_TWO_PI);
    proof {
        vstd::arithmetic::div_mod::lemma_mod_bound(x as int, FX_TWO_PI as int);
    }
    if xm <= FX_PI {
        sin_half(xm)
    } else {
        fx_neg(sin_half(xm - FX_PI))
    }
}

/// Cosine of a fixed-point angle in radians, in `[-1, 1]`.
pub fn fx_cos(x: i64) -> (r: i64)
    ensures
        r == fx_cos_s(x as int),
        -65536 <= r <= 65536,
{
    fx_sin(fx_add(x, FX_HALF_PI))
}

/// Euclidean remainder: the representative of `a` modulo `m` in `[0, m)`.
pub fn fx_emod(a: i64, m: i64) -> (r: i64)
    requires
        m > 0,
    ensures
        r == (a as int) % (m as int),
{
    let mm: u128 = m as u128;
    if a >= 0 {
        let rr: u128 = (a as u128) % mm;
        proof {
            vstd::arithmetic::div_mod::lemma_fundamental_div_mod(a as int, m as int);
            vstd::arithmetic::div_mod::lemma_fundamental_div_mod_converse(
                a as int,
                m as int,
                a as int / m as int,
                a as int % m as int,
            );
        }
        rr as i64
    } else {
        let p: u128 = (-(a as i128)) as u128;
        let rr: u128 = p % mm;
        proof {
            vstd::arithmetic::div_mod::lemma_fundamental_div_mod(p as int, m as int);
            vstd::arithmetic::div_mod::lemma_mod_bound(p as int, m as int);
            let q = p as int / m as int;
            if rr == 0 {
                assert((-q) * (m as int) == -(m as int * q)) by (nonlinear_arith);
                vstd::arithmetic::div_mod::lemma_fundamental_div_mod_converse(
                    a as int,
                    m as int,
                    -q,
                    0,
                );
            } else {
                assert((-q - 1) * (m as int) == -(m as int * q) - m as int) by (nonlinear_arith);
                vstd::arithmetic::div_mod::lemma_fundamental_div_mod_converse(
                    a as int,
                    m as int,
                    -q - 1,
                    m as int - rr as int,
                );
            }
        }
        if rr == 0 {
            0
        } else {
            m - (rr as i64)
        }
    }
}

} // verus!
