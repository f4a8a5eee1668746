//! The fixed-point scalar: a signed 64-bit integer holding a real number
//! scaled by `ONE` (2^16).  All geometry and shading arithmetic is built from
//! the operations here.  Each executable operation is total: results outside
//! the representable range saturate, and division by zero yields zero.  The
//! companion `spec_*` functions state the exact integer value of every result.

use vstd::prelude::*;
use vstd::arithmetic::div_mod::{lemma_fundamental_div_mod, lemma_div_is_ordered, lemma_div_multiples_vanish, lemma_div_pos_is_pos, lemma_div_nonincreasing, lemma_mod_bound};

verus! {

/// The fixed-point scale: the representation of the real number 1.
pub const ONE: i64 = 65536;

/// Saturation of an unbounded integer into the `i64` range.
pub open spec fn sat(x: int) -> int {
    if x > i64::MAX {
        i64::MAX as int
    } else if x < i64::MIN {
        i64::MIN as int
    } else {
        x
    }
}

/// Truncating (round-toward-zero) division, total: `tdiv(n, 0) == 0`.
pub open spec fn tdiv(n: int, d: int) -> int {
    if d == 0 {
        0
    } else if n == 0 {
        0
    } else if n > 0 && d > 0 {
        n / d
    } else if n < 0 && d < 0 {
        (n * -1) / (d * -1)
    } else if n < 0 {
        ((n * -1) / d) * -1
    } else {
        (n / (d * -1)) * -1
    }
}

/// Saturating sum of two scalars.
pub open spec fn spec_add(a: int, b: int) -> int {
    sat(a + b)
}

/// Saturating difference of two scalars.
pub open spec fn spec_sub(a: int, b: int) -> int {
    sat(a - b)
}

/// Saturating negation of a scalar.
pub open spec fn spec_neg(a: int) -> int {
    sat(-a)
}

/// Fixed-point product: the wide product rescaled by `ONE`, saturated.
pub open spec fn spec_mul(a: int, b: int) -> int {
    sat(tdiv(a * b, ONE as int))
}

/// Fixed-point quotient, total: zero when the divisor is zero.
pub open spec fn spec_div(a: int, b: int) -> int {
    if b == 0 {
        0
    } else {
        sat(tdiv(a * ONE, b))
    }
}

/// Saturating clamp of `a` into `[lo, hi]`.
pub open spec fn spec_clamp(a: int, lo: int, hi: int) -> int {
    if a < lo {
        lo
    } else if a > hi {
        hi
    } else {
        a
    }
}

/// Truncating division rounds a quotient of multiples exactly.
pub proof fn lemma_tdiv_exact(k: int, d: int)
    requires
        d >= 1,
    ensures
        tdiv(k * d, d) == k,
{
    if k == 0 {
        assert(tdiv(0, d) == 0);
    } else if k > 0 {
        assert(k * d > 0) by (nonlinear_arith)
            requires k > 0 && d >= 1,
        {}
        lemma_div_multiples_vanish(k, d);
        assert(d * k == k * d) by (nonlinear_arith) {}
        assert(tdiv(k * d, d) == (k * d) / d);
    } else {
        assert(k * d < 0) by (nonlinear_arith)
            requires k < 0 && d >= 1,
        {}
        lemma_div_multiples_vanish(-k, d);
        assert(d * (-k) == (k * d) * -1) by (nonlinear_arith) {}
        assert(tdiv(k * d, d) == (((k * d) * -1) / d) * -1);
        assert((d * (-k)) / d == -k);
    }
}

/// The magnitude of a truncated quotient is bounded by the magnitude of the
/// numerator divided by the (positive) denominator.
pub proof fn lemma_tdiv_mag(n: int, d: int, m: int)
    requires
        d >= 1,
        -m <= n <= m,
    ensures
        -(m / d) <= tdiv(n, d) <= m / d,
        n >= 0 ==> tdiv(n, d) >= 0,
        n <= 0 ==> tdiv(n, d) <= 0,
{
    if n == 0 {
        lemma_div_pos_is_pos(m, d);
    } else if n > 0 {
        lemma_div_is_ordered(n, m, d);
        lemma_div_pos_is_pos(n, d);
        lemma_div_pos_is_pos(m, d);
    } else {
        lemma_div_is_ordered(n * -1, m, d);
        lemma_div_pos_is_pos(n * -1, d);
        lemma_div_pos_is_pos(m, d);
    }
}

/// The remainder left by a truncated quotient: it is smaller than the
/// denominator in magnitude and carries the sign of the numerator.
pub proof fn lemma_tdiv_rem(n: int, d: int)
    requires
        d >= 1,
    ensures
        -d < n - tdiv(n, d) * d < d,
        n >= 0 ==> n - tdiv(n, d) * d >= 0,
        n <= 0 ==> n - tdiv(n, d) * d <= 0,
{
    if n == 0 {
        assert(tdiv(0, d) == 0);
        assert(0 * d == 0) by (nonlinear_arith) {}
    } else if n > 0 {
        let q = n / d;
        lemma_fundamental_div_mod(n, d);
        lemma_mod_bound(n, d);
        assert(tdiv(n, d) == q);
        assert(n == d * q + n % d);
        assert(d * q == q * d) by (nonlinear_arith) {}
        assert(n - q * d == n % d);
    } else {
        let p = n * -1;
        let q = p / d;
        lemma_fundamental_div_mod(p, d);
        lemma_mod_bound(p, d);
        assert(tdiv(n, d) == q * -1);
        assert(p == d * q + p % d);
        assert((q * -1) * d == -(d * q)) by (nonlinear_arith) {}
        assert(n - (q * -1) * d == -(p % d));
    }
}

/// Saturates a wide intermediate into the scalar range.
pub fn sat64(x: i128) -> (r: i64)
    ensures
        r == sat(x as int),
{
    if x > i64::MAX as i128 {
        i64::MAX
    } else if x < i64::MIN as i128 {
        i64::MIN
    } else {
        x as i64
    }
}

/// Truncating division on wide intermediates.
pub fn tdiv128(n: i128, d: i128) -> (r: i128)
    requires
        n != i128::MIN,
    ensures
        r == tdiv(n as int, d as int),
{
    if d == 0 {
        0
    } else {
        match n.checked_div(d) {
            Some(q) => q,
            None => 0,
        }
    }
}

/// Scalar addition.
pub fn add(a: i64, b: i64) -> (r: i64)
    ensures
        r == spec_add(a as int, b as int),
{
    sat64(a as i128 + b as i128)
}

/// Scalar subtraction.
pub fn sub(a: i64, b: i64) -> (r: i64)
    ensures
        r == spec_sub(a as int, b as int),
{
    sat64(a as i128 - b as i128)
}

/// Scalar negation.
pub fn neg(a: i64) -> (r: i64)
    ensures
        r == spec_neg(a as int),
{
    sat64(-(a as i128))
}

/// Scalar multiplication.
pub fn mul(a: i64, b: i64) -> (r: i64)
    ensures
        r == spec_mul(a as int, b as int),
{
    proof {
        assert(i128::MIN < (a as int) * (b as int) <= i128::MAX) by (nonlinear_arith)
            requires
                i64::MIN <= a <= i64::MAX,
                i64::MIN <= b <= i64::MAX,
        {}
    }
    let p: i128 = (a as i128) * (b as i128);
    sat64(tdiv128(p, ONE as i128))
}

/// Scalar division.
pub fn div(a: i64, b: i64) -> (r: i64)
    ensures
        r == spec_div(a as int, b as int),
{
    if b == 0 {
        0
    } else {
        proof {
            assert(i128::MIN < (a as int) * (ONE as int) <= i128::MAX) by (nonlinear_arith)
                requires
                    i64::MIN <= a <= i64::MAX,
            {}
        }
        let p: i128 = (a as i128) * (ONE as i128);
        sat64(tdiv128(p, b as i128))
    }
}

/// Integer square root: the greatest `r` with `r * r <= n`, and 0 for
/// non-positive `n`.
pub open spec fn isqrt(n: int) -> int
    decreases n,
{
    if n <= 0 {
        0
    } else {
        let r = 2 * isqrt(n / 4);
        if (r + 1) * (r + 1) <= n {
            r + 1
        } else {
            r
        }
    }
}

/// `isqrt` indeed brackets its argument between consecutive squares.
pub proof fn lemma_isqrt(n: int)
    requires
        n >= 0,
    ensures
        isqrt(n) >= 0,
        isqrt(n) * isqrt(n) <= n,
        n < (isqrt(n) + 1) * (isqrt(n) + 1),
    decreases n,
{
    if n == 0 {
        assert(isqrt(0) == 0);
        assert(0 * 0 <= 0 < (0 + 1) * (0 + 1)) by (nonlinear_arith) {}
    } else {
        let m = n / 4;
        lemma_div_pos_is_pos(n, 4);
        lemma_div_nonincreasing(n, 4);
        lemma_isqrt(m);
        let s = isqrt(m);
        let r = 2 * s;
        lemma_fundamental_div_mod(n, 4);
        lemma_mod_bound(n, 4);
        assert(4 * m <= n <= 4 * m + 3);
        assert(r * r <= 4 * m) by (nonlinear_arith)
            requires r == 2 * s && s * s <= m,
        {}
        assert(4 * m + 3 < (r + 2) * (r + 2)) by (nonlinear_arith)
            requires r == 2 * s && m < (s + 1) * (s + 1),
        {}
        if (r + 1) * (r + 1) <= n {
            assert(isqrt(n) == r + 1);
            assert((r + 1 + 1) * (r + 1 + 1) == (r + 2) * (r + 2)) by (nonlinear_arith) {}
            assert(isqrt(n) * isqrt(n) <= n);
        } else {
            assert(isqrt(n) == r);
            assert(isqrt(n) * isqrt(n) <= n);
        }
    }
}

/// Two non-negative values bracketed between the same consecutive squares
/// are equal.
pub proof fn lemma_isqrt_unique(n: int, r: int, s: int)
    requires
        r >= 0,
        s >= 0,
        r * r <= n < (r + 1) * (r + 1),
        s * s <= n < (s + 1) * (s + 1),
    ensures
        r == s,
{
    assert(r == s) by (nonlinear_arith)
        requires
            r >= 0,
            s >= 0,
            r * r <= n < (r + 1) * (r + 1),
            s * s <= n < (s + 1) * (s + 1),
    {}
}

/// Fixed-point square root: zero on non-positive input.
pub open spec fn spec_sqrt(a: int) -> int {
    if a <= 0 {
        0
    } else {
        isqrt(a * ONE)
    }
}

/// Scalar square root.
pub fn sqrt(a: i64) -> (r: i64)
    ensures
        r == spec_sqrt(a as int),
        r >= 0,
{
    if a <= 0 {
        return 0;
    }
    proof {
        assert(1 <= (a as int) * 65536 < 0x80000000000000000000) by (nonlinear_arith)
            requires 1 <= a <= i64::MAX,
        {}
    }
    let n: i128 = (a as i128) * (ONE as i128);
    let mut lo: i128 = 0;
    let mut hi: i128 = 0x10000000000;  // 2^40; its square exceeds any `n`
    proof {
        assert(n < hi * hi) by (nonlinear_arith)
            requires hi == 0x10000000000 && n < 0x80000000000000000000,
        {}
    }
    while lo + 1 < hi
        invariant
            0 <= lo < hi <= 0x10000000000,
            lo * lo <= n,
            n < hi * hi,
        decreases hi - lo,
    {
        let mid: i128 = lo + (hi - lo) / 2;
        assert(lo < mid < hi) by {
            lemma_div_pos_is_pos(hi - lo, 2);
            lemma_fundamental_div_mod(hi - lo, 2);
            lemma_mod_bound(hi - lo, 2);
        };
        proof {
            assert(mid * mid <= 0x800000000000000000000) by (nonlinear_arith)
                requires 0 < mid <= 0x10000000000,
            {}
        }
        if mid * mid <= n {
            lo = mid;
        } else {
            hi = mid;
        }
    }
    proof {
        assert(hi == lo + 1);
        lemma_isqrt(n as int);
        lemma_isqrt_unique(n as int, lo as int, isqrt(n as int));
    }
    lo as i64
}

/// A product whose wide value is an exact multiple of `ONE` rescales
/// exactly.
pub proof fn lemma_mul_fixed(a: int, b: int, k: int)
    requires
        a * b == k * (ONE as int),
        i64::MIN <= k <= i64::MAX,
    ensures
        spec_mul(a, b) == k,
{
    lemma_tdiv_exact(k, ONE as int);
}

/// A quotient that divides evenly is exact.
pub proof fn lemma_div_fixed(a: int, b: int, k: int)
    requires
        b >= 1,
        a * (ONE as int) == k * b,
        i64::MIN <= k <= i64::MAX,
    ensures
        spec_div(a, b) == k,
{
    lemma_tdiv_exact(k, b);
}

/// The square root of an exact square is exact.
pub proof fn lemma_sqrt_fixed(a: int, k: int)
    requires
        a > 0,
        k >= 0,
        a * (ONE as int) == k * k,
    ensures
        spec_sqrt(a) == k,
{
    lemma_isqrt(k * k);
    assert(k * k < (k + 1) * (k + 1)) by (nonlinear_arith)
        requires k >= 0,
    {}
    lemma_isqrt_unique(k * k, k, isqrt(k * k));
}

/// The angle pi scaled by `ONE`, rounded to the nearest integer.
pub const PI_FX: i64 = 205887;

/// The angle 2*pi scaled by `ONE`, rounded to the nearest integer.
pub const TWO_PI_FX: i64 = 411775;

/// The angle pi/2 scaled by `ONE`, rounded to the nearest integer.
pub const HALF_PI_FX: i64 = 102944;

/// The angle pi/3 (60 degrees) scaled by `ONE`, rounded to the nearest
/// integer.
pub const THIRD_PI_FX: i64 = 68629;

/// Reduction of an angle into `[-HALF_PI_FX, HALF_PI_FX]` with the same sine:
/// first into `(-TWO_PI_FX, TWO_PI_FX)` by a truncated division, then into
/// `[-PI_FX, PI_FX]` by one wrap, then folded across the quarter turn.
pub open spec fn spec_reduce(x: int) -> int {
    let r0 = x - tdiv(x, TWO_PI_FX as int) * (TWO_PI_FX as int);
    let r1 = if r0 > PI_FX {
        r0 - TWO_PI_FX
    } else if r0 < -(PI_FX as int) {
        r0 + TWO_PI_FX
    } else {
        r0
    };
    if r1 > HALF_PI_FX {
        PI_FX - r1
    } else if r1 < -(HALF_PI_FX as int) {
        -(PI_FX as int) - r1
    } else {
        r1
    }
}

/// Odd Taylor polynomial for the sine of a reduced angle:
/// `r - r^3/3! + r^5/5! - r^7/7!` in fixed point.
pub open spec fn spec_sin_poly(r: int) -> int {
    let x2 = tdiv(r * r, ONE as int);
    let x3 = tdiv(r * x2, ONE as int);
    let x5 = tdiv(x3 * x2, ONE as int);
    let x7 = tdiv(x5 * x2, ONE as int);
    r - tdiv(x3, 6) + tdiv(x5, 120) - tdiv(x7, 5040)
}

/// Fixed-point sine.
pub open spec fn spec_sin(x: int) -> int {
    spec_sin_poly(spec_reduce(x))
}

/// Fixed-point cosine: the sine shifted by a quarter turn.
pub open spec fn spec_cos(x: int) -> int {
    spec_sin(spec_add(x, HALF_PI_FX as int))
}

/// Fixed-point tangent: sine over cosine (zero where the cosine is zero).
pub open spec fn spec_tan(x: int) -> int {
    spec_div(spec_sin(x), spec_cos(x))
}

/// Scalar sine.
pub fn sin(x: i64) -> (r: i64)
    ensures
        r == spec_sin(x as int),
{
    let k: i128 = tdiv128(x as i128, TWO_PI_FX as i128);
    proof {
        lemma_tdiv_rem(x as int, TWO_PI_FX as int);
        lemma_tdiv_mag(x as int, TWO_PI_FX as int, 0x8000000000000000);
        assert(-22500000000000 <= k <= 22500000000000);
        assert(-0x10000000000000000 <= (k as int) * (TWO_PI_FX as int) <= 0x10000000000000000)
            by (nonlinear_arith)
            requires -22500000000000 <= k <= 22500000000000 && TWO_PI_FX == 411775,
        {}
    }
    let r0: i64 = (x as i128 - k * (TWO_PI_FX as i128)) as i64;
    let r1: i64 = if r0 > PI_FX {
        r0 - TWO_PI_FX
    } else if r0 < -PI_FX {
        r0 + TWO_PI_FX
    } else {
        r0
    };
    let r2: i64 = if r1 > HALF_PI_FX {
        PI_FX - r1
    } else if r1 < -HALF_PI_FX {
        -PI_FX - r1
    } else {
        r1
    };
    proof {
        assert(0 <= (r2 as int) * (r2 as int) <= 102944 * 102944) by (nonlinear_arith)
            requires -102944 <= r2 <= 102944,
        {}
        lemma_tdiv_mag((r2 as int) * (r2 as int), ONE as int, (102944 * 102944) as int);
    }
    let x2: i64 = tdiv128((r2 as i128) * (r2 as i128), ONE as i128) as i64;
    proof {
        assert(-(102944 * 161705) <= (r2 as int) * (x2 as int) <= 102944 * 161705)
            by (nonlinear_arith)
            requires -102944 <= r2 <= 102944 && 0 <= x2 <= 161705,
        {}
        lemma_tdiv_mag((r2 as int) * (x2 as int), ONE as int, (102944 * 161705) as int);
    }
    let x3: i64 = tdiv128((r2 as i128) * (x2 as i128), ONE as i128) as i64;
    proof {
        assert(-(254100 * 161705) <= (x3 as int) * (x2 as int) <= 254100 * 161705)
            by (nonlinear_arith)
            requires -254100 <= x3 <= 254100 && 0 <= x2 <= 161705,
        {}
        lemma_tdiv_mag((x3 as int) * (x2 as int), ONE as int, (254100 * 161705) as int);
    }
    let x5: i64 = tdiv128((x3 as i128) * (x2 as i128), ONE as i128) as i64;
    proof {
        assert(-(627000 * 161705) <= (x5 as int) * (x2 as int) <= 627000 * 161705)
            by (nonlinear_arith)
            requires -627000 <= x5 <= 627000 && 0 <= x2 <= 161705,
        {}
        lemma_tdiv_mag((x5 as int) * (x2 as int), ONE as int, (627000 * 161705) as int);
    }
    let x7: i64 = tdiv128((x5 as i128) * (x2 as i128), ONE as i128) as i64;
    proof {
        lemma_tdiv_mag(x3 as int, 6, 254100);
        lemma_tdiv_mag(x5 as int, 120, 627000);
        lemma_tdiv_mag(x7 as int, 5040, 1548000);
    }
    let t3: i64 = tdiv128(x3 as i128, 6) as i64;
    let t5: i64 = tdiv128(x5 as i128, 120) as i64;
    let t7: i64 = tdiv128(x7 as i128, 5040) as i64;
    r2 - t3 + t5 - t7
}

/// Scalar cosine.
pub fn cos(x: i64) -> (r: i64)
    ensures
        r == spec_cos(x as int),
{
    sin(crate::fx::add(x, HALF_PI_FX))
}

/// Scalar tangent.
pub fn tan(x: i64) -> (r: i64)
    ensures
        r == spec_tan(x as int),
{
    let s: i64 = sin(x);
    let c: i64 = cos(x);
    div(s, c)
}

/// Clamp into `[lo, hi]`; callers pass `lo <= hi`.
pub fn clamp(a: i64, lo: i64, hi: i64) -> (r: i64)
    requires
        lo <= hi,
    ensures
        r == spec_clamp(a as int, lo as int, hi as int),
{
    if a < lo {
        lo
    } else if a > hi {
        hi
    } else {
        a
    }
}

} // verus!
