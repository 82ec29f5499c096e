//! Fixed-point scalar arithmetic: truncated division, integer square root.
//!
//! One world unit is `SCALE` subunits; every coordinate, thickness and radius
//! the engine handles is an `i64` number of subunits.

use vstd::prelude::*;

verus! {

/// Subunits per world unit.
pub const SCALE: i64 = 1000;

/// Spec-level absolute value.
pub open spec fn abs_s(a: int) -> int {
    if a < 0 { -a } else { a }
}

/// Truncated (round-toward-zero) division, the semantics of hardware signed
/// division. Division by zero is defined as zero so the function is total.
pub open spec fn trunc_div_s(a: int, b: int) -> int {
    if b == 0 {
        0
    } else if (a < 0) == (b < 0) {
        abs_s(a) / abs_s(b)
    } else {
        -(abs_s(a) / abs_s(b))
    }
}

/// Truncated division on `i128`, matching `trunc_div_s`.
pub fn trunc_div(a: i128, b: i128) -> (r: i128)
    requires
        b != 0,
        a > i128::MIN,
        b > i128::MIN,
    ensures
        r == trunc_div_s(a as int, b as int),
{
    let ma: u128 = if a >= 0 { a as u128 } else { (-a) as u128 };
    let mb: u128 = if b >= 0 { b as u128 } else { (-b) as u128 };
    let q: u128 = ma / mb;
    assert(ma == abs_s(a as int) && mb == abs_s(b as int));
    assert(q == abs_s(a as int) / abs_s(b as int));
    assert(q <= ma) by {
        vstd::arithmetic::div_mod::lemma_div_nonincreasing(ma as int, mb as int);
    }
    if (a >= 0) == (b >= 0) {
        q as i128
    } else {
        -(q as i128)
    }
}

/// The magnitude of a truncated quotient is bounded by any `m` with
/// `abs(a) <= abs(b) * m`.
pub proof fn lemma_trunc_div_bound(a: int, b: int, m: int)
    requires
        b != 0,
        0 <= m,
        abs_s(a) <= abs_s(b) * m,
    ensures
        abs_s(trunc_div_s(a, b)) <= m,
{
    let q = abs_s(a) / abs_s(b);
    assert(abs_s(trunc_div_s(a, b)) == q);
    vstd::arithmetic::div_mod::lemma_div_is_ordered(abs_s(a), abs_s(b) * m, abs_s(b));
    vstd::arithmetic::div_mod::lemma_div_by_multiple(m, abs_s(b));
    assert(abs_s(b) * m == m * abs_s(b)) by (nonlinear_arith);
}

/// Angles are measured in thousandths of a degree.
pub const FULL_TURN_MDEG: i64 = 360_000;

pub const HALF_TURN_MDEG: i64 = 180_000;

pub const QUARTER_TURN_MDEG: i64 = 90_000;

/// Rational sine approximation on a half turn (the Bhaskara I formula),
/// scaled by `SCALE`; exact at 0, 30, 90, 150 and 180 degrees.
pub open spec fn sin_half_turn(x: int) -> int {
    let u = x * (HALF_TURN_MDEG - x);
    trunc_div_s(16 * u * SCALE, 5 * HALF_TURN_MDEG * HALF_TURN_MDEG - 4 * u)
}

/// Sine of an angle in `[0, FULL_TURN_MDEG)` millidegrees, scaled by `SCALE`.
pub open spec fn sin_mdeg_s(d: int) -> int {
    if d <= HALF_TURN_MDEG {
        sin_half_turn(d)
    } else {
        -sin_half_turn(d - HALF_TURN_MDEG)
    }
}

/// Cosine, as the sine shifted a quarter turn.
pub open spec fn cos_mdeg_s(d: int) -> int {
    sin_mdeg_s(
        if d + QUARTER_TURN_MDEG >= FULL_TURN_MDEG {
            d + QUARTER_TURN_MDEG - FULL_TURN_MDEG
        } else {
            d + QUARTER_TURN_MDEG
        },
    )
}

fn sin_half(x: i64) -> (r: i64)
    requires
        0 <= x <= HALF_TURN_MDEG,
    ensures
        r == sin_half_turn(x as int),
        0 <= r <= SCALE,
{
    proof {
        assert(0 <= (x as int) * ((HALF_TURN_MDEG - x) as int) <= 8_100_000_000) by (
        nonlinear_arith)
            requires
                0 <= x <= 180_000,
                HALF_TURN_MDEG == 180_000,
        ;
    }
    let u: i128 = (x as i128) * ((HALF_TURN_MDEG - x) as i128);
    let num: i128 = 16 * u * (SCALE as i128);
    let den: i128 = 5 * (HALF_TURN_MDEG as i128) * (HALF_TURN_MDEG as i128) - 4 * u;
    proof {
        assert(den > 0);
        assert(abs_s(num as int) <= abs_s(den as int) * (SCALE as int));
        lemma_trunc_div_bound(num as int, den as int, SCALE as int);
        assert(trunc_div_s(num as int, den as int) >= 0);
    }
    trunc_div(num, den) as i64
}

/// Sine of `d` millidegrees, scaled by `SCALE`.
pub fn sin_mdeg(d: i64) -> (r: i64)
    requires
        0 <= d < FULL_TURN_MDEG,
    ensures
        r == sin_mdeg_s(d as int),
        -SCALE <= r <= SCALE,
{
    if d <= HALF_TURN_MDEG {
        sin_half(d)
    } else {
        -sin_half(d - HALF_TURN_MDEG)
    }
}

/// Cosine of `d` millidegrees, scaled by `SCALE`.
pub fn cos_mdeg(d: i64) -> (r: i64)
    requires
        0 <= d < FULL_TURN_MDEG,
    ensures
        r == cos_mdeg_s(d as int),
        -SCALE <= r <= SCALE,
{
    let shifted: i64 = if d + QUARTER_TURN_MDEG >= FULL_TURN_MDEG {
        d + QUARTER_TURN_MDEG - FULL_TURN_MDEG
    } else {
        d + QUARTER_TURN_MDEG
    };
    sin_mdeg(shifted)
}

/// Truncated division is odd in its dividend.
pub proof fn lemma_trunc_div_neg(a: int, b: int)
    ensures
        trunc_div_s(-a, b) == -trunc_div_s(a, b),
{
    assert(abs_s(-a) == abs_s(a));
}

/// Magnitudes multiply: `|a * b| == |a| * |b|`.
pub proof fn lemma_abs_mul(a: int, b: int)
    ensures
        abs_s(a * b) == abs_s(a) * abs_s(b),
{
    if a >= 0 {
        if b >= 0 {
            assert(a * b >= 0) by (nonlinear_arith)
                requires
                    a >= 0,
                    b >= 0,
            ;
        } else {
            assert(a * b <= 0 && a * (-b) == -(a * b)) by (nonlinear_arith)
                requires
                    a >= 0,
                    b <= 0,
            ;
        }
    } else {
        if b >= 0 {
            assert(a * b <= 0 && (-a) * b == -(a * b)) by (nonlinear_arith)
                requires
                    a <= 0,
                    b >= 0,
            ;
        } else {
            assert(a * b >= 0 && (-a) * (-b) == a * b) by (nonlinear_arith)
                requires
                    a <= 0,
                    b <= 0,
            ;
        }
    }
}

/// Floor of the square root, defined by recursion so it can serve as a spec
/// building block for normalized directions.
pub open spec fn sqrt_floor(n: nat) -> nat
    decreases n,
{
    if n == 0 {
        0
    } else {
        let s = sqrt_floor((n - 1) as nat);
        if (s + 1) * (s + 1) <= n {
            s + 1
        } else {
            s
        }
    }
}

/// `sqrt_floor(n)` is the unique `r` with `r * r <= n < (r + 1) * (r + 1)`.
pub proof fn lemma_sqrt_floor_is_sqrt(n: nat)
    ensures
        (sqrt_floor(n) as int) * (sqrt_floor(n) as int) <= n as int,
        (n as int) < (sqrt_floor(n) as int + 1) * (sqrt_floor(n) as int + 1),
    decreases n,
{
    if n == 0 {
        assert(sqrt_floor(0) == 0);
    } else {
        let m = (n - 1) as nat;
        lemma_sqrt_floor_is_sqrt(m);
        let s = sqrt_floor(m);
        assert(s * s <= m);
        assert(m < (s + 1) * (s + 1));
        if (s + 1) * (s + 1) <= n {
            assert(sqrt_floor(n) == s + 1);
            assert(n < (s + 2) * (s + 2)) by (nonlinear_arith)
                requires
                    m < (s + 1) * (s + 1),
                    n == m + 1,
            ;
            assert(n < (sqrt_floor(n) + 1) * (sqrt_floor(n) + 1)) by (nonlinear_arith)
                requires
                    n < (s + 2) * (s + 2),
                    sqrt_floor(n) == s + 1,
            ;
        } else {
            assert(sqrt_floor(n) == s);
            assert(s * s <= n);
            assert(n < (s + 1) * (s + 1));
        }
    }
}

/// Any `r` satisfying the square-root bracketing equals `sqrt_floor(n)`.
pub proof fn lemma_sqrt_floor_unique(n: nat, r: nat)
    requires
        r * r <= n,
        n < (r + 1) * (r + 1),
    ensures
        r == sqrt_floor(n),
{
    let s = sqrt_floor(n);
    lemma_sqrt_floor_is_sqrt(n);
    assert(r == s) by (nonlinear_arith)
        requires
            r * r <= n,
            n < (r + 1) * (r + 1),
            s * s <= n,
            n < (s + 1) * (s + 1),
    ;
}

/// A positive number has a positive square root.
pub proof fn lemma_sqrt_floor_pos(n: nat)
    requires
        n >= 1,
    ensures
        sqrt_floor(n) >= 1,
{
    lemma_sqrt_floor_is_sqrt(n);
    let r = sqrt_floor(n);
    if r == 0 {
        assert((r as int + 1) * (r as int + 1) == 1);
        assert(false);
    }
}

/// Any `a` whose square is at most `n` is bounded by `sqrt_floor(n)`.
pub proof fn lemma_sqrt_floor_lower(a: int, n: nat)
    requires
        a * a <= n,
    ensures
        abs_s(a) <= sqrt_floor(n),
{
    lemma_sqrt_floor_is_sqrt(n);
    let r = sqrt_floor(n);
    assert(a <= r as int && -(r as int) <= a) by (nonlinear_arith)
        requires
            a * a <= n,
            (n as int) < (r as int + 1) * (r as int + 1),
            r >= 0,
    ;
}

/// Integer square root by binary search.
pub fn isqrt(n: u128) -> (r: u64)
    requires
        n < 0x1_0000_0000_0000_0000_0000,  // 2^80
    ensures
        r == sqrt_floor(n as nat),
{
    let mut lo: u128 = 0;
    let mut hi: u128 = 0x100_0000_0000;  // 2^40
    assert(hi * hi > n);
    while lo + 1 < hi
        invariant
            lo < hi,
            hi <= 0x100_0000_0000,
            lo * lo <= n,
            hi * hi > n,
        decreases hi - lo,
    {
        let mid: u128 = lo + (hi - lo) / 2;
        assert(lo < mid < hi);
        assert(mid * mid < 0x1_0000_0000_0000_0000_0000_0000) by (nonlinear_arith)
            requires
                mid <= 0x100_0000_0000,
        ;
        if mid * mid <= n {
            lo = mid;
        } else {
            hi = mid;
        }
    }
    proof {
        lemma_sqrt_floor_unique(n as nat, lo as nat);
    }
    lo as u64
}

} // verus!
