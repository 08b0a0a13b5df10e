//! Fixed-point arithmetic: rounding division, clamping, integer square root.
use vstd::prelude::*;

verus! {

/// Every scalar of the simulation (a length, a speed, an angle, a scale
/// factor) is a fixed-point integer: one pixel or one radian is `UNIT` steps.
pub const UNIT: i64 = 1000;

/// `n / d` rounded to the nearest integer, halves away from zero.
pub open spec fn round_div(n: int, d: int) -> int
    recommends
        d > 0,
{
    if n >= 0 {
        (n + d / 2) / d
    } else {
        -((d / 2 - n) / d)
    }
}

/// `n / d` rounded toward zero.
pub open spec fn trunc_div(n: int, d: int) -> int
    recommends
        d > 0,
{
    if n >= 0 {
        n / d
    } else {
        -((-n) / d)
    }
}

/// `v` held to the interval from `lo` to `hi`.
pub open spec fn clamp(v: int, lo: int, hi: int) -> int
    recommends
        lo <= hi,
{
    if v < lo {
        lo
    } else if v > hi {
        hi
    } else {
        v
    }
}

/// The largest `r` with `r * r <= n`.
pub open spec fn is_floor_sqrt(n: int, r: int) -> bool {
    0 <= r && r * r <= n && n < (r + 1) * (r + 1)
}

/// A number has only one integer square root.
pub proof fn lemma_floor_sqrt_unique(n: int, r: int, s: int)
    requires
        is_floor_sqrt(n, r),
        is_floor_sqrt(n, s),
    ensures
        r == s,
{
    if r < s {
        assert((r + 1) * (r + 1) <= s * s) by (nonlinear_arith)
            requires
                0 <= r + 1 <= s,
        ;
    }
    if s < r {
        assert((s + 1) * (s + 1) <= r * r) by (nonlinear_arith)
            requires
                0 <= s + 1 <= r,
        ;
    }
}

/// Rounding a quotient never takes it further from zero than the dividend.
pub proof fn lemma_round_div_bounds(n: int, d: int)
    requires
        d > 0,
    ensures
        n >= 0 ==> 0 <= round_div(n, d) <= n,
        n <= 0 ==> n <= round_div(n, d) <= 0,
{
    let m = if n >= 0 { n } else { -n };
    let q = (m + d / 2) / d;
    assert(0 <= q <= m) by (nonlinear_arith)
        requires
            m >= 0,
            d > 0,
            q == (m + d / 2) / d,
    {
        if m >= 1 {
            assert(m + d / 2 < (m + 1) * d);
        }
    }
}

/// A dividend within `k` divisors of zero rounds to a quotient within `k`.
pub proof fn lemma_round_div_within(n: int, d: int, k: int)
    requires
        d > 0,
        k >= 0,
        -(k * d) <= n <= k * d,
    ensures
        -k <= round_div(n, d) <= k,
{
    let m = if n >= 0 { n } else { -n };
    let q = (m + d / 2) / d;
    assert(0 <= q <= k) by (nonlinear_arith)
        requires
            0 <= m <= k * d,
            d > 0,
            k >= 0,
            q == (m + d / 2) / d,
    {
        assert(m + d / 2 < (k + 1) * d);
    }
}

/// `n / d` rounded to the nearest integer, halves away from zero.
pub fn div_round(n: i64, d: i64) -> (q: i64)
    requires
        d > 0,
    ensures
        q == round_div(n as int, d as int),
{
    proof {
        lemma_round_div_bounds(n as int, d as int);
    }
    let wide_n: i128 = n as i128;
    let wide_d: i128 = d as i128;
    if n >= 0 {
        ((wide_n + wide_d / 2) / wide_d) as i64
    } else {
        (-((wide_d / 2 - wide_n) / wide_d)) as i64
    }
}

/// The product of two fixed-point scalars: `a * b / UNIT`, rounded to the
/// nearest step.
pub open spec fn fixed_mul(a: int, b: int) -> int {
    round_div(a * b, UNIT as int)
}

/// The product of two fixed-point scalars, rounded to the nearest step.
pub fn mul_round(a: i32, b: i32) -> (r: i64)
    ensures
        r == fixed_mul(a as int, b as int),
{
    assert(-0x4000_0000_0000_0000 <= a * b <= 0x4000_0000_0000_0000) by (nonlinear_arith)
        requires
            -0x8000_0000 <= a <= 0x7fff_ffff,
            -0x8000_0000 <= b <= 0x7fff_ffff,
    ;
    div_round((a as i64) * (b as i64), UNIT)
}

/// `n / d` rounded toward zero.
pub fn div_trunc(n: i64, d: i64) -> (q: i64)
    requires
        d > 0,
    ensures
        q == trunc_div(n as int, d as int),
{
    if n >= 0 {
        n / d
    } else {
        assert(0 <= (-n) / (d as int) <= -n) by (nonlinear_arith)
            requires
                n < 0,
                d > 0,
        ;
        let wide_n: i128 = n as i128;
        let wide_d: i128 = d as i128;
        (-((-wide_n) / wide_d)) as i64
    }
}

/// `v` held to the interval from `lo` to `hi`.
pub fn clamp_to(v: i64, lo: i64, hi: i64) -> (r: i64)
    requires
        lo <= hi,
    ensures
        r == clamp(v as int, lo as int, hi as int),
{
    if v < lo {
        lo
    } else if v > hi {
        hi
    } else {
        v
    }
}

/// Integer square root, rounded down.
pub fn floor_sqrt(n: u128) -> (r: u64)
    ensures
        is_floor_sqrt(n as int, r as int),
{
    let mut lo: u128 = 0;
    let mut hi: u128 = 0x1_0000_0000_0000_0000;
    assert(n < hi * hi) by (nonlinear_arith)
        requires
            n <= u128::MAX,
            hi == 0x1_0000_0000_0000_0000,
    ;
    while hi - lo > 1
        invariant
            lo < hi <= 0x1_0000_0000_0000_0000,
            lo * lo <= n < hi * hi,
        decreases hi - lo,
    {
        let mid: u128 = lo + (hi - lo) / 2;
        assert(mid * mid <= 0xffff_ffff_ffff_ffff * 0xffff_ffff_ffff_ffff) by (nonlinear_arith)
            requires
                0 <= mid <= 0xffff_ffff_ffff_ffff,
        ;
        if mid * mid <= n {
            lo = mid;
        } else {
            hi = mid;
        }
    }
    lo as u64
}

} // verus!
