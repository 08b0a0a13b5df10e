//! Angles in thousandths of a radian, and integer sine and cosine.
use vstd::prelude::*;
use crate::units::{div_round, lemma_round_div_bounds, lemma_round_div_within, round_div, UNIT};

verus! {

/// A full turn, in thousandths of a radian.
pub const TAU: i64 = 6283;

/// The angle `a` brought into `[0, TAU)` by whole turns.
pub open spec fn wrapped(a: int) -> int {
    a % (TAU as int)
}

/// One arch of the sine curve in thousandths, over half a turn counted in
/// quarter steps (`0 <= y <= 2 * TAU`): the rational approximation
/// `4 p / (5 TAU^2 - p)` with `p = y (2 TAU - y)`, which stays within
/// three thousandths of the sine.
pub open spec fn arch(y: int) -> int {
    let p = y * (2 * TAU - y);
    round_div(4 * UNIT * p, 5 * TAU * TAU - p)
}

/// The full sine wave over one turn counted in quarter steps
/// (`0 <= y < 4 * TAU`).
pub open spec fn wave(y: int) -> int {
    if y <= 2 * TAU {
        arch(y)
    } else {
        -arch(y - 2 * TAU)
    }
}

/// Sine of the angle `a`, in thousandths.
pub open spec fn sine(a: int) -> int {
    wave(4 * wrapped(a))
}

/// The place a quarter turn ahead of `y` on the wave, both in quarter
/// steps.
pub open spec fn quarter_ahead(y: int) -> int {
    if y < 3 * TAU {
        y + TAU
    } else {
        y - 3 * TAU
    }
}

/// Cosine of the angle `a`, in thousandths: the sine a quarter turn ahead.
pub open spec fn cosine(a: int) -> int {
    wave(quarter_ahead(4 * wrapped(a)))
}

/// The arch stays between zero and one.
pub proof fn lemma_arch_bounds(y: int)
    requires
        0 <= y <= 2 * TAU,
    ensures
        0 <= arch(y) <= UNIT,
{
    let p = y * (2 * TAU - y);
    assert(0 <= p <= TAU * TAU) by (nonlinear_arith)
        requires
            0 <= y <= 2 * TAU,
            p == y * (2 * TAU - y),
    {
        assert((y - TAU) * (y - TAU) >= 0);
    }
    let d = 5 * TAU * TAU - p;
    assert(TAU * TAU == 39476089 && d == 197380445 - p);
    assert(4 * UNIT * p == 4000 * p && UNIT * d == 1000 * d);
    lemma_round_div_within(4 * UNIT * p, d, UNIT as int);
    lemma_round_div_bounds(4 * UNIT * p, d);
}

/// Sine and cosine never leave `[-UNIT, UNIT]`.
pub proof fn lemma_sine_cosine_bounds(a: int)
    ensures
        -UNIT <= sine(a) <= UNIT,
        -UNIT <= cosine(a) <= UNIT,
{
    let y = 4 * wrapped(a);
    if y <= 2 * TAU {
        lemma_arch_bounds(y);
    } else {
        lemma_arch_bounds(y - 2 * TAU);
    }
    let z = quarter_ahead(y);
    if z <= 2 * TAU {
        lemma_arch_bounds(z);
    } else {
        lemma_arch_bounds(z - 2 * TAU);
    }
}

/// Whole turns change neither sine nor cosine.
pub proof fn lemma_full_turn(a: int)
    ensures
        sine(a + TAU) == sine(a),
        cosine(a + TAU) == cosine(a),
{
    assert(wrapped(a + TAU) == wrapped(a));
}

/// The arch is the same from either end.
pub proof fn lemma_arch_mirror(y: int)
    ensures
        arch(2 * TAU - y) == arch(y),
{
    assert((2 * TAU - y) * (2 * TAU - (2 * TAU - y)) == y * (2 * TAU - y)) by (nonlinear_arith);
}

/// The sine is odd and the cosine is even: turning the other way mirrors
/// the direction.
pub proof fn lemma_turn_back(a: int)
    ensures
        sine(-a) == -sine(a),
        cosine(-a) == cosine(a),
{
    let w = wrapped(a);
    let v = wrapped(-a);
    assert(v == if w == 0 { 0 } else { TAU - w });
    assert(arch(0) == 0) by {
        assert(0 * (2 * TAU - 0) == 0);
        assert(4 * UNIT * 0 == 0);
        assert(5 * TAU * TAU - 0 == 197380445);
    }
    lemma_arch_mirror(4 * w);
    lemma_arch_mirror(4 * w - 2 * TAU);
    let y = quarter_ahead(4 * w);
    let z = quarter_ahead(4 * v);
    assert(z == if y <= 2 * TAU { 2 * TAU - y } else { 6 * TAU - y });
    lemma_arch_mirror(y);
    lemma_arch_mirror(y - 2 * TAU);
}

/// The angle zero points straight up: its sine is 0 and its cosine is one.
pub proof fn lemma_zero_angle()
    ensures
        sine(0) == 0,
        cosine(0) == UNIT,
{
    assert(arch(0) == 0) by {
        assert(0 * (2 * TAU - 0) == 0);
        assert(4 * UNIT * 0 == 0);
        assert(5 * TAU * TAU - 0 == 197380445);
    }
    assert(arch(TAU as int) == UNIT) by {
        let p = (TAU as int) * (2 * TAU - TAU);
        assert(p == 39476089);
        assert(4 * UNIT * p == 157904356000);
        assert(5 * TAU * TAU - p == 157904356);
    }
    assert(wrapped(0) == 0);
}

/// Brings an angle into `[0, TAU)` by whole turns.
pub fn wrap_angle(a: i64) -> (r: i64)
    ensures
        r == wrapped(a as int),
        0 <= r < TAU,
{
    if a >= 0 {
        a % TAU
    } else {
        let m: i64 = (-(a + 1)) % TAU;
        TAU - 1 - m
    }
}

/// The arch at `y` quarter steps.
fn arch_at(y: i64) -> (r: i64)
    requires
        0 <= y <= 2 * TAU,
    ensures
        r == arch(y as int),
        0 <= r <= UNIT,
{
    proof {
        lemma_arch_bounds(y as int);
        assert(0 <= y * (2 * TAU - y) <= TAU * TAU) by (nonlinear_arith)
            requires
                0 <= y <= 2 * TAU,
        {
            assert((y - TAU) * (y - TAU) >= 0);
        }
    }
    let p: i64 = y * (2 * TAU - y);
    div_round(4 * UNIT * p, 5 * TAU * TAU - p)
}

/// The wave at `y` quarter steps.
fn wave_at(y: i64) -> (r: i64)
    requires
        0 <= y < 4 * TAU,
    ensures
        r == wave(y as int),
        -UNIT <= r <= UNIT,
{
    if y <= 2 * TAU {
        arch_at(y)
    } else {
        -arch_at(y - 2 * TAU)
    }
}

/// Sine and cosine of an angle given in thousandths of a radian, each in
/// thousandths.
pub fn sin_cos(a: i64) -> (r: (i64, i64))
    ensures
        r.0 == sine(a as int),
        r.1 == cosine(a as int),
        -UNIT <= r.0 <= UNIT,
        -UNIT <= r.1 <= UNIT,
{
    let w: i64 = wrap_angle(a);
    let s: i64 = wave_at(4 * w);
    let ahead: i64 = if 4 * w < 3 * TAU {
        4 * w + TAU
    } else {
        4 * w - 3 * TAU
    };
    let c: i64 = wave_at(ahead);
    (s, c)
}

} // verus!
