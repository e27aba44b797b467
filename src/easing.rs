//! Fixed-point cubic ease-in-out and linear blending.

use vstd::prelude::*;

verus! {

/// Length of one breathing phase, in nanoseconds (four seconds).
pub const PERIOD: u64 = 4_000_000_000;

/// `PERIOD` cubed: the fixed-point denominator of an eased weight.
pub const EASE_DEN: u128 = 64_000_000_000_000_000_000_000_000_000;

/// Largest endpoint that `lerp` blends between.
pub const LERP_MAX: u64 = 1_000_000_000;

/// `x` cubed.
pub open spec fn cube(x: int) -> int {
    x * x * x
}

/// The cubic ease-in-out curve `f(x)` at `x = t / PERIOD`, times `EASE_DEN`:
/// `4x³` while `x < 1/2`, else `1 − 4(1 − x)³`.
pub open spec fn eased(t: int) -> int {
    if 2 * t < PERIOD {
        4 * cube(t)
    } else {
        EASE_DEN - 4 * cube(PERIOD - t)
    }
}

/// `(1 − w)·a + w·b` for the weight `w / EASE_DEN`, rounded to the nearest
/// integer (halves round up).
pub open spec fn lerp_spec(w: int, a: int, b: int) -> int {
    ((EASE_DEN - w) * a + w * b + EASE_DEN / 2) / (EASE_DEN as int)
}

pub proof fn lemma_cube_monotone(a: int, b: int)
    requires
        0 <= a <= b,
    ensures
        0 <= cube(a) <= cube(b),
{
    assert(0 <= a * a <= b * b) by (nonlinear_arith)
        requires
            0 <= a <= b,
    ;
    assert(0 <= a * a * a <= b * b * b) by (nonlinear_arith)
        requires
            0 <= a <= b,
            0 <= a * a <= b * b,
    ;
}

/// Over a whole phase the eased weight rises from `0` to `EASE_DEN`.
pub proof fn lemma_eased_bounds(t: int)
    requires
        0 <= t <= PERIOD,
    ensures
        0 <= eased(t) <= EASE_DEN,
        2 * t < PERIOD ==> 4 * cube(t) <= EASE_DEN / 2,
        2 * t >= PERIOD ==> 4 * cube(PERIOD - t) <= EASE_DEN / 2,
{
    let half: int = PERIOD as int / 2;
    assert(cube(half) == 8_000_000_000_000_000_000_000_000_000) by (nonlinear_arith)
        requires
            half == 2_000_000_000,
    ;
    if 2 * t < PERIOD {
        lemma_cube_monotone(t, half);
    } else {
        lemma_cube_monotone(PERIOD - t, half);
    }
}

/// The eased weight never decreases as time in the phase grows.
pub proof fn lemma_eased_monotone(t1: int, t2: int)
    requires
        0 <= t1 <= t2 <= PERIOD,
    ensures
        eased(t1) <= eased(t2),
{
    lemma_eased_bounds(t1);
    lemma_eased_bounds(t2);
    if 2 * t2 < PERIOD {
        lemma_cube_monotone(t1, t2);
    } else if 2 * t1 >= PERIOD {
        lemma_cube_monotone(PERIOD - t2, PERIOD - t1);
    }
}

/// The blend lies between its endpoints, and moves toward `b` as `w` grows.
pub proof fn lemma_lerp_bounds(w: int, a: int, b: int)
    requires
        0 <= w <= EASE_DEN,
        0 <= a,
        0 <= b,
    ensures
        a <= b ==> a <= lerp_spec(w, a, b) <= b,
        b <= a ==> b <= lerp_spec(w, a, b) <= a,
{
    let d: int = EASE_DEN as int;
    let num = (d - w) * a + w * b + d / 2;
    if a <= b {
        assert(d * a <= (d - w) * a + w * b <= d * b) by (nonlinear_arith)
            requires
                0 <= w <= d,
                0 <= a <= b,
        ;
    } else {
        assert(d * b <= (d - w) * a + w * b <= d * a) by (nonlinear_arith)
            requires
                0 <= w <= d,
                0 <= b <= a,
        ;
    }
    let lo: int = if a <= b { a } else { b };
    let hi: int = if a <= b { b } else { a };
    assert(lo <= num / d <= hi) by (nonlinear_arith)
        requires
            d * lo <= num - d / 2,
            num - d / 2 <= d * hi,
            d > 2,
            d % 2 == 0,
    ;
}

/// As `w` grows the blend moves monotonically from `a` toward `b`.
pub proof fn lemma_lerp_monotone(w1: int, w2: int, a: int, b: int)
    requires
        0 <= w1 <= w2 <= EASE_DEN,
        0 <= a,
        0 <= b,
    ensures
        a <= b ==> lerp_spec(w1, a, b) <= lerp_spec(w2, a, b),
        b <= a ==> lerp_spec(w2, a, b) <= lerp_spec(w1, a, b),
{
    let d: int = EASE_DEN as int;
    let n1 = (d - w1) * a + w1 * b + d / 2;
    let n2 = (d - w2) * a + w2 * b + d / 2;
    assert(n1 - n2 == (w2 - w1) * (a - b)) by (nonlinear_arith)
        requires
            n1 == (d - w1) * a + w1 * b + d / 2,
            n2 == (d - w2) * a + w2 * b + d / 2,
    ;
    if a <= b {
        assert((w2 - w1) * (a - b) <= 0) by (nonlinear_arith)
            requires
                w1 <= w2,
                a <= b,
        ;
        vstd::arithmetic::div_mod::lemma_div_is_ordered(n1, n2, d);
    } else {
        assert((w2 - w1) * (a - b) >= 0) by (nonlinear_arith)
            requires
                w1 <= w2,
                b <= a,
        ;
        vstd::arithmetic::div_mod::lemma_div_is_ordered(n2, n1, d);
    }
}

/// The eased weight `eased(t)` for `t` nanoseconds into a phase.
pub fn ease_in_out_cubic(t: u64) -> (r: u128)
    requires
        t <= PERIOD,
    ensures
        r == eased(t as int),
        r <= EASE_DEN,
{
    proof {
        lemma_eased_bounds(t as int);
    }
    if 2 * t < PERIOD {
        let x = t as u128;
        assert(x * x <= 4_000_000_000_000_000_000) by (nonlinear_arith)
            requires
                x <= 2_000_000_000,
        ;
        assert(x * x * x == cube(t as int));
        4 * (x * x * x)
    } else {
        let y = (PERIOD - t) as u128;
        assert(y * y <= 4_000_000_000_000_000_000) by (nonlinear_arith)
            requires
                y <= 2_000_000_000,
        ;
        assert(y * y * y == cube(PERIOD - t));
        EASE_DEN - 4 * (y * y * y)
    }
}

/// Blends from `a` to `b` by the weight `t / EASE_DEN`, rounding to nearest.
pub fn lerp(t: u128, a: u64, b: u64) -> (r: u64)
    requires
        t <= EASE_DEN,
        a <= LERP_MAX,
        b <= LERP_MAX,
    ensures
        r == lerp_spec(t as int, a as int, b as int),
        a <= b ==> a <= r <= b,
        b <= a ==> b <= r <= a,
{
    proof {
        lemma_lerp_bounds(t as int, a as int, b as int);
    }
    let wa = EASE_DEN - t;
    let aa = a as u128;
    let bb = b as u128;
    assert(wa * aa + t * bb <= EASE_DEN * (LERP_MAX as u128)) by (nonlinear_arith)
        requires
            wa + t == EASE_DEN,
            aa <= LERP_MAX,
            bb <= LERP_MAX,
    ;
    let num = wa * aa + t * bb + EASE_DEN / 2;
    (num / EASE_DEN) as u64
}

} // verus!
