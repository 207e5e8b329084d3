//! The easing curve of the flip animation, in exact fixed-point arithmetic.
//!
//! Progress `t` counts thousandths of the animation; the eased value counts
//! billionths, so that the cubic `4 t^3` needs no rounding.

use crate::graphics_engine::PROGRESS_SCALE;
use vstd::prelude::*;

verus! {

/// The eased value that stands for 1: the cube of `PROGRESS_SCALE`.
pub const EASED_ONE: u64 = 1_000_000_000;

pub open spec fn cube(x: int) -> int {
    x * x * x
}

/// Symmetric cubic ease-in-out. With `u = 2t`: `u^3 / 2` while `u < 1`, and
/// `((u - 2)^3 + 2) / 2` from there on, both written over the fixed-point
/// denominators.
pub open spec fn easing(t: int) -> int {
    if 2 * t < PROGRESS_SCALE as int {
        4 * cube(t)
    } else {
        EASED_ONE as int - 4 * cube(PROGRESS_SCALE as int - t)
    }
}

/// The flip is in its first phase, the top half turning, while the eased
/// progress is below one half.
pub open spec fn in_top_phase(progress: int) -> bool {
    2 * easing(progress) < EASED_ONE as int
}

/// How far the top half has turned in the first phase: twice the eased
/// progress, in billionths.
pub open spec fn reveal_fraction(progress: int) -> int {
    2 * easing(progress)
}

/// How far the bottom half has turned in the second phase: twice the eased
/// progress beyond one half, in billionths.
pub open spec fn flip_fraction(progress: int) -> int {
    2 * easing(progress) - EASED_ONE as int
}

/// `length * fraction`, with `fraction` in billionths, rounded down.
pub open spec fn scale_length(length: int, fraction: int) -> int {
    length * fraction / (EASED_ONE as int)
}

proof fn lemma_cube_monotonic(a: int, b: int)
    requires
        0 <= a <= b,
    ensures
        cube(a) <= cube(b),
{
    assert(a * a <= b * b) by (nonlinear_arith)
        requires
            0 <= a <= b,
    ;
    assert(a * a * a <= b * b * b) by (nonlinear_arith)
        requires
            0 <= a <= b,
            a * a <= b * b,
    ;
}

proof fn lemma_cube_bounds(t: int)
    requires
        0 <= t <= 500,
    ensures
        0 <= cube(t) <= 125_000_000,
{
    lemma_cube_monotonic(0, t);
    lemma_cube_monotonic(t, 500);
    assert(cube(0) == 0);
    assert(cube(500) == 125_000_000);
}

/// The eased value of every progress lies between 0 and 1.
pub proof fn lemma_easing_range(t: int)
    requires
        0 <= t <= PROGRESS_SCALE,
    ensures
        0 <= easing(t) <= EASED_ONE,
{
    if 2 * t < PROGRESS_SCALE as int {
        lemma_cube_bounds(t);
    } else {
        lemma_cube_bounds(PROGRESS_SCALE as int - t);
    }
}

/// The curve starts at 0, ends at 1 and passes through one half at the
/// middle of the animation.
pub proof fn lemma_easing_fixed_points()
    ensures
        easing(0) == 0,
        easing(PROGRESS_SCALE as int) == EASED_ONE,
        2 * easing(PROGRESS_SCALE as int / 2) == EASED_ONE,
{
    assert(cube(0) == 0);
    assert(cube(500) == 125_000_000);
}

/// The curve never decreases on the whole animation.
pub proof fn lemma_easing_monotonic(s: int, t: int)
    requires
        0 <= s <= t <= PROGRESS_SCALE,
    ensures
        easing(s) <= easing(t),
{
    let scale = PROGRESS_SCALE as int;
    if 2 * t < scale {
        lemma_cube_monotonic(s, t);
    } else if 2 * s < scale {
        lemma_cube_bounds(s);
        lemma_cube_bounds(scale - t);
    } else {
        lemma_cube_monotonic(scale - t, scale - s);
    }
}

/// The first phase lasts exactly while the progress is below one half.
pub proof fn lemma_top_phase_is_first_half(t: int)
    requires
        0 <= t <= PROGRESS_SCALE,
    ensures
        in_top_phase(t) <==> 2 * t < PROGRESS_SCALE,
{
    if 2 * t < PROGRESS_SCALE as int {
        lemma_cube_monotonic(t, 499);
        assert(cube(499) == 124_251_499);
    } else {
        lemma_cube_bounds(PROGRESS_SCALE as int - t);
    }
}

/// The eased progress, in billionths, of the progress `t` in thousandths.
pub fn easing_function(t: u32) -> (eased: u64)
    requires
        t <= PROGRESS_SCALE,
    ensures
        eased == easing(t as int),
        eased <= EASED_ONE,
{
    proof {
        lemma_easing_range(t as int);
    }
    if 2 * t < PROGRESS_SCALE {
        let x: u64 = t as u64;
        proof {
            lemma_cube_bounds(x as int);
            assert(x * x <= 250_000) by (nonlinear_arith)
                requires
                    0 <= x <= 500,
            ;
        }
        4 * (x * x * x)
    } else {
        let x: u64 = (PROGRESS_SCALE - t) as u64;
        proof {
            lemma_cube_bounds(x as int);
            assert(x * x <= 250_000) by (nonlinear_arith)
                requires
                    0 <= x <= 500,
            ;
        }
        EASED_ONE - 4 * (x * x * x)
    }
}

} // verus!
