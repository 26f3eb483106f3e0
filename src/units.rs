use vstd::prelude::*;

verus! {

/// Fixed-point units in one pixel: a length of `n` units is `n / 10^7` pixels.
pub const UNITS_PER_PIXEL: i64 = 10_000_000;

/// How fast every shape shrinks, in units per microsecond (0.1 pixel per second).
pub const SHRINK_PER_MICROSECOND: i64 = 1;

/// A shape whose radius rounds to this many pixels or fewer is removed.
pub const REMOVAL_THRESHOLD: i64 = 1;

/// Radii are below this many units (20 pixels): spawned shapes start below it
/// and only shrink.
pub const MAX_RADIUS: i64 = 200_000_000;

/// The largest speed along one axis, in units per microsecond (225 pixels per second).
pub const MAX_SPEED: i64 = 2250;

/// The longest tick, in microseconds, that one update accepts.
pub const MAX_TICK: u64 = 1_000_000_000_000_000;

/// Coordinates stay within this many units of the canvas centre.
pub const POSITION_LIMIT: i64 = 4_000_000_000_000_000_000;

/// `n / d` rounded to the nearest integer, halves away from zero (`d > 0`).
pub open spec fn round_div(n: int, d: int) -> int {
    if n >= 0 {
        (2 * n + d) / (2 * d)
    } else {
        -((2 * -n + d) / (2 * d))
    }
}

/// A length in units rounded to whole pixels, halves away from zero.
pub open spec fn round_px(v: int) -> int {
    round_div(v, UNITS_PER_PIXEL as int)
}

/// Rounding to whole pixels keeps the order of lengths.
pub proof fn lemma_round_px_monotone(a: int, b: int)
    requires
        a <= b,
    ensures
        round_px(a) <= round_px(b),
{
    let u = UNITS_PER_PIXEL as int;
    if a >= 0 {
        assert((2 * a + u) / (2 * u) <= (2 * b + u) / (2 * u)) by (nonlinear_arith)
            requires a <= b, u > 0;
    } else if b >= 0 {
        assert(0 <= (2 * b + u) / (2 * u)) by (nonlinear_arith)
            requires b >= 0, u > 0;
        assert(0 <= (2 * -a + u) / (2 * u)) by (nonlinear_arith)
            requires a < 0, u > 0;
    } else {
        assert((2 * -b + u) / (2 * u) <= (2 * -a + u) / (2 * u)) by (nonlinear_arith)
            requires -b <= -a, u > 0;
    }
}

/// Rounds a length in units to whole pixels, halves away from zero.
pub fn round_pixels(v: i64) -> (r: i64)
    ensures
        r == round_px(v as int),
{
    if v >= 0 {
        let w: u64 = v as u64;
        ((2 * w as u128 + UNITS_PER_PIXEL as u128) / (2 * UNITS_PER_PIXEL as u128)) as i64
    } else {
        let w: u128 = (-(v as i128)) as u128;
        -(((2 * w + UNITS_PER_PIXEL as u128) / (2 * UNITS_PER_PIXEL as u128)) as i64)
    }
}

} // verus!
