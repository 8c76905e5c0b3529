//! Saturating fixed-point arithmetic on 64-bit integers.

use vstd::prelude::*;

verus! {

/// Length units in one pixel.
pub const PIXEL: i64 = 1000;

/// Microseconds in one second.
pub const MICROS_PER_SECOND: i64 = 1_000_000;

/// The largest speed that can be stored, in either direction.
pub const MAX_SPEED: i64 = i64::MAX;

/// The value of `x` once stored: `x` itself where it fits in 64 bits, else
/// the nearest end of the 64-bit range.
pub open spec fn saturated(x: int) -> int {
    if x < i64::MIN {
        i64::MIN as int
    } else if x > i64::MAX {
        i64::MAX as int
    } else {
        x
    }
}

/// The quotient of `n` by a positive `d`, rounded toward zero.
pub open spec fn quotient_toward_zero(n: int, d: int) -> int
    recommends
        d > 0,
{
    if n >= 0 {
        n / d
    } else {
        -((-n) / d)
    }
}

/// The size of `v` without its sign, as far as it can be stored.
pub open spec fn magnitude(v: int) -> int {
    if v >= 0 {
        saturated(v)
    } else {
        saturated(-v)
    }
}

/// The distance covered at `speed` units per second in `dt` microseconds,
/// rounded toward zero.
pub open spec fn displacement(speed: int, dt: int) -> int {
    saturated(quotient_toward_zero(speed * dt, MICROS_PER_SECOND as int))
}

/// The speed after a racket hit: the size of `v` times
/// `numerator / denominator`, rounded down, as far as it can be stored.
pub open spec fn scaled_magnitude(v: int, numerator: int, denominator: int) -> int
    recommends
        numerator >= 0,
        denominator > 0,
{
    saturated(magnitude(v) * numerator / denominator)
}

/// Stores a wide intermediate result.
pub fn saturate(x: i128) -> (r: i64)
    ensures
        r == saturated(x as int),
{
    if x < i64::MIN as i128 {
        i64::MIN
    } else if x > i64::MAX as i128 {
        i64::MAX
    } else {
        x as i64
    }
}

/// `value + delta`, saturating.
pub fn offset(value: i64, delta: i64) -> (r: i64)
    ensures
        r == saturated(value + delta),
{
    saturate(value as i128 + delta as i128)
}

/// `-v`, saturating.
pub fn negate(v: i64) -> (r: i64)
    ensures
        r == saturated(-v),
{
    saturate(-(v as i128))
}

/// The absolute value of `v`, saturating.
pub fn abs(v: i64) -> (r: i64)
    ensures
        r == magnitude(v as int),
        r >= 0,
{
    if v >= 0 {
        v
    } else {
        negate(v)
    }
}

/// The distance covered at `speed` in `dt_micros`.
pub fn travel(speed: i64, dt_micros: u64) -> (r: i64)
    ensures
        r == displacement(speed as int, dt_micros as int),
{
    let wide: i128 = speed as i128;
    let span: i128 = dt_micros as i128;
    assert(-0x8000_0000_0000_0000 * 0xffff_ffff_ffff_ffff <= wide * span
        <= 0x8000_0000_0000_0000 * 0xffff_ffff_ffff_ffff) by (nonlinear_arith)
        requires
            -0x8000_0000_0000_0000 <= wide <= 0x8000_0000_0000_0000,
            0 <= span <= 0xffff_ffff_ffff_ffff,
    ;
    let product: i128 = wide * span;
    if product >= 0 {
        saturate(product / (MICROS_PER_SECOND as i128))
    } else {
        saturate(-((-product) / (MICROS_PER_SECOND as i128)))
    }
}

/// The size of `v` times `numerator / denominator`, rounded down and
/// saturating.
pub fn scale_magnitude(v: i64, numerator: u32, denominator: u32) -> (r: i64)
    requires
        denominator > 0,
    ensures
        r == scaled_magnitude(v as int, numerator as int, denominator as int),
        r >= 0,
{
    let size: i128 = abs(v) as i128;
    let factor: i128 = numerator as i128;
    assert(0 <= size * factor <= 0x7fff_ffff_ffff_ffff * 0xffff_ffff) by (nonlinear_arith)
        requires
            0 <= size <= 0x7fff_ffff_ffff_ffff,
            0 <= factor <= 0xffff_ffff,
    ;
    saturate(size * factor / (denominator as i128))
}

} // verus!
