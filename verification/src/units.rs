//! Fixed-point units for the simulation.
//!
//! Positions, colors and scales are stored in "nano" fixed point: the value
//! `1.0` (one pixel, or a full color channel) is `SCALE` units. Time is
//! measured in milliseconds, so a velocity of one pixel per second is
//! `VEL_UNIT` units per millisecond and an acceleration of one pixel per
//! second squared is `ACC_UNIT` units per millisecond squared. The bounce
//! factor is stored in thousandths (`BOUNCE_ONE` is a factor of `1.0`).

use vstd::prelude::*;

verus! {

/// One pixel (or a color-channel value of 1.0), in position units.
pub const SCALE: i64 = 1_000_000_000;

/// One pixel per second, in velocity units (position units per millisecond).
pub const VEL_UNIT: i64 = 1_000_000;

/// One pixel per second squared, in acceleration units
/// (position units per millisecond squared).
pub const ACC_UNIT: i64 = 1_000;

/// A bounce factor of exactly 1.0, in thousandths.
pub const BOUNCE_ONE: u32 = 1000;

/// Largest viewport dimension the arithmetic bounds admit
/// (one million pixels).
pub const MAX_DIMENSION: i64 = 1_000_000_000_000_000;

/// Largest particle speed per axis the arithmetic bounds admit
/// (one million pixels per second).
pub const MAX_SPEED: i64 = 1_000_000_000_000;

/// Largest acceleration magnitude per axis the arithmetic bounds admit
/// (one thousand pixels per second squared).
pub const MAX_ACCEL: i64 = 1_000_000;

/// Largest frame delta the arithmetic bounds admit, in milliseconds
/// (about seventeen minutes).
pub const MAX_DELTA_MS: u64 = 1_000_000;

/// Converts a whole number of pixels to position units.
pub fn pixels(p: i64) -> (r: i64)
    requires
        -1_000_000_000 <= p <= 1_000_000_000,
    ensures
        r == p * SCALE,
{
    p * SCALE
}

/// Converts a whole number of pixels per second to velocity units.
pub fn pixels_per_second(v: i64) -> (r: i64)
    requires
        -1_000_000_000 <= v <= 1_000_000_000,
    ensures
        r == v * VEL_UNIT,
{
    v * VEL_UNIT
}

/// Converts a whole number of pixels per second squared to acceleration
/// units.
pub fn pixels_per_second_squared(a: i64) -> (r: i64)
    requires
        -1_000_000_000 <= a <= 1_000_000_000,
    ensures
        r == a * ACC_UNIT,
{
    a * ACC_UNIT
}

} // verus!
