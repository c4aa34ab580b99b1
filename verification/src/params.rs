//! The per-frame simulation parameters and their uniform-buffer record.

use vstd::prelude::*;
use crate::units::{SCALE, ACC_UNIT, BOUNCE_ONE, MAX_DIMENSION, MAX_ACCEL};
use crate::rng::sample_inclusive;

verus! {

/// A two-dimensional fixed-point vector.
#[derive(Clone, Copy, Debug, PartialEq, Eq, Structural)]
pub struct Vec2 {
    pub x: i64,
    pub y: i64,
}

/// The default bounce factor (0.5, in thousandths).
pub const DEFAULT_BOUNCE: u32 = 500;

/// Magnitude bound of a freshly sampled acceleration component
/// (240 pixels per second squared, in acceleration units).
pub const ACCEL_RANGE: i64 = 240 * ACC_UNIT;

/// The simulation parameters uploaded once per frame: the viewport size,
/// the frame delta time, the bounce factor, and four acceleration fields,
/// one per viewport quadrant. The record layout is fixed by `record`.
#[derive(Clone, Copy, Debug, PartialEq, Eq, Structural)]
pub struct SimParams {
    /// Viewport width in position units.
    pub width: i64,
    /// Viewport height in position units.
    pub height: i64,
    /// Time advanced by the next compute step, in milliseconds.
    /// Deliberately uncapped: a stalled frame passes its full delta through.
    pub delta_ms: u64,
    /// Restitution factor applied on boundary reflection, in thousandths.
    pub bounce_milli: u32,
    /// Acceleration for the left-lower quadrant (x and y below center).
    pub accel_left_lower: Vec2,
    /// Acceleration for the left-upper quadrant (x below, y at or above).
    pub accel_left_upper: Vec2,
    /// Acceleration for the right-lower quadrant (x at or above, y below).
    pub accel_right_lower: Vec2,
    /// Acceleration for the right-upper quadrant (x and y at or above).
    pub accel_right_upper: Vec2,
}

/// Both components lie within the sampling range of a fresh acceleration.
pub open spec fn accel_sampled(a: Vec2) -> bool {
    &&& -ACCEL_RANGE <= a.x <= ACCEL_RANGE
    &&& -ACCEL_RANGE <= a.y <= ACCEL_RANGE
}

impl SimParams {
    /// Well-formedness: a positive viewport within the arithmetic bounds,
    /// a bounce factor of at most one, and bounded accelerations. The
    /// delta time is deliberately not bounded here.
    pub open spec fn wf(self) -> bool {
        &&& 0 < self.width <= MAX_DIMENSION
        &&& 0 < self.height <= MAX_DIMENSION
        &&& self.bounce_milli <= BOUNCE_ONE
        &&& self.accel_bounded()
    }

    /// Every acceleration component is within the arithmetic bounds.
    pub open spec fn accel_bounded(self) -> bool {
        &&& -MAX_ACCEL <= self.accel_left_lower.x <= MAX_ACCEL
        &&& -MAX_ACCEL <= self.accel_left_lower.y <= MAX_ACCEL
        &&& -MAX_ACCEL <= self.accel_left_upper.x <= MAX_ACCEL
        &&& -MAX_ACCEL <= self.accel_left_upper.y <= MAX_ACCEL
        &&& -MAX_ACCEL <= self.accel_right_lower.x <= MAX_ACCEL
        &&& -MAX_ACCEL <= self.accel_right_lower.y <= MAX_ACCEL
        &&& -MAX_ACCEL <= self.accel_right_upper.x <= MAX_ACCEL
        &&& -MAX_ACCEL <= self.accel_right_upper.y <= MAX_ACCEL
    }

    /// The four quadrant fields, indexed as `2*(x side) + (y side)`:
    /// 0 left-lower, 1 left-upper, 2 right-lower, 3 right-upper.
    pub open spec fn accel_of(self, q: int) -> Vec2 {
        if q == 0 {
            self.accel_left_lower
        } else if q == 1 {
            self.accel_left_upper
        } else if q == 2 {
            self.accel_right_lower
        } else {
            self.accel_right_upper
        }
    }

    /// Everything but the acceleration fields is equal.
    pub open spec fn same_but_accel(self, other: SimParams) -> bool {
        &&& self.width == other.width
        &&& self.height == other.height
        &&& self.delta_ms == other.delta_ms
        &&& self.bounce_milli == other.bounce_milli
    }

    /// Creates the parameters for a viewport given in whole pixels: delta
    /// time zero, the default bounce factor, and each acceleration
    /// component sampled uniformly from `[-240, 240]` pixels per second
    /// squared.
    pub fn new(width_px: u32, height_px: u32, rng: &mut rand::rngs::StdRng) -> (r: SimParams)
        requires
            1 <= width_px <= 1_000_000,
            1 <= height_px <= 1_000_000,
        ensures
            r.wf(),
            r.width == width_px * SCALE,
            r.height == height_px * SCALE,
            r.delta_ms == 0,
            r.bounce_milli == DEFAULT_BOUNCE,
            accel_sampled(r.accel_left_lower),
            accel_sampled(r.accel_left_upper),
            accel_sampled(r.accel_right_lower),
            accel_sampled(r.accel_right_upper),
    {
        let mut r = SimParams {
            width: (width_px as i64) * SCALE,
            height: (height_px as i64) * SCALE,
            delta_ms: 0,
            bounce_milli: DEFAULT_BOUNCE,
            accel_left_lower: Vec2 { x: 0, y: 0 },
            accel_left_upper: Vec2 { x: 0, y: 0 },
            accel_right_lower: Vec2 { x: 0, y: 0 },
            accel_right_upper: Vec2 { x: 0, y: 0 },
        };
        r.refresh_accelerations(rng);
        r
    }

    /// Re-samples all four acceleration fields (eight values), each
    /// component uniform over `[-240, 240]` pixels per second squared;
    /// everything else is left unchanged. Called when at least 1.5
    /// simulated seconds have elapsed since the last refresh.
    pub fn refresh_accelerations(&mut self, rng: &mut rand::rngs::StdRng)
        ensures
            final(self).same_but_accel(*old(self)),
            accel_sampled(final(self).accel_left_lower),
            accel_sampled(final(self).accel_left_upper),
            accel_sampled(final(self).accel_right_lower),
            accel_sampled(final(self).accel_right_upper),
    {
        self.accel_left_lower = Vec2 {
            x: sample_inclusive(rng, -ACCEL_RANGE, ACCEL_RANGE),
            y: sample_inclusive(rng, -ACCEL_RANGE, ACCEL_RANGE),
        };
        self.accel_left_upper = Vec2 {
            x: sample_inclusive(rng, -ACCEL_RANGE, ACCEL_RANGE),
            y: sample_inclusive(rng, -ACCEL_RANGE, ACCEL_RANGE),
        };
        self.accel_right_lower = Vec2 {
            x: sample_inclusive(rng, -ACCEL_RANGE, ACCEL_RANGE),
            y: sample_inclusive(rng, -ACCEL_RANGE, ACCEL_RANGE),
        };
        self.accel_right_upper = Vec2 {
            x: sample_inclusive(rng, -ACCEL_RANGE, ACCEL_RANGE),
            y: sample_inclusive(rng, -ACCEL_RANGE, ACCEL_RANGE),
        };
    }

    /// Overwrites the delta-time field; everything else is left unchanged.
    pub fn set_delta_ms(&mut self, delta_ms: u64)
        ensures
            *final(self) == (SimParams { delta_ms, ..*old(self) }),
    {
        self.delta_ms = delta_ms;
    }

    /// The record layout of the parameters: twelve fixed-point values, in
    /// the order the compute stage expects them — viewport size, delta
    /// time, bounce factor, then the left pair and the right pair of
    /// acceleration fields.
    pub open spec fn record_seq(self) -> Seq<i64> {
        seq![
            self.width,
            self.height,
            self.delta_ms as i64,
            self.bounce_milli as i64,
            self.accel_left_lower.x,
            self.accel_left_lower.y,
            self.accel_left_upper.x,
            self.accel_left_upper.y,
            self.accel_right_lower.x,
            self.accel_right_lower.y,
            self.accel_right_upper.x,
            self.accel_right_upper.y,
        ]
    }

    /// Flattens the parameters into their twelve-value uniform record.
    pub fn record(&self) -> (r: Vec<i64>)
        requires
            self.delta_ms <= i64::MAX,
        ensures
            r@ == self.record_seq(),
    {
        let mut r: Vec<i64> = Vec::new();
        r.push(self.width);
        r.push(self.height);
        r.push(self.delta_ms as i64);
        r.push(self.bounce_milli as i64);
        r.push(self.accel_left_lower.x);
        r.push(self.accel_left_lower.y);
        r.push(self.accel_left_upper.x);
        r.push(self.accel_left_upper.y);
        r.push(self.accel_right_lower.x);
        r.push(self.accel_right_lower.y);
        r.push(self.accel_right_upper.x);
        r.push(self.accel_right_upper.y);
        proof {
            assert(r@ =~= self.record_seq());
        }
        r
    }
}

/// Values per parameter record.
pub const PARAMS_RECORD_LEN: usize = 12;

} // verus!
