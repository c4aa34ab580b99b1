//! The per-particle state and its flat buffer record.

use vstd::prelude::*;
use crate::units::{SCALE, MAX_SPEED};

verus! {

/// One particle: a position and a velocity in fixed-point screen space,
/// an RGB color and a size scale. The particle's index in the buffer is
/// its identity; the record layout is fixed by `record`.
#[derive(Clone, Copy, Debug, PartialEq, Eq, Structural)]
pub struct Particle {
    pub pos_x: i64,
    pub pos_y: i64,
    pub vel_x: i64,
    pub vel_y: i64,
    pub color_r: i64,
    pub color_g: i64,
    pub color_b: i64,
    pub scale: i64,
}

impl Particle {
    /// The position lies in the spawn domain `[0, 2*width) x [0, 2*height)`
    /// (twice the viewport on each axis).
    pub open spec fn in_domain(self, width: int, height: int) -> bool {
        &&& 0 <= self.pos_x < 2 * width
        &&& 0 <= self.pos_y < 2 * height
    }

    /// The speed per axis is within the arithmetic bounds.
    pub open spec fn speed_bounded(self) -> bool {
        &&& -MAX_SPEED <= self.vel_x <= MAX_SPEED
        &&& -MAX_SPEED <= self.vel_y <= MAX_SPEED
    }

    /// Color channels lie in `[0, 1]` and the scale in `[1, 2]`,
    /// in fixed-point units.
    pub open spec fn shading_in_range(self) -> bool {
        &&& 0 <= self.color_r <= SCALE
        &&& 0 <= self.color_g <= SCALE
        &&& 0 <= self.color_b <= SCALE
        &&& SCALE <= self.scale <= 2 * SCALE
    }

    /// The record layout of one particle: eight fixed-point values, in the
    /// order the compute and render stages expect them.
    pub open spec fn record_seq(self) -> Seq<i64> {
        seq![
            self.pos_x,
            self.pos_y,
            self.vel_x,
            self.vel_y,
            self.color_r,
            self.color_g,
            self.color_b,
            self.scale,
        ]
    }

    /// Flattens the particle into its eight-value buffer record.
    pub fn record(&self) -> (r: Vec<i64>)
        ensures
            r@ == self.record_seq(),
    {
        let mut r: Vec<i64> = Vec::new();
        r.push(self.pos_x);
        r.push(self.pos_y);
        r.push(self.vel_x);
        r.push(self.vel_y);
        r.push(self.color_r);
        r.push(self.color_g);
        r.push(self.color_b);
        r.push(self.scale);
        proof {
            assert(r@ =~= self.record_seq());
        }
        r
    }
}

/// Values per particle record (position, velocity, color, scale).
pub const PARTICLE_RECORD_LEN: usize = 8;

} // verus!
