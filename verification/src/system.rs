//! The particle buffer: creation, the per-frame compute dispatch over it,
//! and its flat GPU record.

use vstd::prelude::*;
use crate::particle::Particle;
use crate::params::SimParams;
use crate::compute::{step_particle, stepped};
use crate::rng::sample_inclusive;
use crate::units::{SCALE, VEL_UNIT, MAX_DELTA_MS, MAX_SPEED};

verus! {

/// Speed bound of a freshly spawned particle per axis
/// (400 pixels per second, in velocity units).
pub const SPAWN_SPEED: i64 = 400 * VEL_UNIT;

/// A freshly spawned particle: position uniform over twice the viewport,
/// speed per axis within `[-400, 400]` pixels per second, color channels
/// in `[0, 1]` and scale in `[1, 2]`.
pub open spec fn spawned(p: Particle, width: int, height: int) -> bool {
    &&& p.in_domain(width, height)
    &&& -SPAWN_SPEED <= p.vel_x <= SPAWN_SPEED
    &&& -SPAWN_SPEED <= p.vel_y <= SPAWN_SPEED
    &&& p.shading_in_range()
}

/// The flat buffer image of a particle sequence: the eight-value records
/// of the particles, concatenated in index order.
pub open spec fn flat_records(s: Seq<Particle>) -> Seq<i64>
    decreases s.len(),
{
    if s.len() == 0 {
        Seq::empty()
    } else {
        flat_records(s.drop_last()) + s.last().record_seq()
    }
}

/// The flat buffer image holds eight values per particle.
pub proof fn lemma_flat_records_len(s: Seq<Particle>)
    ensures
        flat_records(s).len() == 8 * s.len(),
    decreases s.len(),
{
    if s.len() > 0 {
        lemma_flat_records_len(s.drop_last());
    }
}

/// The particle buffer. The particle count is fixed at creation: the
/// buffer length and the instance count drawn each frame are one and the
/// same value for the whole session.
pub struct ParticleSystem {
    pub particles: Vec<Particle>,
    pub count: u32,
}

impl ParticleSystem {
    /// The buffer holds exactly `count` records.
    pub open spec fn wf(self) -> bool {
        self.particles@.len() == self.count
    }

    /// Every particle is within the spawn domain and speed bounds, as
    /// creation leaves them.
    pub open spec fn all_spawned(self, width: int, height: int) -> bool {
        forall|i: int|
            0 <= i < self.particles@.len() ==> spawned(#[trigger] self.particles@[i], width,
            height)
    }

    /// Every particle may be advanced under `params` without the
    /// arithmetic leaving its bounds.
    pub open spec fn advanceable(self, params: SimParams) -> bool {
        forall|i: int|
            0 <= i < self.particles@.len() ==> {
                &&& (#[trigger] self.particles@[i]).in_domain(params.width as int,
                    params.height as int)
                &&& self.particles@[i].speed_bounded()
            }
    }

    /// Creates a buffer of exactly `count` particles for a viewport given
    /// in whole pixels, each field sampled independently and uniformly:
    /// position over `[0, 2*dimension)` per axis (twice the viewport),
    /// velocity over `[-400, 400]` pixels per second per axis, color
    /// channels over `[0, 1]` and scale over `[1, 2]`.
    pub fn new(count: u32, width_px: u32, height_px: u32, rng: &mut rand::rngs::StdRng) -> (r:
        ParticleSystem)
        requires
            1 <= width_px <= 1_000_000,
            1 <= height_px <= 1_000_000,
        ensures
            r.wf(),
            r.count == count,
            r.all_spawned(width_px * SCALE, height_px * SCALE),
    {
        let width: i64 = (width_px as i64) * SCALE;
        let height: i64 = (height_px as i64) * SCALE;
        let mut particles: Vec<Particle> = Vec::new();
        let mut i: u32 = 0;
        while i < count
            invariant
                i <= count,
                particles@.len() == i,
                1 * SCALE <= width <= 1_000_000 * SCALE,
                1 * SCALE <= height <= 1_000_000 * SCALE,
                forall|k: int|
                    0 <= k < i ==> spawned(#[trigger] particles@[k], width as int, height as int),
            decreases count - i,
        {
            let p = Particle {
                pos_x: sample_inclusive(rng, 0, 2 * width - 1),
                pos_y: sample_inclusive(rng, 0, 2 * height - 1),
                vel_x: sample_inclusive(rng, -SPAWN_SPEED, SPAWN_SPEED),
                vel_y: sample_inclusive(rng, -SPAWN_SPEED, SPAWN_SPEED),
                color_r: sample_inclusive(rng, 0, SCALE),
                color_g: sample_inclusive(rng, 0, SCALE),
                color_b: sample_inclusive(rng, 0, SCALE),
                scale: sample_inclusive(rng, SCALE, 2 * SCALE),
            };
            particles.push(p);
            i = i + 1;
        }
        ParticleSystem { particles, count }
    }

    /// The number of instances one frame draws: the fixed particle count.
    pub fn instance_count(&self) -> (r: u32)
        ensures
            r == self.count,
    {
        self.count
    }

    /// Advances every particle by one frame. Each new record is pinned by
    /// the step relation applied to the old record at the same index, and
    /// every new position lies within the viewport.
    pub fn advance(&mut self, params: &SimParams)
        requires
            old(self).wf(),
            params.wf(),
            params.delta_ms <= MAX_DELTA_MS,
            old(self).advanceable(*params),
        ensures
            final(self).wf(),
            final(self).count == old(self).count,
            forall|i: int|
                0 <= i < old(self).particles@.len() ==> stepped(old(self).particles@[i], *params,
                #[trigger] final(self).particles@[i]),
            forall|i: int|
                0 <= i < final(self).particles@.len() ==> {
                    &&& 0 <= (#[trigger] final(self).particles@[i]).pos_x <= params.width
                    &&& 0 <= final(self).particles@[i].pos_y <= params.height
                },
    {
        let n: usize = self.particles.len();
        let mut out: Vec<Particle> = Vec::new();
        let mut i: usize = 0;
        while i < n
            invariant
                i <= n,
                n == self.particles@.len(),
                self == old(self),
                params.wf(),
                params.delta_ms <= MAX_DELTA_MS,
                old(self).advanceable(*params),
                out@.len() == i,
                forall|k: int|
                    0 <= k < i ==> stepped(self.particles@[k], *params, #[trigger] out@[k]),
                forall|k: int|
                    0 <= k < i ==> {
                        &&& 0 <= (#[trigger] out@[k]).pos_x <= params.width
                        &&& 0 <= out@[k].pos_y <= params.height
                    },
            decreases n - i,
        {
            let stepped_particle = step_particle(&self.particles[i], params);
            out.push(stepped_particle);
            i = i + 1;
        }
        self.particles = out;
    }

    /// Decides whether the next frame may advance this buffer under
    /// `params` without any arithmetic leaving its bounds: every particle
    /// must still be in the spawn domain with a bounded speed, and the
    /// frame delta must be within the step's limit. An unverified caller
    /// checks this before `advance` and treats a refusal as fatal.
    pub fn can_advance(&self, params: &SimParams) -> (r: bool)
        requires
            params.wf(),
        ensures
            r <==> (self.advanceable(*params) && params.delta_ms <= MAX_DELTA_MS),
    {
        if params.delta_ms > MAX_DELTA_MS {
            return false;
        }
        let n: usize = self.particles.len();
        let mut i: usize = 0;
        while i < n
            invariant
                i <= n,
                n == self.particles@.len(),
                params.wf(),
                forall|k: int|
                    0 <= k < i ==> {
                        &&& (#[trigger] self.particles@[k]).in_domain(params.width as int,
                            params.height as int)
                        &&& self.particles@[k].speed_bounded()
                    },
            decreases n - i,
        {
            let p = &self.particles[i];
            if !(0 <= p.pos_x && p.pos_x < 2 * params.width && 0 <= p.pos_y && p.pos_y < 2
                * params.height) {
                return false;
            }
            if !(-MAX_SPEED <= p.vel_x && p.vel_x <= MAX_SPEED && -MAX_SPEED <= p.vel_y && p.vel_y
                <= MAX_SPEED) {
                return false;
            }
            i = i + 1;
        }
        true
    }

    /// Flattens the whole buffer into its GPU image: eight values per
    /// particle, records in index order.
    pub fn records(&self) -> (r: Vec<i64>)
        requires
            self.particles@.len() * 8 <= usize::MAX,
        ensures
            r@ == flat_records(self.particles@),
    {
        let n: usize = self.particles.len();
        let mut out: Vec<i64> = Vec::new();
        let mut i: usize = 0;
        proof {
            assert(self.particles@.take(0) =~= Seq::<Particle>::empty());
        }
        while i < n
            invariant
                i <= n,
                n == self.particles@.len(),
                out@ == flat_records(self.particles@.take(i as int)),
                out@.len() == 8 * i,
            decreases n - i,
        {
            proof {
                lemma_flat_records_len(self.particles@.take(i as int));
            }
            let mut rec = self.particles[i].record();
            out.append(&mut rec);
            proof {
                let taken = self.particles@.take(i + 1);
                assert(taken.drop_last() =~= self.particles@.take(i as int));
                assert(taken.last() == self.particles@[i as int]);
                assert(out@ =~= flat_records(taken));
            }
            i = i + 1;
        }
        proof {
            assert(self.particles@.take(n as int) =~= self.particles@);
        }
        out
    }
}

} // verus!
