//! The compute stage: advancing a particle by one frame.
//!
//! Each particle is advanced independently: the acceleration field of its
//! current viewport quadrant is applied to its velocity, the velocity to
//! its position, and a position that leaves the viewport is clamped to the
//! boundary while the velocity component on that axis is reflected and
//! scaled by the bounce factor.

use vstd::prelude::*;
use crate::particle::Particle;
use crate::params::{SimParams, Vec2};
use crate::units::{MAX_DIMENSION, MAX_SPEED, MAX_ACCEL, MAX_DELTA_MS, BOUNCE_ONE};

verus! {

/// Quadrant of a position relative to the viewport center, indexed as
/// `2*(x side) + (y side)`: a coordinate at or above half the dimension
/// counts as the upper side. The partition is by the signs of
/// `x - width/2` and `y - height/2` independently, so it is deterministic
/// and spatially contiguous.
pub open spec fn quadrant_spec(px: int, py: int, width: int, height: int) -> int {
    (if 2 * px >= width {
        2int
    } else {
        0int
    }) + (if 2 * py >= height {
        1int
    } else {
        0int
    })
}

/// Selects the quadrant of a position relative to the viewport center.
pub fn quadrant(px: i64, py: i64, width: i64, height: i64) -> (q: u32)
    requires
        -2 * MAX_DIMENSION <= px <= 2 * MAX_DIMENSION,
        -2 * MAX_DIMENSION <= py <= 2 * MAX_DIMENSION,
    ensures
        q == quadrant_spec(px as int, py as int, width as int, height as int),
        q < 4,
{
    let xs: u32 = if 2 * px >= width {
        2
    } else {
        0
    };
    let ys: u32 = if 2 * py >= height {
        1
    } else {
        0
    };
    xs + ys
}

/// A velocity component after an inelastic boundary reflection: the sign
/// flips and the magnitude is scaled by `bounce` thousandths, rounding
/// toward zero.
pub open spec fn reflect_spec(v: int, bounce: int) -> int {
    if v >= 0 {
        -((v * bounce) / 1000)
    } else {
        ((-v) * bounce) / 1000
    }
}

/// Largest velocity magnitude `reflect` accepts.
pub const MAX_REFLECT: i64 = 8_000_000_000_000_000;

/// Reflects a velocity component at a boundary, scaling it by the bounce
/// factor.
pub fn reflect(v: i64, bounce: u32) -> (r: i64)
    requires
        -MAX_REFLECT <= v <= MAX_REFLECT,
        bounce <= BOUNCE_ONE,
    ensures
        r == reflect_spec(v as int, bounce as int),
{
    if v >= 0 {
        let vu: u64 = v as u64;
        let bu: u64 = bounce as u64;
        proof {
            assert(vu * bu <= 8_000_000_000_000_000_000) by (nonlinear_arith)
                requires
                    vu <= MAX_REFLECT,
                    bu <= 1000,
            ;
        }
        let m: u64 = vu * bu / 1000;
        proof {
            assert(v * bounce <= v * 1000) by (nonlinear_arith)
                requires
                    v >= 0,
                    bounce <= 1000,
            ;
            assert(0 <= v * bounce) by (nonlinear_arith)
                requires
                    v >= 0,
                    bounce >= 0,
            ;
            assert((v * bounce) / 1000 <= (v * 1000) / 1000) by {
                vstd::arithmetic::div_mod::lemma_div_is_ordered(v * bounce, v * 1000, 1000);
            }
            assert((v * 1000) / 1000 == v) by {
                vstd::arithmetic::div_mod::lemma_div_by_multiple(v as int, 1000);
            }
        }
        -(m as i64)
    } else {
        let mag: i64 = -v;
        let mu: u64 = mag as u64;
        let bu: u64 = bounce as u64;
        proof {
            assert(mu * bu <= 8_000_000_000_000_000_000) by (nonlinear_arith)
                requires
                    mu <= MAX_REFLECT,
                    bu <= 1000,
            ;
        }
        let m: u64 = mu * bu / 1000;
        proof {
            assert(mag * bounce <= mag * 1000) by (nonlinear_arith)
                requires
                    mag >= 0,
                    bounce <= 1000,
            ;
            assert(0 <= mag * bounce) by (nonlinear_arith)
                requires
                    mag >= 0,
                    bounce >= 0,
            ;
            assert((mag * bounce) / 1000 <= (mag * 1000) / 1000) by {
                vstd::arithmetic::div_mod::lemma_div_is_ordered(mag * bounce, mag * 1000, 1000);
            }
            assert((mag * 1000) / 1000 == mag) by {
                vstd::arithmetic::div_mod::lemma_div_by_multiple(mag as int, 1000);
            }
        }
        m as i64
    }
}

/// A velocity component after the quadrant acceleration has acted for
/// `dt` milliseconds.
pub open spec fn vel_after(vel: int, acc: int, dt: int) -> int {
    vel + acc * dt
}

/// A position component after the updated velocity has acted for `dt`
/// milliseconds, before boundary handling.
pub open spec fn raw_pos(pos: int, vel: int, acc: int, dt: int) -> int {
    pos + vel_after(vel, acc, dt) * dt
}

/// The position component the step produces on one axis: the integrated
/// position, clamped to `[0, limit]`.
pub open spec fn axis_pos(pos: int, vel: int, acc: int, dt: int, limit: int) -> int {
    let p1: int = raw_pos(pos, vel, acc, dt);
    if p1 < 0 {
        0
    } else if p1 > limit {
        limit
    } else {
        p1
    }
}

/// The velocity component the step produces on one axis: the integrated
/// velocity, reflected if the integrated position left `[0, limit]`.
pub open spec fn axis_vel(pos: int, vel: int, acc: int, dt: int, limit: int, bounce: int) -> int {
    let p1: int = raw_pos(pos, vel, acc, dt);
    let v1: int = vel_after(vel, acc, dt);
    if p1 < 0 || p1 > limit {
        reflect_spec(v1, bounce)
    } else {
        v1
    }
}

/// The acceleration field acting on a particle: the one of the viewport
/// quadrant its position lies in before the step.
pub open spec fn chosen_accel(p: Particle, params: SimParams) -> Vec2 {
    params.accel_of(quadrant_spec(p.pos_x as int, p.pos_y as int, params.width as int,
        params.height as int))
}

/// The full step relation: `r` is `p` advanced by one frame under
/// `params`. The quadrant is chosen from the particle's position before
/// the step; color and scale never change.
pub open spec fn stepped(p: Particle, params: SimParams, r: Particle) -> bool {
    let a: Vec2 = chosen_accel(p, params);
    let dt: int = params.delta_ms as int;
    let bounce: int = params.bounce_milli as int;
    &&& r.pos_x == axis_pos(p.pos_x as int, p.vel_x as int, a.x as int, dt, params.width as int)
    &&& r.vel_x == axis_vel(p.pos_x as int, p.vel_x as int, a.x as int, dt, params.width as int,
        bounce)
    &&& r.pos_y == axis_pos(p.pos_y as int, p.vel_y as int, a.y as int, dt, params.height as int)
    &&& r.vel_y == axis_vel(p.pos_y as int, p.vel_y as int, a.y as int, dt, params.height as int,
        bounce)
    &&& r.color_r == p.color_r
    &&& r.color_g == p.color_g
    &&& r.color_b == p.color_b
    &&& r.scale == p.scale
}

/// Boundary reflection on one axis: whenever the integrated position
/// leaves `[0, limit]`, the step clamps it to exactly the boundary it
/// left through and reflects the integrated velocity, scaled by the
/// bounce factor.
pub proof fn lemma_axis_boundary_reflection(
    pos: int,
    vel: int,
    acc: int,
    dt: int,
    limit: int,
    bounce: int,
)
    requires
        0 <= limit,
        raw_pos(pos, vel, acc, dt) < 0 || raw_pos(pos, vel, acc, dt) > limit,
    ensures
        raw_pos(pos, vel, acc, dt) > limit ==> axis_pos(pos, vel, acc, dt, limit) == limit,
        raw_pos(pos, vel, acc, dt) < 0 ==> axis_pos(pos, vel, acc, dt, limit) == 0,
        axis_vel(pos, vel, acc, dt, limit, bounce) == reflect_spec(vel_after(vel, acc, dt),
            bounce),
{
}

/// Boundary reflection of a stepped particle whose integrated position
/// would exceed the viewport width: the new position is clamped to
/// exactly the width, and the new velocity component on that axis is the
/// integrated one with its sign flipped and its magnitude scaled by the
/// bounce factor.
pub proof fn lemma_boundary_reflection_x(p: Particle, params: SimParams, r: Particle)
    requires
        params.wf(),
        stepped(p, params, r),
        raw_pos(p.pos_x as int, p.vel_x as int, chosen_accel(p, params).x as int,
            params.delta_ms as int) > params.width,
    ensures
        r.pos_x == params.width,
        r.vel_x == reflect_spec(vel_after(p.vel_x as int, chosen_accel(p, params).x as int,
            params.delta_ms as int), params.bounce_milli as int),
{
}

/// Boundary reflection of a stepped particle whose integrated position
/// would exceed the viewport height, as on the other axis.
pub proof fn lemma_boundary_reflection_y(p: Particle, params: SimParams, r: Particle)
    requires
        params.wf(),
        stepped(p, params, r),
        raw_pos(p.pos_y as int, p.vel_y as int, chosen_accel(p, params).y as int,
            params.delta_ms as int) > params.height,
    ensures
        r.pos_y == params.height,
        r.vel_y == reflect_spec(vel_after(p.vel_y as int, chosen_accel(p, params).y as int,
            params.delta_ms as int), params.bounce_milli as int),
{
}

/// Advancing by zero simulated time changes nothing: a particle inside
/// the viewport keeps its exact position and velocity (the quadrant and
/// boundary logic still runs, it just has no effect). A particle still in
/// the oversized spawn domain but outside the viewport is not covered:
/// the boundary clamp moves it even at a zero delta.
pub proof fn lemma_zero_delta(p: Particle, params: SimParams, r: Particle)
    requires
        stepped(p, params, r),
        params.delta_ms == 0,
        0 <= p.pos_x <= params.width,
        0 <= p.pos_y <= params.height,
    ensures
        r == p,
{
    assert(r.pos_x == p.pos_x);
    assert(r.vel_x == p.vel_x);
    assert(r.pos_y == p.pos_y);
    assert(r.vel_y == p.vel_y);
}

/// Advances one axis: integrates the velocity and the position and applies
/// the boundary handling.
fn axis_advance(pos: i64, vel: i64, acc: i64, dt: u64, limit: i64, bounce: u32) -> (r: (i64, i64))
    requires
        0 <= pos <= 2 * MAX_DIMENSION,
        -MAX_SPEED <= vel <= MAX_SPEED,
        -MAX_ACCEL <= acc <= MAX_ACCEL,
        dt <= MAX_DELTA_MS,
        0 < limit <= MAX_DIMENSION,
        bounce <= BOUNCE_ONE,
    ensures
        r.0 == axis_pos(pos as int, vel as int, acc as int, dt as int, limit as int),
        r.1 == axis_vel(pos as int, vel as int, acc as int, dt as int, limit as int, bounce as int),
        0 <= r.0 <= limit,
{
    let dti: i64 = dt as i64;
    proof {
        assert(-1_000_000_000_000 <= acc * dti <= 1_000_000_000_000) by (nonlinear_arith)
            requires
                -MAX_ACCEL <= acc <= MAX_ACCEL,
                0 <= dti <= MAX_DELTA_MS,
        ;
    }
    let v1: i64 = vel + acc * dti;
    proof {
        assert(-2_100_000_000_000_000_000 <= v1 * dti <= 2_100_000_000_000_000_000)
            by (nonlinear_arith)
            requires
                -2_000_000_000_000 <= v1 <= 2_000_000_000_000,
                0 <= dti <= MAX_DELTA_MS,
        ;
    }
    let p1: i64 = pos + v1 * dti;
    if p1 < 0 {
        (0, reflect(v1, bounce))
    } else if p1 > limit {
        (limit, reflect(v1, bounce))
    } else {
        (p1, v1)
    }
}

/// Advances one particle by one frame. The result is pinned exactly by
/// `stepped`; in particular the new position lies within the viewport.
pub fn step_particle(p: &Particle, params: &SimParams) -> (r: Particle)
    requires
        params.wf(),
        p.in_domain(params.width as int, params.height as int),
        p.speed_bounded(),
        params.delta_ms <= MAX_DELTA_MS,
    ensures
        stepped(*p, *params, r),
        0 <= r.pos_x <= params.width,
        0 <= r.pos_y <= params.height,
{
    let q: u32 = quadrant(p.pos_x, p.pos_y, params.width, params.height);
    let a: Vec2 = if q == 0 {
        params.accel_left_lower
    } else if q == 1 {
        params.accel_left_upper
    } else if q == 2 {
        params.accel_right_lower
    } else {
        params.accel_right_upper
    };
    let x = axis_advance(p.pos_x, p.vel_x, a.x, params.delta_ms, params.width,
        params.bounce_milli);
    let y = axis_advance(p.pos_y, p.vel_y, a.y, params.delta_ms, params.height,
        params.bounce_milli);
    Particle {
        pos_x: x.0,
        pos_y: y.0,
        vel_x: x.1,
        vel_y: y.1,
        color_r: p.color_r,
        color_g: p.color_g,
        color_b: p.color_b,
        scale: p.scale,
    }
}

} // verus!
