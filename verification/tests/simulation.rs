use particle_sim::compute::step_particle;
use particle_sim::params::{SimParams, Vec2};
use particle_sim::particle::Particle;
use particle_sim::system::ParticleSystem;
use particle_sim::units::{ACC_UNIT, SCALE, VEL_UNIT};
use rand::SeedableRng;

fn seeded() -> rand::rngs::StdRng {
    rand::rngs::StdRng::seed_from_u64(42)
}

fn quiet_params(width_px: i64, height_px: i64) -> SimParams {
    SimParams {
        width: width_px * SCALE,
        height: height_px * SCALE,
        delta_ms: 0,
        bounce_milli: 500,
        accel_left_lower: Vec2 { x: 0, y: 0 },
        accel_left_upper: Vec2 { x: 0, y: 0 },
        accel_right_lower: Vec2 { x: 0, y: 0 },
        accel_right_upper: Vec2 { x: 0, y: 0 },
    }
}

#[test]
fn spawn_has_exact_count_and_ranges() {
    let mut rng = seeded();
    let sys = ParticleSystem::new(256, 800, 600, &mut rng);
    assert_eq!(sys.count, 256);
    assert_eq!(sys.particles.len(), 256);
    for p in &sys.particles {
        assert!(0 <= p.pos_x && p.pos_x < 2 * 800 * SCALE);
        assert!(0 <= p.pos_y && p.pos_y < 2 * 600 * SCALE);
        assert!(-400 * VEL_UNIT <= p.vel_x && p.vel_x <= 400 * VEL_UNIT);
        assert!(-400 * VEL_UNIT <= p.vel_y && p.vel_y <= 400 * VEL_UNIT);
        assert!(0 <= p.color_r && p.color_r <= SCALE);
        assert!(0 <= p.color_g && p.color_g <= SCALE);
        assert!(0 <= p.color_b && p.color_b <= SCALE);
        assert!(SCALE <= p.scale && p.scale <= 2 * SCALE);
    }
}

#[test]
fn spawn_is_not_constant() {
    // The sampler must actually vary the fields: with 256 particles a
    // constant generator would leave every position equal.
    let mut rng = seeded();
    let sys = ParticleSystem::new(256, 800, 600, &mut rng);
    let first = sys.particles[0];
    assert!(sys.particles.iter().any(|p| p.pos_x != first.pos_x));
    assert!(sys.particles.iter().any(|p| p.vel_y != first.vel_y));
    assert!(sys.particles.iter().any(|p| p.color_g != first.color_g));
}

#[test]
fn spawn_zero_particles() {
    let mut rng = seeded();
    let sys = ParticleSystem::new(0, 800, 600, &mut rng);
    assert_eq!(sys.count, 0);
    assert_eq!(sys.particles.len(), 0);
    assert_eq!(sys.instance_count(), 0);
    assert_eq!(sys.records().len(), 0);
}

#[test]
fn uniform_acceleration_scenario() {
    // Four particles inside a 1000x1000 viewport, dt = 0.1 s, a single
    // acceleration field of (100, 0) pixels per second squared on every
    // quadrant: each velocity gains exactly 10 pixels per second on x,
    // and each position moves by the updated velocity times 0.1 s.
    let mut params = quiet_params(1000, 1000);
    params.delta_ms = 100;
    let field = Vec2 { x: 100 * ACC_UNIT, y: 0 };
    params.accel_left_lower = field;
    params.accel_left_upper = field;
    params.accel_right_lower = field;
    params.accel_right_upper = field;

    let spots: [(i64, i64, i64, i64); 4] = [
        (100, 100, 50, -20),
        (200, 300, -30, 40),
        (700, 800, 0, 0),
        (900, 50, -100, 15),
    ];
    let particles: Vec<Particle> = spots
        .iter()
        .map(|&(px, py, vx, vy)| Particle {
            pos_x: px * SCALE,
            pos_y: py * SCALE,
            vel_x: vx * VEL_UNIT,
            vel_y: vy * VEL_UNIT,
            color_r: SCALE / 2,
            color_g: SCALE / 2,
            color_b: SCALE / 2,
            scale: SCALE,
        })
        .collect();
    let mut sys = ParticleSystem { particles: particles.clone(), count: 4 };
    assert!(sys.can_advance(&params));
    sys.advance(&params);
    for (old, new) in particles.iter().zip(sys.particles.iter()) {
        assert_eq!(new.vel_x - old.vel_x, 10 * VEL_UNIT);
        assert_eq!(new.vel_y, old.vel_y);
        assert_eq!(new.pos_x - old.pos_x, new.vel_x * 100);
        assert_eq!(new.pos_y - old.pos_y, new.vel_y * 100);
        assert_eq!(new.color_r, old.color_r);
        assert_eq!(new.scale, old.scale);
    }
}

#[test]
fn boundary_reflection_clamps_and_scales() {
    // No acceleration, dt = 0.1 s, bounce factor 0.5. A particle 1 px from
    // the right edge moving at 50 px/s crosses it: the position is clamped
    // to exactly the edge and the velocity becomes -25 px/s.
    let mut params = quiet_params(1000, 1000);
    params.delta_ms = 100;
    let p = Particle {
        pos_x: 999 * SCALE,
        pos_y: 500 * SCALE,
        vel_x: 50 * VEL_UNIT,
        vel_y: 0,
        color_r: 0,
        color_g: 0,
        color_b: 0,
        scale: SCALE,
    };
    let r = step_particle(&p, &params);
    assert_eq!(r.pos_x, 1000 * SCALE);
    assert_eq!(r.vel_x, -25 * VEL_UNIT);
    assert_eq!(r.pos_y, 500 * SCALE);
    assert_eq!(r.vel_y, 0);

    // The lower edge on y, reached at -50 px/s from 1 px above it: the
    // position is clamped to exactly 0 and the velocity flips to +25 px/s.
    let q = Particle { pos_x: 500 * SCALE, pos_y: SCALE, vel_x: 0, vel_y: -50 * VEL_UNIT, ..p };
    let r = step_particle(&q, &params);
    assert_eq!(r.pos_y, 0);
    assert_eq!(r.vel_y, 25 * VEL_UNIT);
    assert_eq!(r.pos_x, 500 * SCALE);
}

#[test]
fn zero_delta_changes_nothing() {
    // dt = 0: the whole quadrant and boundary logic runs, but every
    // in-viewport particle keeps its exact state.
    let mut params = quiet_params(1000, 1000);
    params.delta_ms = 0;
    params.accel_right_upper = Vec2 { x: 200 * ACC_UNIT, y: -100 * ACC_UNIT };
    let particles: Vec<Particle> = (0..4)
        .map(|i| Particle {
            pos_x: (i as i64 * 250) * SCALE,
            pos_y: (1000 - i as i64 * 200) * SCALE,
            vel_x: (37 + i as i64) * VEL_UNIT,
            vel_y: (-90 + i as i64) * VEL_UNIT,
            color_r: SCALE,
            color_g: 0,
            color_b: SCALE / 4,
            scale: 2 * SCALE,
        })
        .collect();
    let mut sys = ParticleSystem { particles: particles.clone(), count: 4 };
    sys.advance(&params);
    assert_eq!(sys.particles, particles);
}

#[test]
fn records_follow_the_fixed_layout() {
    let p = Particle {
        pos_x: 1,
        pos_y: 2,
        vel_x: 3,
        vel_y: 4,
        color_r: 5,
        color_g: 6,
        color_b: 7,
        scale: 8,
    };
    assert_eq!(p.record(), vec![1, 2, 3, 4, 5, 6, 7, 8]);
    let q = Particle { pos_x: 9, ..p };
    let sys = ParticleSystem { particles: vec![p, q], count: 2 };
    assert_eq!(sys.records(), vec![1, 2, 3, 4, 5, 6, 7, 8, 9, 2, 3, 4, 5, 6, 7, 8]);
}

#[test]
fn params_record_follows_the_fixed_layout() {
    let mut params = quiet_params(800, 600);
    params.delta_ms = 16;
    params.accel_left_lower = Vec2 { x: 11, y: 12 };
    params.accel_left_upper = Vec2 { x: 13, y: 14 };
    params.accel_right_lower = Vec2 { x: 15, y: 16 };
    params.accel_right_upper = Vec2 { x: 17, y: 18 };
    assert_eq!(
        params.record(),
        vec![800 * SCALE, 600 * SCALE, 16, 500, 11, 12, 13, 14, 15, 16, 17, 18]
    );
}

#[test]
fn quadrants_pick_their_own_field() {
    // Distinct fields per quadrant, zero velocity: after one step each
    // particle has picked up exactly its quadrant's acceleration.
    let mut params = quiet_params(1000, 1000);
    params.delta_ms = 100;
    params.accel_left_lower = Vec2 { x: 10 * ACC_UNIT, y: 0 };
    params.accel_left_upper = Vec2 { x: 20 * ACC_UNIT, y: 0 };
    params.accel_right_lower = Vec2 { x: 30 * ACC_UNIT, y: 0 };
    params.accel_right_upper = Vec2 { x: 40 * ACC_UNIT, y: 0 };
    let base = Particle {
        pos_x: 0,
        pos_y: 0,
        vel_x: 0,
        vel_y: 0,
        color_r: 0,
        color_g: 0,
        color_b: 0,
        scale: SCALE,
    };
    let at = |px: i64, py: i64| Particle { pos_x: px * SCALE, pos_y: py * SCALE, ..base };
    let gained = |px: i64, py: i64| step_particle(&at(px, py), &params).vel_x / VEL_UNIT;
    assert_eq!(gained(100, 100), 1); // left-lower: 10 px/s^2 over 0.1 s
    assert_eq!(gained(100, 900), 2); // left-upper
    assert_eq!(gained(900, 100), 3); // right-lower
    assert_eq!(gained(900, 900), 4); // right-upper
    // The center belongs to the right-upper quadrant on both axes.
    assert_eq!(gained(500, 500), 4);
}

#[test]
fn advance_refused_outside_the_bounds() {
    let mut params = quiet_params(1000, 1000);
    params.delta_ms = 100;
    let inside = Particle {
        pos_x: 500 * SCALE,
        pos_y: 500 * SCALE,
        vel_x: 0,
        vel_y: 0,
        color_r: 0,
        color_g: 0,
        color_b: 0,
        scale: SCALE,
    };
    let sys = ParticleSystem { particles: vec![inside], count: 1 };
    assert!(sys.can_advance(&params));

    let escaped = Particle { pos_x: 2001 * SCALE, ..inside };
    let sys = ParticleSystem { particles: vec![escaped], count: 1 };
    assert!(!sys.can_advance(&params));

    let mut stalled = quiet_params(1000, 1000);
    stalled.delta_ms = 2_000_000;
    let sys = ParticleSystem { particles: vec![inside], count: 1 };
    assert!(!sys.can_advance(&stalled));
}
