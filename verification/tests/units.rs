use particle_sim::layout::{particle_buffer_bytes, CAMERA_BYTES, PARAMS_BYTES, PARTICLE_STRIDE_BYTES};
use particle_sim::params::PARAMS_RECORD_LEN;
use particle_sim::particle::PARTICLE_RECORD_LEN;
use particle_sim::units::{pixels, pixels_per_second, pixels_per_second_squared};

#[test]
fn unit_conversions_are_exact() {
    assert_eq!(pixels(1), 1_000_000_000);
    assert_eq!(pixels(-3), -3_000_000_000);
    assert_eq!(pixels_per_second(400), 400_000_000);
    assert_eq!(pixels_per_second_squared(240), 240_000);
}

#[test]
fn buffer_layouts_are_byte_exact() {
    assert_eq!(PARTICLE_RECORD_LEN, 8);
    assert_eq!(PARAMS_RECORD_LEN, 12);
    assert_eq!(PARTICLE_STRIDE_BYTES, 32);
    assert_eq!(PARAMS_BYTES, 48);
    assert_eq!(CAMERA_BYTES, 128);
    assert_eq!(particle_buffer_bytes(0), 0);
    assert_eq!(particle_buffer_bytes(100_000), 3_200_000);
    assert_eq!(particle_buffer_bytes(u32::MAX), 4_294_967_295 * 32);
}
