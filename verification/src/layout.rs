//! Byte-exact buffer layouts shared with the compute and render stages.
//!
//! Every buffer value is a four-byte float on the GPU side; the record
//! orders are fixed by `Particle::record_seq` and `SimParams::record_seq`.

use vstd::prelude::*;

verus! {

/// Bytes per buffer value.
pub const BYTES_PER_VALUE: u64 = 4;

/// Bytes per particle record: eight values (position, velocity, color,
/// scale).
pub const PARTICLE_STRIDE_BYTES: u64 = 32;

/// Byte offset of the velocity inside a particle record.
pub const PARTICLE_VELOCITY_OFFSET: u64 = 8;

/// Byte offset of the color inside a particle record.
pub const PARTICLE_COLOR_OFFSET: u64 = 16;

/// Byte offset of the scale inside a particle record.
pub const PARTICLE_SCALE_OFFSET: u64 = 28;

/// Bytes of the parameters record: twelve values (viewport size, delta
/// time, bounce factor, four acceleration vectors).
pub const PARAMS_BYTES: u64 = 48;

/// Byte offset of the delta time inside the parameters record.
pub const PARAMS_DELTA_OFFSET: u64 = 8;

/// Byte offset of the acceleration vectors inside the parameters record.
pub const PARAMS_ACCEL_OFFSET: u64 = 16;

/// Bytes of the camera uniform: two four-by-four matrices.
pub const CAMERA_BYTES: u64 = 128;

/// Byte offset of the view matrix inside the camera uniform (after the
/// projection matrix).
pub const CAMERA_VIEW_OFFSET: u64 = 64;

/// The size in bytes of a buffer holding `count` particle records.
pub fn particle_buffer_bytes(count: u32) -> (r: u64)
    ensures
        r == count * PARTICLE_STRIDE_BYTES,
{
    (count as u64) * PARTICLE_STRIDE_BYTES
}

} // verus!
