//! The frame driver: per-frame timing, the periodic force refresh, the
//! ordered command sequence of one frame, and the presentation-error
//! policy.

use vstd::prelude::*;
use crate::params::SimParams;

verus! {

/// Milliseconds of simulated time between two acceleration refreshes.
pub const REFRESH_INTERVAL_MS: u64 = 1500;

/// Particles advanced by one compute work group.
pub const PARTICLES_PER_GROUP: u32 = 64;

/// The number of work groups that cover `count` particles: the count
/// divided by the group size, rounded up. Surplus lanes of the last group
/// are guarded inside the compute stage.
pub fn work_group_count(count: u32) -> (r: u32)
    ensures
        r == (count + PARTICLES_PER_GROUP - 1) / (PARTICLES_PER_GROUP as int),
        r * PARTICLES_PER_GROUP >= count,
        count == 0 ==> r == 0,
        count > 0 ==> (r - 1) * PARTICLES_PER_GROUP < count,
{
    let r: u32 = (((count as u64) + 63) / 64) as u32;
    proof {
        assert(r * PARTICLES_PER_GROUP >= count);
        assert(count > 0 ==> (r - 1) * PARTICLES_PER_GROUP < count);
    }
    r
}

/// The wall-clock bookkeeping of the frame loop: when the previous frame
/// began and when the accelerations were last refreshed, both in
/// milliseconds since session start.
pub struct FrameClock {
    pub last_frame_ms: u64,
    pub last_refresh_ms: u64,
}

impl FrameClock {
    /// The clock at session start.
    pub fn new() -> (r: FrameClock)
        ensures
            r.last_frame_ms == 0,
            r.last_refresh_ms == 0,
    {
        FrameClock { last_frame_ms: 0, last_refresh_ms: 0 }
    }

    /// Opens a frame at wall time `now_ms`: the delta time written to the
    /// parameters is exactly the time since the previous frame, uncapped;
    /// the accelerations are re-sampled if and only if at least
    /// `REFRESH_INTERVAL_MS` have elapsed since the last refresh, and only
    /// then does the refresh timer reset. Nothing else in the parameters
    /// changes outside a refresh.
    pub fn begin_frame(
        &mut self,
        params: &mut SimParams,
        rng: &mut rand::rngs::StdRng,
        now_ms: u64,
    )
        requires
            now_ms >= old(self).last_frame_ms,
            now_ms >= old(self).last_refresh_ms,
        ensures
            final(self).last_frame_ms == now_ms,
            final(params).delta_ms == now_ms - old(self).last_frame_ms,
            final(params).width == old(params).width,
            final(params).height == old(params).height,
            final(params).bounce_milli == old(params).bounce_milli,
            now_ms - old(self).last_refresh_ms < REFRESH_INTERVAL_MS ==> {
                &&& final(self).last_refresh_ms == old(self).last_refresh_ms
                &&& final(params).accel_left_lower == old(params).accel_left_lower
                &&& final(params).accel_left_upper == old(params).accel_left_upper
                &&& final(params).accel_right_lower == old(params).accel_right_lower
                &&& final(params).accel_right_upper == old(params).accel_right_upper
            },
            now_ms - old(self).last_refresh_ms >= REFRESH_INTERVAL_MS ==> {
                &&& final(self).last_refresh_ms == now_ms
                &&& crate::params::accel_sampled(final(params).accel_left_lower)
                &&& crate::params::accel_sampled(final(params).accel_left_upper)
                &&& crate::params::accel_sampled(final(params).accel_right_lower)
                &&& crate::params::accel_sampled(final(params).accel_right_upper)
            },
    {
        if now_ms - self.last_refresh_ms >= REFRESH_INTERVAL_MS {
            params.refresh_accelerations(rng);
            self.last_refresh_ms = now_ms;
        }
        params.set_delta_ms(now_ms - self.last_frame_ms);
        self.last_frame_ms = now_ms;
    }
}

/// The phases one frame passes through, in order.
#[derive(Clone, Copy, Debug, PartialEq, Eq, Structural)]
pub enum FramePhase {
    Idle,
    ComputeIssued,
    RenderIssued,
    Presented,
}

/// The successor of each frame phase: compute is issued first, the render
/// that consumes its output second, then the frame is presented and the
/// driver is idle again.
pub open spec fn next_phase_spec(ph: FramePhase) -> FramePhase {
    match ph {
        FramePhase::Idle => FramePhase::ComputeIssued,
        FramePhase::ComputeIssued => FramePhase::RenderIssued,
        FramePhase::RenderIssued => FramePhase::Presented,
        FramePhase::Presented => FramePhase::Idle,
    }
}

/// Steps the frame state machine by one phase.
pub fn next_phase(ph: FramePhase) -> (r: FramePhase)
    ensures
        r == next_phase_spec(ph),
{
    match ph {
        FramePhase::Idle => FramePhase::ComputeIssued,
        FramePhase::ComputeIssued => FramePhase::RenderIssued,
        FramePhase::RenderIssued => FramePhase::Presented,
        FramePhase::Presented => FramePhase::Idle,
    }
}

/// One command of a frame submission.
#[derive(Clone, Copy, Debug, PartialEq, Eq, Structural)]
pub enum FrameOp {
    /// Upload the simulation parameters record.
    UploadParams,
    /// Upload the camera uniform record.
    UploadCamera,
    /// Dispatch the compute stage over the given number of work groups.
    Compute { work_groups: u32 },
    /// Draw the given number of quad instances (four vertices each) from
    /// the particle buffer the compute stage just wrote.
    Draw { instances: u32 },
}

/// The command sequence of one frame over `count` particles: the uniform
/// uploads, then the compute dispatch, then the draw that consumes its
/// output — strictly in this order, within one submission.
pub open spec fn frame_plan_spec(count: u32) -> Seq<FrameOp> {
    seq![
        FrameOp::UploadParams,
        FrameOp::UploadCamera,
        FrameOp::Compute { work_groups: ((count + PARTICLES_PER_GROUP - 1) / (
        PARTICLES_PER_GROUP as int)) as u32 },
        FrameOp::Draw { instances: count },
    ]
}

/// Builds the command sequence of one frame: the draw is issued after the
/// compute dispatch and draws exactly `count` instances — also when
/// `count` is zero.
pub fn frame_plan(count: u32) -> (r: Vec<FrameOp>)
    ensures
        r@ == frame_plan_spec(count),
{
    let mut r: Vec<FrameOp> = Vec::new();
    r.push(FrameOp::UploadParams);
    r.push(FrameOp::UploadCamera);
    r.push(FrameOp::Compute { work_groups: work_group_count(count) });
    r.push(FrameOp::Draw { instances: count });
    proof {
        assert(r@ =~= frame_plan_spec(count));
    }
    r
}

/// What presenting a frame reported back.
#[derive(Clone, Copy, Debug, PartialEq, Eq, Structural)]
pub enum PresentOutcome {
    /// The frame was presented.
    Presented,
    /// The swap chain was lost.
    Lost,
    /// The presentation surface ran out of memory.
    OutOfMemory,
    /// Any other presentation error.
    Other,
}

/// What the frame loop does next.
#[derive(Clone, Copy, Debug, PartialEq, Eq, Structural)]
pub enum FrameAction {
    /// Go on to the next frame.
    Continue,
    /// Reconfigure the surface at the last known size, then retry next
    /// frame.
    Reconfigure,
    /// Terminate the session.
    Exit,
    /// Skip this frame and go on.
    Skip,
}

/// The presentation-error policy: a lost swap chain is recoverable by a
/// reconfigure, out-of-memory is fatal, and any other error skips the
/// frame.
pub open spec fn present_policy(outcome: PresentOutcome) -> FrameAction {
    match outcome {
        PresentOutcome::Presented => FrameAction::Continue,
        PresentOutcome::Lost => FrameAction::Reconfigure,
        PresentOutcome::OutOfMemory => FrameAction::Exit,
        PresentOutcome::Other => FrameAction::Skip,
    }
}

/// Decides what the frame loop does after a presentation attempt.
pub fn handle_present(outcome: PresentOutcome) -> (r: FrameAction)
    ensures
        r == present_policy(outcome),
{
    match outcome {
        PresentOutcome::Presented => FrameAction::Continue,
        PresentOutcome::Lost => FrameAction::Reconfigure,
        PresentOutcome::OutOfMemory => FrameAction::Exit,
        PresentOutcome::Other => FrameAction::Skip,
    }
}

} // verus!
