//! The session loop's decision core.
//!
//! The loop itself — waiting on the compositor, draining window and
//! runtime events, executing render passes, submitting textures,
//! presenting — happens in an unverified shell.  The shell owns no
//! policy: each time around it asks this core for the next action,
//! performs it, and reports what happened.  The core is a state machine
//! whose transition function `next_state` fixes the frame protocol:
//!
//! poll window events -> wait for poses -> read the head pose -> drain
//! runtime events -> render Left -> render Right -> submit Left ->
//! submit Right -> present -> poll again.
//!
//! A quit request ends the session at the polling step; a failed pose
//! wait skips the frame and returns to polling; a rejected submission
//! is recorded and skips only that eye's submission, never the frame or
//! the session.

use vstd::prelude::*;
use crate::gpu::GpuCommand;
use crate::pose::{orthonormalized_rotation_spec, TrackingMatrix, Vec3};
use crate::render::{render_pass_commands, render_pass_spec, FrameUniforms, ProjectionBounds};
use crate::scalar::{ONE_BITS, ZERO_BITS};
use crate::target::{create_eye_render_target, create_vertex_array, target_setup_spec,
    EyeRenderTarget, GpuNameAllocator};

verus! {

/// The two eyes, rendered and submitted in this order.
#[derive(Clone, Copy, PartialEq, Eq, Structural, Debug)]
pub enum Eye {
    Left,
    Right,
}

/// What the session knows about one eye, queried once at start.
#[derive(Clone, Copy, PartialEq, Eq, Structural, Debug)]
pub struct EyeParameters {
    /// The eye's raw projection bounds.
    pub projection: ProjectionBounds,
    /// The eye's x-offset from the head center (the translation entry
    /// of the eye-to-head transform), as a binary32 bit pattern.
    pub eye_offset: u32,
}

/// Everything the session fixes at start: the per-eye target extent in
/// pixels, the same extent as binary32 bit patterns for the resolution
/// uniform, both eyes' parameters, and the shared shader program's
/// handle.
#[derive(Clone, Copy, PartialEq, Eq, Structural, Debug)]
pub struct SessionConfig {
    pub render_width: u32,
    pub render_height: u32,
    pub resolution_x: u32,
    pub resolution_y: u32,
    pub left_eye: EyeParameters,
    pub right_eye: EyeParameters,
    pub program: u32,
}

/// Where the session stands inside a frame.
#[derive(Clone, Copy, PartialEq, Eq, Structural, Debug)]
pub enum Phase {
    /// Draining window and input events.
    PollingWindowEvents,
    /// Blocked on the compositor until it has fresh poses.
    WaitingForPoses,
    /// Reading the head's tracking matrix for this frame.
    ReadingPose,
    /// Draining the runtime's tracking-system events.
    DrainingRuntimeEvents,
    /// Running one eye's render pass.
    RenderingEye { eye: Eye },
    /// Submitting one eye's texture to the compositor.
    SubmittingEye { eye: Eye },
    /// Swapping the on-screen window buffer.
    Presenting,
    /// The session is over; the shell exits.
    Finished,
}

/// What the shell reports back after performing an action.
#[derive(Clone, Copy, PartialEq, Eq, Structural, Debug)]
pub enum SessionEvent {
    /// The compositor delivered fresh poses.
    PosesReady,
    /// The compositor could not supply poses for this frame.
    PoseWaitFailed,
    /// The window event queue was drained; `quit_requested` says
    /// whether a quit event was among them.
    WindowEventsDrained { quit_requested: bool },
    /// The head's tracking matrix was read.
    PoseRead { pose: TrackingMatrix },
    /// The runtime's event queue was drained.
    RuntimeEventsDrained,
    /// The pending eye's render pass was executed.
    RenderCompleted,
    /// The compositor accepted the pending eye's submission.
    SubmitAccepted,
    /// The compositor rejected the pending eye's submission.
    SubmitRejected,
    /// The window buffer was swapped.
    PresentCompleted,
}

/// What the shell must do next.
#[derive(Clone, Copy, PartialEq, Eq, Structural, Debug)]
pub enum SessionAction {
    PollWindowEvents,
    WaitForPoses,
    ReadHmdPose,
    DrainRuntimeEvents,
    RenderEye { eye: Eye },
    SubmitEye { eye: Eye },
    PresentWindow,
    Exit,
}

/// One eye's submission to the compositor: the backing texture, an
/// optional clip rectangle (the pipeline always submits the full
/// texture), and the head-to-absolute-tracking transform that
/// overrides the compositor's own pose prediction.
#[derive(Clone, Copy, PartialEq, Eq, Structural, Debug)]
pub struct TextureClipBounds {
    pub u_min: u32,
    pub v_min: u32,
    pub u_max: u32,
    pub v_max: u32,
}

/// See `TextureClipBounds`.
#[derive(Clone, Copy, PartialEq, Eq, Structural, Debug)]
pub struct SubmissionPacket {
    pub eye: Eye,
    pub color_texture: u32,
    pub clip_bounds: Option<TextureClipBounds>,
    pub pose: TrackingMatrix,
}

/// The session core: the start-time configuration, the two render
/// targets, the vertex array, the frame pose snapshot, the current
/// phase, and the session's observable counters.
#[derive(Clone, Copy, PartialEq, Eq, Structural, Debug)]
pub struct SessionCore {
    pub config: SessionConfig,
    pub left_target: EyeRenderTarget,
    pub right_target: EyeRenderTarget,
    pub vertex_array: u32,
    pub phase: Phase,
    /// The tracking matrix captured in the current frame's reading
    /// step; both eyes render and submit against this one snapshot.
    pub pose: TrackingMatrix,
    pub pose_waits: u64,
    pub pose_wait_failures: u64,
    pub renders: u64,
    pub submissions: u64,
    pub submit_failures: u64,
    pub frames_presented: u64,
}

/// A counter bump that sticks at the top instead of wrapping.
pub open spec fn bumped(c: u64) -> u64 {
    if c < u64::MAX {
        (c + 1) as u64
    } else {
        c
    }
}

/// The pose every session starts from: the identity transform at the
/// origin.
pub open spec fn identity_pose() -> TrackingMatrix {
    TrackingMatrix {
        m00: ONE_BITS,
        m01: ZERO_BITS,
        m02: ZERO_BITS,
        m03: ZERO_BITS,
        m10: ZERO_BITS,
        m11: ONE_BITS,
        m12: ZERO_BITS,
        m13: ZERO_BITS,
        m20: ZERO_BITS,
        m21: ZERO_BITS,
        m22: ONE_BITS,
        m23: ZERO_BITS,
    }
}

/// The action each phase calls for.
pub open spec fn action_for(p: Phase) -> SessionAction {
    match p {
        Phase::PollingWindowEvents => SessionAction::PollWindowEvents,
        Phase::WaitingForPoses => SessionAction::WaitForPoses,
        Phase::ReadingPose => SessionAction::ReadHmdPose,
        Phase::DrainingRuntimeEvents => SessionAction::DrainRuntimeEvents,
        Phase::RenderingEye { eye } => SessionAction::RenderEye { eye },
        Phase::SubmittingEye { eye } => SessionAction::SubmitEye { eye },
        Phase::Presenting => SessionAction::PresentWindow,
        Phase::Finished => SessionAction::Exit,
    }
}

/// The transition function.  An event that does not answer the pending
/// phase's action is ignored.
pub open spec fn next_state(s: SessionCore, e: SessionEvent) -> SessionCore {
    match (s.phase, e) {
        (Phase::PollingWindowEvents, SessionEvent::WindowEventsDrained { quit_requested }) => {
            if quit_requested {
                SessionCore { phase: Phase::Finished, ..s }
            } else {
                SessionCore { phase: Phase::WaitingForPoses, ..s }
            }
        },
        (Phase::WaitingForPoses, SessionEvent::PosesReady) => SessionCore {
            phase: Phase::ReadingPose,
            pose_waits: bumped(s.pose_waits),
            ..s
        },
        (Phase::WaitingForPoses, SessionEvent::PoseWaitFailed) => SessionCore {
            phase: Phase::PollingWindowEvents,
            pose_waits: bumped(s.pose_waits),
            pose_wait_failures: bumped(s.pose_wait_failures),
            ..s
        },
        (Phase::ReadingPose, SessionEvent::PoseRead { pose }) => SessionCore {
            phase: Phase::DrainingRuntimeEvents,
            pose,
            ..s
        },
        (Phase::DrainingRuntimeEvents, SessionEvent::RuntimeEventsDrained) => SessionCore {
            phase: Phase::RenderingEye { eye: Eye::Left },
            ..s
        },
        (Phase::RenderingEye { eye: Eye::Left }, SessionEvent::RenderCompleted) => SessionCore {
            phase: Phase::RenderingEye { eye: Eye::Right },
            renders: bumped(s.renders),
            ..s
        },
        (Phase::RenderingEye { eye: Eye::Right }, SessionEvent::RenderCompleted) => SessionCore {
            phase: Phase::SubmittingEye { eye: Eye::Left },
            renders: bumped(s.renders),
            ..s
        },
        (Phase::SubmittingEye { eye: Eye::Left }, SessionEvent::SubmitAccepted) => SessionCore {
            phase: Phase::SubmittingEye { eye: Eye::Right },
            submissions: bumped(s.submissions),
            ..s
        },
        (Phase::SubmittingEye { eye: Eye::Left }, SessionEvent::SubmitRejected) => SessionCore {
            phase: Phase::SubmittingEye { eye: Eye::Right },
            submit_failures: bumped(s.submit_failures),
            ..s
        },
        (Phase::SubmittingEye { eye: Eye::Right }, SessionEvent::SubmitAccepted) => SessionCore {
            phase: Phase::Presenting,
            submissions: bumped(s.submissions),
            ..s
        },
        (Phase::SubmittingEye { eye: Eye::Right }, SessionEvent::SubmitRejected) => SessionCore {
            phase: Phase::Presenting,
            submit_failures: bumped(s.submit_failures),
            ..s
        },
        (Phase::Presenting, SessionEvent::PresentCompleted) => SessionCore {
            phase: Phase::PollingWindowEvents,
            frames_presented: bumped(s.frames_presented),
            ..s
        },
        _ => s,
    }
}

impl SessionConfig {
    /// A configuration is well formed when the per-eye extent is
    /// non-degenerate and both eyes' projection bounds describe
    /// frustums.
    pub open spec fn wf(self) -> bool {
        self.render_width >= 1 && self.render_height >= 1
            && self.left_eye.projection.valid_frustum()
            && self.right_eye.projection.valid_frustum()
    }
}

/// The eye parameters the configuration holds for an eye.
pub open spec fn eye_parameters_spec(c: SessionConfig, eye: Eye) -> EyeParameters {
    match eye {
        Eye::Left => c.left_eye,
        Eye::Right => c.right_eye,
    }
}

/// The render target the session holds for an eye.
pub open spec fn eye_target_spec(s: SessionCore, eye: Eye) -> EyeRenderTarget {
    match eye {
        Eye::Left => s.left_target,
        Eye::Right => s.right_target,
    }
}

/// The uniform record for one eye of the current frame: the shared
/// resolution, the camera fixed at the origin, the given elapsed time,
/// the eye's own offset and projection bounds, and the head position
/// and orthonormalized rotation derived from the frame's pose
/// snapshot.
pub open spec fn frame_uniforms_spec(s: SessionCore, eye: Eye, time: u32) -> FrameUniforms {
    FrameUniforms {
        resolution_x: s.config.resolution_x,
        resolution_y: s.config.resolution_y,
        camera: Vec3 { x: ZERO_BITS, y: ZERO_BITS, z: ZERO_BITS },
        time,
        eye_offset: eye_parameters_spec(s.config, eye).eye_offset,
        projection: eye_parameters_spec(s.config, eye).projection,
        head_position: Vec3 { x: s.pose.m03, y: s.pose.m13, z: s.pose.m23 },
        head_rotation: orthonormalized_rotation_spec(s.pose),
    }
}

impl SessionCore {
    /// Create the session core: allocate both eye targets and the
    /// vertex array, and emit the command stream that builds them.
    /// The session starts at the polling step of its first frame, with
    /// the identity pose and all counters at zero.
    pub fn initialize(config: SessionConfig) -> (r: (SessionCore, Vec<GpuCommand>))
        requires
            config.wf(),
        ensures
            r.0.config == config,
            r.0.left_target == (EyeRenderTarget {
                framebuffer: 1,
                color_texture: 2,
                width: config.render_width,
                height: config.render_height,
            }),
            r.0.right_target == (EyeRenderTarget {
                framebuffer: 3,
                color_texture: 4,
                width: config.render_width,
                height: config.render_height,
            }),
            r.0.vertex_array == 5,
            r.0.phase == Phase::PollingWindowEvents,
            r.0.pose == identity_pose(),
            r.0.pose_waits == 0,
            r.0.pose_wait_failures == 0,
            r.0.renders == 0,
            r.0.submissions == 0,
            r.0.submit_failures == 0,
            r.0.frames_presented == 0,
            r.1@ == target_setup_spec(1, 2, config.render_width, config.render_height)
                + target_setup_spec(3, 4, config.render_width, config.render_height)
                + seq![GpuCommand::CreateVertexArray { vertex_array: 5 }],
    {
        let mut alloc = GpuNameAllocator::new();
        let (left_target, mut left_cmds) = create_eye_render_target(
            &mut alloc,
            config.render_width,
            config.render_height,
        );
        let (right_target, mut right_cmds) = create_eye_render_target(
            &mut alloc,
            config.render_width,
            config.render_height,
        );
        let (vertex_array, mut vao_cmds) = create_vertex_array(&mut alloc);
        let mut cmds: Vec<GpuCommand> = Vec::new();
        cmds.append(&mut left_cmds);
        cmds.append(&mut right_cmds);
        cmds.append(&mut vao_cmds);
        let core = SessionCore {
            config,
            left_target,
            right_target,
            vertex_array,
            phase: Phase::PollingWindowEvents,
            pose: TrackingMatrix {
                m00: ONE_BITS,
                m01: ZERO_BITS,
                m02: ZERO_BITS,
                m03: ZERO_BITS,
                m10: ZERO_BITS,
                m11: ONE_BITS,
                m12: ZERO_BITS,
                m13: ZERO_BITS,
                m20: ZERO_BITS,
                m21: ZERO_BITS,
                m22: ONE_BITS,
                m23: ZERO_BITS,
            },
            pose_waits: 0,
            pose_wait_failures: 0,
            renders: 0,
            submissions: 0,
            submit_failures: 0,
            frames_presented: 0,
        };
        (core, cmds)
    }

    /// The action the shell must perform next.
    pub fn next_action(&self) -> (a: SessionAction)
        ensures
            a == action_for(self.phase),
    {
        match self.phase {
            Phase::PollingWindowEvents => SessionAction::PollWindowEvents,
            Phase::WaitingForPoses => SessionAction::WaitForPoses,
            Phase::ReadingPose => SessionAction::ReadHmdPose,
            Phase::DrainingRuntimeEvents => SessionAction::DrainRuntimeEvents,
            Phase::RenderingEye { eye } => SessionAction::RenderEye { eye },
            Phase::SubmittingEye { eye } => SessionAction::SubmitEye { eye },
            Phase::Presenting => SessionAction::PresentWindow,
            Phase::Finished => SessionAction::Exit,
        }
    }

    /// Advance the state machine by one reported event.
    pub fn apply_event(&mut self, e: SessionEvent)
        ensures
            *final(self) == next_state(*old(self), e),
    {
        match (self.phase, e) {
            (Phase::PollingWindowEvents, SessionEvent::WindowEventsDrained { quit_requested }) => {
                if quit_requested {
                    self.phase = Phase::Finished;
                } else {
                    self.phase = Phase::WaitingForPoses;
                }
            },
            (Phase::WaitingForPoses, SessionEvent::PosesReady) => {
                self.phase = Phase::ReadingPose;
                self.pose_waits = bump(self.pose_waits);
            },
            (Phase::WaitingForPoses, SessionEvent::PoseWaitFailed) => {
                self.phase = Phase::PollingWindowEvents;
                self.pose_waits = bump(self.pose_waits);
                self.pose_wait_failures = bump(self.pose_wait_failures);
            },
            (Phase::ReadingPose, SessionEvent::PoseRead { pose }) => {
                self.phase = Phase::DrainingRuntimeEvents;
                self.pose = pose;
            },
            (Phase::DrainingRuntimeEvents, SessionEvent::RuntimeEventsDrained) => {
                self.phase = Phase::RenderingEye { eye: Eye::Left };
            },
            (Phase::RenderingEye { eye: Eye::Left }, SessionEvent::RenderCompleted) => {
                self.phase = Phase::RenderingEye { eye: Eye::Right };
                self.renders = bump(self.renders);
            },
            (Phase::RenderingEye { eye: Eye::Right }, SessionEvent::RenderCompleted) => {
                self.phase = Phase::SubmittingEye { eye: Eye::Left };
                self.renders = bump(self.renders);
            },
            (Phase::SubmittingEye { eye: Eye::Left }, SessionEvent::SubmitAccepted) => {
                self.phase = Phase::SubmittingEye { eye: Eye::Right };
                self.submissions = bump(self.submissions);
            },
            (Phase::SubmittingEye { eye: Eye::Left }, SessionEvent::SubmitRejected) => {
                self.phase = Phase::SubmittingEye { eye: Eye::Right };
                self.submit_failures = bump(self.submit_failures);
            },
            (Phase::SubmittingEye { eye: Eye::Right }, SessionEvent::SubmitAccepted) => {
                self.phase = Phase::Presenting;
                self.submissions = bump(self.submissions);
            },
            (Phase::SubmittingEye { eye: Eye::Right }, SessionEvent::SubmitRejected) => {
                self.phase = Phase::Presenting;
                self.submit_failures = bump(self.submit_failures);
            },
            (Phase::Presenting, SessionEvent::PresentCompleted) => {
                self.phase = Phase::PollingWindowEvents;
                self.frames_presented = bump(self.frames_presented);
            },
            _ => {},
        }
    }

    /// The render target of one eye.
    pub fn eye_target(&self, eye: Eye) -> (t: &EyeRenderTarget)
        ensures
            *t == eye_target_spec(*self, eye),
    {
        match eye {
            Eye::Left => &self.left_target,
            Eye::Right => &self.right_target,
        }
    }

    /// Build one eye's uniform record for the current frame; `time` is
    /// the elapsed seconds since session start as a binary32 bit
    /// pattern.
    pub fn frame_uniforms(&self, eye: Eye, time: u32) -> (u: FrameUniforms)
        ensures
            u == frame_uniforms_spec(*self, eye, time),
    {
        let params = match eye {
            Eye::Left => self.config.left_eye,
            Eye::Right => self.config.right_eye,
        };
        FrameUniforms {
            resolution_x: self.config.resolution_x,
            resolution_y: self.config.resolution_y,
            camera: Vec3 { x: ZERO_BITS, y: ZERO_BITS, z: ZERO_BITS },
            time,
            eye_offset: params.eye_offset,
            projection: params.projection,
            head_position: self.pose.position(),
            head_rotation: self.pose.orthonormalized_rotation(),
        }
    }

    /// Emit one eye's render pass for the current frame.
    pub fn eye_render_commands(&self, eye: Eye, time: u32) -> (cmds: Vec<GpuCommand>)
        ensures
            cmds@ == render_pass_spec(
                eye_target_spec(*self, eye),
                self.config.program,
                self.vertex_array,
                frame_uniforms_spec(*self, eye, time),
            ),
    {
        let uniforms = self.frame_uniforms(eye, time);
        render_pass_commands(self.eye_target(eye), self.config.program, self.vertex_array, &uniforms)
    }

    /// Package one eye's submission: the eye's backing texture, the
    /// full texture extent (no clip rectangle), and the frame's pose
    /// snapshot as the compositor's pose override.
    pub fn submission_packet(&self, eye: Eye) -> (p: SubmissionPacket)
        ensures
            p.eye == eye,
            p.color_texture == eye_target_spec(*self, eye).color_texture,
            p.clip_bounds is None,
            p.pose == self.pose,
    {
        SubmissionPacket {
            eye,
            color_texture: self.eye_target(eye).color_texture,
            clip_bounds: None,
            pose: self.pose,
        }
    }
}

/// Saturating counter bump; see `bumped`.
fn bump(c: u64) -> (r: u64)
    ensures
        r == bumped(c),
{
    if c < u64::MAX {
        c + 1
    } else {
        c
    }
}

/// A rejected submission is never fatal: it records exactly one
/// failure, changes nothing else, and the session carries on — after a
/// rejected Left submission the Right eye is still submitted, and
/// after a rejected Right submission the frame is still presented.
pub proof fn lemma_submit_rejection_is_not_fatal(s: SessionCore, eye: Eye)
    requires
        s.phase == (Phase::SubmittingEye { eye }),
    ensures
        next_state(s, SessionEvent::SubmitRejected).phase != Phase::Finished,
        next_state(s, SessionEvent::SubmitRejected).phase == (if eye == Eye::Left {
            Phase::SubmittingEye { eye: Eye::Right }
        } else {
            Phase::Presenting
        }),
        next_state(s, SessionEvent::SubmitRejected).submit_failures == bumped(s.submit_failures),
        next_state(s, SessionEvent::SubmitRejected).submissions == s.submissions,
        next_state(s, SessionEvent::SubmitRejected).renders == s.renders,
        next_state(s, SessionEvent::SubmitRejected).frames_presented == s.frames_presented,
{
}

/// A failed pose wait skips the frame and returns to polling — no
/// render and no submission comes out of it — and is recorded.
pub proof fn lemma_pose_wait_failure_skips_frame(s: SessionCore)
    requires
        s.phase == Phase::WaitingForPoses,
    ensures
        next_state(s, SessionEvent::PoseWaitFailed).phase == Phase::PollingWindowEvents,
        next_state(s, SessionEvent::PoseWaitFailed).pose_wait_failures == bumped(
            s.pose_wait_failures,
        ),
        next_state(s, SessionEvent::PoseWaitFailed).renders == s.renders,
        next_state(s, SessionEvent::PoseWaitFailed).submissions == s.submissions,
{
}

/// The session ends only on a quit request: a state reaches `Finished`
/// in one step exactly from the polling phase on a drain report that
/// carries a quit, or because it was finished already.
pub proof fn lemma_only_quit_finishes(s: SessionCore, e: SessionEvent)
    ensures
        next_state(s, e).phase == Phase::Finished ==> (s.phase == Phase::Finished || (
        s.phase == Phase::PollingWindowEvents && e == (SessionEvent::WindowEventsDrained {
            quit_requested: true,
        }))),
{
}

/// A finished session stays finished: no event revives it.
pub proof fn lemma_finished_is_absorbing(s: SessionCore, e: SessionEvent)
    requires
        s.phase == Phase::Finished,
    ensures
        next_state(s, e) == s,
{
}

/// The frame protocol's order is built into the transitions: the
/// submission steps of a frame are reachable only through its render
/// steps, in eye order.  Entering Right-rendering takes a completed
/// Left render; entering Left-submission takes a completed Right
/// render; entering Right-submission takes a settled Left submission;
/// entering presentation takes a settled Right submission.
pub proof fn lemma_frame_protocol_order(s: SessionCore, e: SessionEvent)
    ensures
        (s.phase != (Phase::RenderingEye { eye: Eye::Right }) && next_state(s, e).phase == (
        Phase::RenderingEye { eye: Eye::Right })) ==> (s.phase == (Phase::RenderingEye {
            eye: Eye::Left,
        }) && e == SessionEvent::RenderCompleted),
        (s.phase != (Phase::SubmittingEye { eye: Eye::Left }) && next_state(s, e).phase == (
        Phase::SubmittingEye { eye: Eye::Left })) ==> (s.phase == (Phase::RenderingEye {
            eye: Eye::Right,
        }) && e == SessionEvent::RenderCompleted),
        (s.phase != (Phase::SubmittingEye { eye: Eye::Right }) && next_state(s, e).phase == (
        Phase::SubmittingEye { eye: Eye::Right })) ==> (s.phase == (Phase::SubmittingEye {
            eye: Eye::Left,
        }) && (e == SessionEvent::SubmitAccepted || e == SessionEvent::SubmitRejected)),
        (s.phase != Phase::Presenting && next_state(s, e).phase == Phase::Presenting) ==> (
        s.phase == (Phase::SubmittingEye { eye: Eye::Right }) && (e == SessionEvent::SubmitAccepted
            || e == SessionEvent::SubmitRejected)),
{
}

} // verus!
