//! Scenario tests of the session loop's decision core.

use stereo_pipeline::gpu::GpuCommand;
use stereo_pipeline::pose::TrackingMatrix;
use stereo_pipeline::render::ProjectionBounds;
use stereo_pipeline::session::{Eye, EyeParameters, Phase, SessionAction, SessionConfig,
    SessionCore, SessionEvent};

fn bits(v: f32) -> u32 {
    v.to_bits()
}

fn sample_config() -> SessionConfig {
    SessionConfig {
        render_width: 1512,
        render_height: 1680,
        resolution_x: bits(1512.0),
        resolution_y: bits(1680.0),
        left_eye: EyeParameters {
            projection: ProjectionBounds {
                left: bits(-1.39),
                right: bits(1.24),
                bottom: bits(-1.47),
                top: bits(1.46),
            },
            eye_offset: bits(-0.0316),
        },
        right_eye: EyeParameters {
            projection: ProjectionBounds {
                left: bits(-1.24),
                right: bits(1.39),
                bottom: bits(-1.46),
                top: bits(1.47),
            },
            eye_offset: bits(0.0316),
        },
        program: 42,
    }
}

fn sample_pose(tx: f32) -> TrackingMatrix {
    TrackingMatrix {
        m00: bits(1.0),
        m01: bits(0.0),
        m02: bits(0.0),
        m03: bits(tx),
        m10: bits(0.0),
        m11: bits(1.0),
        m12: bits(0.0),
        m13: bits(1.6),
        m20: bits(0.0),
        m21: bits(0.0),
        m22: bits(1.0),
        m23: bits(-0.2),
    }
}

/// What a driving shell observed while running the core to completion.
struct RunCounts {
    pose_waits: u64,
    renders: u64,
    submissions_attempted: u64,
    presents: u64,
}

/// Drive the core until it asks the shell to exit.  A quit event is
/// reported at poll number `quit_at_poll`; submissions fail whenever
/// `reject` says so, called with (frame presented so far, eye).
fn drive(
    core: &mut SessionCore,
    quit_at_poll: u64,
    pose_wait_fails_at: Option<u64>,
    reject: fn(u64, Eye) -> bool,
) -> RunCounts {
    let mut counts = RunCounts {
        pose_waits: 0,
        renders: 0,
        submissions_attempted: 0,
        presents: 0,
    };
    let mut polls: u64 = 0;
    let mut guard: u64 = 0;
    loop {
        guard += 1;
        assert!(guard < 1000, "the session loop does not terminate");
        match core.next_action() {
            SessionAction::PollWindowEvents => {
                polls += 1;
                core.apply_event(SessionEvent::WindowEventsDrained {
                    quit_requested: polls == quit_at_poll,
                });
            }
            SessionAction::WaitForPoses => {
                counts.pose_waits += 1;
                if pose_wait_fails_at == Some(counts.pose_waits) {
                    core.apply_event(SessionEvent::PoseWaitFailed);
                } else {
                    core.apply_event(SessionEvent::PosesReady);
                }
            }
            SessionAction::ReadHmdPose => {
                core.apply_event(SessionEvent::PoseRead { pose: sample_pose(0.5) });
            }
            SessionAction::DrainRuntimeEvents => {
                core.apply_event(SessionEvent::RuntimeEventsDrained);
            }
            SessionAction::RenderEye { .. } => {
                counts.renders += 1;
                core.apply_event(SessionEvent::RenderCompleted);
            }
            SessionAction::SubmitEye { eye } => {
                counts.submissions_attempted += 1;
                if reject(counts.presents, eye) {
                    core.apply_event(SessionEvent::SubmitRejected);
                } else {
                    core.apply_event(SessionEvent::SubmitAccepted);
                }
            }
            SessionAction::PresentWindow => {
                counts.presents += 1;
                core.apply_event(SessionEvent::PresentCompleted);
            }
            SessionAction::Exit => {
                return counts;
            }
        }
    }
}

fn never_reject(_frame: u64, _eye: Eye) -> bool {
    false
}

fn reject_right_of_second_frame(frames_done: u64, eye: Eye) -> bool {
    frames_done == 1 && eye == Eye::Right
}

#[test]
fn three_frames_then_quit_performs_three_waits_six_renders_six_submissions() {
    let (mut core, _) = SessionCore::initialize(sample_config());
    // Poses arrive immediately, every submission succeeds, and the
    // quit event is in the queue at the fourth poll.
    let counts = drive(&mut core, 4, None, never_reject);
    assert_eq!(counts.pose_waits, 3);
    assert_eq!(counts.renders, 6);
    assert_eq!(counts.submissions_attempted, 6);
    assert_eq!(counts.presents, 3);
    assert_eq!(core.pose_waits, 3);
    assert_eq!(core.renders, 6);
    assert_eq!(core.submissions, 6);
    assert_eq!(core.submit_failures, 0);
    assert_eq!(core.frames_presented, 3);
    assert_eq!(core.phase, Phase::Finished);
}

#[test]
fn rejected_right_submission_skips_that_eye_and_continues() {
    let (mut core, _) = SessionCore::initialize(sample_config());
    // The compositor rejects the Right eye of the second frame; the
    // session still submits the Left eye of that frame, records
    // exactly one failure, and goes on to the third frame.
    let counts = drive(&mut core, 4, None, reject_right_of_second_frame);
    assert_eq!(counts.pose_waits, 3);
    assert_eq!(counts.renders, 6);
    assert_eq!(counts.submissions_attempted, 6);
    assert_eq!(counts.presents, 3);
    assert_eq!(core.submissions, 5);
    assert_eq!(core.submit_failures, 1);
    assert_eq!(core.frames_presented, 3);
    assert_eq!(core.phase, Phase::Finished);
}

#[test]
fn failed_pose_wait_skips_the_frame_and_retries() {
    let (mut core, _) = SessionCore::initialize(sample_config());
    // The second pose wait fails: that frame is skipped (no render, no
    // submission) and the loop polls and waits again.
    let counts = drive(&mut core, 5, Some(2), never_reject);
    assert_eq!(counts.pose_waits, 4);
    assert_eq!(counts.renders, 6);
    assert_eq!(counts.submissions_attempted, 6);
    assert_eq!(counts.presents, 3);
    assert_eq!(core.pose_wait_failures, 1);
    assert_eq!(core.frames_presented, 3);
}

#[test]
fn quit_at_first_poll_exits_before_any_wait() {
    let (mut core, _) = SessionCore::initialize(sample_config());
    let counts = drive(&mut core, 1, None, never_reject);
    assert_eq!(counts.pose_waits, 0);
    assert_eq!(counts.renders, 0);
    assert_eq!(counts.submissions_attempted, 0);
    assert_eq!(core.phase, Phase::Finished);
    // A finished session ignores further events.
    core.apply_event(SessionEvent::PosesReady);
    assert_eq!(core.phase, Phase::Finished);
    assert!(matches!(core.next_action(), SessionAction::Exit));
}

#[test]
fn initialize_emits_both_target_setups_and_the_vertex_array() {
    let (core, cmds) = SessionCore::initialize(sample_config());
    assert_eq!(core.left_target.framebuffer, 1);
    assert_eq!(core.left_target.color_texture, 2);
    assert_eq!(core.right_target.framebuffer, 3);
    assert_eq!(core.right_target.color_texture, 4);
    assert_eq!(core.vertex_array, 5);
    assert_eq!(cmds.len(), 17);
    assert_eq!(cmds[0], GpuCommand::CreateFramebuffer { framebuffer: 1 });
    assert_eq!(cmds[8], GpuCommand::CreateFramebuffer { framebuffer: 3 });
    assert_eq!(cmds[16], GpuCommand::CreateVertexArray { vertex_array: 5 });
}

#[test]
fn uniforms_carry_the_eye_parameters_and_the_pose() {
    let (mut core, _) = SessionCore::initialize(sample_config());
    core.apply_event(SessionEvent::WindowEventsDrained { quit_requested: false });
    core.apply_event(SessionEvent::PosesReady);
    core.apply_event(SessionEvent::PoseRead { pose: sample_pose(0.5) });
    let left = core.frame_uniforms(Eye::Left, bits(2.5));
    let right = core.frame_uniforms(Eye::Right, bits(2.5));
    assert_eq!(left.resolution_x, bits(1512.0));
    assert_eq!(left.resolution_y, bits(1680.0));
    assert_eq!(left.camera.x, bits(0.0));
    assert_eq!(left.time, bits(2.5));
    assert_eq!(left.eye_offset, bits(-0.0316));
    assert_eq!(right.eye_offset, bits(0.0316));
    assert_eq!(left.projection.left, bits(-1.39));
    assert_eq!(right.projection.right, bits(1.39));
    assert_eq!(left.head_position.x, bits(0.5));
    assert_eq!(left.head_position.y, bits(1.6));
    assert_eq!(left.head_position.z, bits(-0.2));
    // The pose is the identity rotation, so the uniform rotation is
    // the identity matrix.
    assert_eq!(left.head_rotation.m00, bits(1.0));
    assert_eq!(left.head_rotation.m11, bits(1.0));
    assert_eq!(left.head_rotation.m22, bits(1.0));
    assert_eq!(left.head_rotation.m03, bits(0.0));
    assert_eq!(left.head_rotation, right.head_rotation);
}

#[test]
fn render_commands_bind_each_eye_to_its_own_target() {
    let (core, _) = SessionCore::initialize(sample_config());
    let left_cmds = core.eye_render_commands(Eye::Left, bits(1.0));
    let right_cmds = core.eye_render_commands(Eye::Right, bits(1.0));
    assert_eq!(left_cmds[0], GpuCommand::BindFramebuffer { framebuffer: 1 });
    assert_eq!(right_cmds[0], GpuCommand::BindFramebuffer { framebuffer: 3 });
    assert_eq!(left_cmds.len(), 13);
    assert_eq!(right_cmds.len(), 13);
}

#[test]
fn submission_packet_carries_texture_pose_and_full_bounds() {
    let (mut core, _) = SessionCore::initialize(sample_config());
    core.apply_event(SessionEvent::WindowEventsDrained { quit_requested: false });
    core.apply_event(SessionEvent::PosesReady);
    core.apply_event(SessionEvent::PoseRead { pose: sample_pose(-7.5) });
    let left = core.submission_packet(Eye::Left);
    let right = core.submission_packet(Eye::Right);
    assert_eq!(left.eye, Eye::Left);
    assert_eq!(left.color_texture, 2);
    assert_eq!(right.color_texture, 4);
    assert!(left.clip_bounds.is_none());
    assert_eq!(left.pose, sample_pose(-7.5));
    assert_eq!(right.pose, left.pose);
}
