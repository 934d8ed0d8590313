//! The per-eye render pass.
//!
//! For one eye and one frame, the renderer binds that eye's render
//! target, sets the viewport to the target's full extent, clears the
//! color buffer, activates the shared program, uploads the frame's
//! uniforms to their fixed slots, and issues a single three-vertex draw
//! with an empty vertex array (the vertex stage synthesizes the
//! geometry).  The pass is emitted as one command sequence, pinned
//! exactly by `render_pass_spec`, and the isolation lemma shows that
//! executing it can touch no framebuffer but the target's own.

use vstd::prelude::*;
use crate::gpu::{apply_commands, binds_only_to, lemma_bound_pass_preserves_others, GpuCommand,
    GpuModel, UniformSlot, UniformValue};
use crate::pose::{Mat4, Vec3};
use crate::target::EyeRenderTarget;

verus! {

/// Raw projection bounds of one eye's frustum: left, right, bottom and
/// top as binary32 bit patterns of tangent-of-half-angle values.
#[derive(Clone, Copy, PartialEq, Eq, Structural, Debug)]
pub struct ProjectionBounds {
    pub left: u32,
    pub right: u32,
    pub bottom: u32,
    pub top: u32,
}

impl ProjectionBounds {
    /// The bounds describe a frustum: the left bound lies strictly
    /// below the right one and the bottom bound strictly below the top
    /// one.
    pub open spec fn valid_frustum(self) -> bool {
        crate::scalar::lt_bits(self.left, self.right) && crate::scalar::lt_bits(
            self.bottom,
            self.top,
        )
    }

    /// Executable frustum test, matching `valid_frustum`.
    pub fn is_valid_frustum(&self) -> (r: bool)
        ensures
            r == self.valid_frustum(),
    {
        crate::scalar::lt(self.left, self.right) && crate::scalar::lt(self.bottom, self.top)
    }
}

/// The transient per-frame, per-eye uniform record.  Every scalar is a
/// binary32 bit pattern.
#[derive(Clone, Copy, PartialEq, Eq, Structural, Debug)]
pub struct FrameUniforms {
    /// The render target's extent, as binary32 values of the pixel
    /// counts.
    pub resolution_x: u32,
    pub resolution_y: u32,
    /// The camera position; the pipeline keeps the camera at the
    /// origin.
    pub camera: Vec3,
    /// Seconds elapsed since session start.
    pub time: u32,
    /// The eye's x-offset from the head center.
    pub eye_offset: u32,
    /// The eye's raw projection bounds.
    pub projection: ProjectionBounds,
    /// The head's world position for this frame.
    pub head_position: Vec3,
    /// The head's orthonormalized rotation for this frame.
    pub head_rotation: Mat4,
}

/// The exact command stream of one eye's render pass.
pub open spec fn render_pass_spec(
    target: EyeRenderTarget,
    program: u32,
    vertex_array: u32,
    u: FrameUniforms,
) -> Seq<GpuCommand> {
    seq![
        GpuCommand::BindFramebuffer { framebuffer: target.framebuffer },
        GpuCommand::SetViewport { width: target.width, height: target.height },
        GpuCommand::ClearColorBuffer,
        GpuCommand::UseProgram { program },
        GpuCommand::SetUniform {
            slot: UniformSlot::Resolution,
            value: UniformValue::Vec2 { x: u.resolution_x, y: u.resolution_y },
        },
        GpuCommand::SetUniform {
            slot: UniformSlot::CameraPosition,
            value: UniformValue::Vec3 { x: u.camera.x, y: u.camera.y, z: u.camera.z },
        },
        GpuCommand::SetUniform {
            slot: UniformSlot::Time,
            value: UniformValue::Scalar { v: u.time },
        },
        GpuCommand::SetUniform {
            slot: UniformSlot::EyeOffset,
            value: UniformValue::Scalar { v: u.eye_offset },
        },
        GpuCommand::SetUniform {
            slot: UniformSlot::ProjectionBounds,
            value: UniformValue::Vec4 {
                x: u.projection.left,
                y: u.projection.right,
                z: u.projection.bottom,
                w: u.projection.top,
            },
        },
        GpuCommand::SetUniform {
            slot: UniformSlot::HeadPosition,
            value: UniformValue::Vec3 {
                x: u.head_position.x,
                y: u.head_position.y,
                z: u.head_position.z,
            },
        },
        GpuCommand::SetUniform {
            slot: UniformSlot::HeadRotation,
            value: UniformValue::Matrix { m: u.head_rotation },
        },
        GpuCommand::BindVertexArray { vertex_array },
        GpuCommand::DrawArrays { vertices: 3 },
    ]
}

/// Emit one eye's render pass.
pub fn render_pass_commands(
    target: &EyeRenderTarget,
    program: u32,
    vertex_array: u32,
    u: &FrameUniforms,
) -> (cmds: Vec<GpuCommand>)
    ensures
        cmds@ == render_pass_spec(*target, program, vertex_array, *u),
{
    let mut cmds: Vec<GpuCommand> = Vec::new();
    cmds.push(GpuCommand::BindFramebuffer { framebuffer: target.framebuffer });
    cmds.push(GpuCommand::SetViewport { width: target.width, height: target.height });
    cmds.push(GpuCommand::ClearColorBuffer);
    cmds.push(GpuCommand::UseProgram { program });
    cmds.push(
        GpuCommand::SetUniform {
            slot: UniformSlot::Resolution,
            value: UniformValue::Vec2 { x: u.resolution_x, y: u.resolution_y },
        },
    );
    cmds.push(
        GpuCommand::SetUniform {
            slot: UniformSlot::CameraPosition,
            value: UniformValue::Vec3 { x: u.camera.x, y: u.camera.y, z: u.camera.z },
        },
    );
    cmds.push(
        GpuCommand::SetUniform {
            slot: UniformSlot::Time,
            value: UniformValue::Scalar { v: u.time },
        },
    );
    cmds.push(
        GpuCommand::SetUniform {
            slot: UniformSlot::EyeOffset,
            value: UniformValue::Scalar { v: u.eye_offset },
        },
    );
    cmds.push(
        GpuCommand::SetUniform {
            slot: UniformSlot::ProjectionBounds,
            value: UniformValue::Vec4 {
                x: u.projection.left,
                y: u.projection.right,
                z: u.projection.bottom,
                w: u.projection.top,
            },
        },
    );
    cmds.push(
        GpuCommand::SetUniform {
            slot: UniformSlot::HeadPosition,
            value: UniformValue::Vec3 {
                x: u.head_position.x,
                y: u.head_position.y,
                z: u.head_position.z,
            },
        },
    );
    cmds.push(
        GpuCommand::SetUniform {
            slot: UniformSlot::HeadRotation,
            value: UniformValue::Matrix { m: u.head_rotation },
        },
    );
    cmds.push(GpuCommand::BindVertexArray { vertex_array });
    cmds.push(GpuCommand::DrawArrays { vertices: 3 });
    proof {
        assert(cmds@ =~= render_pass_spec(*target, program, vertex_array, *u));
    }
    cmds
}

/// A render pass is isolated to its own target: executed from any
/// context state, it leaves every other framebuffer's raster record —
/// and so every other target's pixels — exactly as it was, and it only
/// appends to its own target's record.  Clearing one eye's target can
/// therefore never mutate the other eye's.
pub proof fn lemma_render_pass_touches_only_its_target(
    s: GpuModel,
    target: EyeRenderTarget,
    program: u32,
    vertex_array: u32,
    u: FrameUniforms,
)
    ensures
        forall|k: u32|
            k != target.framebuffer ==> apply_commands(
                s,
                render_pass_spec(target, program, vertex_array, u),
            ).raster_history[k] == s.raster_history[k],
        apply_commands(
            s,
            render_pass_spec(target, program, vertex_array, u),
        ).bound_framebuffer == target.framebuffer,
{
    let cmds = render_pass_spec(target, program, vertex_array, u);
    let s1 = crate::gpu::apply_command(s, cmds[0]);
    let rest = cmds.subrange(1, cmds.len() as int);
    assert(cmds[0] == GpuCommand::BindFramebuffer { framebuffer: target.framebuffer });
    assert(s1.bound_framebuffer == target.framebuffer);
    assert(s1.raster_history == s.raster_history);
    assert(binds_only_to(rest, target.framebuffer));
    lemma_bound_pass_preserves_others(s1, rest, target.framebuffer);
    assert(apply_commands(s, cmds) == apply_commands(s1, rest));
}

/// The positive half of the render pass's effect: its raster
/// operations land in the target's own record, in order — the pass
/// binds the target first, so the clear and the draw are recorded
/// against exactly that framebuffer, and nothing else is recorded
/// anywhere.
pub proof fn lemma_render_pass_clears_then_draws_its_target(
    s: GpuModel,
    target: EyeRenderTarget,
    program: u32,
    vertex_array: u32,
    u: FrameUniforms,
)
    ensures
        apply_commands(
            s,
            render_pass_spec(target, program, vertex_array, u),
        ).raster_history[target.framebuffer] == s.raster_history[target.framebuffer].push(
            GpuCommand::ClearColorBuffer,
        ).push(GpuCommand::DrawArrays { vertices: 3 }),
{
    let cmds = render_pass_spec(target, program, vertex_array, u);
    let fbo = target.framebuffer;
    let s1 = crate::gpu::apply_command(s, cmds[0]);
    let s2 = crate::gpu::apply_command(s1, cmds[1]);
    let s3 = crate::gpu::apply_command(s2, cmds[2]);
    let s4 = crate::gpu::apply_command(s3, cmds[3]);
    let s5 = crate::gpu::apply_command(s4, cmds[4]);
    let s6 = crate::gpu::apply_command(s5, cmds[5]);
    let s7 = crate::gpu::apply_command(s6, cmds[6]);
    let s8 = crate::gpu::apply_command(s7, cmds[7]);
    let s9 = crate::gpu::apply_command(s8, cmds[8]);
    let s10 = crate::gpu::apply_command(s9, cmds[9]);
    let s11 = crate::gpu::apply_command(s10, cmds[10]);
    let s12 = crate::gpu::apply_command(s11, cmds[11]);
    let s13 = crate::gpu::apply_command(s12, cmds[12]);
    // The binding step fixes the target; the clear and the final draw
    // are the only commands that touch a record, and both land on it.
    assert(s1.bound_framebuffer == fbo);
    assert(s3.raster_history[fbo] == s.raster_history[fbo].push(GpuCommand::ClearColorBuffer));
    assert(s12.raster_history == s3.raster_history);
    assert(s12.bound_framebuffer == fbo);
    assert(s13.raster_history[fbo] == s.raster_history[fbo].push(
        GpuCommand::ClearColorBuffer,
    ).push(GpuCommand::DrawArrays { vertices: 3 }));
    // Unfold the sequence interpretation step by step.
    let t1 = cmds.subrange(1, 13);
    let t2 = cmds.subrange(2, 13);
    let t3 = cmds.subrange(3, 13);
    let t4 = cmds.subrange(4, 13);
    let t5 = cmds.subrange(5, 13);
    let t6 = cmds.subrange(6, 13);
    let t7 = cmds.subrange(7, 13);
    let t8 = cmds.subrange(8, 13);
    let t9 = cmds.subrange(9, 13);
    let t10 = cmds.subrange(10, 13);
    let t11 = cmds.subrange(11, 13);
    let t12 = cmds.subrange(12, 13);
    assert(t1.subrange(1, 12) =~= t2);
    assert(t2.subrange(1, 11) =~= t3);
    assert(t3.subrange(1, 10) =~= t4);
    assert(t4.subrange(1, 9) =~= t5);
    assert(t5.subrange(1, 8) =~= t6);
    assert(t6.subrange(1, 7) =~= t7);
    assert(t7.subrange(1, 6) =~= t8);
    assert(t8.subrange(1, 5) =~= t9);
    assert(t9.subrange(1, 4) =~= t10);
    assert(t10.subrange(1, 3) =~= t11);
    assert(t11.subrange(1, 2) =~= t12);
    assert(t12.subrange(1, 1) =~= Seq::<GpuCommand>::empty());
    assert(apply_commands(s, cmds) == apply_commands(s1, t1));
    assert(apply_commands(s1, t1) == apply_commands(s2, t2));
    assert(apply_commands(s2, t2) == apply_commands(s3, t3));
    assert(apply_commands(s3, t3) == apply_commands(s4, t4));
    assert(apply_commands(s4, t4) == apply_commands(s5, t5));
    assert(apply_commands(s5, t5) == apply_commands(s6, t6));
    assert(apply_commands(s6, t6) == apply_commands(s7, t7));
    assert(apply_commands(s7, t7) == apply_commands(s8, t8));
    assert(apply_commands(s8, t8) == apply_commands(s9, t9));
    assert(apply_commands(s9, t9) == apply_commands(s10, t10));
    assert(apply_commands(s10, t10) == apply_commands(s11, t11));
    assert(apply_commands(s11, t11) == apply_commands(s12, t12));
    assert(t12[0] == cmds[12]);
    assert(apply_commands(s12, t12) == apply_commands(s13, t12.subrange(1, 1)));
    assert(apply_commands(s13, Seq::<GpuCommand>::empty()) == s13);
}

} // verus!
