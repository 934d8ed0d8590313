//! The GPU command stream and its binding model.
//!
//! The pipeline never talks to a graphics context directly: it decides
//! what the context must do and emits that decision as a sequence of
//! commands.  An unverified shell executes each command with one
//! graphics call.  This module defines the command vocabulary, the
//! uniform slot contract shared with the shader program, and a model of
//! how a command sequence acts on the framebuffers: raster operations
//! (clears and draws) affect exactly the framebuffer that is bound when
//! they execute.  The model is what the render pass's isolation lemma is
//! proved against.

use vstd::prelude::*;

verus! {

/// The per-eye uniform slots the shader program exposes.  Slot
/// numbering is a fixed contract with the shader source; see
/// `slot_number`.
#[derive(Clone, Copy, PartialEq, Eq, Structural, Debug)]
pub enum UniformSlot {
    Resolution,
    CameraPosition,
    Time,
    EyeOffset,
    ProjectionBounds,
    HeadPosition,
    HeadRotation,
}

/// The numeric location of each uniform slot in the shader program.
/// Location 7 is reserved (an earlier revision of the shader took the
/// raw pose matrix there) and location 0 and 1 carry the vertex stage's
/// fixed inputs, so the slots start at 2 and skip 7.
pub open spec fn slot_number_spec(s: UniformSlot) -> u32 {
    match s {
        UniformSlot::Resolution => 2,
        UniformSlot::CameraPosition => 3,
        UniformSlot::Time => 4,
        UniformSlot::EyeOffset => 5,
        UniformSlot::ProjectionBounds => 6,
        UniformSlot::HeadPosition => 8,
        UniformSlot::HeadRotation => 9,
    }
}

/// Executable slot lookup, matching `slot_number_spec`.
pub fn slot_number(s: UniformSlot) -> (n: u32)
    ensures
        n == slot_number_spec(s),
{
    match s {
        UniformSlot::Resolution => 2,
        UniformSlot::CameraPosition => 3,
        UniformSlot::Time => 4,
        UniformSlot::EyeOffset => 5,
        UniformSlot::ProjectionBounds => 6,
        UniformSlot::HeadPosition => 8,
        UniformSlot::HeadRotation => 9,
    }
}

/// A value uploaded to a uniform slot.  Scalars are binary32 bit
/// patterns.
#[derive(Clone, Copy, PartialEq, Eq, Structural, Debug)]
pub enum UniformValue {
    Vec2 { x: u32, y: u32 },
    Vec3 { x: u32, y: u32, z: u32 },
    Scalar { v: u32 },
    Vec4 { x: u32, y: u32, z: u32, w: u32 },
    Matrix { m: crate::pose::Mat4 },
}

/// One graphics-context operation.  Creation commands introduce a new
/// object under a name the pipeline chose; the remaining commands
/// manipulate bindings, upload state, or rasterize.
#[derive(Clone, Copy, PartialEq, Eq, Structural, Debug)]
pub enum GpuCommand {
    /// Create a framebuffer object under the given name.
    CreateFramebuffer { framebuffer: u32 },
    /// Make the given framebuffer the active draw target.
    BindFramebuffer { framebuffer: u32 },
    /// Create a two-dimensional texture under the given name.
    CreateTexture { texture: u32 },
    /// Make the given texture the active two-dimensional texture.
    BindTexture { texture: u32 },
    /// Allocate backing storage of the given extent for the bound
    /// texture (one color plane, no mipmaps).
    AllocateTextureStorage { width: u32, height: u32 },
    /// Give the bound texture nearest-neighbor filtering in both
    /// directions.
    SetNearestFiltering,
    /// Attach the given texture as the bound framebuffer's color
    /// attachment zero.
    AttachColorTexture { texture: u32 },
    /// Direct the bound framebuffer's draw output to color attachment
    /// zero.
    SelectColorAttachment,
    /// Create a vertex array object under the given name.
    CreateVertexArray { vertex_array: u32 },
    /// Set the viewport to the given extent, anchored at the origin.
    SetViewport { width: u32, height: u32 },
    /// Clear the bound framebuffer's color buffer.
    ClearColorBuffer,
    /// Activate the given shader program.
    UseProgram { program: u32 },
    /// Upload a value to a uniform slot of the active program.
    SetUniform { slot: UniformSlot, value: UniformValue },
    /// Make the given vertex array object active.
    BindVertexArray { vertex_array: u32 },
    /// Issue a non-indexed draw of the given number of vertices.
    DrawArrays { vertices: u32 },
}

/// A command rasterizes into the bound framebuffer.
pub open spec fn is_raster_op(c: GpuCommand) -> bool {
    c is ClearColorBuffer || c is DrawArrays
}

/// The model of the graphics context's framebuffer state: which
/// framebuffer is bound, and per framebuffer the record of raster
/// operations that have executed while it was bound.  A framebuffer's
/// pixels are a function of its record, so a command sequence that
/// leaves a record unchanged leaves those pixels unchanged.
pub struct GpuModel {
    pub bound_framebuffer: u32,
    pub raster_history: Map<u32, Seq<GpuCommand>>,
}

/// How one command acts on the model: binding changes the bound
/// framebuffer, raster operations extend the bound framebuffer's
/// record, everything else leaves the model alone.
pub open spec fn apply_command(s: GpuModel, c: GpuCommand) -> GpuModel {
    match c {
        GpuCommand::BindFramebuffer { framebuffer } => GpuModel {
            bound_framebuffer: framebuffer,
            raster_history: s.raster_history,
        },
        GpuCommand::ClearColorBuffer => record_raster_op(s, c),
        GpuCommand::DrawArrays { .. } => record_raster_op(s, c),
        _ => s,
    }
}

/// Append a raster operation to the bound framebuffer's record.
pub open spec fn record_raster_op(s: GpuModel, c: GpuCommand) -> GpuModel {
    GpuModel {
        bound_framebuffer: s.bound_framebuffer,
        raster_history: s.raster_history.insert(
            s.bound_framebuffer,
            s.raster_history[s.bound_framebuffer].push(c),
        ),
    }
}

/// A command sequence acts by applying each command in order.
pub open spec fn apply_commands(s: GpuModel, cmds: Seq<GpuCommand>) -> GpuModel
    decreases cmds.len(),
{
    if cmds.len() == 0 {
        s
    } else {
        apply_commands(apply_command(s, cmds[0]), cmds.subrange(1, cmds.len() as int))
    }
}

/// Every framebuffer binding in the sequence targets the one given
/// framebuffer.
pub open spec fn binds_only_to(cmds: Seq<GpuCommand>, framebuffer: u32) -> bool {
    forall|i: int|
        0 <= i < cmds.len() ==> ((#[trigger] cmds[i]) matches GpuCommand::BindFramebuffer {
            framebuffer: f,
        } ==> f == framebuffer)
}

/// Isolation of a bound pass: while a command sequence binds no
/// framebuffer but `framebuffer`, and `framebuffer` is bound at the
/// start, every other framebuffer's raster record is left exactly as it
/// was, `framebuffer` stays bound, and `framebuffer`'s own record only
/// grows.
pub proof fn lemma_bound_pass_preserves_others(s: GpuModel, cmds: Seq<GpuCommand>, framebuffer: u32)
    requires
        s.bound_framebuffer == framebuffer,
        binds_only_to(cmds, framebuffer),
    ensures
        apply_commands(s, cmds).bound_framebuffer == framebuffer,
        forall|k: u32|
            k != framebuffer ==> apply_commands(s, cmds).raster_history[k]
                == s.raster_history[k],
        s.raster_history[framebuffer].is_prefix_of(
            apply_commands(s, cmds).raster_history[framebuffer],
        ),
    decreases cmds.len(),
{
    if cmds.len() == 0 {
    } else {
        let s1 = apply_command(s, cmds[0]);
        let rest = cmds.subrange(1, cmds.len() as int);
        assert(s1.bound_framebuffer == framebuffer);
        assert(binds_only_to(rest, framebuffer)) by {
            assert(forall|i: int| 0 <= i < rest.len() ==> rest[i] == cmds[i + 1]);
        }
        lemma_bound_pass_preserves_others(s1, rest, framebuffer);
        assert(apply_commands(s, cmds) == apply_commands(s1, rest));
        assert forall|k: u32| k != framebuffer implies apply_commands(
            s,
            cmds,
        ).raster_history[k] == s.raster_history[k] by {
            assert(s1.raster_history[k] == s.raster_history[k]);
            assert(apply_commands(s1, rest).raster_history[k] == s1.raster_history[k]);
        }
    }
}

} // verus!
