//! Eye render targets: one off-screen framebuffer with one backing
//! color texture per eye.
//!
//! Object names are chosen by the pipeline's own allocator, which hands
//! them out in strictly increasing order starting at 1; the unverified
//! shell keeps the one-to-one correspondence between these names and
//! the context's objects.  Creating a target emits the command stream
//! that builds its framebuffer and texture, and the allocator's
//! discipline makes the handles of any two targets pairwise distinct.

use vstd::prelude::*;
use crate::gpu::GpuCommand;

verus! {

/// One eye's off-screen render target.
#[derive(Clone, Copy, PartialEq, Eq, Structural, Debug)]
pub struct EyeRenderTarget {
    pub framebuffer: u32,
    pub color_texture: u32,
    pub width: u32,
    pub height: u32,
}

impl EyeRenderTarget {
    /// A target is well formed when its two handles are distinct and
    /// its extent is non-degenerate.
    pub open spec fn wf(self) -> bool {
        self.framebuffer != self.color_texture && self.width >= 1 && self.height >= 1
    }
}

/// The allocator of graphics object names.  Names are handed out in
/// strictly increasing order, so no name is ever issued twice.
#[derive(Clone, Copy, PartialEq, Eq, Structural, Debug)]
pub struct GpuNameAllocator {
    pub next_name: u32,
}

impl GpuNameAllocator {
    /// A fresh allocator; names start at 1 because graphics contexts
    /// reserve 0 for "no object".
    pub fn new() -> (a: GpuNameAllocator)
        ensures
            a.next_name == 1,
    {
        GpuNameAllocator { next_name: 1 }
    }

    /// Issue the next unused name.
    pub fn fresh_name(&mut self) -> (n: u32)
        requires
            old(self).next_name < u32::MAX,
        ensures
            n == old(self).next_name,
            final(self).next_name == old(self).next_name + 1,
    {
        let n = self.next_name;
        self.next_name = self.next_name + 1;
        n
    }
}

/// The command stream that builds one eye's target: create and bind the
/// framebuffer, create and bind the texture, allocate its storage with
/// nearest-neighbor filtering, attach it as color attachment zero and
/// direct draw output there.
pub open spec fn target_setup_spec(
    framebuffer: u32,
    texture: u32,
    width: u32,
    height: u32,
) -> Seq<GpuCommand> {
    seq![
        GpuCommand::CreateFramebuffer { framebuffer },
        GpuCommand::BindFramebuffer { framebuffer },
        GpuCommand::CreateTexture { texture },
        GpuCommand::BindTexture { texture },
        GpuCommand::AllocateTextureStorage { width, height },
        GpuCommand::SetNearestFiltering,
        GpuCommand::AttachColorTexture { texture },
        GpuCommand::SelectColorAttachment,
    ]
}

/// Create one eye's render target: take two fresh names and emit the
/// commands that build the framebuffer and its backing texture.
pub fn create_eye_render_target(alloc: &mut GpuNameAllocator, width: u32, height: u32) -> (r: (
    EyeRenderTarget,
    Vec<GpuCommand>,
))
    requires
        old(alloc).next_name + 2 <= u32::MAX,
        width >= 1,
        height >= 1,
    ensures
        r.0.framebuffer == old(alloc).next_name,
        r.0.color_texture == old(alloc).next_name + 1,
        r.0.width == width,
        r.0.height == height,
        r.0.wf(),
        final(alloc).next_name == old(alloc).next_name + 2,
        r.1@ == target_setup_spec(r.0.framebuffer, r.0.color_texture, width, height),
{
    let framebuffer = alloc.fresh_name();
    let color_texture = alloc.fresh_name();
    let target = EyeRenderTarget { framebuffer, color_texture, width, height };
    let mut cmds: Vec<GpuCommand> = Vec::new();
    cmds.push(GpuCommand::CreateFramebuffer { framebuffer });
    cmds.push(GpuCommand::BindFramebuffer { framebuffer });
    cmds.push(GpuCommand::CreateTexture { texture: color_texture });
    cmds.push(GpuCommand::BindTexture { texture: color_texture });
    cmds.push(GpuCommand::AllocateTextureStorage { width, height });
    cmds.push(GpuCommand::SetNearestFiltering);
    cmds.push(GpuCommand::AttachColorTexture { texture: color_texture });
    cmds.push(GpuCommand::SelectColorAttachment);
    proof {
        assert(cmds@ =~= target_setup_spec(framebuffer, color_texture, width, height));
    }
    (target, cmds)
}

/// Create a vertex array object under a fresh name.
pub fn create_vertex_array(alloc: &mut GpuNameAllocator) -> (r: (u32, Vec<GpuCommand>))
    requires
        old(alloc).next_name < u32::MAX,
    ensures
        r.0 == old(alloc).next_name,
        final(alloc).next_name == old(alloc).next_name + 1,
        r.1@ == seq![GpuCommand::CreateVertexArray { vertex_array: r.0 }],
{
    let vertex_array = alloc.fresh_name();
    let mut cmds: Vec<GpuCommand> = Vec::new();
    cmds.push(GpuCommand::CreateVertexArray { vertex_array });
    proof {
        assert(cmds@ =~= seq![GpuCommand::CreateVertexArray { vertex_array }]);
    }
    (vertex_array, cmds)
}

/// Creating two targets one after the other from the same allocator —
/// with the same dimensions or not — yields four pairwise distinct
/// handles: the two targets alias no framebuffer and no backing
/// texture.
pub proof fn lemma_successive_targets_distinct(
    a: EyeRenderTarget,
    b: EyeRenderTarget,
    first_name: u32,
)
    requires
        a.framebuffer == first_name,
        a.color_texture == first_name + 1,
        b.framebuffer == first_name + 2,
        b.color_texture == first_name + 3,
    ensures
        a.framebuffer != a.color_texture,
        b.framebuffer != b.color_texture,
        a.framebuffer != b.framebuffer,
        a.framebuffer != b.color_texture,
        a.color_texture != b.framebuffer,
        a.color_texture != b.color_texture,
{
}

} // verus!
