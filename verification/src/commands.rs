//! Render commands: plain descriptions of the GPU calls the host must
//! perform. The library never touches the graphics context itself; it
//! returns these values, and the contracts pin down exactly which commands
//! a scene produces, so binding order is visible data rather than hidden
//! context state.

use vstd::prelude::*;

verus! {

/// The binding target a GPU buffer was created for.
#[derive(Clone, Copy, Debug, PartialEq, Eq, Structural)]
pub enum BufferKind {
    /// Vertex attribute data.
    Vertex,
    /// Element (index) data.
    Index,
    /// Shader storage data.
    Storage,
}

/// The usage hint a full upload allocates the buffer with.
#[derive(Clone, Copy, Debug, PartialEq, Eq, Structural)]
pub enum BufferUsage {
    /// Written once, drawn many times.
    StaticDraw,
    /// Rewritten frequently, typically every frame.
    DynamicDraw,
}

/// One GPU call for the host to perform. Buffer and texture ids are the
/// host's own handles; id 0 clears a binding, as it does on the GPU.
#[derive(Clone, Copy, Debug, PartialEq, Eq, Structural)]
pub enum RenderCommand {
    /// Make a linked shader program current.
    UseProgram { program_id: u32 },
    /// Bind a buffer to its target (`buffer_id` 0 unbinds).
    BindBuffer { kind: BufferKind, buffer_id: u32 },
    /// Allocate the bound buffer to `len_bytes` and fill it whole.
    UploadFull { kind: BufferKind, buffer_id: u32, len_bytes: usize, usage: BufferUsage },
    /// Overwrite a sub-range of the bound buffer without reallocating.
    UploadSub { kind: BufferKind, buffer_id: u32, offset_bytes: usize, len_bytes: usize },
    /// Bind a vertex array object (`vao_id` 0 unbinds).
    BindVertexArray { vao_id: u32 },
    /// Bind a 2D texture for sampling (`texture_id` 0 unbinds).
    BindTexture { texture_id: u32 },
    /// Issue one indexed draw over the first `index_count` indices of the
    /// bound index buffer.
    DrawIndexed { index_count: usize },
}

/// Total number of indices the draw calls in `cmds` submit.
pub open spec fn indices_drawn(cmds: Seq<RenderCommand>) -> int
    decreases cmds.len(),
{
    if cmds.len() == 0 {
        0
    } else {
        (match cmds[0] {
            RenderCommand::DrawIndexed { index_count } => index_count as int,
            _ => 0,
        }) + indices_drawn(cmds.drop_first())
    }
}

/// Number of draw calls among `cmds`.
pub open spec fn draw_call_count(cmds: Seq<RenderCommand>) -> int
    decreases cmds.len(),
{
    if cmds.len() == 0 {
        0
    } else {
        (if cmds[0] is DrawIndexed {
            1int
        } else {
            0int
        }) + draw_call_count(cmds.drop_first())
    }
}

} // verus!
