//! GPU buffer and vertex array descriptions. A `Buffer` owns no GPU state
//! itself: it records the handle the host allocated, the binding target,
//! and the byte capacity established by the last full upload, and its
//! methods return the render commands that realize each operation. The
//! capacity bookkeeping is what lets partial uploads be proved in bounds.

use vstd::prelude::*;

verus! {

use crate::commands::BufferKind;
use crate::commands::BufferUsage;
use crate::commands::RenderCommand;

/// Why a buffer operation was refused.
#[derive(Clone, Copy, Debug, PartialEq, Eq, Structural)]
pub enum BufferError {
    /// A partial upload would end past the buffer's allocated capacity.
    RangeExceedsCapacity,
}

/// One GPU buffer of a fixed binding kind. `capacity_bytes` is the size
/// the buffer was last allocated with by a full upload; a fresh buffer has
/// capacity 0 until one is performed.
#[derive(Clone, Copy, Debug, PartialEq, Eq, Structural)]
pub struct Buffer {
    pub id: u32,
    pub kind: BufferKind,
    pub capacity_bytes: usize,
}

impl Buffer {
    /// Wrap a buffer handle the host created for the given target.
    pub fn new(id: u32, kind: BufferKind) -> (b: Buffer)
        ensures
            b == (Buffer { id, kind, capacity_bytes: 0 }),
    {
        Buffer { id, kind, capacity_bytes: 0 }
    }

    /// Make this buffer current on its binding target. Uploads apply to
    /// the buffer bound at the time the host performs them, so the host
    /// must execute this command before an upload command of the same
    /// buffer.
    pub fn bind(&self) -> (c: RenderCommand)
        ensures
            c == (RenderCommand::BindBuffer { kind: self.kind, buffer_id: self.id }),
    {
        RenderCommand::BindBuffer { kind: self.kind, buffer_id: self.id }
    }

    /// Clear this buffer's binding target.
    pub fn unbind(&self) -> (c: RenderCommand)
        ensures
            c == (RenderCommand::BindBuffer { kind: self.kind, buffer_id: 0 }),
    {
        RenderCommand::BindBuffer { kind: self.kind, buffer_id: 0 }
    }

    /// Replace the entire buffer, sized to `len_bytes`, flagged for data
    /// written once and drawn many times.
    pub fn upload_data_static_draw(&mut self, len_bytes: usize) -> (c: RenderCommand)
        ensures
            *final(self) == (Buffer { capacity_bytes: len_bytes, ..*old(self) }),
            c == (RenderCommand::UploadFull {
                kind: old(self).kind,
                buffer_id: old(self).id,
                len_bytes,
                usage: BufferUsage::StaticDraw,
            }),
    {
        self.capacity_bytes = len_bytes;
        RenderCommand::UploadFull {
            kind: self.kind,
            buffer_id: self.id,
            len_bytes,
            usage: BufferUsage::StaticDraw,
        }
    }

    /// Replace the entire buffer, sized to `len_bytes`, flagged for data
    /// that is rewritten frequently.
    pub fn upload_data_dynamic_draw(&mut self, len_bytes: usize) -> (c: RenderCommand)
        ensures
            *final(self) == (Buffer { capacity_bytes: len_bytes, ..*old(self) }),
            c == (RenderCommand::UploadFull {
                kind: old(self).kind,
                buffer_id: old(self).id,
                len_bytes,
                usage: BufferUsage::DynamicDraw,
            }),
    {
        self.capacity_bytes = len_bytes;
        RenderCommand::UploadFull {
            kind: self.kind,
            buffer_id: self.id,
            len_bytes,
            usage: BufferUsage::DynamicDraw,
        }
    }

    /// Overwrite the byte range `offset_bytes .. offset_bytes + len_bytes`
    /// without reallocating. Succeeds exactly when the range lies within
    /// the allocated capacity, so no accepted partial upload ever writes
    /// past the end of the buffer.
    pub fn upload_subdata_dynamic_draw(&self, offset_bytes: usize, len_bytes: usize) -> (r: Result<
        RenderCommand,
        BufferError,
    >)
        ensures
            r is Ok <==> offset_bytes + len_bytes <= self.capacity_bytes,
            r matches Ok(c) ==> c == (RenderCommand::UploadSub {
                kind: self.kind,
                buffer_id: self.id,
                offset_bytes,
                len_bytes,
            }),
            r is Err ==> r == Err::<RenderCommand, BufferError>(BufferError::RangeExceedsCapacity),
    {
        if offset_bytes <= self.capacity_bytes && len_bytes <= self.capacity_bytes - offset_bytes {
            Ok(
                RenderCommand::UploadSub {
                    kind: self.kind,
                    buffer_id: self.id,
                    offset_bytes,
                    len_bytes,
                },
            )
        } else {
            Err(BufferError::RangeExceedsCapacity)
        }
    }
}

/// A vertex array object: the handle under which the host registered the
/// vertex attribute layout.
#[derive(Clone, Copy, Debug, PartialEq, Eq, Structural)]
pub struct VertexArray {
    pub id: u32,
}

impl VertexArray {
    /// Wrap a vertex array handle the host created.
    pub fn new(id: u32) -> (v: VertexArray)
        ensures
            v == (VertexArray { id }),
    {
        VertexArray { id }
    }

    /// Make this vertex array current.
    pub fn bind(&self) -> (c: RenderCommand)
        ensures
            c == (RenderCommand::BindVertexArray { vao_id: self.id }),
    {
        RenderCommand::BindVertexArray { vao_id: self.id }
    }

    /// Clear the vertex array binding.
    pub fn unbind(&self) -> (c: RenderCommand)
        ensures
            c == (RenderCommand::BindVertexArray { vao_id: 0 }),
    {
        RenderCommand::BindVertexArray { vao_id: 0 }
    }
}

} // verus!
