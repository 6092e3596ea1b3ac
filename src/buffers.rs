use vstd::prelude::*;
use crate::geometry::{
    quad_index_seq, quad_indices, quad_vertex_seq, quad_vertices, CONSTANT_BUFFER_BYTES,
    INDEX_BYTES, MATRIX_BYTES, VERTEX_STRIDE,
};

verus! {

/// How the GPU and the CPU may use a buffer.
#[derive(Clone, Copy, Debug, PartialEq, Eq, Structural)]
pub enum BufferUsage {
    /// Read by the GPU, rewritten by the CPU through write-discard maps.
    Dynamic,
    /// Filled once at creation, then only read by the GPU.
    Immutable,
}

/// The pipeline slot a buffer is bound to.
#[derive(Clone, Copy, Debug, PartialEq, Eq, Structural)]
pub enum BufferBinding {
    Vertex,
    Index,
    Constant,
}

/// The description from which a GPU buffer is created.
#[derive(Clone, Copy, Debug, PartialEq, Eq, Structural)]
pub struct BufferSpec {
    pub binding: BufferBinding,
    pub usage: BufferUsage,
    pub byte_width: u32,
    pub cpu_write: bool,
}

/// A description the graphics API accepts: the CPU may write exactly the
/// dynamic buffers, and a constant buffer's size is a non-zero multiple of 16.
pub open spec fn valid_spec(s: BufferSpec) -> bool {
    &&& s.byte_width > 0
    &&& (s.usage == BufferUsage::Dynamic <==> s.cpu_write)
    &&& s.binding == BufferBinding::Constant ==> s.byte_width % 16 == 0
}

/// The vertex buffer: dynamic, sized for the quad's vertices.
pub fn vertex_buffer_spec() -> (r: BufferSpec)
    ensures
        r == (BufferSpec {
            binding: BufferBinding::Vertex,
            usage: BufferUsage::Dynamic,
            byte_width: (VERTEX_STRIDE * quad_vertex_seq().len()) as u32,
            cpu_write: true,
        }),
        r.byte_width == 128,
        valid_spec(r),
{
    let n = quad_vertices().len() as u32;
    BufferSpec {
        binding: BufferBinding::Vertex,
        usage: BufferUsage::Dynamic,
        byte_width: VERTEX_STRIDE * n,
        cpu_write: true,
    }
}

/// The index buffer: immutable, sized for the quad's indices.
pub fn index_buffer_spec() -> (r: BufferSpec)
    ensures
        r == (BufferSpec {
            binding: BufferBinding::Index,
            usage: BufferUsage::Immutable,
            byte_width: (INDEX_BYTES * quad_index_seq().len()) as u32,
            cpu_write: false,
        }),
        r.byte_width == 24,
        valid_spec(r),
{
    let n = quad_indices().len() as u32;
    BufferSpec {
        binding: BufferBinding::Index,
        usage: BufferUsage::Immutable,
        byte_width: INDEX_BYTES * n,
        cpu_write: false,
    }
}

/// The constant buffer for the vertex stage: dynamic, large enough for the
/// per-frame transform.
pub fn constant_buffer_spec() -> (r: BufferSpec)
    ensures
        r == (BufferSpec {
            binding: BufferBinding::Constant,
            usage: BufferUsage::Dynamic,
            byte_width: CONSTANT_BUFFER_BYTES,
            cpu_write: true,
        }),
        r.byte_width >= MATRIX_BYTES,
        valid_spec(r),
{
    BufferSpec {
        binding: BufferBinding::Constant,
        usage: BufferUsage::Dynamic,
        byte_width: CONSTANT_BUFFER_BYTES,
        cpu_write: true,
    }
}

} // verus!
