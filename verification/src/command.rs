use vstd::prelude::*;
use crate::handle::Handle;
use crate::vertex::Color;
use crate::vertex::Vertex;
use crate::vertex::VERTEX_STRIDE_BYTES;

verus! {

/// `D3D11_USAGE` value for a buffer the pipeline reads and writes on the
/// device.
pub const D3D11_USAGE_DEFAULT: u32 = 0;

/// `D3D11_BIND_FLAG` value that binds a buffer to the input-assembler
/// vertex stage.
pub const D3D11_BIND_VERTEX_BUFFER: u32 = 0x1;

/// `D3D11_BIND_FLAG` value that binds a buffer to the input-assembler
/// index stage.
pub const D3D11_BIND_INDEX_BUFFER: u32 = 0x2;

/// The element format of an index buffer binding.
#[derive(Clone, Copy, PartialEq, Eq, Structural, Debug)]
pub enum IndexFormat {
    R16Uint,
    R32Uint,
}

/// Selects the index binding format from the byte size of one index
/// element: the 16-bit format exactly for two-byte elements, the 32-bit
/// format otherwise.  The batch keeps 32-bit indices, so the 16-bit arm is
/// intentionally unreachable from the flush path.
pub fn index_format_for_size(element_size: u32) -> (r: IndexFormat)
    ensures
        r is R16Uint <==> element_size == 2,
{
    if element_size == 2 {
        IndexFormat::R16Uint
    } else {
        IndexFormat::R32Uint
    }
}

/// A buffer creation descriptor, mirroring `D3D11_BUFFER_DESC` field for
/// field.
#[derive(Clone, Copy, PartialEq, Eq, Structural, Debug)]
pub struct BufferDesc {
    pub byte_width: u32,
    pub usage: u32,
    pub bind_flags: u32,
    pub cpu_access_flags: u32,
    pub misc_flags: u32,
    pub structure_byte_stride: u32,
}

/// The descriptor an immutable vertex buffer of `count` vertices is
/// created with.
pub open spec fn spec_vertex_buffer_desc(count: int) -> BufferDesc {
    BufferDesc {
        byte_width: (count * VERTEX_STRIDE_BYTES) as u32,
        usage: D3D11_USAGE_DEFAULT,
        bind_flags: D3D11_BIND_VERTEX_BUFFER,
        cpu_access_flags: 0,
        misc_flags: 0,
        structure_byte_stride: 0,
    }
}

/// The descriptor an immutable index buffer of `count` 32-bit indices is
/// created with.
pub open spec fn spec_index_buffer_desc(count: int) -> BufferDesc {
    BufferDesc {
        byte_width: (count * 4) as u32,
        usage: D3D11_USAGE_DEFAULT,
        bind_flags: D3D11_BIND_INDEX_BUFFER,
        cpu_access_flags: 0,
        misc_flags: 0,
        structure_byte_stride: 0,
    }
}

/// The descriptor for an immutable vertex buffer holding `count` vertices.
pub fn vertex_buffer_desc(count: usize) -> (d: BufferDesc)
    requires
        count * VERTEX_STRIDE_BYTES <= u32::MAX,
    ensures
        d == spec_vertex_buffer_desc(count as int),
{
    BufferDesc {
        byte_width: (count * VERTEX_STRIDE_BYTES as usize) as u32,
        usage: D3D11_USAGE_DEFAULT,
        bind_flags: D3D11_BIND_VERTEX_BUFFER,
        cpu_access_flags: 0,
        misc_flags: 0,
        structure_byte_stride: 0,
    }
}

/// The descriptor for an immutable index buffer holding `count` 32-bit
/// indices.
pub fn index_buffer_desc(count: usize) -> (d: BufferDesc)
    requires
        count * 4 <= u32::MAX,
    ensures
        d == spec_index_buffer_desc(count as int),
{
    BufferDesc {
        byte_width: (count * 4) as u32,
        usage: D3D11_USAGE_DEFAULT,
        bind_flags: D3D11_BIND_INDEX_BUFFER,
        cpu_access_flags: 0,
        misc_flags: 0,
        structure_byte_stride: 0,
    }
}

/// One unit of graphics work the library asks the platform layer to run,
/// in order, against the device's immediate context.
///
/// Buffers the library creates are named by ids it mints itself; the
/// platform layer keeps the id-to-object mapping.  A `rtv`/`dsv` of `None`
/// stands for a null binding.  If a creation fails, the platform layer
/// stops running the remainder of that command batch, which matches the
/// abort-on-creation-failure policy of the flush path.
pub enum GpuCommand {
    /// Bind a render-target / depth-stencil pair on the output merger.
    SetRenderTargets { rtv: Option<Handle>, dsv: Option<Handle> },
    /// Clear a render target to a flat color.
    ClearRenderTarget { rtv: Option<Handle>, color: Color },
    /// Release a render-target view this library owns.
    ReleaseRenderTarget { rtv: Handle },
    /// Release a buffer this library created earlier.
    ReleaseBuffer { buffer: u64 },
    /// Create an immutable vertex buffer from the given vertices.
    CreateVertexBuffer { buffer: u64, desc: BufferDesc, vertices: Vec<Vertex> },
    /// Create an immutable index buffer from the given indices.
    CreateIndexBuffer { buffer: u64, desc: BufferDesc, indices: Vec<u32> },
    /// Bind a vertex buffer on input-assembler slot zero.
    BindVertexBuffer { buffer: u64, stride: u32, offset: u32 },
    /// Bind an index buffer.
    BindIndexBuffer { buffer: u64, format: IndexFormat, offset: u32 },
    /// Issue one indexed draw over the whole bound batch.
    DrawIndexed { index_count: u32, start_index: u32, base_vertex: i32 },
    /// Bind the vertex shader stage.
    SetVertexShader { shader: Handle },
    /// Bind the pixel shader stage.
    SetPixelShader { shader: Handle },
    /// Bind the input layout.
    SetInputLayout { layout: Handle },
    /// Release a shader bytecode blob.
    ReleaseBlob { blob: Handle },
}

/// `c` creates vertex buffer `buffer` with descriptor `desc` from exactly
/// the vertices `vs`.
pub open spec fn is_create_vertex_buffer(
    c: GpuCommand,
    buffer: u64,
    desc: BufferDesc,
    vs: Seq<Vertex>,
) -> bool {
    match c {
        GpuCommand::CreateVertexBuffer { buffer: b, desc: d, vertices: v } => {
            b == buffer && d == desc && v@ == vs
        },
        _ => false,
    }
}

/// `c` creates index buffer `buffer` with descriptor `desc` from exactly
/// the indices `ix`.
pub open spec fn is_create_index_buffer(
    c: GpuCommand,
    buffer: u64,
    desc: BufferDesc,
    ix: Seq<u32>,
) -> bool {
    match c {
        GpuCommand::CreateIndexBuffer { buffer: b, desc: d, indices: v } => {
            b == buffer && d == desc && v@ == ix
        },
        _ => false,
    }
}

} // verus!
