use vstd::prelude::*;
use crate::command::GpuCommand;
use crate::handle::Handle;
use crate::handle::Ownership;

verus! {

/// `DXGI_FORMAT_R32G32B32_FLOAT`: three 32-bit floats, the vertex
/// position attribute.
pub const DXGI_FORMAT_R32G32B32_FLOAT: u32 = 6;

/// `DXGI_FORMAT_R32G32B32A32_FLOAT`: four 32-bit floats, the vertex color
/// attribute.
pub const DXGI_FORMAT_R32G32B32A32_FLOAT: u32 = 2;

/// `D3D11_INPUT_PER_VERTEX_DATA`: the attribute advances per vertex.
pub const D3D11_INPUT_PER_VERTEX_DATA: u32 = 0;

/// The vertex attribute a layout entry describes.
#[derive(Clone, Copy, PartialEq, Eq, Structural, Debug)]
pub enum Semantic {
    Position,
    Color,
}

/// One entry of the input layout, mirroring `D3D11_INPUT_ELEMENT_DESC`
/// field for field; the platform layer supplies the C string for the
/// semantic name.
#[derive(Clone, Copy, PartialEq, Eq, Structural, Debug)]
pub struct InputElementDesc {
    pub semantic: Semantic,
    pub semantic_index: u32,
    pub format: u32,
    pub input_slot: u32,
    pub aligned_byte_offset: u32,
    pub input_slot_class: u32,
    pub instance_data_step_rate: u32,
}

/// The five creation results the pipeline setup needs from the platform:
/// the compiled vertex and pixel bytecode blobs and the three objects
/// built from them.  `None` records a failed compilation or creation.
/// The platform performs them in this order and stops at the first
/// failure, so later entries of a failed run are `None` as well.
pub struct ShaderBuildResults {
    pub vs_blob: Option<u64>,
    pub ps_blob: Option<u64>,
    pub vertex: Option<u64>,
    pub pixel: Option<u64>,
    pub input_layout: Option<u64>,
}

impl ShaderBuildResults {
    pub open spec fn complete(self) -> bool {
        &&& self.vs_blob is Some
        &&& self.ps_blob is Some
        &&& self.vertex is Some
        &&& self.pixel is Some
        &&& self.input_layout is Some
    }
}

/// The pipeline state a successful build over complete results publishes.
pub open spec fn spec_shader_of(b: ShaderBuildResults) -> Shader {
    Shader {
        vertex: Handle { addr: b.vertex->0, ownership: Ownership::Owned },
        pixel: Handle { addr: b.pixel->0, ownership: Ownership::Owned },
        input_layout: Handle { addr: b.input_layout->0, ownership: Ownership::Owned },
        vs_blob: Handle { addr: b.vs_blob->0, ownership: Ownership::Owned },
    }
}

/// The pipeline state objects: one vertex shader, one pixel shader and
/// one input layout, built once from the two fixed shader sources and
/// reused across surface changes.  The vertex bytecode blob is kept
/// alive because the input layout was validated against it.
#[derive(Clone, Copy, PartialEq, Eq, Structural, Debug)]
pub struct Shader {
    pub vertex: Handle,
    pub pixel: Handle,
    pub input_layout: Handle,
    pub vs_blob: Handle,
}

impl Shader {
    pub open spec fn wf(self) -> bool {
        &&& self.vertex.ownership is Owned
        &&& self.pixel.ownership is Owned
        &&& self.input_layout.ownership is Owned
        &&& self.vs_blob.ownership is Owned
    }

    /// Assembles the pipeline state from the platform's compilation and
    /// creation results.  Any failed step aborts the whole build with
    /// nothing published.  On success the pixel bytecode blob, needed
    /// only during creation, is released at once; the vertex blob is
    /// kept.
    pub fn build(r: &ShaderBuildResults, out: &mut Vec<GpuCommand>) -> (s: Option<Shader>)
        ensures
            s is Some <==> r.complete(),
            s matches Some(sh) ==> ({
                &&& sh == spec_shader_of(*r)
                &&& sh.wf()
                &&& final(out)@ == old(out)@.push(GpuCommand::ReleaseBlob {
                    blob: Handle { addr: r.ps_blob->0, ownership: Ownership::Owned },
                })
            }),
            s is None ==> final(out)@ == old(out)@,
    {
        let vs_blob = match r.vs_blob {
            Some(a) => Handle::owned(a),
            None => { return None; },
        };
        let ps_blob = match r.ps_blob {
            Some(a) => Handle::owned(a),
            None => { return None; },
        };
        let vertex = match r.vertex {
            Some(a) => Handle::owned(a),
            None => { return None; },
        };
        let pixel = match r.pixel {
            Some(a) => Handle::owned(a),
            None => { return None; },
        };
        let input_layout = match r.input_layout {
            Some(a) => Handle::owned(a),
            None => { return None; },
        };
        out.push(GpuCommand::ReleaseBlob { blob: ps_blob });
        Some(Shader { vertex, pixel, input_layout, vs_blob })
    }

    /// Binds the pipeline state: vertex shader, pixel shader and input
    /// layout, in that order.  Touches no other pipeline stage.
    pub fn setup(&self, out: &mut Vec<GpuCommand>)
        ensures
            final(out)@ == old(out)@ + spec_shader_setup_commands(*self),
    {
        out.push(GpuCommand::SetVertexShader { shader: self.vertex });
        out.push(GpuCommand::SetPixelShader { shader: self.pixel });
        out.push(GpuCommand::SetInputLayout { layout: self.input_layout });
        proof {
            assert(out@ =~= old(out)@ + spec_shader_setup_commands(*self));
        }
    }

    /// The fixed two-entry input layout the vertex shader consumes: the
    /// position, three floats at byte offset zero, then the color, four
    /// floats at byte offset twelve.
    pub fn input_layout_desc() -> (d: Vec<InputElementDesc>)
        ensures
            d@ =~= spec_input_layout_desc(),
    {
        let mut d: Vec<InputElementDesc> = Vec::new();
        d.push(InputElementDesc {
            semantic: Semantic::Position,
            semantic_index: 0,
            format: DXGI_FORMAT_R32G32B32_FLOAT,
            input_slot: 0,
            aligned_byte_offset: 0,
            input_slot_class: D3D11_INPUT_PER_VERTEX_DATA,
            instance_data_step_rate: 0,
        });
        d.push(InputElementDesc {
            semantic: Semantic::Color,
            semantic_index: 0,
            format: DXGI_FORMAT_R32G32B32A32_FLOAT,
            input_slot: 0,
            aligned_byte_offset: 12,
            input_slot_class: D3D11_INPUT_PER_VERTEX_DATA,
            instance_data_step_rate: 0,
        });
        proof {
            assert(d@ =~= spec_input_layout_desc());
        }
        d
    }
}

/// The commands the shader-build phase of a setup pass appends: the
/// pixel blob release when the pipeline state is built now, nothing when
/// it already exists.
pub open spec fn spec_shader_build_release(
    existing: Option<Shader>,
    b: ShaderBuildResults,
) -> Seq<GpuCommand> {
    if existing is Some {
        Seq::empty()
    } else {
        seq![
            GpuCommand::ReleaseBlob {
                blob: Handle { addr: b.ps_blob->0, ownership: Ownership::Owned },
            },
        ]
    }
}

/// The three bind commands `Shader::setup` emits.
pub open spec fn spec_shader_setup_commands(s: Shader) -> Seq<GpuCommand> {
    seq![
        GpuCommand::SetVertexShader { shader: s.vertex },
        GpuCommand::SetPixelShader { shader: s.pixel },
        GpuCommand::SetInputLayout { layout: s.input_layout },
    ]
}

/// The fixed input layout as a sequence.
pub open spec fn spec_input_layout_desc() -> Seq<InputElementDesc> {
    seq![
        InputElementDesc {
            semantic: Semantic::Position,
            semantic_index: 0,
            format: DXGI_FORMAT_R32G32B32_FLOAT,
            input_slot: 0,
            aligned_byte_offset: 0,
            input_slot_class: D3D11_INPUT_PER_VERTEX_DATA,
            instance_data_step_rate: 0,
        },
        InputElementDesc {
            semantic: Semantic::Color,
            semantic_index: 0,
            format: DXGI_FORMAT_R32G32B32A32_FLOAT,
            input_slot: 0,
            aligned_byte_offset: 12,
            input_slot_class: D3D11_INPUT_PER_VERTEX_DATA,
            instance_data_step_rate: 0,
        },
    ]
}

} // verus!
