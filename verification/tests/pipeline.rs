use overlay::{
    index_buffer_desc, index_format_for_size, swapchain_request, vertex_buffer_desc, GpuCommand,
    IndexFormat, Ownership, Rect, Semantic, Shader, ShaderBuildResults, VERTEX_STRIDE_BYTES,
};

fn results() -> ShaderBuildResults {
    ShaderBuildResults {
        vs_blob: Some(0x8100),
        ps_blob: Some(0x8200),
        vertex: Some(0x8300),
        pixel: Some(0x8400),
        input_layout: Some(0x8500),
    }
}

#[test]
fn shader_build_publishes_all_objects_and_releases_pixel_blob() {
    let mut out: Vec<GpuCommand> = Vec::new();
    let s = Shader::build(&results(), &mut out).unwrap();
    assert_eq!(s.vertex.addr, 0x8300);
    assert_eq!(s.pixel.addr, 0x8400);
    assert_eq!(s.input_layout.addr, 0x8500);
    assert_eq!(s.vs_blob.addr, 0x8100);
    assert_eq!(s.vertex.ownership, Ownership::Owned);
    assert_eq!(out.len(), 1);
    match &out[0] {
        GpuCommand::ReleaseBlob { blob } => assert_eq!(blob.addr, 0x8200),
        _ => unreachable!(),
    }
}

#[test]
fn shader_build_fails_whole_on_any_missing_step() {
    for i in 0..5 {
        let mut r = results();
        match i {
            0 => r.vs_blob = None,
            1 => r.ps_blob = None,
            2 => r.vertex = None,
            3 => r.pixel = None,
            _ => r.input_layout = None,
        }
        let mut out: Vec<GpuCommand> = Vec::new();
        assert!(Shader::build(&r, &mut out).is_none());
        assert!(out.is_empty());
    }
}

#[test]
fn shader_setup_binds_the_three_stages() {
    let mut out: Vec<GpuCommand> = Vec::new();
    let s = Shader::build(&results(), &mut out).unwrap();
    out.clear();
    s.setup(&mut out);
    assert_eq!(out.len(), 3);
    assert!(matches!(out[0], GpuCommand::SetVertexShader { .. }));
    assert!(matches!(out[1], GpuCommand::SetPixelShader { .. }));
    assert!(matches!(out[2], GpuCommand::SetInputLayout { .. }));
}

#[test]
fn input_layout_has_position_then_color() {
    let d = Shader::input_layout_desc();
    assert_eq!(d.len(), 2);
    assert_eq!(d[0].semantic, Semantic::Position);
    assert_eq!(d[0].format, overlay::DXGI_FORMAT_R32G32B32_FLOAT);
    assert_eq!(d[0].format, 6);
    assert_eq!(d[0].aligned_byte_offset, 0);
    assert_eq!(d[1].semantic, Semantic::Color);
    assert_eq!(d[1].format, overlay::DXGI_FORMAT_R32G32B32A32_FLOAT);
    assert_eq!(d[1].format, 2);
    assert_eq!(d[1].aligned_byte_offset, 12);
    assert_eq!(d[0].input_slot_class, overlay::D3D11_INPUT_PER_VERTEX_DATA);
    assert_eq!(d[1].instance_data_step_rate, 0);
}

#[test]
fn index_format_selector_prefers_32_bit() {
    // 16-bit only for two-byte elements; the batch's four-byte indices
    // always take the 32-bit format.
    assert_eq!(index_format_for_size(2), IndexFormat::R16Uint);
    assert_eq!(index_format_for_size(4), IndexFormat::R32Uint);
    assert_eq!(index_format_for_size(overlay::INDEX_ELEMENT_BYTES), IndexFormat::R32Uint);
}

#[test]
fn buffer_descriptors_compute_byte_widths() {
    let v = vertex_buffer_desc(4);
    assert_eq!(v.byte_width, 4 * VERTEX_STRIDE_BYTES);
    assert_eq!(v.byte_width, 112);
    assert_eq!(v.usage, overlay::D3D11_USAGE_DEFAULT);
    assert_eq!(v.bind_flags, overlay::D3D11_BIND_VERTEX_BUFFER);
    assert_eq!(v.cpu_access_flags, 0);
    assert_eq!(v.misc_flags, 0);
    assert_eq!(v.structure_byte_stride, 0);
    let i = index_buffer_desc(6);
    assert_eq!(i.byte_width, 24);
    assert_eq!(i.bind_flags, overlay::D3D11_BIND_INDEX_BUFFER);
}

#[test]
fn swapchain_request_takes_the_client_size() {
    let r = swapchain_request(
        &Rect {
            left: 10,
            top: 20,
            right: 810,
            bottom: 620,
        },
        0x4000,
    );
    assert_eq!(r.width, 800);
    assert_eq!(r.height, 600);
    assert_eq!(r.refresh_numerator, 60);
    assert_eq!(r.refresh_denominator, 1);
    assert_eq!(r.format, overlay::DXGI_FORMAT_R8G8B8A8_UNORM);
    assert_eq!(r.sample_count, 1);
    assert_eq!(r.sample_quality, 0);
    assert_eq!(r.buffer_usage, overlay::DXGI_USAGE_RENDER_TARGET_OUTPUT);
    assert_eq!(r.buffer_count, 1);
    assert_eq!(r.output_window, 0x4000);
    assert!(r.windowed);
    assert_eq!(r.swap_effect, overlay::DXGI_SWAP_EFFECT_DISCARD);
    assert_eq!(r.flags, overlay::DXGI_SWAP_CHAIN_FLAG_ALLOW_MODE_SWITCH);
}
