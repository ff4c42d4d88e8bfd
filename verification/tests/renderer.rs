use overlay::{
    Color, D3dQueries, Direct3D, GpuCommand, IndexFormat, Point, Renderer, SwapChainDesc,
    VERTEX_STRIDE_BYTES,
};

fn queries(width: u32, height: u32) -> D3dQueries {
    D3dQueries {
        device: Some(0x1000),
        context: 0x2000,
        backbuffer: Some(0x3000),
        desc: Some(SwapChainDesc {
            width,
            height,
            output_window: 0x4000,
            format: 28,
        }),
    }
}

fn make_renderer(width: u32, height: u32) -> Renderer {
    let d3d: Direct3D = Direct3D::get(&queries(width, height)).unwrap();
    Renderer::create(&d3d, 0x5000, 0x6000)
}

const WHITE: Color = Color {
    r: 255,
    g: 255,
    b: 255,
    a: 255,
};

#[test]
fn flush_with_empty_lists_issues_no_commands() {
    let mut r = make_renderer(200, 100);
    let mut out: Vec<GpuCommand> = Vec::new();
    r.flush(&mut out);
    assert!(out.is_empty());
    assert!(r.vertices.is_empty());
    assert!(r.indices.is_empty());
    assert!(r.vertex_buffer.is_none());
    assert!(r.index_buffer.is_none());
}

#[test]
fn flush_clears_pending_lists() {
    let mut r = make_renderer(200, 100);
    let mut out: Vec<GpuCommand> = Vec::new();
    r.draw_line(Point { x: 0, y: 0 }, Point { x: 10, y: 0 }, WHITE, 2);
    assert_eq!(r.vertices.len(), 4);
    assert_eq!(r.indices.len(), 6);
    r.flush(&mut out);
    assert!(r.vertices.is_empty());
    assert!(r.indices.is_empty());
    // A second flush of the now-empty batch is a complete no-op.
    let n = out.len();
    r.flush(&mut out);
    assert_eq!(out.len(), n);
}

#[test]
fn first_flush_command_sequence() {
    let mut r = make_renderer(200, 100);
    let mut out: Vec<GpuCommand> = Vec::new();
    r.draw_line(Point { x: 0, y: 0 }, Point { x: 10, y: 0 }, WHITE, 2);
    r.flush(&mut out);
    assert_eq!(out.len(), 6);
    match &out[0] {
        GpuCommand::CreateVertexBuffer {
            buffer,
            desc,
            vertices,
        } => {
            assert_eq!(*buffer, 0);
            assert_eq!(desc.byte_width, 4 * VERTEX_STRIDE_BYTES);
            assert_eq!(desc.bind_flags, overlay::D3D11_BIND_VERTEX_BUFFER);
            assert_eq!(desc.usage, overlay::D3D11_USAGE_DEFAULT);
            assert_eq!(vertices.len(), 4);
        }
        c => panic!("unexpected command {:?}", std::mem::discriminant(c)),
    }
    assert!(matches!(
        out[1],
        GpuCommand::BindVertexBuffer {
            buffer: 0,
            stride: VERTEX_STRIDE_BYTES,
            offset: 0
        }
    ));
    match &out[2] {
        GpuCommand::CreateIndexBuffer {
            buffer,
            desc,
            indices,
        } => {
            assert_eq!(*buffer, 1);
            assert_eq!(desc.byte_width, 24);
            assert_eq!(desc.bind_flags, overlay::D3D11_BIND_INDEX_BUFFER);
            assert_eq!(indices, &vec![0, 1, 2, 0, 2, 3]);
        }
        c => panic!("unexpected command {:?}", std::mem::discriminant(c)),
    }
    assert!(matches!(
        out[3],
        GpuCommand::BindIndexBuffer {
            buffer: 1,
            format: IndexFormat::R32Uint,
            offset: 0
        }
    ));
    assert!(matches!(
        out[4],
        GpuCommand::DrawIndexed {
            index_count: 6,
            start_index: 0,
            base_vertex: 0
        }
    ));
    // The host's render-target pair is restored after the draw.
    match &out[5] {
        GpuCommand::SetRenderTargets { rtv, dsv } => {
            assert_eq!(rtv.unwrap().addr, 0x5000);
            assert_eq!(dsv.unwrap().addr, 0x6000);
        }
        c => panic!("unexpected command {:?}", std::mem::discriminant(c)),
    }
}

#[test]
fn second_flush_releases_previous_buffers() {
    let mut r = make_renderer(200, 100);
    let mut out: Vec<GpuCommand> = Vec::new();
    r.draw_line(Point { x: 0, y: 0 }, Point { x: 10, y: 0 }, WHITE, 2);
    r.flush(&mut out);
    out.clear();
    r.draw_line(Point { x: 0, y: 0 }, Point { x: 0, y: 10 }, WHITE, 2);
    r.flush(&mut out);
    assert_eq!(out.len(), 8);
    assert!(matches!(out[0], GpuCommand::ReleaseBuffer { buffer: 0 }));
    assert!(matches!(out[1], GpuCommand::CreateVertexBuffer { buffer: 2, .. }));
    assert!(matches!(out[3], GpuCommand::ReleaseBuffer { buffer: 1 }));
    assert!(matches!(out[4], GpuCommand::CreateIndexBuffer { buffer: 3, .. }));
}

#[test]
fn line_sequences_emit_four_vertices_six_indices_each() {
    let mut r = make_renderer(200, 100);
    let segments = [
        ((0, 0), (10, 0)),
        ((5, 5), (5, 25)),
        ((3, 3), (3, 3)), // degenerate: contributes nothing
        ((-10, -10), (20, 30)),
    ];
    let mut drawn = 0;
    for ((x0, y0), (x1, y1)) in segments {
        r.draw_line(
            Point { x: x0, y: y0 },
            Point { x: x1, y: y1 },
            WHITE,
            1,
        );
        if (x0, y0) != (x1, y1) {
            drawn += 1;
        }
        assert_eq!(r.vertices.len(), 4 * drawn);
        assert_eq!(r.indices.len(), 6 * drawn);
    }
    assert_eq!(drawn, 3);
}

#[test]
fn degenerate_line_is_silent_noop() {
    let mut r = make_renderer(200, 100);
    r.draw_line(Point { x: 7, y: 9 }, Point { x: 7, y: 9 }, WHITE, 5);
    assert!(r.vertices.is_empty());
    assert!(r.indices.is_empty());
}

#[test]
fn line_quad_geometry_is_exact() {
    // Horizontal segment (10,10)-(20,10), thickness 2, on a 100x100
    // surface: the normal is vertical, so the quad spans y = 9..11.
    let mut r = make_renderer(100, 100);
    r.draw_line(Point { x: 10, y: 10 }, Point { x: 20, y: 10 }, WHITE, 2);
    let v = &r.vertices;
    // v0 = (10,9): ndc (2*10-100)/100 = -80/100, (100-2*9)/100 = 82/100
    assert!(v[0].x.is_value(-80, 100));
    assert!(v[0].y.is_value(82, 100));
    // v1 = (20,9)
    assert!(v[1].x.is_value(-60, 100));
    assert!(v[1].y.is_value(82, 100));
    // v2 = (20,11)
    assert!(v[2].x.is_value(-60, 100));
    assert!(v[2].y.is_value(78, 100));
    // v3 = (10,11)
    assert!(v[3].x.is_value(-80, 100));
    assert!(v[3].y.is_value(78, 100));
    assert_eq!(r.indices, vec![0, 1, 2, 0, 2, 3]);
    assert_eq!(v[0].color, WHITE);
}

#[test]
fn zero_thickness_line_still_emits_its_quad() {
    // Only a zero-length segment is degenerate; a zero-thickness one
    // emits a quad whose two long edges coincide.
    let mut r = make_renderer(100, 100);
    r.draw_line(Point { x: 10, y: 10 }, Point { x: 20, y: 10 }, WHITE, 0);
    assert_eq!(r.vertices.len(), 4);
    assert!(r.vertices[0].x.is_value(-80, 100));
    assert!(r.vertices[0].y.is_value(80, 100));
    assert!(r.vertices[2].x.is_value(-60, 100));
    assert!(r.vertices[2].y.is_value(80, 100));
}

#[test]
fn negative_thickness_mirrors_the_offsets() {
    let mut r = make_renderer(100, 100);
    r.draw_line(Point { x: 10, y: 10 }, Point { x: 20, y: 10 }, WHITE, -2);
    // The same quad as thickness 2, walked from the other side.
    assert!(r.vertices[0].y.is_value(78, 100));
    assert!(r.vertices[2].y.is_value(82, 100));
    assert_eq!(r.vertices.len(), 4);
    assert_eq!(r.indices.len(), 6);
}

#[test]
fn rect_on_100_by_50_box_emits_16_vertices_24_indices() {
    let mut r = make_renderer(200, 100);
    r.draw_rect(Point { x: 0, y: 0 }, Point { x: 100, y: 50 }, WHITE, 2);
    assert_eq!(r.vertices.len(), 16);
    assert_eq!(r.indices.len(), 24);
}

#[test]
fn rect_degenerate_cases() {
    // A flat rectangle degenerates two opposite edges.
    let mut r = make_renderer(200, 100);
    r.draw_rect(Point { x: 0, y: 10 }, Point { x: 100, y: 10 }, WHITE, 2);
    assert_eq!(r.vertices.len(), 8);
    assert_eq!(r.indices.len(), 12);
    // A point degenerates all four.
    let mut r2 = make_renderer(200, 100);
    r2.draw_rect(Point { x: 5, y: 5 }, Point { x: 5, y: 5 }, WHITE, 2);
    assert!(r2.vertices.is_empty());
    assert!(r2.indices.is_empty());
}

#[test]
fn rect_filled_always_emits_one_quad() {
    let mut r = make_renderer(200, 100);
    r.draw_rect_filled(Point { x: 0, y: 0 }, Point { x: 100, y: 50 }, WHITE);
    assert_eq!(r.vertices.len(), 4);
    assert_eq!(r.indices.len(), 6);
    // A zero-area box still emits the quad.
    r.draw_rect_filled(Point { x: 30, y: 30 }, Point { x: 30, y: 30 }, WHITE);
    assert_eq!(r.vertices.len(), 8);
    assert_eq!(r.indices.len(), 12);
    assert_eq!(&r.indices[6..], &[4, 5, 6, 4, 6, 7]);
}

#[test]
fn coordinate_mapping_hits_the_ndc_corners() {
    // For resolution [200,100]: (0,0) -> (-1,1); (200,100) -> (1,-1);
    // (100,50) -> (0,0).
    let r = make_renderer(200, 100);
    let (x, y) = r.position_to_ndc(Point { x: 0, y: 0 });
    assert!(x.is_value(-1, 1));
    assert!(y.is_value(1, 1));
    let (x, y) = r.position_to_ndc(Point { x: 200, y: 100 });
    assert!(x.is_value(1, 1));
    assert!(y.is_value(-1, 1));
    let (x, y) = r.position_to_ndc(Point { x: 100, y: 50 });
    assert!(x.is_value(0, 1));
    assert!(y.is_value(0, 1));
}

#[test]
fn conversion_is_not_deferred_to_flush() {
    // Vertices already appended keep the resolution they were emitted
    // under, even if the resolution changes mid-batch.
    let mut r = make_renderer(200, 100);
    r.draw_rect_filled(Point { x: 0, y: 0 }, Point { x: 200, y: 100 }, WHITE);
    assert!(r.vertices[2].x.is_value(1, 1));
    r.resolution = overlay::Resolution {
        width: 400,
        height: 200,
    };
    r.draw_rect_filled(Point { x: 0, y: 0 }, Point { x: 200, y: 100 }, WHITE);
    // The old vertex still maps with the old resolution...
    assert!(r.vertices[2].x.is_value(1, 1));
    // ...while the new one used the new resolution.
    assert!(r.vertices[6].x.is_value(0, 1));
}

#[test]
fn draw_background_clears_overlay_target() {
    let mut r = make_renderer(200, 100);
    r.setup(Some(0x7000));
    let mut out: Vec<GpuCommand> = Vec::new();
    let red = Color {
        r: 255,
        g: 0,
        b: 0,
        a: 255,
    };
    r.draw_background(red, &mut out);
    match &out[0] {
        GpuCommand::ClearRenderTarget { rtv, color } => {
            assert_eq!(rtv.unwrap().addr, 0x7000);
            assert_eq!(*color, red);
        }
        c => panic!("unexpected command {:?}", std::mem::discriminant(c)),
    }
}

#[test]
fn release_restores_host_then_releases_owned() {
    let mut r = make_renderer(200, 100);
    r.setup(Some(0x7000));
    let mut out: Vec<GpuCommand> = Vec::new();
    r.draw_line(Point { x: 0, y: 0 }, Point { x: 10, y: 0 }, WHITE, 2);
    r.flush(&mut out);
    out.clear();
    r.release(&mut out);
    // Restoration comes first, so the device never stays bound to a
    // freed target; then the owned target and both buffers go.
    assert_eq!(out.len(), 4);
    match &out[0] {
        GpuCommand::SetRenderTargets { rtv, dsv } => {
            assert_eq!(rtv.unwrap().addr, 0x5000);
            assert_eq!(dsv.unwrap().addr, 0x6000);
        }
        c => panic!("unexpected command {:?}", std::mem::discriminant(c)),
    }
    match &out[1] {
        GpuCommand::ReleaseRenderTarget { rtv } => {
            assert_eq!(rtv.addr, 0x7000);
            assert_eq!(rtv.ownership, overlay::Ownership::Owned);
        }
        c => panic!("unexpected command {:?}", std::mem::discriminant(c)),
    }
    assert!(matches!(out[2], GpuCommand::ReleaseBuffer { buffer: 0 }));
    assert!(matches!(out[3], GpuCommand::ReleaseBuffer { buffer: 1 }));
    assert!(r.rtv.is_none());
    assert!(r.vertex_buffer.is_none());
    assert!(r.index_buffer.is_none());
}
