use overlay::{D3dQueries, Direct3D, DirectXGI, DxgiQueries, Ownership, SwapChainDesc};

fn desc() -> SwapChainDesc {
    SwapChainDesc {
        width: 1920,
        height: 1080,
        output_window: 0x4000,
        format: 28,
    }
}

fn queries() -> D3dQueries {
    D3dQueries {
        device: Some(0x1000),
        context: 0x2000,
        backbuffer: Some(0x3000),
        desc: Some(desc()),
    }
}

#[test]
fn resolution_succeeds_only_when_every_query_succeeded() {
    let d = Direct3D::get(&queries()).unwrap();
    assert_eq!(d.device.addr, 0x1000);
    assert_eq!(d.context.addr, 0x2000);
    assert_eq!(d.backbuffer.addr, 0x3000);
    assert_eq!(d.device.ownership, Ownership::Borrowed);
    assert_eq!(d.desc, desc());
    assert_eq!(d.hwnd, 0x4000);
    assert_eq!(d.resolution.width, 1920);
    assert_eq!(d.resolution.height, 1080);

    let mut q = queries();
    q.device = None;
    assert!(Direct3D::get(&q).is_none());
    let mut q = queries();
    q.backbuffer = None;
    assert!(Direct3D::get(&q).is_none());
    let mut q = queries();
    q.desc = None;
    assert!(Direct3D::get(&q).is_none());
}

#[test]
fn descriptor_accessors() {
    let d = desc();
    assert_eq!(Direct3D::get_hwnd(&d), 0x4000);
    let r = Direct3D::get_resolution(&d);
    assert_eq!((r.width, r.height), (1920, 1080));
}

#[test]
fn dxgi_resolution_short_circuits() {
    let q = DxgiQueries {
        device: Some(0x1100),
        adapter: Some(0x1200),
        surface: Some(0x1300),
    };
    let g = DirectXGI::get(0xAAAA, &q).unwrap();
    assert_eq!(g.swapchain.addr, 0xAAAA);
    assert_eq!(g.device.addr, 0x1100);
    assert_eq!(g.adapter.addr, 0x1200);
    assert_eq!(g.surface.addr, 0x1300);
    assert_eq!(g.surface.ownership, Ownership::Borrowed);

    for i in 0..3 {
        let mut q = DxgiQueries {
            device: Some(0x1100),
            adapter: Some(0x1200),
            surface: Some(0x1300),
        };
        match i {
            0 => q.device = None,
            1 => q.adapter = None,
            _ => q.surface = None,
        }
        assert!(DirectXGI::get(0xAAAA, &q).is_none());
    }
}
