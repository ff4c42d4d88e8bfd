use vstd::prelude::*;
use crate::handle::Handle;
use crate::vertex::Resolution;

verus! {

/// `DXGI_FORMAT_R8G8B8A8_UNORM`, the back-buffer format requested when
/// this library creates a surface of its own.
pub const DXGI_FORMAT_R8G8B8A8_UNORM: u32 = 28;

/// `DXGI_USAGE_RENDER_TARGET_OUTPUT`: the buffer is drawn into.
pub const DXGI_USAGE_RENDER_TARGET_OUTPUT: u32 = 0x20;

/// `DXGI_SWAP_EFFECT_DISCARD`: buffer contents are discarded after present.
pub const DXGI_SWAP_EFFECT_DISCARD: u32 = 0;

/// `DXGI_SWAP_CHAIN_FLAG_ALLOW_MODE_SWITCH`: mode switches are allowed.
pub const DXGI_SWAP_CHAIN_FLAG_ALLOW_MODE_SWITCH: u32 = 2;

/// The fields of a presentation surface's descriptor that this library
/// reads: the buffer dimensions and the identity of the output window.
#[derive(Clone, Copy, PartialEq, Eq, Structural, Debug)]
pub struct SwapChainDesc {
    pub width: u32,
    pub height: u32,
    pub output_window: u64,
    pub format: u32,
}

impl SwapChainDesc {
    /// A descriptor of a presentable surface: both dimensions are at least
    /// one pixel.
    pub open spec fn wf(self) -> bool {
        self.width >= 1 && self.height >= 1
    }
}

/// The results of the four platform queries that resolve a presentation
/// surface into device-family handles, handed in by the platform layer.
/// `None` records that the corresponding query failed.  The immediate
/// context query reports no failure, matching the platform call.
pub struct D3dQueries {
    pub device: Option<u64>,
    pub context: u64,
    pub backbuffer: Option<u64>,
    pub desc: Option<SwapChainDesc>,
}

impl D3dQueries {
    /// A resolved descriptor always describes a presentable surface.
    pub open spec fn wf(self) -> bool {
        self.desc matches Some(d) ==> d.wf()
    }

    pub open spec fn complete(self) -> bool {
        self.device is Some && self.backbuffer is Some && self.desc is Some
    }
}

/// The snapshot that a successful resolution pass over complete query
/// results `q` publishes.
pub open spec fn spec_d3d_of(q: D3dQueries) -> Direct3D {
    Direct3D {
        device: Handle { addr: q.device->0, ownership: crate::handle::Ownership::Borrowed },
        context: Handle { addr: q.context, ownership: crate::handle::Ownership::Borrowed },
        backbuffer: Handle { addr: q.backbuffer->0, ownership: crate::handle::Ownership::Borrowed },
        desc: q.desc->0,
        hwnd: q.desc->0.output_window,
        resolution: Resolution { width: q.desc->0.width, height: q.desc->0.height },
    }
}

/// A snapshot of the device-family handles behind one presentation
/// surface.  All fields come from a single resolution pass and are never
/// partially updated; the handles are borrowed from the platform and are
/// never released by this library.
#[derive(Clone, Copy, PartialEq, Eq, Structural, Debug)]
pub struct Direct3D {
    pub device: Handle,
    pub context: Handle,
    pub backbuffer: Handle,
    pub desc: SwapChainDesc,
    pub hwnd: u64,
    pub resolution: Resolution,
}

impl Direct3D {
    pub open spec fn wf(self) -> bool {
        &&& self.device.ownership is Borrowed
        &&& self.context.ownership is Borrowed
        &&& self.backbuffer.ownership is Borrowed
        &&& self.desc.wf()
        &&& self.hwnd == self.desc.output_window
        &&& self.resolution == (Resolution { width: self.desc.width, height: self.desc.height })
    }

    /// Assembles the binding from the platform's query results.  Any
    /// failed sub-query aborts the whole binding: no partial snapshot is
    /// ever published.
    pub fn get(q: &D3dQueries) -> (r: Option<Direct3D>)
        requires
            q.wf(),
        ensures
            r is Some <==> q.complete(),
            r matches Some(d) ==> d == spec_d3d_of(*q) && d.wf(),
    {
        let device = match q.device {
            Some(a) => Handle::borrowed(a),
            None => { return None; },
        };
        let context = Handle::borrowed(q.context);
        let backbuffer = match q.backbuffer {
            Some(a) => Handle::borrowed(a),
            None => { return None; },
        };
        let desc = match q.desc {
            Some(d) => d,
            None => { return None; },
        };
        let hwnd = Self::get_hwnd(&desc);
        let resolution = Self::get_resolution(&desc);
        Some(Direct3D { device, context, backbuffer, desc, hwnd, resolution })
    }

    /// The identity of the window the surface presents into.
    pub fn get_hwnd(desc: &SwapChainDesc) -> (r: u64)
        ensures
            r == desc.output_window,
    {
        desc.output_window
    }

    /// The pixel resolution recorded in the surface descriptor.
    pub fn get_resolution(desc: &SwapChainDesc) -> (r: Resolution)
        ensures
            r == (Resolution { width: desc.width, height: desc.height }),
    {
        Resolution { width: desc.width, height: desc.height }
    }
}

/// A client rectangle in screen coordinates, as the platform's window
/// query reports it.
#[derive(Clone, Copy, PartialEq, Eq, Structural, Debug)]
pub struct Rect {
    pub left: i32,
    pub top: i32,
    pub right: i32,
    pub bottom: i32,
}

impl Rect {
    /// A client rectangle never extends leftward or upward.
    pub open spec fn wf(self) -> bool {
        self.left <= self.right && self.top <= self.bottom
    }
}

/// Everything the platform needs to create a device and surface pair for a
/// window, mirroring the swap-chain description the device handshake
/// passes: a single R8G8B8A8 back buffer at the client size, 60 Hz,
/// windowed, discard-on-present, mode switches allowed.
#[derive(Clone, Copy, PartialEq, Eq, Structural, Debug)]
pub struct SwapChainRequest {
    pub width: u32,
    pub height: u32,
    pub refresh_numerator: u32,
    pub refresh_denominator: u32,
    pub format: u32,
    pub scanline_ordering: u32,
    pub scaling: u32,
    pub sample_count: u32,
    pub sample_quality: u32,
    pub buffer_usage: u32,
    pub buffer_count: u32,
    pub output_window: u64,
    pub windowed: bool,
    pub swap_effect: u32,
    pub flags: u32,
}

/// The request the device-and-surface handshake is made with, sized to the
/// window's client rectangle.
pub fn swapchain_request(rect: &Rect, hwnd: u64) -> (r: SwapChainRequest)
    requires
        rect.wf(),
    ensures
        r == (SwapChainRequest {
            width: (rect.right - rect.left) as u32,
            height: (rect.bottom - rect.top) as u32,
            refresh_numerator: 60,
            refresh_denominator: 1,
            format: DXGI_FORMAT_R8G8B8A8_UNORM,
            scanline_ordering: 0,
            scaling: 0,
            sample_count: 1,
            sample_quality: 0,
            buffer_usage: DXGI_USAGE_RENDER_TARGET_OUTPUT,
            buffer_count: 1,
            output_window: hwnd,
            windowed: true,
            swap_effect: DXGI_SWAP_EFFECT_DISCARD,
            flags: DXGI_SWAP_CHAIN_FLAG_ALLOW_MODE_SWITCH,
        }),
{
    SwapChainRequest {
        width: (rect.right as i64 - rect.left as i64) as u32,
        height: (rect.bottom as i64 - rect.top as i64) as u32,
        refresh_numerator: 60,
        refresh_denominator: 1,
        format: DXGI_FORMAT_R8G8B8A8_UNORM,
        scanline_ordering: 0,
        scaling: 0,
        sample_count: 1,
        sample_quality: 0,
        buffer_usage: DXGI_USAGE_RENDER_TARGET_OUTPUT,
        buffer_count: 1,
        output_window: hwnd,
        windowed: true,
        swap_effect: DXGI_SWAP_EFFECT_DISCARD,
        flags: DXGI_SWAP_CHAIN_FLAG_ALLOW_MODE_SWITCH,
    }
}

} // verus!
