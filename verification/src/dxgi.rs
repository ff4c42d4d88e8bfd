use vstd::prelude::*;
use crate::handle::Handle;
use crate::handle::Ownership;

verus! {

/// The results of the three interface queries that walk from the device
/// and back-buffer to their DXGI-side objects, handed in by the platform
/// layer.  `None` records a failed query.
pub struct DxgiQueries {
    pub device: Option<u64>,
    pub adapter: Option<u64>,
    pub surface: Option<u64>,
}

impl DxgiQueries {
    pub open spec fn complete(self) -> bool {
        self.device is Some && self.adapter is Some && self.surface is Some
    }
}

/// The snapshot that a successful DXGI resolution pass over complete
/// query results publishes.
pub open spec fn spec_dxgi_of(swapchain: u64, q: DxgiQueries) -> DirectXGI {
    DirectXGI {
        swapchain: Handle { addr: swapchain, ownership: Ownership::Borrowed },
        device: Handle { addr: q.device->0, ownership: Ownership::Borrowed },
        adapter: Handle { addr: q.adapter->0, ownership: Ownership::Borrowed },
        surface: Handle { addr: q.surface->0, ownership: Ownership::Borrowed },
    }
}

/// The DXGI-side handles behind one presentation surface: the surface
/// itself, its device and adapter, and the back-buffer's surface
/// interface.  The swap-surface handle is the identity the resource
/// lifecycle compares against; all handles are borrowed.
#[derive(Clone, Copy, PartialEq, Eq, Structural, Debug)]
pub struct DirectXGI {
    pub swapchain: Handle,
    pub device: Handle,
    pub adapter: Handle,
    pub surface: Handle,
}

impl DirectXGI {
    pub open spec fn wf(self) -> bool {
        &&& self.swapchain.ownership is Borrowed
        &&& self.device.ownership is Borrowed
        &&& self.adapter.ownership is Borrowed
        &&& self.surface.ownership is Borrowed
    }

    /// Assembles the DXGI snapshot from the platform's query results; any
    /// failed sub-query aborts the whole snapshot.
    pub fn get(swapchain: u64, q: &DxgiQueries) -> (r: Option<DirectXGI>)
        ensures
            r is Some <==> q.complete(),
            r matches Some(g) ==> g == spec_dxgi_of(swapchain, *q) && g.wf(),
    {
        let device = match q.device {
            Some(a) => Handle::borrowed(a),
            None => { return None; },
        };
        let adapter = match q.adapter {
            Some(a) => Handle::borrowed(a),
            None => { return None; },
        };
        let surface = match q.surface {
            Some(a) => Handle::borrowed(a),
            None => { return None; },
        };
        Some(DirectXGI { swapchain: Handle::borrowed(swapchain), device, adapter, surface })
    }
}

} // verus!
