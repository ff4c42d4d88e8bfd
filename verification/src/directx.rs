use vstd::prelude::*;
use crate::command::GpuCommand;
use crate::d3d::spec_d3d_of;
use crate::d3d::D3dQueries;
use crate::d3d::Direct3D;
use crate::dxgi::spec_dxgi_of;
use crate::dxgi::DirectXGI;
use crate::dxgi::DxgiQueries;
use crate::handle::Handle;
use crate::handle::Ownership;
use crate::renderer::spec_release_commands;
use crate::renderer::Renderer;
use crate::shader::spec_shader_build_release;
use crate::shader::spec_shader_of;
use crate::shader::spec_shader_setup_commands;
use crate::shader::Shader;
use crate::shader::ShaderBuildResults;

verus! {

/// Why a lifecycle operation failed, one variant per failure class.
#[derive(Clone, Copy, PartialEq, Eq, Structural, Debug)]
pub enum OverlayError {
    /// A platform query resolving surface or device handles failed.
    ResolutionFailed,
    /// A shader compilation or a state-object creation failed.
    CreationFailed,
    /// A memory allocation failed.
    AllocationFailed,
}

/// The lifecycle's explicit state.
#[derive(Clone, Copy, PartialEq, Eq, Structural, Debug)]
pub enum LifecycleState {
    /// Overlay resources are valid and agree with the cached surface
    /// identity.
    Bound,
    /// The resources must be rebuilt before the next use; drawing is not
    /// allowed.
    Stale,
    /// A rebuild failed mid-transition.  The failure must be acknowledged
    /// before any further lifecycle work, so that no caller keeps drawing
    /// against possibly invalid resources.
    Failed,
}

/// The platform results a rebuild consumes: the surface and DXGI
/// resolution queries, the host's current render-target pair read from
/// the context, and the overlay render-target view created from the new
/// back-buffer.
pub struct RebuildQueries {
    pub d3d: D3dQueries,
    pub dxgi: DxgiQueries,
    pub game_rtv: u64,
    pub game_dsv: u64,
    pub overlay_rtv: Option<u64>,
}

impl RebuildQueries {
    pub open spec fn wf(self) -> bool {
        self.d3d.wf()
    }

    pub open spec fn complete(self) -> bool {
        self.d3d.complete() && self.dxgi.complete() && self.overlay_rtv is Some
    }
}

/// The platform results `setup` consumes when the renderer does not
/// exist yet.
pub struct SetupQueries {
    pub game_rtv: u64,
    pub game_dsv: u64,
    pub overlay_rtv: Option<u64>,
}

/// The resource lifecycle: a surface binding, the pipeline state shared
/// across surface changes, and the batched renderer, kept in sync with
/// the observed presentation-surface identity.
pub struct DirectX {
    pub d3d: Direct3D,
    pub dxgi: DirectXGI,
    pub shader: Option<Shader>,
    pub renderer: Option<Renderer>,
    pub state: LifecycleState,
}

impl DirectX {
    /// Well-formedness: the bindings are well-formed and the renderer, if
    /// present, is a snapshot of the current surface binding.
    pub open spec fn wf(self) -> bool {
        &&& self.d3d.wf()
        &&& self.dxgi.wf()
        &&& self.shader matches Some(s) ==> s.wf()
        &&& self.renderer matches Some(r) ==> ({
            &&& r.wf()
            &&& r.device == self.d3d.device
            &&& r.context == self.d3d.context
            &&& r.backbuffer == self.d3d.backbuffer
            &&& r.resolution == self.d3d.resolution
        })
    }

    /// The identity test the lifecycle runs every frame: the cached
    /// surface handle against the observed one, by handle equality.
    pub open spec fn spec_same_surface(self, swapchain: u64) -> bool {
        self.dxgi.swapchain.addr == swapchain
    }

    /// Resolves a fresh lifecycle from one presentation surface.  Fails
    /// as a whole if any resolution query failed; pipeline state and
    /// renderer start absent and are created by `setup`.
    pub fn get(swapchain: u64, d3dq: &D3dQueries, dxgiq: &DxgiQueries) -> (r: Option<DirectX>)
        requires
            d3dq.wf(),
        ensures
            r is Some <==> d3dq.complete() && dxgiq.complete(),
            r matches Some(dx) ==> ({
                &&& dx.wf()
                &&& dx.state is Bound
                &&& dx.d3d == spec_d3d_of(*d3dq)
                &&& dx.dxgi == spec_dxgi_of(swapchain, *dxgiq)
                &&& dx.shader is None
                &&& dx.renderer is None
                &&& dx.spec_same_surface(swapchain)
            }),
    {
        let d3d = match Direct3D::get(d3dq) {
            Some(d) => d,
            None => { return None; },
        };
        let dxgi = match DirectXGI::get(swapchain, dxgiq) {
            Some(g) => g,
            None => { return None; },
        };
        Some(DirectX { d3d, dxgi, shader: None, renderer: None, state: LifecycleState::Bound })
    }

    /// Restores the host's render-target pair and releases everything the
    /// renderer owns, dropping the renderer.  The shader pipeline state
    /// and the borrowed surface handles are kept.
    pub fn release(&mut self, out: &mut Vec<GpuCommand>)
        requires
            old(self).wf(),
        ensures
            final(self).wf(),
            final(out)@ == old(out)@ + spec_lifecycle_release_commands(old(self).renderer),
            final(self).renderer is None,
            final(self).d3d == old(self).d3d,
            final(self).dxgi == old(self).dxgi,
            final(self).shader == old(self).shader,
            final(self).state == old(self).state,
    {
        let mut taken: Option<Renderer> = None;
        core::mem::swap(&mut self.renderer, &mut taken);
        match taken {
            Some(mut r) => {
                r.release(out);
            },
            None => {
                proof {
                    assert(out@ =~= old(out)@ + spec_lifecycle_release_commands(
                        old(self).renderer,
                    ));
                }
            },
        }
    }

    /// The per-frame surface watch.  While bound to the same surface
    /// identity this is a complete no-op.  On a change (or after an
    /// acknowledged failure) it releases the old overlay resources first
    /// — exactly one render-target release per previously owned target —
    /// then rebinds from the new queries, preserving the pipeline state
    /// and creating a fresh renderer with a newly derived overlay render
    /// target.  A failed rebuild enters the `Failed` state and keeps the
    /// old (now operationally invalid) binding for inspection.
    pub fn update(&mut self, swapchain: u64, q: &RebuildQueries, out: &mut Vec<GpuCommand>) -> (res:
        Result<(), OverlayError>)
        requires
            old(self).wf(),
            !(old(self).state is Failed),
            q.wf(),
        ensures
            final(self).wf(),
            old(self).state is Bound && old(self).spec_same_surface(swapchain) ==> ({
                &&& *final(self) == *old(self)
                &&& final(out)@ == old(out)@
                &&& res is Ok
            }),
            !(old(self).state is Bound && old(self).spec_same_surface(swapchain)) ==> ({
                &&& final(out)@ == old(out)@ + spec_lifecycle_release_commands(old(self).renderer)
                &&& (res is Ok <==> q.complete())
                &&& final(self).shader == old(self).shader
                &&& q.complete() ==> ({
                    &&& final(self).state is Bound
                    &&& final(self).d3d == spec_d3d_of(q.d3d)
                    &&& final(self).dxgi == spec_dxgi_of(swapchain, q.dxgi)
                    &&& final(self).spec_same_surface(swapchain)
                    &&& final(self).renderer matches Some(r) && ({
                        &&& r.game_rtv.addr == q.game_rtv
                        &&& r.game_dsv.addr == q.game_dsv
                        &&& r.rtv == Some(
                            Handle { addr: q.overlay_rtv->0, ownership: Ownership::Owned },
                        )
                        &&& r.vertices@.len() == 0
                        &&& r.indices@.len() == 0
                        &&& r.vertex_buffer is None
                        &&& r.index_buffer is None
                    })
                })
                &&& !q.complete() ==> ({
                    &&& final(self).state is Failed
                    &&& final(self).renderer is None
                    &&& final(self).d3d == old(self).d3d
                    &&& final(self).dxgi == old(self).dxgi
                    &&& (if !(q.d3d.complete() && q.dxgi.complete()) {
                        res == Err::<(), OverlayError>(OverlayError::ResolutionFailed)
                    } else {
                        res == Err::<(), OverlayError>(OverlayError::CreationFailed)
                    })
                })
            }),
    {
        if self.state == LifecycleState::Bound && self.dxgi.swapchain.addr == swapchain {
            return Ok(());
        }
        self.release(out);
        let dx = match Self::get(swapchain, &q.d3d, &q.dxgi) {
            Some(dx) => dx,
            None => {
                self.state = LifecycleState::Failed;
                return Err(OverlayError::ResolutionFailed);
            },
        };
        let overlay_rtv = match q.overlay_rtv {
            Some(a) => a,
            None => {
                self.state = LifecycleState::Failed;
                return Err(OverlayError::CreationFailed);
            },
        };
        let mut renderer = Renderer::create(&dx.d3d, q.game_rtv, q.game_dsv);
        renderer.setup(Some(overlay_rtv));
        self.d3d = dx.d3d;
        self.dxgi = dx.dxgi;
        self.renderer = Some(renderer);
        self.state = LifecycleState::Bound;
        Ok(())
    }

    /// Acknowledges a failed rebuild: the lifecycle leaves the `Failed`
    /// state and becomes `Stale`, so the next `update` may try again.
    pub fn acknowledge_failure(&mut self)
        requires
            old(self).wf(),
            old(self).state is Failed,
        ensures
            final(self).wf(),
            final(self).state is Stale,
            final(self).d3d == old(self).d3d,
            final(self).dxgi == old(self).dxgi,
            final(self).shader == old(self).shader,
            final(self).renderer == old(self).renderer,
    {
        self.state = LifecycleState::Stale;
    }

    /// Idempotent setup: builds the pipeline state only if it is absent,
    /// always (re-)binds it, and creates the renderer with a freshly
    /// derived overlay render target only if it is absent.  A failed
    /// shader build aborts with nothing changed; a failed render-target
    /// creation is surfaced after the renderer is stored, its overlay
    /// target absent.
    pub fn setup(
        &mut self,
        build: &ShaderBuildResults,
        q: &SetupQueries,
        out: &mut Vec<GpuCommand>,
    ) -> (res: Result<(), OverlayError>)
        requires
            old(self).wf(),
            old(self).state is Bound,
        ensures
            final(self).wf(),
            old(self).shader is None && !build.complete() ==> ({
                &&& *final(self) == *old(self)
                &&& final(out)@ == old(out)@
                &&& res == Err::<(), OverlayError>(OverlayError::CreationFailed)
            }),
            !(old(self).shader is None && !build.complete()) ==> ({
                let sh = if old(self).shader is Some {
                    old(self).shader->0
                } else {
                    spec_shader_of(*build)
                };
                &&& final(self).shader == Some(sh)
                &&& final(out)@ == old(out)@ + spec_shader_build_release(old(self).shader, *build)
                    + spec_shader_setup_commands(sh)
                &&& final(self).d3d == old(self).d3d
                &&& final(self).dxgi == old(self).dxgi
                &&& final(self).state == old(self).state
                &&& old(self).renderer is Some ==> final(self).renderer == old(self).renderer
                    && res is Ok
                &&& old(self).renderer is None ==> ({
                    &&& final(self).renderer matches Some(r) && ({
                        &&& r.game_rtv.addr == q.game_rtv
                        &&& r.game_dsv.addr == q.game_dsv
                        &&& (q.overlay_rtv matches Some(a) ==> r.rtv == Some(
                            Handle { addr: a, ownership: Ownership::Owned },
                        ))
                        &&& (q.overlay_rtv is None ==> r.rtv is None)
                        &&& r.vertices@.len() == 0
                        &&& r.indices@.len() == 0
                        &&& r.vertex_buffer is None
                        &&& r.index_buffer is None
                    })
                    &&& (res is Ok <==> q.overlay_rtv is Some)
                    &&& (q.overlay_rtv is None ==> res == Err::<(), OverlayError>(
                        OverlayError::CreationFailed,
                    ))
                })
            }),
    {
        if self.shader.is_none() {
            match Shader::build(build, out) {
                Some(sh) => {
                    self.shader = Some(sh);
                },
                None => {
                    return Err(OverlayError::CreationFailed);
                },
            }
        }
        match &self.shader {
            Some(sh) => {
                sh.setup(out);
            },
            None => {
                proof {
                    assert(false);
                }
            },
        }
        if self.renderer.is_none() {
            let mut renderer = Renderer::create(&self.d3d, q.game_rtv, q.game_dsv);
            renderer.setup(q.overlay_rtv);
            let created = renderer.rtv.is_some();
            self.renderer = Some(renderer);
            if !created {
                return Err(OverlayError::CreationFailed);
            }
        }
        Ok(())
    }

    /// Binds the overlay's own render-target pair and hands the renderer
    /// out for drawing.
    pub fn get_renderer(&mut self, out: &mut Vec<GpuCommand>) -> (r: &mut Renderer)
        requires
            old(self).wf(),
            old(self).state is Bound,
            old(self).renderer is Some,
        ensures
            *r == old(self).renderer->0,
            final(self).renderer == Some(*final(r)),
            final(self).d3d == old(self).d3d,
            final(self).dxgi == old(self).dxgi,
            final(self).shader == old(self).shader,
            final(self).state == old(self).state,
            final(out)@ == old(out)@.push(GpuCommand::SetRenderTargets {
                rtv: old(self).renderer->0.rtv,
                dsv: old(self).renderer->0.dsv,
            }),
    {
        if let Some(r) = &mut self.renderer {
            r.set_own_render(out);
            r
        } else {
            vstd::pervasive::unreached()
        }
    }
}

/// The release commands one lifecycle release emits: nothing when no
/// renderer exists, otherwise the renderer's own release sequence, which
/// holds exactly one render-target release exactly when an overlay
/// target was owned.
pub open spec fn spec_lifecycle_release_commands(r: Option<Renderer>) -> Seq<GpuCommand> {
    match r {
        Some(rr) => spec_release_commands(rr),
        None => Seq::empty(),
    }
}

} // verus!
