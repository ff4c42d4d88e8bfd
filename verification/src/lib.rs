//! A verified model of an immediate-mode 2D overlay for an externally owned
//! 3D presentation surface.
//!
//! The library tracks a device/swap-surface pair through opaque handles,
//! keeps an overlay render target in sync with the surface identity,
//! batches line and rectangle primitives into vertex/index lists, and
//! emits the graphics work as an explicit command sequence that a thin
//! platform layer executes.  Everything that decides — surface-change
//! detection, release-before-rebuild ordering, batching, coordinate
//! conversion, vtable snapshot assembly — is verified here; the raw
//! platform calls live outside the library and only hand plain values in.

mod command;
mod d3d;
mod directx;
mod dxgi;
mod handle;
mod math;
mod renderer;
mod shader;
mod vertex;
mod vtable;
mod window_class_handle;
mod window_handle;

pub use command::BufferDesc;
pub use command::GpuCommand;
pub use command::IndexFormat;
pub use command::index_buffer_desc;
pub use command::index_format_for_size;
pub use command::vertex_buffer_desc;
pub use command::D3D11_BIND_INDEX_BUFFER;
pub use command::D3D11_BIND_VERTEX_BUFFER;
pub use command::D3D11_USAGE_DEFAULT;
pub use d3d::spec_d3d_of;
pub use d3d::swapchain_request;
pub use d3d::D3dQueries;
pub use d3d::Direct3D;
pub use d3d::Rect;
pub use d3d::SwapChainDesc;
pub use d3d::SwapChainRequest;
pub use d3d::DXGI_FORMAT_R8G8B8A8_UNORM;
pub use d3d::DXGI_SWAP_CHAIN_FLAG_ALLOW_MODE_SWITCH;
pub use d3d::DXGI_SWAP_EFFECT_DISCARD;
pub use d3d::DXGI_USAGE_RENDER_TARGET_OUTPUT;
pub use directx::spec_lifecycle_release_commands;
pub use directx::DirectX;
pub use directx::LifecycleState;
pub use directx::OverlayError;
pub use directx::RebuildQueries;
pub use directx::SetupQueries;
pub use dxgi::spec_dxgi_of;
pub use dxgi::DirectXGI;
pub use dxgi::DxgiQueries;
pub use handle::Handle;
pub use handle::Ownership;
pub use renderer::count_segments_drawn;
pub use renderer::lemma_line_batch_counts;
pub use renderer::line_batch;
pub use renderer::line_step;
pub use renderer::spec_filled_vertices;
pub use renderer::spec_flush_commands;
pub use renderer::spec_flush_len;
pub use renderer::spec_line_offset_x;
pub use renderer::spec_line_offset_y;
pub use renderer::spec_line_vertices;
pub use renderer::spec_quad_indices;
pub use renderer::spec_rect_segments;
pub use renderer::spec_release_commands;
pub use renderer::spec_segment_degenerate;
pub use renderer::spec_segment_in_bounds;
pub use renderer::Renderer;
pub use renderer::Segment;
pub use renderer::INDEX_ELEMENT_BYTES;
pub use renderer::MAX_BATCH_VERTICES;
pub use shader::spec_input_layout_desc;
pub use shader::spec_shader_build_release;
pub use shader::spec_shader_of;
pub use shader::spec_shader_setup_commands;
pub use shader::InputElementDesc;
pub use shader::Semantic;
pub use shader::Shader;
pub use shader::ShaderBuildResults;
pub use shader::D3D11_INPUT_PER_VERTEX_DATA;
pub use shader::DXGI_FORMAT_R32G32B32A32_FLOAT;
pub use shader::DXGI_FORMAT_R32G32B32_FLOAT;
pub use vtable::VTable;
pub use vtable::CONTEXT_METHODS;
pub use vtable::DEVICE_METHODS;
pub use vtable::SWAPCHAIN_METHODS;
pub use vtable::TOTAL_METHODS;
pub use window_class_handle::encode_utf16z;
pub use window_class_handle::spec_utf16;
pub use window_class_handle::spec_utf16_units;
pub use window_class_handle::spec_utf16z;
pub use window_class_handle::WindowClassHandle;
pub use window_class_handle::CS_HREDRAW;
pub use window_class_handle::CS_VREDRAW;
pub use window_handle::WindowHandle;
pub use window_handle::WS_OVERLAPPEDWINDOW;
pub use vertex::spec_ndc_x;
pub use vertex::spec_ndc_y;
pub use vertex::spec_vertex;
pub use vertex::Color;
pub use vertex::Ndc;
pub use vertex::Point;
pub use vertex::Resolution;
pub use vertex::Vertex;
pub use vertex::MAX_COORD;
pub use vertex::POSITION_LIMIT;
pub use vertex::VERTEX_STRIDE_BYTES;
