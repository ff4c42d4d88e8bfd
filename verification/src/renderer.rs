use vstd::prelude::*;
use crate::command::GpuCommand;
use crate::command::IndexFormat;
use crate::command::is_create_index_buffer;
use crate::command::is_create_vertex_buffer;
use crate::command::spec_index_buffer_desc;
use crate::command::spec_vertex_buffer_desc;
use crate::command::index_buffer_desc;
use crate::command::index_format_for_size;
use crate::command::vertex_buffer_desc;
use crate::d3d::Direct3D;
use crate::handle::Handle;
use crate::handle::Ownership;
use crate::math::div_toward_zero;
use crate::math::isqrt;
use crate::math::spec_div_toward_zero;
use crate::math::spec_isqrt;
use crate::vertex::spec_ndc_x;
use crate::vertex::spec_ndc_y;
use crate::vertex::spec_vertex;
use crate::vertex::Color;
use crate::vertex::Ndc;
use crate::vertex::Point;
use crate::vertex::Resolution;
use crate::vertex::Vertex;
use crate::vertex::MAX_COORD;
use crate::vertex::POSITION_LIMIT;
use crate::vertex::VERTEX_STRIDE_BYTES;

verus! {

/// Largest number of vertices one batch may hold; keeps every byte width
/// and count inside 32 bits.
pub const MAX_BATCH_VERTICES: usize = 0x800_0000;

/// One requested line segment: the inputs of a single `draw_line` call.
#[derive(Clone, Copy, PartialEq, Eq, Structural, Debug)]
pub struct Segment {
    pub start: Point,
    pub end: Point,
    pub color: Color,
    pub thickness: i64,
}

/// A zero-length segment emits no geometry.
pub open spec fn spec_segment_degenerate(seg: Segment) -> bool {
    seg.start == seg.end
}

/// Coordinates and thickness a segment may carry.
pub open spec fn spec_segment_in_bounds(seg: Segment) -> bool {
    &&& -MAX_COORD <= seg.start.x <= MAX_COORD
    &&& -MAX_COORD <= seg.start.y <= MAX_COORD
    &&& -MAX_COORD <= seg.end.x <= MAX_COORD
    &&& -MAX_COORD <= seg.end.y <= MAX_COORD
    &&& -MAX_COORD <= seg.thickness <= MAX_COORD
}

/// The integer length of the vector `(dx, dy)`.
pub open spec fn spec_line_len(dx: int, dy: int) -> int {
    spec_isqrt((dx * dx + dy * dy) as nat) as int
}

/// The horizontal half-thickness offset: the X component of the unit
/// normal `(-dy, dx) / len` scaled by `thickness / 2`.
pub open spec fn spec_line_offset_x(dx: int, dy: int, thickness: int) -> int {
    spec_div_toward_zero(-dy * thickness, 2 * spec_line_len(dx, dy))
}

/// The vertical half-thickness offset: the Y component of the unit normal
/// scaled by `thickness / 2`.
pub open spec fn spec_line_offset_y(dx: int, dy: int, thickness: int) -> int {
    spec_div_toward_zero(dx * thickness, 2 * spec_line_len(dx, dy))
}

/// The four vertices of the quad covering a non-degenerate segment: the
/// two endpoints displaced by the half-thickness normal to either side,
/// each converted to NDC at emission time.
pub open spec fn spec_line_vertices(seg: Segment, res: Resolution) -> Seq<Vertex> {
    let dx = seg.end.x - seg.start.x;
    let dy = seg.end.y - seg.start.y;
    let ox = spec_line_offset_x(dx, dy, seg.thickness as int);
    let oy = spec_line_offset_y(dx, dy, seg.thickness as int);
    seq![
        spec_vertex(seg.start.x - ox, seg.start.y - oy, seg.color, res),
        spec_vertex(seg.end.x - ox, seg.end.y - oy, seg.color, res),
        spec_vertex(seg.end.x + ox, seg.end.y + oy, seg.color, res),
        spec_vertex(seg.start.x + ox, seg.start.y + oy, seg.color, res),
    ]
}

/// The six indices splitting a quad whose first vertex sits at `base`
/// into two triangles.
pub open spec fn spec_quad_indices(base: int) -> Seq<u32> {
    seq![
        base as u32,
        (base + 1) as u32,
        (base + 2) as u32,
        base as u32,
        (base + 2) as u32,
        (base + 3) as u32,
    ]
}

/// The effect of one `draw_line` call on the pending batch.
pub open spec fn line_step(
    vs: Seq<Vertex>,
    ix: Seq<u32>,
    seg: Segment,
    res: Resolution,
) -> (Seq<Vertex>, Seq<u32>) {
    if spec_segment_degenerate(seg) {
        (vs, ix)
    } else {
        (vs + spec_line_vertices(seg, res), ix + spec_quad_indices(vs.len() as int))
    }
}

/// The effect of a whole sequence of `draw_line` calls, first to last.
pub open spec fn line_batch(
    vs: Seq<Vertex>,
    ix: Seq<u32>,
    segs: Seq<Segment>,
    res: Resolution,
) -> (Seq<Vertex>, Seq<u32>)
    decreases segs.len(),
{
    if segs.len() == 0 {
        (vs, ix)
    } else {
        let stepped = line_step(vs, ix, segs[0], res);
        line_batch(stepped.0, stepped.1, segs.drop_first(), res)
    }
}

/// The four edges of the axis-aligned rectangle with opposite corners
/// `start` and `end`, walked top, right, bottom, left.  Corner joins are
/// not mitered: adjacent edge quads simply overlap.
pub open spec fn spec_rect_segments(
    start: Point,
    end: Point,
    color: Color,
    thickness: i64,
) -> Seq<Segment> {
    let tl = Point { x: start.x, y: start.y };
    let tr = Point { x: end.x, y: start.y };
    let br = Point { x: end.x, y: end.y };
    let bl = Point { x: start.x, y: end.y };
    seq![
        Segment { start: tl, end: tr, color, thickness },
        Segment { start: tr, end: br, color, thickness },
        Segment { start: br, end: bl, color, thickness },
        Segment { start: bl, end: tl, color, thickness },
    ]
}

/// The four corner vertices of the filled axis-aligned rectangle with
/// opposite corners `start` and `end`.
pub open spec fn spec_filled_vertices(
    start: Point,
    end: Point,
    color: Color,
    res: Resolution,
) -> Seq<Vertex> {
    seq![
        spec_vertex(start.x as int, start.y as int, color, res),
        spec_vertex(end.x as int, start.y as int, color, res),
        spec_vertex(end.x as int, end.y as int, color, res),
        spec_vertex(start.x as int, end.y as int, color, res),
    ]
}

/// How many of the segments are non-degenerate and so contribute a quad.
pub open spec fn count_segments_drawn(segs: Seq<Segment>) -> int
    decreases segs.len(),
{
    if segs.len() == 0 {
        0
    } else {
        (if spec_segment_degenerate(segs[0]) { 0int } else { 1int })
            + count_segments_drawn(segs.drop_first())
    }
}

/// For every sequence of `draw_line` requests: each non-degenerate
/// segment contributes exactly four vertices and six indices to the
/// batch, and each degenerate one contributes nothing.
pub proof fn lemma_line_batch_counts(
    vs: Seq<Vertex>,
    ix: Seq<u32>,
    segs: Seq<Segment>,
    res: Resolution,
)
    ensures
        line_batch(vs, ix, segs, res).0.len() == vs.len() + 4 * count_segments_drawn(segs),
        line_batch(vs, ix, segs, res).1.len() == ix.len() + 6 * count_segments_drawn(segs),
    decreases segs.len(),
{
    if segs.len() > 0 {
        let stepped = line_step(vs, ix, segs[0], res);
        lemma_line_batch_counts(stepped.0, stepped.1, segs.drop_first(), res);
    }
}

/// The release commands for a previously created buffer, if one exists.
pub open spec fn spec_release_buffer_cmds(b: Option<u64>) -> Seq<GpuCommand> {
    match b {
        Some(id) => seq![GpuCommand::ReleaseBuffer { buffer: id }],
        None => Seq::empty(),
    }
}

/// How many commands one non-empty flush of renderer state `r` emits.
pub open spec fn spec_flush_len(r: Renderer) -> int {
    6 + (if r.vertex_buffer is Some { 1int } else { 0int })
        + (if r.index_buffer is Some { 1int } else { 0int })
}

/// The command block a non-empty flush of pre-state `r` appends to the
/// stream `s` starting at position `base`: release the previous vertex
/// buffer if any, create and bind a new one from the pending vertices,
/// the same for the index buffer, one indexed draw over the whole batch,
/// and finally the restoration of the host's render-target pair.
pub open spec fn spec_flush_commands(r: Renderer, s: Seq<GpuCommand>, base: int) -> bool {
    let kv: int = if r.vertex_buffer is Some { 1int } else { 0int };
    let ki: int = if r.index_buffer is Some { 1int } else { 0int };
    &&& (r.vertex_buffer matches Some(id) ==> s[base] == (GpuCommand::ReleaseBuffer {
        buffer: id,
    }))
    &&& is_create_vertex_buffer(
        s[base + kv],
        r.next_buffer_id,
        spec_vertex_buffer_desc(r.vertices@.len() as int),
        r.vertices@,
    )
    &&& s[base + kv + 1] == (GpuCommand::BindVertexBuffer {
        buffer: r.next_buffer_id,
        stride: VERTEX_STRIDE_BYTES,
        offset: 0,
    })
    &&& (r.index_buffer matches Some(id) ==> s[base + kv + 2] == (GpuCommand::ReleaseBuffer {
        buffer: id,
    }))
    &&& is_create_index_buffer(
        s[base + kv + ki + 2],
        (r.next_buffer_id + 1) as u64,
        spec_index_buffer_desc(r.indices@.len() as int),
        r.indices@,
    )
    &&& s[base + kv + ki + 3] == (GpuCommand::BindIndexBuffer {
        buffer: (r.next_buffer_id + 1) as u64,
        format: IndexFormat::R32Uint,
        offset: 0,
    })
    &&& s[base + kv + ki + 4] == (GpuCommand::DrawIndexed {
        index_count: r.indices@.len() as u32,
        start_index: 0,
        base_vertex: 0,
    })
    &&& s[base + kv + ki + 5] == (GpuCommand::SetRenderTargets {
        rtv: Some(r.game_rtv),
        dsv: Some(r.game_dsv),
    })
}

/// The commands a release of renderer state `r` emits: restore the host's
/// render-target pair first, so the device never stays bound to a freed
/// target, then release the owned overlay target and any buffers.
pub open spec fn spec_release_commands(r: Renderer) -> Seq<GpuCommand> {
    seq![
        GpuCommand::SetRenderTargets { rtv: Some(r.game_rtv), dsv: Some(r.game_dsv) },
    ] + (match r.rtv {
        Some(h) => seq![GpuCommand::ReleaseRenderTarget { rtv: h }],
        None => Seq::empty(),
    }) + spec_release_buffer_cmds(r.vertex_buffer) + spec_release_buffer_cmds(r.index_buffer)
}

/// Copies a list of plain values.
pub(crate) fn copy_list<T: Copy>(v: &Vec<T>) -> (r: Vec<T>)
    ensures
        r@ == v@,
{
    let mut r: Vec<T> = Vec::new();
    let mut i: usize = 0;
    while i < v.len()
        invariant
            i <= v@.len(),
            r@ == v@.take(i as int),
        decreases v@.len() - i,
    {
        r.push(v[i]);
        proof {
            assert(v@.take(i as int + 1) =~= v@.take(i as int).push(v@[i as int]));
        }
        i = i + 1;
    }
    proof {
        assert(v@.take(v@.len() as int) =~= v@);
    }
    r
}

/// Byte size of one index element.  Indices are 32-bit throughout.
pub const INDEX_ELEMENT_BYTES: u32 = 4;

/// The immediate-mode batched 2D renderer.  Drawing calls append to the
/// in-memory vertex and index lists; `flush` turns the whole batch into
/// one buffer upload plus a single indexed draw, emitted on the command
/// stream, and then restores the host's render-target pair.
pub struct Renderer {
    /// Borrowed device-family handles, snapshots of the current binding.
    pub device: Handle,
    pub context: Handle,
    pub backbuffer: Handle,
    /// Pixel size of the surface; fixes the pixel-to-NDC map.
    pub resolution: Resolution,
    /// The host's own render-target pair, captured once and only ever
    /// restored, never released.
    pub game_rtv: Handle,
    pub game_dsv: Handle,
    /// The overlay's own pair, created from the back-buffer and released
    /// on every rebuild.  The depth-stencil side is never created by this
    /// strictly 2D overlay and stays absent.
    pub rtv: Option<Handle>,
    pub dsv: Option<Handle>,
    /// Ids of the buffers uploaded by the previous flush, if any.
    pub vertex_buffer: Option<u64>,
    pub vertex_stride: u32,
    pub vertex_count: u32,
    pub index_buffer: Option<u64>,
    pub index_count: u32,
    /// The pending batch.
    pub vertices: Vec<Vertex>,
    pub indices: Vec<u32>,
    /// Next unused buffer id.
    pub next_buffer_id: u64,
}

impl Renderer {
    /// Well-formedness: the surface has positive size, the batch is small
    /// enough to upload, every index points at a batched vertex, each
    /// primitive contributed four vertices and six indices, borrowed
    /// handles stay borrowed and owned handles stay owned.
    pub open spec fn wf(self) -> bool {
        &&& self.resolution.width >= 1
        &&& self.resolution.height >= 1
        &&& self.vertices@.len() <= MAX_BATCH_VERTICES
        &&& 2 * self.indices@.len() == 3 * self.vertices@.len()
        &&& forall|i: int| 0 <= i < self.indices@.len() ==> (self.indices@[i] as int) < self.vertices@.len()
        &&& self.device.ownership is Borrowed
        &&& self.context.ownership is Borrowed
        &&& self.backbuffer.ownership is Borrowed
        &&& self.game_rtv.ownership is Borrowed
        &&& self.game_dsv.ownership is Borrowed
        &&& self.rtv matches Some(h) ==> h.ownership is Owned
        &&& self.dsv is None
    }

    /// All fields other than the pending batch agree.
    pub open spec fn same_except_batch(a: Renderer, b: Renderer) -> bool {
        &&& b.device == a.device
        &&& b.context == a.context
        &&& b.backbuffer == a.backbuffer
        &&& b.resolution == a.resolution
        &&& b.game_rtv == a.game_rtv
        &&& b.game_dsv == a.game_dsv
        &&& b.rtv == a.rtv
        &&& b.dsv == a.dsv
        &&& b.vertex_buffer == a.vertex_buffer
        &&& b.vertex_stride == a.vertex_stride
        &&& b.vertex_count == a.vertex_count
        &&& b.index_buffer == a.index_buffer
        &&& b.index_count == a.index_count
        &&& b.next_buffer_id == a.next_buffer_id
    }

    /// The surface-binding fields agree; buffer bookkeeping may differ.
    pub open spec fn same_surface(a: Renderer, b: Renderer) -> bool {
        &&& b.device == a.device
        &&& b.context == a.context
        &&& b.backbuffer == a.backbuffer
        &&& b.resolution == a.resolution
        &&& b.game_rtv == a.game_rtv
        &&& b.game_dsv == a.game_dsv
        &&& b.rtv == a.rtv
        &&& b.dsv == a.dsv
    }

    /// A fresh renderer over a resolved surface binding.  The host's
    /// current render-target pair, read by the platform just before this
    /// call, is remembered for restoration; the overlay's own pair and the
    /// batch start empty.
    pub fn create(d3d: &Direct3D, game_rtv: u64, game_dsv: u64) -> (r: Renderer)
        requires
            d3d.wf(),
        ensures
            r.wf(),
            r.device == d3d.device,
            r.context == d3d.context,
            r.backbuffer == d3d.backbuffer,
            r.resolution == d3d.resolution,
            r.game_rtv == (Handle { addr: game_rtv, ownership: Ownership::Borrowed }),
            r.game_dsv == (Handle { addr: game_dsv, ownership: Ownership::Borrowed }),
            r.rtv is None,
            r.dsv is None,
            r.vertex_buffer is None,
            r.index_buffer is None,
            r.vertex_stride == VERTEX_STRIDE_BYTES,
            r.vertex_count == 0,
            r.index_count == 0,
            r.vertices@.len() == 0,
            r.indices@.len() == 0,
            r.next_buffer_id == 0,
    {
        Renderer {
            device: d3d.device,
            context: d3d.context,
            backbuffer: d3d.backbuffer,
            resolution: d3d.resolution,
            game_rtv: Handle::borrowed(game_rtv),
            game_dsv: Handle::borrowed(game_dsv),
            rtv: None,
            dsv: None,
            vertex_buffer: None,
            vertex_stride: VERTEX_STRIDE_BYTES,
            vertex_count: 0,
            index_buffer: None,
            index_count: 0,
            vertices: Vec::new(),
            indices: Vec::new(),
            next_buffer_id: 0,
        }
    }

    /// Stores the overlay render-target view the platform derived from the
    /// back-buffer; a failed creation leaves the overlay target absent,
    /// exactly as the platform call reported it.
    pub fn setup(&mut self, created_rtv: Option<u64>)
        requires
            old(self).wf(),
        ensures
            final(self).wf(),
            final(self).vertices@ == old(self).vertices@,
            final(self).indices@ == old(self).indices@,
            created_rtv matches Some(a) ==> final(self).rtv == Some(
                Handle { addr: a, ownership: Ownership::Owned },
            ),
            created_rtv is None ==> final(self).rtv is None,
            final(self).dsv == old(self).dsv,
            final(self).device == old(self).device,
            final(self).context == old(self).context,
            final(self).backbuffer == old(self).backbuffer,
            final(self).resolution == old(self).resolution,
            final(self).game_rtv == old(self).game_rtv,
            final(self).game_dsv == old(self).game_dsv,
            final(self).vertex_buffer == old(self).vertex_buffer,
            final(self).index_buffer == old(self).index_buffer,
            final(self).vertex_stride == old(self).vertex_stride,
            final(self).vertex_count == old(self).vertex_count,
            final(self).index_count == old(self).index_count,
            final(self).next_buffer_id == old(self).next_buffer_id,
    {
        self.rtv = match created_rtv {
            Some(a) => Some(Handle::owned(a)),
            None => None,
        };
    }

    /// Binds the overlay's own render-target pair for drawing.
    pub fn set_own_render(&self, out: &mut Vec<GpuCommand>)
        ensures
            final(out)@ == old(out)@.push(GpuCommand::SetRenderTargets {
                rtv: self.rtv,
                dsv: self.dsv,
            }),
    {
        out.push(GpuCommand::SetRenderTargets { rtv: self.rtv, dsv: self.dsv });
    }

    /// Restores the host's render-target pair.
    pub fn set_game_render(&self, out: &mut Vec<GpuCommand>)
        ensures
            final(out)@ == old(out)@.push(GpuCommand::SetRenderTargets {
                rtv: Some(self.game_rtv),
                dsv: Some(self.game_dsv),
            }),
    {
        out.push(GpuCommand::SetRenderTargets {
            rtv: Some(self.game_rtv),
            dsv: Some(self.game_dsv),
        });
    }

    /// Clears the overlay render target to a flat color: an immediate
    /// effect, independent of the batch.
    pub fn draw_background(&self, color: Color, out: &mut Vec<GpuCommand>)
        ensures
            final(out)@ == old(out)@.push(GpuCommand::ClearRenderTarget { rtv: self.rtv, color }),
    {
        out.push(GpuCommand::ClearRenderTarget { rtv: self.rtv, color });
    }

    /// The pixel-to-NDC map, applied at emission time: `x` to
    /// `2 * x / width - 1` and `y` to `1 - 2 * y / height`, with the
    /// origin at the top-left and the Y axis flipped.
    pub fn position_to_ndc(&self, position: Point) -> (r: (Ndc, Ndc))
        requires
            self.resolution.width >= 1,
            self.resolution.height >= 1,
            -POSITION_LIMIT <= position.x <= POSITION_LIMIT,
            -POSITION_LIMIT <= position.y <= POSITION_LIMIT,
        ensures
            r.0 == spec_ndc_x(position.x as int, self.resolution.width),
            r.1 == spec_ndc_y(position.y as int, self.resolution.height),
    {
        let w = self.resolution.width;
        let h = self.resolution.height;
        let ndc_x = Ndc { num: 2 * position.x - w as i64, den: w };
        let ndc_y = Ndc { num: h as i64 - 2 * position.y, den: h };
        (ndc_x, ndc_y)
    }

    /// Appends the quad for one line segment to the pending batch: two
    /// triangles over four vertices, the endpoints displaced by half the
    /// thickness along the segment's normal.  A zero-length segment is a
    /// silent no-op.
    pub fn draw_line(&mut self, start: Point, end: Point, color: Color, thickness: i64)
        requires
            old(self).wf(),
            old(self).vertices@.len() + 4 <= MAX_BATCH_VERTICES,
            spec_segment_in_bounds(Segment { start, end, color, thickness }),
        ensures
            final(self).wf(),
            Renderer::same_except_batch(*old(self), *final(self)),
            ({
                let stepped = line_step(
                    old(self).vertices@,
                    old(self).indices@,
                    Segment { start, end, color, thickness },
                    old(self).resolution,
                );
                final(self).vertices@ == stepped.0 && final(self).indices@ == stepped.1
            }),
            start == end ==> *final(self) == *old(self),
            start != end ==> final(self).vertices@.len() == old(self).vertices@.len() + 4
                && final(self).indices@.len() == old(self).indices@.len() + 6,
    {
        let dx = end.x - start.x;
        let dy = end.y - start.y;
        if dx == 0 && dy == 0 {
            return ;
        }
        proof {
            assert(0 <= dx * dx <= 0x4_0000_0000_0000
                && 0 <= dy * dy <= 0x4_0000_0000_0000
                && dx * dx + dy * dy >= 1) by (nonlinear_arith)
                requires
                    -0x200_0000 <= dx <= 0x200_0000,
                    -0x200_0000 <= dy <= 0x200_0000,
                    !(dx == 0 && dy == 0),
            {}
        }
        let len2: i64 = dx * dx + dy * dy;
        let len: u64 = isqrt(len2 as u64);
        proof {
            assert(len >= 1) by {
                if len == 0 {
                    assert((0 + 1) * (0 + 1) == 1) by (nonlinear_arith);
                }
            }
            assert(len <= 0x400_0000) by {
                if len > 0x400_0000 {
                    assert(len * len > 0x8_0000_0000_0000) by (nonlinear_arith)
                        requires len > 0x400_0000,
                    {}
                }
            }
            assert(-0x200_0000 * 0x100_0000 <= -dy * thickness <= 0x200_0000 * 0x100_0000) by (nonlinear_arith)
                requires
                    -0x200_0000 <= dy <= 0x200_0000,
                    -0x100_0000 <= thickness <= 0x100_0000,
            {}
            assert(-0x200_0000 * 0x100_0000 <= dx * thickness <= 0x200_0000 * 0x100_0000) by (nonlinear_arith)
                requires
                    -0x200_0000 <= dx <= 0x200_0000,
                    -0x100_0000 <= thickness <= 0x100_0000,
            {}
        }
        let denom: i64 = 2 * (len as i64);
        let offset_x = div_toward_zero(-dy * thickness, denom);
        let offset_y = div_toward_zero(dx * thickness, denom);

        let v0 = Point { x: start.x - offset_x, y: start.y - offset_y };
        let v1 = Point { x: end.x - offset_x, y: end.y - offset_y };
        let v2 = Point { x: end.x + offset_x, y: end.y + offset_y };
        let v3 = Point { x: start.x + offset_x, y: start.y + offset_y };

        let n0 = self.position_to_ndc(v0);
        let n1 = self.position_to_ndc(v1);
        let n2 = self.position_to_ndc(v2);
        let n3 = self.position_to_ndc(v3);

        let base_index: u32 = self.vertices.len() as u32;

        self.vertices.push(Vertex { x: n0.0, y: n0.1, color });
        self.vertices.push(Vertex { x: n1.0, y: n1.1, color });
        self.vertices.push(Vertex { x: n2.0, y: n2.1, color });
        self.vertices.push(Vertex { x: n3.0, y: n3.1, color });

        self.indices.push(base_index);
        self.indices.push(base_index + 1);
        self.indices.push(base_index + 2);
        self.indices.push(base_index);
        self.indices.push(base_index + 2);
        self.indices.push(base_index + 3);

        proof {
            let seg = Segment { start, end, color, thickness };
            let res = old(self).resolution;
            assert(self.vertices@ =~= old(self).vertices@ + spec_line_vertices(seg, res));
            assert(self.indices@ =~= old(self).indices@
                + spec_quad_indices(old(self).vertices@.len() as int));
        }
    }

    /// Draws the outline of the axis-aligned rectangle with opposite
    /// corners `start` and `end` as four `draw_line` calls, one per edge.
    /// A flat rectangle degenerates two opposite edges; a point
    /// degenerates all four and draws nothing.
    pub fn draw_rect(&mut self, start: Point, end: Point, color: Color, thickness: i64)
        requires
            old(self).wf(),
            old(self).vertices@.len() + 16 <= MAX_BATCH_VERTICES,
            spec_segment_in_bounds(Segment { start, end, color, thickness }),
        ensures
            final(self).wf(),
            Renderer::same_except_batch(*old(self), *final(self)),
            ({
                let drawn = line_batch(
                    old(self).vertices@,
                    old(self).indices@,
                    spec_rect_segments(start, end, color, thickness),
                    old(self).resolution,
                );
                final(self).vertices@ == drawn.0 && final(self).indices@ == drawn.1
            }),
            start.x != end.x && start.y != end.y ==> final(self).vertices@.len()
                == old(self).vertices@.len() + 16 && final(self).indices@.len()
                == old(self).indices@.len() + 24,
            start.x == end.x && start.y != end.y ==> final(self).vertices@.len()
                == old(self).vertices@.len() + 8 && final(self).indices@.len()
                == old(self).indices@.len() + 12,
            start.x != end.x && start.y == end.y ==> final(self).vertices@.len()
                == old(self).vertices@.len() + 8 && final(self).indices@.len()
                == old(self).indices@.len() + 12,
            start == end ==> *final(self) == *old(self),
    {
        let top_left = Point { x: start.x, y: start.y };
        let top_right = Point { x: end.x, y: start.y };
        let bottom_right = Point { x: end.x, y: end.y };
        let bottom_left = Point { x: start.x, y: end.y };

        self.draw_line(top_left, top_right, color, thickness);
        self.draw_line(top_right, bottom_right, color, thickness);
        self.draw_line(bottom_right, bottom_left, color, thickness);
        self.draw_line(bottom_left, top_left, color, thickness);

        proof {
            let res = old(self).resolution;
            let segs = spec_rect_segments(start, end, color, thickness);
            reveal_with_fuel(line_batch, 5);
            assert(segs.drop_first() =~= segs.subrange(1, 4));
            assert(segs.drop_first().drop_first() =~= segs.subrange(2, 4));
            assert(segs.drop_first().drop_first().drop_first() =~= segs.subrange(3, 4));
            assert(segs.drop_first().drop_first().drop_first().drop_first() =~= Seq::<
                Segment,
            >::empty());
        }
    }

    /// Fills the axis-aligned rectangle with opposite corners `start` and
    /// `end`: one four-vertex quad, emitted whatever the box size, a
    /// zero-area box included.
    pub fn draw_rect_filled(&mut self, start: Point, end: Point, color: Color)
        requires
            old(self).wf(),
            old(self).vertices@.len() + 4 <= MAX_BATCH_VERTICES,
            -MAX_COORD <= start.x <= MAX_COORD,
            -MAX_COORD <= start.y <= MAX_COORD,
            -MAX_COORD <= end.x <= MAX_COORD,
            -MAX_COORD <= end.y <= MAX_COORD,
        ensures
            final(self).wf(),
            Renderer::same_except_batch(*old(self), *final(self)),
            final(self).vertices@ == old(self).vertices@ + spec_filled_vertices(
                start,
                end,
                color,
                old(self).resolution,
            ),
            final(self).indices@ == old(self).indices@ + spec_quad_indices(
                old(self).vertices@.len() as int,
            ),
            final(self).vertices@.len() == old(self).vertices@.len() + 4,
            final(self).indices@.len() == old(self).indices@.len() + 6,
    {
        let v0 = Point { x: start.x, y: start.y };
        let v1 = Point { x: end.x, y: start.y };
        let v2 = Point { x: end.x, y: end.y };
        let v3 = Point { x: start.x, y: end.y };

        let n0 = self.position_to_ndc(v0);
        let n1 = self.position_to_ndc(v1);
        let n2 = self.position_to_ndc(v2);
        let n3 = self.position_to_ndc(v3);

        let base_index: u32 = self.vertices.len() as u32;

        self.vertices.push(Vertex { x: n0.0, y: n0.1, color });
        self.vertices.push(Vertex { x: n1.0, y: n1.1, color });
        self.vertices.push(Vertex { x: n2.0, y: n2.1, color });
        self.vertices.push(Vertex { x: n3.0, y: n3.1, color });

        self.indices.push(base_index);
        self.indices.push(base_index + 1);
        self.indices.push(base_index + 2);
        self.indices.push(base_index);
        self.indices.push(base_index + 2);
        self.indices.push(base_index + 3);

        proof {
            assert(self.vertices@ =~= old(self).vertices@ + spec_filled_vertices(
                start,
                end,
                color,
                old(self).resolution,
            ));
            assert(self.indices@ =~= old(self).indices@ + spec_quad_indices(
                old(self).vertices@.len() as int,
            ));
        }
    }

    /// Uploads the pending vertex list: releases the previously created
    /// vertex buffer if one exists, then creates a fresh immutable buffer
    /// from the pending vertices and binds it on slot zero.
    fn set_vertices(&mut self, out: &mut Vec<GpuCommand>)
        requires
            old(self).wf(),
            old(self).next_buffer_id < u64::MAX,
        ensures
            final(self).wf(),
            final(self).vertices@ == old(self).vertices@,
            final(self).indices@ == old(self).indices@,
            Renderer::same_surface(*old(self), *final(self)),
            final(self).vertex_buffer == Some(old(self).next_buffer_id),
            final(self).vertex_count == old(self).vertices@.len() as u32,
            final(self).vertex_stride == VERTEX_STRIDE_BYTES,
            final(self).index_buffer == old(self).index_buffer,
            final(self).index_count == old(self).index_count,
            final(self).next_buffer_id == old(self).next_buffer_id + 1,
            ({
                let n = old(out)@.len() as int;
                let kv: int = if old(self).vertex_buffer is Some { 1int } else { 0int };
                &&& final(out)@.len() == n + kv + 2
                &&& final(out)@.take(n) == old(out)@
                &&& (old(self).vertex_buffer matches Some(id) ==> final(out)@[n]
                    == (GpuCommand::ReleaseBuffer { buffer: id }))
                &&& is_create_vertex_buffer(
                    final(out)@[n + kv],
                    old(self).next_buffer_id,
                    spec_vertex_buffer_desc(old(self).vertices@.len() as int),
                    old(self).vertices@,
                )
                &&& final(out)@[n + kv + 1] == (GpuCommand::BindVertexBuffer {
                    buffer: old(self).next_buffer_id,
                    stride: VERTEX_STRIDE_BYTES,
                    offset: 0,
                })
            }),
    {
        if let Some(id) = self.vertex_buffer {
            out.push(GpuCommand::ReleaseBuffer { buffer: id });
            self.vertex_buffer = None;
        }
        let buffer = self.next_buffer_id;
        self.next_buffer_id = self.next_buffer_id + 1;
        let desc = vertex_buffer_desc(self.vertices.len());
        let data = copy_list(&self.vertices);
        out.push(GpuCommand::CreateVertexBuffer { buffer, desc, vertices: data });
        out.push(GpuCommand::BindVertexBuffer {
            buffer,
            stride: VERTEX_STRIDE_BYTES,
            offset: 0,
        });
        self.vertex_buffer = Some(buffer);
        self.vertex_count = self.vertices.len() as u32;
        self.vertex_stride = VERTEX_STRIDE_BYTES;
        proof {
            assert(out@.take(old(out)@.len() as int) =~= old(out)@);
        }
    }

    /// Uploads the pending index list: releases the previously created
    /// index buffer if one exists, then creates a fresh immutable buffer
    /// from the pending indices and binds it.  The binding format comes
    /// from the index element size; with 32-bit indices the 16-bit arm of
    /// the selector is intentionally unreachable.
    fn set_indices(&mut self, out: &mut Vec<GpuCommand>)
        requires
            old(self).wf(),
            old(self).next_buffer_id < u64::MAX,
        ensures
            final(self).wf(),
            final(self).vertices@ == old(self).vertices@,
            final(self).indices@ == old(self).indices@,
            Renderer::same_surface(*old(self), *final(self)),
            final(self).index_buffer == Some(old(self).next_buffer_id),
            final(self).index_count == old(self).indices@.len() as u32,
            final(self).vertex_buffer == old(self).vertex_buffer,
            final(self).vertex_count == old(self).vertex_count,
            final(self).vertex_stride == old(self).vertex_stride,
            final(self).next_buffer_id == old(self).next_buffer_id + 1,
            ({
                let n = old(out)@.len() as int;
                let ki: int = if old(self).index_buffer is Some { 1int } else { 0int };
                &&& final(out)@.len() == n + ki + 2
                &&& final(out)@.take(n) == old(out)@
                &&& (old(self).index_buffer matches Some(id) ==> final(out)@[n]
                    == (GpuCommand::ReleaseBuffer { buffer: id }))
                &&& is_create_index_buffer(
                    final(out)@[n + ki],
                    old(self).next_buffer_id,
                    spec_index_buffer_desc(old(self).indices@.len() as int),
                    old(self).indices@,
                )
                &&& final(out)@[n + ki + 1] == (GpuCommand::BindIndexBuffer {
                    buffer: old(self).next_buffer_id,
                    format: IndexFormat::R32Uint,
                    offset: 0,
                })
            }),
    {
        if let Some(id) = self.index_buffer {
            out.push(GpuCommand::ReleaseBuffer { buffer: id });
            self.index_buffer = None;
        }
        let buffer = self.next_buffer_id;
        self.next_buffer_id = self.next_buffer_id + 1;
        proof {
            let ni = old(self).indices@.len() as int;
            let nv = old(self).vertices@.len() as int;
            assert(ni * 4 <= 0x800_0000 * 6) by (nonlinear_arith)
                requires
                    2 * ni == 3 * nv,
                    nv <= 0x800_0000,
            {}
        }
        let desc = index_buffer_desc(self.indices.len());
        let data = copy_list(&self.indices);
        out.push(GpuCommand::CreateIndexBuffer { buffer, desc, indices: data });
        let format = index_format_for_size(INDEX_ELEMENT_BYTES);
        out.push(GpuCommand::BindIndexBuffer { buffer, format, offset: 0 });
        self.index_buffer = Some(buffer);
        self.index_count = self.indices.len() as u32;
        proof {
            assert(out@.take(old(out)@.len() as int) =~= old(out)@);
        }
    }

    /// Flushes the pending batch.  An empty batch issues no graphics work
    /// at all.  Otherwise the previous buffers are released, the batch is
    /// uploaded as fresh vertex and index buffers, one indexed draw covers
    /// the whole batch, the host's render-target pair is restored, and the
    /// pending lists are cleared.
    pub fn flush(&mut self, out: &mut Vec<GpuCommand>)
        requires
            old(self).wf(),
            old(self).next_buffer_id + 2 <= u64::MAX,
        ensures
            final(self).wf(),
            final(self).vertices@.len() == 0,
            final(self).indices@.len() == 0,
            old(self).vertices@.len() == 0 ==> *final(self) == *old(self) && final(out)@
                == old(out)@,
            old(self).vertices@.len() > 0 ==> ({
                &&& final(out)@.len() == old(out)@.len() + spec_flush_len(*old(self))
                &&& final(out)@.take(old(out)@.len() as int) == old(out)@
                &&& spec_flush_commands(*old(self), final(out)@, old(out)@.len() as int)
                &&& Renderer::same_surface(*old(self), *final(self))
                &&& final(self).vertex_buffer == Some(old(self).next_buffer_id)
                &&& final(self).index_buffer == Some((old(self).next_buffer_id + 1) as u64)
                &&& final(self).vertex_count == old(self).vertices@.len() as u32
                &&& final(self).index_count == old(self).indices@.len() as u32
                &&& final(self).vertex_stride == VERTEX_STRIDE_BYTES
                &&& final(self).next_buffer_id == old(self).next_buffer_id + 2
            }),
    {
        if self.vertices.len() == 0 || self.indices.len() == 0 {
            return ;
        }
        let ghost mid0 = *out;
        self.set_vertices(out);
        let ghost mid1 = *out;
        self.set_indices(out);
        out.push(GpuCommand::DrawIndexed {
            index_count: self.index_count,
            start_index: 0,
            base_vertex: 0,
        });
        self.set_game_render(out);
        self.vertices.clear();
        self.indices.clear();
        proof {
            assert(out@.take(mid0@.len() as int) =~= mid0@);
        }
    }

    /// Tears the renderer's owned resources down: restores the host's
    /// render-target pair, then releases the owned overlay render target
    /// and any buffers created by earlier flushes.  The borrowed device,
    /// context and back-buffer handles are left untouched.
    pub fn release(&mut self, out: &mut Vec<GpuCommand>)
        requires
            old(self).wf(),
        ensures
            final(self).wf(),
            final(out)@ == old(out)@ + spec_release_commands(*old(self)),
            final(self).rtv is None,
            final(self).dsv is None,
            final(self).vertex_buffer is None,
            final(self).index_buffer is None,
            final(self).vertices@ == old(self).vertices@,
            final(self).indices@ == old(self).indices@,
            final(self).device == old(self).device,
            final(self).context == old(self).context,
            final(self).backbuffer == old(self).backbuffer,
            final(self).resolution == old(self).resolution,
            final(self).game_rtv == old(self).game_rtv,
            final(self).game_dsv == old(self).game_dsv,
            final(self).vertex_count == old(self).vertex_count,
            final(self).index_count == old(self).index_count,
            final(self).vertex_stride == old(self).vertex_stride,
            final(self).next_buffer_id == old(self).next_buffer_id,
    {
        self.set_game_render(out);
        if let Some(h) = self.rtv {
            out.push(GpuCommand::ReleaseRenderTarget { rtv: h });
            self.rtv = None;
        }
        if let Some(id) = self.vertex_buffer {
            out.push(GpuCommand::ReleaseBuffer { buffer: id });
            self.vertex_buffer = None;
        }
        if let Some(id) = self.index_buffer {
            out.push(GpuCommand::ReleaseBuffer { buffer: id });
            self.index_buffer = None;
        }
        proof {
            assert(out@ =~= old(out)@ + spec_release_commands(*old(self)));
        }
    }
}

} // verus!
