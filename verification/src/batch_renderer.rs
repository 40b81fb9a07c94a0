//! The batched quad renderer. Between `begin_scene` and `end_scene` it
//! accumulates four corner vertices per `draw_quad` call in a bounded
//! CPU-side buffer; `end_scene` then describes one partial upload of the
//! filled prefix and one indexed draw call covering every accumulated
//! quad, converting a draw call per sprite into one per scene.
//!
//! The renderer's abstract state is its [`BatchView`]; every method's
//! contract is an exact equation over it, and the scene-level laws at the
//! bottom of this module are proved from those same transition functions.

use vstd::prelude::*;

verus! {

use crate::INDEX_BUFFER_CAPACITY_BYTES;
use crate::INDICES_PER_QUAD;
use crate::MAX_QUADS;
use crate::VERTEX_BUFFER_CAPACITY_BYTES;
use crate::VERTEX_SIZE_BYTES;
use crate::VERTICES_PER_QUAD;
use crate::buffer::Buffer;
use crate::buffer::VertexArray;
use crate::commands::BufferKind;
use crate::commands::RenderCommand;
use crate::commands::draw_call_count;
use crate::commands::indices_drawn;
use crate::data::Color;
use crate::data::NormRect;
use crate::data::Vertex;
use crate::subtexture::Subtexture;
use crate::texture::Texture;
use vstd::pervasive::unreached;

/// Whether a scene is currently open.
#[derive(Clone, Copy, Debug, PartialEq, Eq, Structural)]
pub enum SceneState {
    /// Between frames; `draw_quad` is not legal.
    Idle,
    /// Between `begin_scene` and `end_scene`.
    Accumulating,
}

/// Per-frame instrumentation, reset by `begin_scene`.
#[derive(Clone, Copy, Debug, PartialEq, Eq, Structural)]
pub struct BatchStats {
    /// Draw calls issued so far this frame (0 or 1 per scene).
    pub draw_calls: u32,
    /// Quads accumulated so far this frame.
    pub quads_rendered: u32,
    /// Texture slots in use; the batch is single-texture, so this stays 0.
    pub texture_slots_used: u32,
}

impl Default for BatchStats {
    fn default() -> (s: BatchStats)
        ensures
            s == (BatchStats { draw_calls: 0, quads_rendered: 0, texture_slots_used: 0 }),
    {
        BatchStats { draw_calls: 0, quads_rendered: 0, texture_slots_used: 0 }
    }
}

/// Why a draw request was refused.
#[derive(Clone, Copy, Debug, PartialEq, Eq, Structural)]
pub enum BatchError {
    /// The scene already holds `MAX_QUADS` quads. The renderer's overflow
    /// policy is this hard error: the caller ends the scene and begins a
    /// new one; nothing is dropped silently.
    CapacityExceeded,
}

/// One quad draw request: world position (`z` is an advisory layer),
/// per-quad color, edge length `scale` in pixels, and the normalized
/// texture rectangle to sample.
#[derive(Clone, Copy, Debug, PartialEq, Eq, Structural)]
pub struct QuadReq {
    pub x: i32,
    pub y: i32,
    pub z: i32,
    pub color: Color,
    pub scale: i32,
    pub uv: NormRect,
}

/// The renderer's abstract state: everything its contracts speak of.
#[verifier::ext_equal]
pub struct BatchView {
    pub scene: SceneState,
    /// The accumulated corner vertices, in insertion order.
    pub verts: Seq<Vertex>,
    pub stats: BatchStats,
    pub program_id: u32,
    pub vao: VertexArray,
    pub vertex_buffer: Buffer,
    pub index_buffer: Buffer,
    pub white_texture: Texture,
}

impl BatchView {
    /// Structural invariant: the accumulator holds exactly four vertices
    /// per counted quad, never more than `MAX_QUADS` quads, and the GPU
    /// buffers have the capacities the renderer plans for.
    pub open spec fn wf(self) -> bool {
        &&& self.verts.len() == (VERTICES_PER_QUAD as int) * (self.stats.quads_rendered as int)
        &&& self.stats.quads_rendered as int <= MAX_QUADS as int
        &&& self.vertex_buffer.kind == BufferKind::Vertex
        &&& self.vertex_buffer.capacity_bytes == VERTEX_BUFFER_CAPACITY_BYTES
        &&& self.index_buffer.kind == BufferKind::Index
        &&& self.index_buffer.capacity_bytes == INDEX_BUFFER_CAPACITY_BYTES
        &&& self.white_texture.width == 1
        &&& self.white_texture.height == 1
    }
}

/// The four corner vertices a draw request appends, in the winding the
/// index pattern `{0, 1, 2, 2, 3, 0}` assumes: origin corner, then
/// counter-clockwise around the quad with a bottom-left origin. Every
/// corner carries the request's color, its corner of the request's
/// texture rectangle, and texture slot 0.
pub open spec fn quad_corners(req: QuadReq) -> Seq<Vertex> {
    seq![
        Vertex {
            pos_x: req.x,
            pos_y: req.y,
            pos_z: req.z,
            color: req.color,
            u_num: req.uv.x_num,
            u_den: req.uv.den_x,
            v_num: req.uv.y_num,
            v_den: req.uv.den_y,
            texture_id: 0,
        },
        Vertex {
            pos_x: (req.x + req.scale) as i32,
            pos_y: req.y,
            pos_z: req.z,
            color: req.color,
            u_num: (req.uv.x_num + req.uv.w_num) as u32,
            u_den: req.uv.den_x,
            v_num: req.uv.y_num,
            v_den: req.uv.den_y,
            texture_id: 0,
        },
        Vertex {
            pos_x: (req.x + req.scale) as i32,
            pos_y: (req.y + req.scale) as i32,
            pos_z: req.z,
            color: req.color,
            u_num: (req.uv.x_num + req.uv.w_num) as u32,
            u_den: req.uv.den_x,
            v_num: (req.uv.y_num + req.uv.h_num) as u32,
            v_den: req.uv.den_y,
            texture_id: 0,
        },
        Vertex {
            pos_x: req.x,
            pos_y: (req.y + req.scale) as i32,
            pos_z: req.z,
            color: req.color,
            u_num: req.uv.x_num,
            u_den: req.uv.den_x,
            v_num: (req.uv.y_num + req.uv.h_num) as u32,
            v_den: req.uv.den_y,
            texture_id: 0,
        },
    ]
}

/// State after `begin_scene`: an open scene with an empty accumulator and
/// zeroed statistics.
pub open spec fn begin_spec(v: BatchView) -> BatchView {
    BatchView {
        scene: SceneState::Accumulating,
        verts: Seq::empty(),
        stats: (BatchStats { draw_calls: 0, quads_rendered: 0, texture_slots_used: 0 }),
        ..v
    }
}

/// Whether an open scene has room for one more quad.
pub open spec fn scene_accepts(v: BatchView) -> bool {
    (v.stats.quads_rendered as int) < (MAX_QUADS as int)
}

/// State after an accepted `draw_quad`: the request's four corners are
/// appended and the quad counter advances.
pub open spec fn draw_spec(v: BatchView, req: QuadReq) -> BatchView {
    BatchView {
        verts: v.verts + quad_corners(req),
        stats: (BatchStats { quads_rendered: (v.stats.quads_rendered + 1) as u32, ..v.stats }),
        ..v
    }
}

/// Bytes of the vertex buffer an `end_scene` overwrites: the filled
/// prefix of the accumulator, packed.
pub open spec fn upload_len_bytes(v: BatchView) -> int {
    (v.stats.quads_rendered as int) * (VERTICES_PER_QUAD as int) * (VERTEX_SIZE_BYTES as int)
}

/// The commands `end_scene` hands the host: nothing at all for an empty
/// scene; otherwise activate the program, bind the vertex buffer, upload
/// the filled prefix, bind index buffer and vertex array, issue one
/// indexed draw covering six indices per accumulated quad, and unbind the
/// vertex array.
pub open spec fn end_commands(v: BatchView) -> Seq<RenderCommand> {
    if v.stats.quads_rendered == 0 {
        Seq::empty()
    } else {
        seq![
            RenderCommand::UseProgram { program_id: v.program_id },
            RenderCommand::BindBuffer { kind: BufferKind::Vertex, buffer_id: v.vertex_buffer.id },
            RenderCommand::UploadSub {
                kind: BufferKind::Vertex,
                buffer_id: v.vertex_buffer.id,
                offset_bytes: 0,
                len_bytes: upload_len_bytes(v) as usize,
            },
            RenderCommand::BindBuffer { kind: BufferKind::Index, buffer_id: v.index_buffer.id },
            RenderCommand::BindVertexArray { vao_id: v.vao.id },
            RenderCommand::DrawIndexed {
                index_count: ((v.stats.quads_rendered as int) * (INDICES_PER_QUAD as int)) as usize,
            },
            RenderCommand::BindVertexArray { vao_id: 0 },
        ]
    }
}

/// State after `end_scene`: the scene closes; the draw-call counter
/// advances exactly when a draw was issued. The accumulator is kept (its
/// storage is reused) and is cleared by the next `begin_scene`.
pub open spec fn end_state(v: BatchView) -> BatchView {
    BatchView {
        scene: SceneState::Idle,
        stats: (BatchStats {
            draw_calls: if v.stats.quads_rendered == 0 {
                v.stats.draw_calls
            } else {
                (v.stats.draw_calls + 1) as u32
            },
            ..v.stats
        }),
        ..v
    }
}

/// The batched quad renderer.
pub struct BatchRenderer {
    program_id: u32,
    vao: VertexArray,
    vertex_buffer: Buffer,
    index_buffer: Buffer,
    vertices: Vec<Vertex>,
    white_texture: Texture,
    state: SceneState,
    stats: BatchStats,
}

impl View for BatchRenderer {
    type V = BatchView;

    closed spec fn view(&self) -> BatchView {
        BatchView {
            scene: self.state,
            verts: self.vertices@,
            stats: self.stats,
            program_id: self.program_id,
            vao: self.vao,
            vertex_buffer: self.vertex_buffer,
            index_buffer: self.index_buffer,
            white_texture: self.white_texture,
        }
    }
}

impl BatchRenderer {
    /// Assemble a renderer from GPU objects the host prepared: a linked
    /// shader program, a vertex array carrying `vertex_attributes()`, a
    /// vertex buffer allocated to `VERTEX_BUFFER_CAPACITY_BYTES`, an index
    /// buffer holding `quad_index_pattern()`, and the 1-by-1 white default
    /// texture.
    pub fn new(
        program_id: u32,
        vao: VertexArray,
        vertex_buffer: Buffer,
        index_buffer: Buffer,
        white_texture: Texture,
    ) -> (r: BatchRenderer)
        requires
            vertex_buffer.kind == BufferKind::Vertex,
            vertex_buffer.capacity_bytes == VERTEX_BUFFER_CAPACITY_BYTES,
            index_buffer.kind == BufferKind::Index,
            index_buffer.capacity_bytes == INDEX_BUFFER_CAPACITY_BYTES,
            white_texture.width == 1,
            white_texture.height == 1,
        ensures
            r@ == (BatchView {
                scene: SceneState::Idle,
                verts: Seq::<Vertex>::empty(),
                stats: (BatchStats { draw_calls: 0, quads_rendered: 0, texture_slots_used: 0 }),
                program_id,
                vao,
                vertex_buffer,
                index_buffer,
                white_texture,
            }),
            r@.wf(),
    {
        let r = BatchRenderer {
            program_id,
            vao,
            vertex_buffer,
            index_buffer,
            vertices: Vec::new(),
            white_texture,
            state: SceneState::Idle,
            stats: BatchStats::default(),
        };
        proof {
            assert(r@ =~= (BatchView {
                scene: SceneState::Idle,
                verts: Seq::<Vertex>::empty(),
                stats: (BatchStats { draw_calls: 0, quads_rendered: 0, texture_slots_used: 0 }),
                program_id,
                vao,
                vertex_buffer,
                index_buffer,
                white_texture,
            }));
        }
        r
    }

    /// Open a scene: reset the accumulator and the per-frame statistics.
    /// Calling it while a scene is already open discards that scene's
    /// accumulated quads, as the next frame's reset would.
    pub fn begin_scene(&mut self)
        ensures
            final(self)@ == begin_spec(old(self)@),
            old(self)@.wf() ==> final(self)@.wf(),
    {
        self.stats = BatchStats::default();
        self.vertices.clear();
        self.state = SceneState::Accumulating;
        proof {
            assert(self@ =~= begin_spec(old(self)@));
        }
    }

    /// Append one quad to the open scene: four corner vertices of an
    /// axis-aligned square of edge `scale` at `(x, y, z)`, colored
    /// `color`, sampling the texture rectangle `uv`. Succeeds exactly
    /// while the scene holds fewer than `MAX_QUADS` quads; at capacity it
    /// refuses the quad and leaves the renderer unchanged.
    ///
    /// The texture argument is what the quad samples from; batches are
    /// single-texture, so the vertices record slot 0 and the host binds
    /// the scene's texture itself when it executes the commands.
    pub fn draw_quad(
        &mut self,
        _texture: &Texture,
        x: i32,
        y: i32,
        z: i32,
        color: Color,
        scale: i32,
        uv: NormRect,
    ) -> (r: Result<(), BatchError>)
        requires
            old(self)@.wf(),
            old(self)@.scene == SceneState::Accumulating,
            uv.wf(),
            i32::MIN <= x + scale <= i32::MAX,
            i32::MIN <= y + scale <= i32::MAX,
        ensures
            final(self)@.wf(),
            r is Ok <==> scene_accepts(old(self)@),
            r is Ok ==> final(self)@ == draw_spec(old(self)@, (QuadReq { x, y, z, color, scale, uv })),
            r is Err ==> final(self)@ == old(self)@ && r == Err::<(), BatchError>(
                BatchError::CapacityExceeded,
            ),
    {
        if self.stats.quads_rendered >= (MAX_QUADS as u32) {
            return Err(BatchError::CapacityExceeded);
        }
        let right: i32 = x + scale;
        let bottom: i32 = y + scale;
        let u1: u32 = uv.x_num + uv.w_num;
        let v1: u32 = uv.y_num + uv.h_num;
        self.vertices.push(
            Vertex {
                pos_x: x,
                pos_y: y,
                pos_z: z,
                color,
                u_num: uv.x_num,
                u_den: uv.den_x,
                v_num: uv.y_num,
                v_den: uv.den_y,
                texture_id: 0,
            },
        );
        self.vertices.push(
            Vertex {
                pos_x: right,
                pos_y: y,
                pos_z: z,
                color,
                u_num: u1,
                u_den: uv.den_x,
                v_num: uv.y_num,
                v_den: uv.den_y,
                texture_id: 0,
            },
        );
        self.vertices.push(
            Vertex {
                pos_x: right,
                pos_y: bottom,
                pos_z: z,
                color,
                u_num: u1,
                u_den: uv.den_x,
                v_num: v1,
                v_den: uv.den_y,
                texture_id: 0,
            },
        );
        self.vertices.push(
            Vertex {
                pos_x: x,
                pos_y: bottom,
                pos_z: z,
                color,
                u_num: uv.x_num,
                u_den: uv.den_x,
                v_num: v1,
                v_den: uv.den_y,
                texture_id: 0,
            },
        );
        self.stats.quads_rendered = self.stats.quads_rendered + 1;
        proof {
            assert(self@.verts =~= old(self)@.verts + quad_corners(
                QuadReq { x, y, z, color, scale, uv },
            ));
            assert(self@ =~= draw_spec(old(self)@, (QuadReq { x, y, z, color, scale, uv })));
        }
        Ok(())
    }

    /// Append one quad showing a subtexture: `draw_quad` with the
    /// subtexture's normalized rectangle, sampling from its texture.
    pub fn draw_subtexture(
        &mut self,
        subtexture: &Subtexture,
        x: i32,
        y: i32,
        z: i32,
        color: Color,
        scale: i32,
    ) -> (r: Result<(), BatchError>)
        requires
            old(self)@.wf(),
            old(self)@.scene == SceneState::Accumulating,
            subtexture.normalized_rect.wf(),
            i32::MIN <= x + scale <= i32::MAX,
            i32::MIN <= y + scale <= i32::MAX,
        ensures
            final(self)@.wf(),
            r is Ok <==> scene_accepts(old(self)@),
            r is Ok ==> final(self)@ == draw_spec(
                old(self)@,
                (QuadReq { x, y, z, color, scale, uv: subtexture.normalized_rect }),
            ),
            r is Err ==> final(self)@ == old(self)@ && r == Err::<(), BatchError>(
                BatchError::CapacityExceeded,
            ),
    {
        let uv = subtexture.get_normalized_rect();
        self.draw_quad(&subtexture.texture, x, y, z, color, scale, uv)
    }

    /// Close the scene. For an empty scene this performs nothing; no GPU
    /// command is produced. Otherwise the returned commands upload exactly
    /// the filled prefix of the accumulator — never past the vertex
    /// buffer's capacity — and issue one indexed draw call covering six
    /// indices per accumulated quad.
    pub fn end_scene(&mut self) -> (cmds: Vec<RenderCommand>)
        requires
            old(self)@.wf(),
            old(self)@.stats.draw_calls < u32::MAX,
        ensures
            final(self)@ == end_state(old(self)@),
            final(self)@.wf(),
            cmds@ == end_commands(old(self)@),
    {
        let mut cmds: Vec<RenderCommand> = Vec::new();
        if self.stats.quads_rendered == 0 {
            self.state = SceneState::Idle;
            proof {
                assert(cmds@ =~= end_commands(old(self)@));
                assert(self@ =~= end_state(old(self)@));
            }
            return cmds;
        }
        let quads: usize = self.stats.quads_rendered as usize;
        cmds.push(RenderCommand::UseProgram { program_id: self.program_id });
        cmds.push(self.vertex_buffer.bind());
        proof {
            assert(quads <= MAX_QUADS);
            assert((quads as int) * (VERTICES_PER_QUAD as int) * (VERTEX_SIZE_BYTES as int)
                <= VERTEX_BUFFER_CAPACITY_BYTES as int) by (nonlinear_arith)
                requires
                    quads <= MAX_QUADS,
            ;
        }
        let len_bytes: usize = quads * VERTICES_PER_QUAD * VERTEX_SIZE_BYTES;
        let upload = match self.vertex_buffer.upload_subdata_dynamic_draw(0, len_bytes) {
            Ok(c) => c,
            Err(_) => unreached(),
        };
        cmds.push(upload);
        cmds.push(self.index_buffer.bind());
        cmds.push(self.vao.bind());
        cmds.push(RenderCommand::DrawIndexed { index_count: quads * INDICES_PER_QUAD });
        cmds.push(self.vao.unbind());
        self.state = SceneState::Idle;
        self.stats.draw_calls = self.stats.draw_calls + 1;
        proof {
            assert(cmds@ =~= end_commands(old(self)@));
            assert(self@ =~= end_state(old(self)@));
        }
        cmds
    }

    /// The accumulated corner vertices, in insertion order; the host
    /// serializes the filled prefix from here when it executes an upload
    /// command.
    pub fn vertices(&self) -> (v: &Vec<Vertex>)
        ensures
            v@ == self@.verts,
    {
        &self.vertices
    }

    /// This frame's statistics.
    pub fn stats(&self) -> (s: BatchStats)
        ensures
            s == self@.stats,
    {
        self.stats
    }

    /// Whether a scene is currently open.
    pub fn scene_state(&self) -> (s: SceneState)
        ensures
            s == self@.scene,
    {
        self.state
    }

    /// The 1-by-1 white default texture; the host binds it for colored,
    /// untextured quads.
    pub fn white_texture(&self) -> (t: Texture)
        ensures
            t == self@.white_texture,
    {
        self.white_texture
    }
}

/// The six indices that draw quad number `q` as two triangles:
/// `{0, 1, 2, 2, 3, 0}` offset by four vertices per preceding quad.
pub open spec fn quad_indices(q: nat) -> Seq<u32> {
    seq![
        (4 * q) as u32,
        (4 * q + 1) as u32,
        (4 * q + 2) as u32,
        (4 * q + 2) as u32,
        (4 * q + 3) as u32,
        (4 * q) as u32,
    ]
}

/// The index pattern for the first `q` quads, concatenated.
pub open spec fn index_pattern_prefix(q: nat) -> Seq<u32>
    decreases q,
{
    if q == 0 {
        Seq::empty()
    } else {
        index_pattern_prefix((q - 1) as nat) + quad_indices((q - 1) as nat)
    }
}

/// The full content of the static index buffer: the pattern for
/// `MAX_QUADS` quads.
pub open spec fn index_pattern() -> Seq<u32> {
    index_pattern_prefix(MAX_QUADS as nat)
}

proof fn lemma_index_pattern_prefix_len(q: nat)
    ensures
        index_pattern_prefix(q).len() == 6 * q,
    decreases q,
{
    if q > 0 {
        lemma_index_pattern_prefix_len((q - 1) as nat);
    }
}

proof fn lemma_index_pattern_prefix_quad(n: nat, q: int)
    requires
        0 <= q < n,
    ensures
        index_pattern_prefix(n).subrange(6 * q, 6 * q + 6) == quad_indices(q as nat),
    decreases n,
{
    lemma_index_pattern_prefix_len(n);
    lemma_index_pattern_prefix_len((n - 1) as nat);
    if q + 1 == n {
        assert(index_pattern_prefix(n).subrange(6 * q, 6 * q + 6) =~= quad_indices(q as nat));
    } else {
        lemma_index_pattern_prefix_quad((n - 1) as nat, q);
        assert(index_pattern_prefix(n).subrange(6 * q, 6 * q + 6) =~= index_pattern_prefix(
            (n - 1) as nat,
        ).subrange(6 * q, 6 * q + 6));
    }
}

/// Index pattern invariant: for every quad number `q` below `MAX_QUADS`,
/// the index buffer holds `{4q, 4q+1, 4q+2, 4q+2, 4q+3, 4q}` at offset
/// `6q`.
pub proof fn lemma_index_pattern(q: int)
    requires
        0 <= q < MAX_QUADS as int,
    ensures
        index_pattern().len() == (MAX_QUADS as int) * (INDICES_PER_QUAD as int),
        index_pattern().subrange(6 * q, 6 * q + 6) == quad_indices(q as nat),
        index_pattern()[6 * q] == 4 * q,
        index_pattern()[6 * q + 1] == 4 * q + 1,
        index_pattern()[6 * q + 2] == 4 * q + 2,
        index_pattern()[6 * q + 3] == 4 * q + 2,
        index_pattern()[6 * q + 4] == 4 * q + 3,
        index_pattern()[6 * q + 5] == 4 * q,
{
    lemma_index_pattern_prefix_len(MAX_QUADS as nat);
    lemma_index_pattern_prefix_quad(MAX_QUADS as nat, q);
    let sub = index_pattern().subrange(6 * q, 6 * q + 6);
    assert(sub[0] == index_pattern()[6 * q + 0]);
    assert(sub[1] == index_pattern()[6 * q + 1]);
    assert(sub[2] == index_pattern()[6 * q + 2]);
    assert(sub[3] == index_pattern()[6 * q + 3]);
    assert(sub[4] == index_pattern()[6 * q + 4]);
    assert(sub[5] == index_pattern()[6 * q + 5]);
}

/// Build the content of the static index buffer: six indices per quad for
/// `MAX_QUADS` quads, following the repeating pattern stated by
/// [`lemma_index_pattern`]. Generated once at renderer construction and
/// uploaded by the host; a draw call references only the first
/// `quads_rendered * INDICES_PER_QUAD` of them.
pub fn quad_index_pattern() -> (indices: Vec<u32>)
    ensures
        indices@ == index_pattern(),
        indices@.len() == MAX_QUADS * INDICES_PER_QUAD,
{
    let mut indices: Vec<u32> = Vec::new();
    let mut q: usize = 0;
    while q < MAX_QUADS
        invariant
            q <= MAX_QUADS,
            indices@ == index_pattern_prefix(q as nat),
        decreases MAX_QUADS - q,
    {
        let base: u32 = (q as u32) * 4;
        indices.push(base);
        indices.push(base + 1);
        indices.push(base + 2);
        indices.push(base + 2);
        indices.push(base + 3);
        indices.push(base);
        q = q + 1;
        proof {
            assert(indices@ =~= index_pattern_prefix(q as nat));
        }
    }
    proof {
        lemma_index_pattern_prefix_len(MAX_QUADS as nat);
    }
    indices
}

/// The scene a sequence of accepted draw requests produces, starting from
/// `v`: `draw_spec` folded over the requests in order.
pub open spec fn run_scene(v: BatchView, reqs: Seq<QuadReq>) -> BatchView
    decreases reqs.len(),
{
    if reqs.len() == 0 {
        v
    } else {
        run_scene(draw_spec(v, reqs[0]), reqs.drop_first())
    }
}

/// The vertices a scene of draw requests accumulates: each request's four
/// corners, concatenated in order.
pub open spec fn scene_verts(reqs: Seq<QuadReq>) -> Seq<Vertex>
    decreases reqs.len(),
{
    if reqs.len() == 0 {
        Seq::empty()
    } else {
        quad_corners(reqs[0]) + scene_verts(reqs.drop_first())
    }
}

proof fn lemma_run_scene_verts(v: BatchView, reqs: Seq<QuadReq>)
    ensures
        run_scene(v, reqs).verts == v.verts + scene_verts(reqs),
    decreases reqs.len(),
{
    if reqs.len() == 0 {
        assert(run_scene(v, reqs).verts =~= v.verts + scene_verts(reqs));
    } else {
        lemma_run_scene_verts(draw_spec(v, reqs[0]), reqs.drop_first());
        assert((v.verts + quad_corners(reqs[0])) + scene_verts(reqs.drop_first()) =~= v.verts + (
        quad_corners(reqs[0]) + scene_verts(reqs.drop_first())));
    }
}

proof fn lemma_run_scene_counts(v: BatchView, reqs: Seq<QuadReq>)
    requires
        (v.stats.quads_rendered as int) + reqs.len() <= MAX_QUADS as int,
    ensures
        run_scene(v, reqs).stats.quads_rendered == (v.stats.quads_rendered as int) + reqs.len(),
        run_scene(v, reqs).verts.len() == v.verts.len() + (VERTICES_PER_QUAD as int) * reqs.len(),
    decreases reqs.len(),
{
    if reqs.len() > 0 {
        lemma_run_scene_counts(draw_spec(v, reqs[0]), reqs.drop_first());
    }
}

proof fn lemma_end_commands_counts(v: BatchView)
    requires
        v.stats.quads_rendered as int <= MAX_QUADS as int,
    ensures
        indices_drawn(end_commands(v)) == (INDICES_PER_QUAD as int) * (v.stats.quads_rendered
            as int),
        draw_call_count(end_commands(v)) == if v.stats.quads_rendered == 0 {
            0int
        } else {
            1int
        },
{
    let cmds = end_commands(v);
    if v.stats.quads_rendered == 0 {
        assert(indices_drawn(cmds) == 0);
        assert(draw_call_count(cmds) == 0);
    } else {
        let s6 = cmds.drop_first();
        let s5 = s6.drop_first();
        let s4 = s5.drop_first();
        let s3 = s4.drop_first();
        let s2 = s3.drop_first();
        let s1 = s2.drop_first();
        let s0 = s1.drop_first();
        assert(s0.len() == 0);
        assert(s1[0] == cmds[6] && s2[0] == cmds[5] && s3[0] == cmds[4] && s4[0] == cmds[3] && s5[0]
            == cmds[2] && s6[0] == cmds[1]);
        assert(cmds[5] == (RenderCommand::DrawIndexed {
            index_count: ((v.stats.quads_rendered as int) * (INDICES_PER_QUAD as int)) as usize,
        }));
        assert((((v.stats.quads_rendered as int) * (INDICES_PER_QUAD as int)) as usize) as int == (
        v.stats.quads_rendered as int) * (INDICES_PER_QUAD as int));
        assert(indices_drawn(s0) == 0 && draw_call_count(s0) == 0);
        assert(indices_drawn(s1) == 0 && draw_call_count(s1) == 0);
        assert(indices_drawn(s2) == (v.stats.quads_rendered as int) * (INDICES_PER_QUAD as int)
            && draw_call_count(s2) == 1);
        assert(indices_drawn(s3) == indices_drawn(s2) && draw_call_count(s3) == draw_call_count(
            s2,
        ));
        assert(indices_drawn(s4) == indices_drawn(s3) && draw_call_count(s4) == draw_call_count(
            s3,
        ));
        assert(indices_drawn(s5) == indices_drawn(s4) && draw_call_count(s5) == draw_call_count(
            s4,
        ));
        assert(indices_drawn(s6) == indices_drawn(s5) && draw_call_count(s6) == draw_call_count(
            s5,
        ));
        assert(indices_drawn(cmds) == (INDICES_PER_QUAD as int) * (v.stats.quads_rendered as int));
        assert(draw_call_count(cmds) == 1);
    }
}

/// Scene accumulation: a scene of `N <= MAX_QUADS` draw requests leaves
/// exactly `N` counted quads, and its accumulator holds exactly the
/// requests' corner vertices in order — `4 N` vertices — so ending the
/// scene submits exactly `6 N` indices (none at all when `N == 0`).
pub proof fn lemma_scene_accumulation(v: BatchView, reqs: Seq<QuadReq>)
    requires
        reqs.len() <= MAX_QUADS as int,
    ensures
        run_scene(begin_spec(v), reqs).stats.quads_rendered == reqs.len(),
        run_scene(begin_spec(v), reqs).verts == scene_verts(reqs),
        run_scene(begin_spec(v), reqs).verts.len() == (VERTICES_PER_QUAD as int) * reqs.len(),
        indices_drawn(end_commands(run_scene(begin_spec(v), reqs))) == (INDICES_PER_QUAD as int)
            * reqs.len(),
{
    lemma_run_scene_counts(begin_spec(v), reqs);
    lemma_run_scene_verts(begin_spec(v), reqs);
    assert(begin_spec(v).verts + scene_verts(reqs) =~= scene_verts(reqs));
    lemma_end_commands_counts(run_scene(begin_spec(v), reqs));
}

/// An empty scene is free: `begin_scene` followed immediately by
/// `end_scene` with no draw requests produces no GPU commands at all, and
/// in particular no draw call.
pub proof fn lemma_empty_scene_no_draw(v: BatchView)
    ensures
        end_commands(begin_spec(v)) == Seq::<RenderCommand>::empty(),
        draw_call_count(end_commands(begin_spec(v))) == 0,
{
    assert(draw_call_count(Seq::<RenderCommand>::empty()) == 0);
}

/// Partial-upload bound: whatever a well-formed scene accumulated, every
/// partial upload `end_scene` emits stays within the vertex buffer's
/// planned capacity of `4 * MAX_QUADS` packed vertices.
pub proof fn lemma_partial_upload_bounded(v: BatchView)
    requires
        v.wf(),
    ensures
        forall|i: int|
            0 <= i < end_commands(v).len() ==> (#[trigger] end_commands(v)[i] matches
                RenderCommand::UploadSub { offset_bytes, len_bytes, .. } ==> offset_bytes
                + len_bytes <= VERTEX_BUFFER_CAPACITY_BYTES as int),
{
    let cmds = end_commands(v);
    if v.stats.quads_rendered != 0 {
        assert(upload_len_bytes(v) <= VERTEX_BUFFER_CAPACITY_BYTES as int) by (nonlinear_arith)
            requires
                v.stats.quads_rendered as int <= MAX_QUADS as int,
                upload_len_bytes(v) == (v.stats.quads_rendered as int) * (VERTICES_PER_QUAD as int)
                    * (VERTEX_SIZE_BYTES as int),
        ;
        assert forall|i: int|
            0 <= i < cmds.len() implies (#[trigger] cmds[i] matches RenderCommand::UploadSub {
            offset_bytes,
            len_bytes,
            .. } ==> offset_bytes + len_bytes <= VERTEX_BUFFER_CAPACITY_BYTES as int) by {
            if i == 2 {
                assert(cmds[2] == (RenderCommand::UploadSub {
                    kind: BufferKind::Vertex,
                    buffer_id: v.vertex_buffer.id,
                    offset_bytes: 0,
                    len_bytes: upload_len_bytes(v) as usize,
                }));
            } else {
                assert(!(cmds[0] is UploadSub) && !(cmds[1] is UploadSub) && !(cmds[3] is UploadSub)
                    && !(cmds[4] is UploadSub) && !(cmds[5] is UploadSub) && !(cmds[6]
                    is UploadSub));
            }
        }
    }
}

} // verus!
