//! The renderer's side of the GPU: it takes the commands the GPU passes on,
//! decodes their parameter words and draws into VRAM.
//!
//! The renderer is a state machine: each command is handled as it comes.
//! A CPU to VRAM copy takes the data words that follow it; commands that
//! come in between are handled as they come.

use vstd::prelude::*;
use crate::Frame;
use crate::gpu::status::GPUStatus;
use super::{
    RendererCmd, GP0Command, Coord, Size, Color, Vertex, TexCoord, TexInfo, TexMode, PaletteCoord,
    TransparencyMode, tex_mode_of, clip_width, clip_height, words_for,
};
use super::software::{
    SoftwareRenderer, RendererState, TriangleFill, renderer_ok, filled, rect_drawn, line_drawn,
    block_written, frame_copied, copied, block_fits, rect_fits, line_fits, tex_rect_fits, tex_rect_after,
    tex_start, clipped_rect, triangle_fits, triangle_after, frame_fits, frame_width, frame_height,
    VRAM_HALFWORDS,
};

verus! {

/// The picture is handed out at its resolution, not as all of VRAM.
pub const DEBUG_MODE: bool = false;

/// A CPU to VRAM copy waiting for its data: where it goes, its size, and
/// the words still to come.
#[derive(Clone, Copy, PartialEq, Eq, Structural, Debug)]
pub struct PendingBlit {
    pub dest: Coord,
    pub size: Size,
    pub words_left: usize,
}

/// What handling a command gives back.
pub enum RendererOutput {
    /// Nothing.
    Done,
    /// A data word that no copy was waiting for.
    Data(u32),
    /// The picture was copied into the frame.
    Frame,
    /// Words read out of VRAM, for the CPU.
    VramData(Vec<u32>),
}

/// The renderer as the contracts speak of it.
pub struct RendererView {
    pub sw: RendererState,
    pub staging: Seq<u16>,
    pub tex_mode: u16,
    pub rgb24: bool,
    pub pending: Option<PendingBlit>,
}

/// The renderer: drawing state, the buffer of a copy in progress, and the
/// texture page of textured rectangles.
pub struct Renderer {
    staging_buffer: Vec<u16>,
    tex_mode: u16,
    rgb24: bool,
    pending: Option<PendingBlit>,
    renderer: SoftwareRenderer,
}

impl View for Renderer {
    type V = RendererView;

    closed spec fn view(&self) -> RendererView {
        RendererView {
            sw: self.renderer@,
            staging: self.staging_buffer@,
            tex_mode: self.tex_mode,
            rgb24: self.rgb24,
            pending: self.pending,
        }
    }
}

// Decoding of parameter words.

/// The colour of a command word: red, green, blue in the low three bytes.
pub open spec fn color24(rgb: u32) -> Color {
    Color { r: (rgb & 0xFF) as u8, g: ((rgb >> 8) & 0xFF) as u8, b: ((rgb >> 16) & 0xFF) as u8, mask: 0 }
}

/// The neutral colour, 0x80 in each channel.
pub open spec fn neutral() -> Color {
    Color { r: 0x80, g: 0x80, b: 0x80, mask: 0 }
}

/// A position: X in the low halfword, Y in the high one.
pub open spec fn coord_of(xy: u32) -> Coord {
    Coord { x: (xy & 0xFFFF) as i16, y: ((xy >> 16) & 0xFFFF) as i16 }
}

/// A size: width in the low halfword, height in the high one.
pub open spec fn size_of(xy: u32) -> Size {
    Size { width: (xy & 0xFFFF) as u16, height: ((xy >> 16) & 0xFFFF) as u16 }
}

/// A position wrapped into VRAM.
pub open spec fn clip_coord(c: Coord) -> Coord {
    Coord { x: c.x & 0x3FF, y: c.y & 0x1FF }
}

/// A copy's size.
pub open spec fn clip_size(s: Size) -> Size {
    Size { width: clip_width(s.width), height: clip_height(s.height) }
}

/// A vertex at `xy` in the neutral colour.
pub open spec fn vertex_of(xy: u32) -> Vertex {
    Vertex { coord: coord_of(xy), col: neutral(), tex: TexCoord { s: 0, t: 0 } }
}

/// A vertex with the colour of a command word.
pub open spec fn with_col(v: Vertex, rgb: u32) -> Vertex {
    Vertex { col: color24(rgb), ..v }
}

/// A vertex with the texture coordinate in the low halfword of a word.
pub open spec fn with_tex(v: Vertex, tex: u32) -> Vertex {
    Vertex { tex: TexCoord { s: (tex & 0xFF) as u8, t: ((tex >> 8) & 0xFF) as u8 }, ..v }
}

/// The palette position in the high halfword of a word.
pub open spec fn palette_of(data: u32) -> PaletteCoord {
    PaletteCoord { x: (((data >> 16) & 0x3F) * 16) as usize, y: (((data >> 16) >> 6) & 0x1FF) as usize }
}

/// The texture page of a draw mode, with a palette.
pub open spec fn tex_info_of(draw_mode: u16, palette: PaletteCoord) -> TexInfo {
    TexInfo {
        s_base: (((draw_mode & 0x0F) as usize) * 64) as usize,
        t_base: (((draw_mode & 0x10) as usize) * 16) as usize,
        tex_mode: tex_mode_of(draw_mode),
        palette_coord: palette,
    }
}

/// The texture page of a textured polygon: the palette in its first
/// texture word, the draw mode in the high halfword of the second.
pub open spec fn poly_tex_info(texcoord_1: u32, texcoord_2: u32) -> TexInfo {
    tex_info_of((texcoord_2 >> 16) as u16, palette_of(texcoord_1))
}

/// The texture coordinate in the low halfword of a word.
pub open spec fn tex_coord_of(data: u32) -> TexCoord {
    TexCoord { s: (data & 0xFF) as u8, t: ((data >> 8) & 0xFF) as u8 }
}

/// The semi-transparency mode in bits 5 and 6 of a status word.
pub open spec fn trans_mode_of(bits: u32) -> TransparencyMode {
    let m = (bits & 0x60) >> 5;
    if m == 0 {
        TransparencyMode::Average
    } else if m == 1 {
        TransparencyMode::Add
    } else if m == 2 {
        TransparencyMode::Subtract
    } else {
        TransparencyMode::Combine
    }
}

/// An 11-bit field as a signed number.
pub open spec fn sext11(v: u32) -> i16 {
    let x = (v & 0x7FF) as int;
    (if x >= 0x400 { x - 0x800 } else { x }) as i16
}

// What the drawing commands do.

/// A filled rectangle stays within VRAM.
pub open spec fn fill_ok(tl: Coord, size: Size) -> bool {
    &&& tl.x >= 0
    &&& tl.y >= 0
    &&& size.height > 0 ==> (tl.y + size.height - 1) * 1024 + tl.x + size.width <= VRAM_HALFWORDS
}

/// The arithmetic of a triangle fits, and it is drawn; over `s`.
#[verifier::opaque]
pub open spec fn tri_step(s: RendererState, vs: Seq<Vertex>, fill: TriangleFill, t: bool) -> RendererState {
    RendererState { vram: triangle_after(s, vs, fill, t), ..s }
}

/// The triangles of a quad: the first three vertices, then the last three.
#[verifier::opaque]
pub open spec fn quad_step(s: RendererState, vs: Seq<Vertex>, fill: TriangleFill, t: bool) -> RendererState {
    tri_step(tri_step(s, vs.subrange(0, 3), fill, t), vs.subrange(1, 4), fill, t)
}

/// The arithmetic of a triangle fits.
#[verifier::opaque]
pub open spec fn tri_ok(s: RendererState, vs: Seq<Vertex>, fill: TriangleFill) -> bool {
    triangle_fits(s, vs, fill)
}

/// The arithmetic of both triangles of a quad fits.
#[verifier::opaque]
pub open spec fn quad_ok(s: RendererState, vs: Seq<Vertex>, fill: TriangleFill) -> bool {
    triangle_fits(s, vs.subrange(0, 3), fill) && triangle_fits(s, vs.subrange(1, 4), fill)
}

/// The arithmetic of a textured rectangle fits.
#[verifier::opaque]
pub open spec fn tex_rect_ok(s: RendererState, tc: TexCoord, ti: TexInfo, tl: Coord, size: Size) -> bool {
    tex_rect_fits(s, tc, ti, tl, size)
}

/// The fill of a textured polygon; one of plain texture keeps the neutral
/// colour of its vertices.
pub open spec fn tex_fill(texcoord_1: u32, texcoord_2: u32) -> TriangleFill {
    TriangleFill::Textured(poly_tex_info(texcoord_1, texcoord_2))
}

/// The vertices of each kind of polygon, from its parameter words.
pub open spec fn flat_vertices(p: Seq<u32>, n: int) -> Seq<Vertex> {
    Seq::new(n as nat, |i: int| with_col(vertex_of(p[i + 1]), p[0]))
}

pub open spec fn tex_vertices(p: Seq<u32>, n: int) -> Seq<Vertex> {
    Seq::new(n as nat, |i: int| with_tex(vertex_of(p[2 * i]), p[2 * i + 1]))
}

pub open spec fn tex_blend_vertices(p: Seq<u32>, n: int) -> Seq<Vertex> {
    Seq::new(n as nat, |i: int| with_tex(with_col(vertex_of(p[2 * i + 1]), p[0]), p[2 * i + 2]))
}

pub open spec fn shaded_vertices(p: Seq<u32>, n: int) -> Seq<Vertex> {
    Seq::new(n as nat, |i: int| with_col(vertex_of(p[2 * i + 1]), p[2 * i]))
}

pub open spec fn tex_shaded_vertices(p: Seq<u32>, n: int) -> Seq<Vertex> {
    Seq::new(n as nat, |i: int| with_tex(with_col(vertex_of(p[3 * i + 1]), p[3 * i]), p[3 * i + 2]))
}

/// The state after a textured rectangle.
#[verifier::opaque]
pub open spec fn tex_rect_step(
    s: RendererState, color: Color, tc: TexCoord, ti: TexInfo, tl: Coord, size: Size, t: bool,
) -> RendererState {
    let (x0, x1, y0, y1) = clipped_rect(s, tl, size);
    let (s0, t0) = tex_start(s, tc, tl);
    let cw = if x0 < x1 { x1 - x0 } else { 0 };
    let rows = if y0 < y1 { y1 - y0 } else { 0 };
    RendererState { vram: tex_rect_after(s, color, ti, t, x0, y0, cw, s0, t0, (cw * rows) as nat), ..s }
}

/// A drawing or setting command can be carried out: its arithmetic stays
/// within its types and what it touches lies within VRAM; no copy to or
/// from the CPU starts while a copy from the CPU waits for data.
pub open spec fn gp0_ok(v: RendererView, c: GP0Command) -> bool {
    let s = v.sw;
    match c {
        GP0Command::FillRectangle(p) => fill_ok(coord_of(p[1]), size_of(p[2])),
        GP0Command::DrawTri { params: p, .. } => tri_ok(s, flat_vertices(p@, 3), TriangleFill::Shaded),
        GP0Command::DrawTexTri { params: p, .. } => tri_ok(s, tex_vertices(p@, 3), tex_fill(p[1], p[3])),
        GP0Command::DrawTexBlendTri { params: p, .. } =>
            tri_ok(s, tex_blend_vertices(p@, 3), tex_fill(p[2], p[4])),
        GP0Command::DrawShadedTri { params: p, .. } =>
            tri_ok(s, shaded_vertices(p@, 3), TriangleFill::Shaded),
        GP0Command::DrawTexShadedTri { params: p, .. } =>
            tri_ok(s, tex_shaded_vertices(p@, 3), tex_fill(p[2], p[5])),
        GP0Command::DrawQuad { params: p, .. } => quad_ok(s, flat_vertices(p@, 4), TriangleFill::Shaded),
        GP0Command::DrawTexQuad { params: p, .. } => quad_ok(s, tex_vertices(p@, 4), tex_fill(p[1], p[3])),
        GP0Command::DrawTexBlendQuad { params: p, .. } =>
            quad_ok(s, tex_blend_vertices(p@, 4), tex_fill(p[2], p[4])),
        GP0Command::DrawShadedQuad { params: p, .. } =>
            quad_ok(s, shaded_vertices(p@, 4), TriangleFill::Shaded),
        GP0Command::DrawTexShadedQuad { params: p, .. } =>
            quad_ok(s, tex_shaded_vertices(p@, 4), tex_fill(p[2], p[5])),
        GP0Command::DrawLine { params: p, .. } =>
            line_fits(s, with_col(vertex_of(p[1]), p[0]), with_col(vertex_of(p[2]), p[0])),
        GP0Command::DrawShadedLine { params: p, .. } =>
            line_fits(s, with_col(vertex_of(p[1]), p[0]), with_col(vertex_of(p[3]), p[2])),
        GP0Command::DrawRect { params: p, .. } => rect_fits(s, coord_of(p[1]), size_of(p[2])),
        GP0Command::DrawFixedRect { params: p, size, .. } =>
            rect_fits(s, coord_of(p[1]), Size { width: size, height: size }),
        GP0Command::DrawTexRect { params: p, .. } =>
            tex_rect_ok(s, tex_coord_of(p[1]), tex_info_of(v.tex_mode, palette_of(p[1])), coord_of(p[0]), size_of(p[2])),
        GP0Command::DrawTexBlendedRect { params: p, .. } =>
            tex_rect_ok(s, tex_coord_of(p[2]), tex_info_of(v.tex_mode, palette_of(p[2])), coord_of(p[1]), size_of(p[3])),
        GP0Command::DrawTexFixedRect { params: p, size, .. } =>
            tex_rect_ok(s, tex_coord_of(p[1]), tex_info_of(v.tex_mode, palette_of(p[1])), coord_of(p[0]),
                Size { width: size, height: size }),
        GP0Command::DrawTexBlendedFixedRect { params: p, size, .. } =>
            tex_rect_ok(s, tex_coord_of(p[2]), tex_info_of(v.tex_mode, palette_of(p[2])), coord_of(p[1]),
                Size { width: size, height: size }),
        GP0Command::BlitVRAMtoVRAM { params: p } => {
            let size = clip_size(size_of(p[2]));
            let from = clip_coord(coord_of(p[0]));
            let to = clip_coord(coord_of(p[1]));
            block_fits(from, size) && block_fits(to, size)
        },
        GP0Command::BlitCPUtoVRAM { params: p } =>
            v.pending is None && block_fits(clip_coord(coord_of(p[0])), clip_size(size_of(p[1]))),
        GP0Command::BlitVRAMtoCPU { params: p } => {
            let size = clip_size(size_of(p[1]));
            let from = clip_coord(coord_of(p[0]));
            v.pending is None && from.x + size.width <= 1024 && from.y + size.height <= 512
        },
        _ => true,
    }
}

/// The state after a drawing or setting command (apart from the copies,
/// which `gp0_done` describes).
pub open spec fn gp0_step(v: RendererView, c: GP0Command) -> RendererView {
    let s = v.sw;
    match c {
        GP0Command::DrawTri { params: p, transparent: t } =>
            RendererView { sw: tri_step(s, flat_vertices(p@, 3), TriangleFill::Shaded, t), ..v },
        GP0Command::DrawTexTri { params: p, transparent: t } =>
            RendererView { sw: tri_step(s, tex_vertices(p@, 3), tex_fill(p[1], p[3]), t), ..v },
        GP0Command::DrawTexBlendTri { params: p, transparent: t } =>
            RendererView { sw: tri_step(s, tex_blend_vertices(p@, 3), tex_fill(p[2], p[4]), t), ..v },
        GP0Command::DrawShadedTri { params: p, transparent: t } =>
            RendererView { sw: tri_step(s, shaded_vertices(p@, 3), TriangleFill::Shaded, t), ..v },
        GP0Command::DrawTexShadedTri { params: p, transparent: t } =>
            RendererView { sw: tri_step(s, tex_shaded_vertices(p@, 3), tex_fill(p[2], p[5]), t), ..v },
        GP0Command::DrawQuad { params: p, transparent: t } =>
            RendererView { sw: quad_step(s, flat_vertices(p@, 4), TriangleFill::Shaded, t), ..v },
        GP0Command::DrawTexQuad { params: p, transparent: t } =>
            RendererView { sw: quad_step(s, tex_vertices(p@, 4), tex_fill(p[1], p[3]), t), ..v },
        GP0Command::DrawTexBlendQuad { params: p, transparent: t } =>
            RendererView { sw: quad_step(s, tex_blend_vertices(p@, 4), tex_fill(p[2], p[4]), t), ..v },
        GP0Command::DrawShadedQuad { params: p, transparent: t } =>
            RendererView { sw: quad_step(s, shaded_vertices(p@, 4), TriangleFill::Shaded, t), ..v },
        GP0Command::DrawTexShadedQuad { params: p, transparent: t } =>
            RendererView { sw: quad_step(s, tex_shaded_vertices(p@, 4), tex_fill(p[2], p[5]), t), ..v },
        GP0Command::DrawTexRect { params: p, transparent: t } => RendererView {
            sw: tex_rect_step(s, neutral(), tex_coord_of(p[1]), tex_info_of(v.tex_mode, palette_of(p[1])),
                coord_of(p[0]), size_of(p[2]), t),
            ..v
        },
        GP0Command::DrawTexBlendedRect { params: p, transparent: t } => RendererView {
            sw: tex_rect_step(s, color24(p[0]), tex_coord_of(p[2]), tex_info_of(v.tex_mode, palette_of(p[2])),
                coord_of(p[1]), size_of(p[3]), t),
            ..v
        },
        GP0Command::DrawTexFixedRect { params: p, size, transparent: t } => RendererView {
            sw: tex_rect_step(s, neutral(), tex_coord_of(p[1]), tex_info_of(v.tex_mode, palette_of(p[1])),
                coord_of(p[0]), Size { width: size, height: size }, t),
            ..v
        },
        GP0Command::DrawTexBlendedFixedRect { params: p, size, transparent: t } => RendererView {
            sw: tex_rect_step(s, color24(p[0]), tex_coord_of(p[2]), tex_info_of(v.tex_mode, palette_of(p[2])),
                coord_of(p[1]), Size { width: size, height: size }, t),
            ..v
        },
        GP0Command::BlitVRAMtoVRAM { params: p } => {
            let size = clip_size(size_of(p[2]));
            RendererView {
                sw: RendererState {
                    vram: copied(s, clip_coord(coord_of(p[0])), clip_coord(coord_of(p[1])), size.width as int,
                        (size.width * size.height) as nat),
                    ..s
                },
                ..v
            }
        },
        GP0Command::BlitCPUtoVRAM { params: p } => {
            let size = clip_size(size_of(p[1]));
            RendererView {
                staging: Seq::empty(),
                pending: Some(PendingBlit {
                    dest: clip_coord(coord_of(p[0])),
                    size,
                    words_left: words_for(size.width, size.height) as usize,
                }),
                ..v
            }
        },
        GP0Command::DrawMode(st) => RendererView {
            tex_mode: (st.bits & 0x87FF) as u16,
            sw: RendererState { trans_mode: trans_mode_of(st.bits), dither: st.bits & 0x200 != 0, ..s },
            ..v
        },
        GP0Command::TexWindow(param) => RendererView {
            sw: RendererState {
                tex_window: super::software::TextureWindow {
                    mask_s: (((param & 0x1F) as u8) << 3) as u8,
                    mask_t: ((((param >> 5) & 0x1F) as u8) << 3) as u8,
                    offset_s: ((((param >> 10) & 0x1F) as u8) << 3) as u8,
                    offset_t: ((((param >> 15) & 0x1F) as u8) << 3) as u8,
                },
                ..s
            },
            ..v
        },
        GP0Command::DrawAreaTopLeft(param) => RendererView {
            sw: RendererState {
                drawing_area: super::software::DrawingArea {
                    left: (param & 0x3FF) as i16,
                    top: ((param >> 10) & 0x1FF) as i16,
                    ..s.drawing_area
                },
                ..s
            },
            ..v
        },
        GP0Command::DrawAreaBottomRight(param) => RendererView {
            sw: RendererState {
                drawing_area: super::software::DrawingArea {
                    right: ((param & 0x3FF) + 1) as i16,
                    bottom: (((param >> 10) & 0x1FF) + 1) as i16,
                    ..s.drawing_area
                },
                ..s
            },
            ..v
        },
        GP0Command::DrawOffset(param) => RendererView {
            sw: RendererState { draw_offset: Coord { x: sext11(param), y: sext11(param >> 11) }, ..s },
            ..v
        },
        GP0Command::MaskBit { set_mask, check_mask } => RendererView {
            sw: RendererState { set_mask_bit: set_mask, check_mask_bit: check_mask, ..s },
            ..v
        },
        _ => v,
    }
}

/// What reading a block out of VRAM for the CPU does: the buffer takes two
/// halfwords for each word (the pixels, then what the buffer held, then
/// zeroes), and the words are handed out, two halfwords each, low first.
#[verifier::opaque]
pub open spec fn vram_read_done(v: RendererView, at: u32, area: u32, n: RendererView, out: RendererOutput) -> bool {
    let s = v.sw;
    let size = clip_size(size_of(area));
    let from = clip_coord(coord_of(at));
    let words = words_for(size.width, size.height);
    let px = size.width * size.height;
    &&& n == (RendererView { staging: n.staging, ..v })
    &&& n.staging.len() == 2 * words
    &&& forall|j: int| 0 <= j < 2 * words ==> #[trigger] n.staging[j] == (
        if j < px {
            s.vram[(from.y + j / (size.width as int)) * 1024 + from.x + j % (size.width as int)]
        } else if j < v.staging.len() {
            v.staging[j]
        } else {
            0
        })
    &&& out matches RendererOutput::VramData(w) && w@.len() == words && forall|i: int| 0 <= i < words ==>
        #[trigger] w@[i] == ((n.staging[2 * i + 1] as u32) << 16) | (n.staging[2 * i] as u32)
}

/// What a drawing or setting command does to the renderer `v`, giving `n`
/// and the output `out`.
pub open spec fn gp0_done(v: RendererView, c: GP0Command, n: RendererView, out: RendererOutput) -> bool {
    let s = v.sw;
    match c {
        GP0Command::FillRectangle(p) =>
            n == (RendererView { sw: n.sw, ..v }) && filled(s, color24(p[0]), coord_of(p[1]), size_of(p[2]), n.sw)
                && out is Done,
        GP0Command::DrawLine { params: p, transparent: t } =>
            n == (RendererView { sw: n.sw, ..v })
                && line_drawn(s, with_col(vertex_of(p[1]), p[0]), with_col(vertex_of(p[2]), p[0]), t, n.sw)
                && out is Done,
        GP0Command::DrawShadedLine { params: p, transparent: t } =>
            n == (RendererView { sw: n.sw, ..v })
                && line_drawn(s, with_col(vertex_of(p[1]), p[0]), with_col(vertex_of(p[3]), p[2]), t, n.sw)
                && out is Done,
        GP0Command::DrawRect { params: p, transparent: t } =>
            n == (RendererView { sw: n.sw, ..v }) && rect_drawn(s, color24(p[0]), coord_of(p[1]), size_of(p[2]), t, n.sw)
                && out is Done,
        GP0Command::DrawFixedRect { params: p, size, transparent: t } =>
            n == (RendererView { sw: n.sw, ..v })
                && rect_drawn(s, color24(p[0]), coord_of(p[1]), Size { width: size, height: size }, t, n.sw)
                && out is Done,
        GP0Command::BlitVRAMtoCPU { params: p } => vram_read_done(v, p[0], p[1], n, out),
        _ => n == gp0_step(v, c) && out is Done,
    }
}

/// The renderer is consistent: VRAM has its size, the drawing area lies
/// within it, and a waiting copy has buffered two halfwords for each word
/// it took, and lies within VRAM.
pub open spec fn renderer_view_ok(v: RendererView) -> bool {
    &&& renderer_ok(v.sw)
    &&& match v.pending {
        None => true,
        Some(p) => {
            &&& 1 <= p.size.width <= 1024
            &&& 1 <= p.size.height <= 512
            &&& block_fits(p.dest, p.size)
            &&& 1 <= p.words_left
            &&& v.staging.len() + 2 * p.words_left == 2 * words_for(p.size.width, p.size.height)
        },
    }
}

impl Renderer {
    pub open spec fn wf(&self) -> bool {
        renderer_view_ok(self@)
    }

    pub fn new() -> (r: Self)
        ensures
            r.wf(),
            r@.sw.vram == Seq::new(VRAM_HALFWORDS as nat, |i: int| 0u16),
            r@.staging.len() == 0,
            r@.tex_mode == 0,
            !r@.rgb24,
            r@.pending is None,
    {
        let renderer = SoftwareRenderer::new();
        Self { staging_buffer: Vec::new(), tex_mode: 0, rgb24: false, pending: None, renderer }
    }
}

/// What a data word does: it goes into the buffer of a waiting copy, two
/// halfwords, low first, and the last one stores the copy in VRAM; with no
/// copy waiting it is handed back.
pub open spec fn data_done(v: RendererView, data: u32, n: RendererView, out: RendererOutput) -> bool {
    match v.pending {
        None => n == v && out == RendererOutput::Data(data),
        Some(p) => {
            let st = v.staging.push((data & 0xFFFF) as u16).push(((data >> 16) & 0xFFFF) as u16);
            &&& out is Done
            &&& if p.words_left == 1 {
                &&& n == (RendererView { staging: st, pending: None, sw: n.sw, ..v })
                &&& block_written(v.sw, st, p.dest, p.size, n.sw)
            } else {
                n == (RendererView { staging: st, pending: Some(PendingBlit { words_left: (p.words_left - 1) as usize, ..p }), ..v })
            }
        },
    }
}

/// A command can be handled: a drawing command as `gp0_ok` says; a frame
/// is taken into a buffer large enough for the picture, read from within
/// VRAM; the vertical display range does not end before it begins; a
/// display mode's frame fits in memory.
pub open spec fn command_ok(v: RendererView, cmd: RendererCmd, frame: Frame) -> bool {
    match cmd {
        RendererCmd::GetFrame(_) => v.sw.enable_display ==> {
            &&& frame_fits(v.sw, v.rgb24, DEBUG_MODE)
            &&& frame.frame_buffer@.len() >= 4 * frame_width(v.sw, DEBUG_MODE) * frame_height(v.sw, DEBUG_MODE)
        },
        RendererCmd::GP0(c) => gp0_ok(v, c),
        RendererCmd::DisplayYRange(range) => range & 0x3FF <= (range >> 10) & 0x3FF,
        RendererCmd::DisplayMode { h_res, v_res, .. } => h_res * v_res * 4 <= usize::MAX,
        _ => true,
    }
}

/// What a command does to the renderer `v` and the frame `f`, giving `n`,
/// `nf` and the output `out`.
pub open spec fn command_done(
    v: RendererView, cmd: RendererCmd, f: Frame, n: RendererView, nf: Frame, out: RendererOutput,
) -> bool {
    match cmd {
        RendererCmd::GetFrame(_) =>
            n == v && nf.size == f.size && frame_copied(v.sw, v.rgb24, DEBUG_MODE, f.frame_buffer@, nf.frame_buffer@)
                && out is Frame,
        RendererCmd::GP0(c) => gp0_done(v, c, n, out) && nf == f,
        RendererCmd::GP0Data(d) => data_done(v, d, n, out) && nf == f,
        RendererCmd::DisplayEnable(e) =>
            n == (RendererView { sw: RendererState { enable_display: e, ..v.sw }, ..v }) && nf == f && out is Done,
        RendererCmd::DisplayVRAMOffset(o) => n == (RendererView {
            sw: RendererState { frame_pos: Coord { x: (o & 0x3FF) as i16, y: ((o >> 10) & 0x1FF) as i16 }, ..v.sw },
            ..v
        }) && nf == f && out is Done,
        RendererCmd::DisplayYRange(r) => n == (RendererView {
            sw: RendererState { display_height: (((r >> 10) & 0x3FF) - (r & 0x3FF)) as u16, ..v.sw },
            ..v
        }) && nf == f && out is Done,
        RendererCmd::DisplayMode { h_res, v_res, interlace, rgb24 } => {
            &&& n == (RendererView {
                sw: RendererState {
                    resolution: Size { width: h_res as u16, height: v_res as u16 },
                    interlace,
                    ..v.sw
                },
                rgb24,
                ..v
            })
            &&& out is Done
            &&& if f.size == (h_res, v_res) {
                nf == f
            } else {
                nf.size == (h_res, v_res) && nf.frame_buffer@ == Seq::new((h_res * v_res * 4) as nat, |i: int| 0u8)
            }
        },
        _ => n == v && nf == f && out is Done,
    }
}

impl Renderer {
    /// Handle a command: draw, change a setting, take a data word, or copy
    /// the picture into `frame`.
    pub fn handle_command(&mut self, command: RendererCmd, frame: &mut Frame) -> (out: RendererOutput)
        requires
            old(self).wf(),
            command_ok(old(self)@, command, *old(frame)),
        ensures
            final(self).wf(),
            command_done(old(self)@, command, *old(frame), final(self)@, *final(frame), out),
    {
        match command {
            RendererCmd::GetFrame(interlace) => {
                self.renderer.get_frame(frame, interlace, self.rgb24, DEBUG_MODE);
                RendererOutput::Frame
            },
            RendererCmd::GP0(c) => self.handle_gp0(c),
            RendererCmd::GP0Data(data) => self.take_data(data),
            RendererCmd::DisplayEnable(enable) => {
                self.renderer.enable_display(enable);
                RendererOutput::Done
            },
            RendererCmd::DisplayVRAMOffset(offset) => {
                self.display_vram_offset(offset);
                RendererOutput::Done
            },
            RendererCmd::DisplayXRange(range) => {
                self.display_range_x(range);
                RendererOutput::Done
            },
            RendererCmd::DisplayYRange(range) => {
                self.display_range_y(range);
                RendererOutput::Done
            },
            RendererCmd::DisplayMode { h_res, v_res, interlace, rgb24 } => {
                self.display_mode(frame, h_res, v_res, interlace, rgb24);
                RendererOutput::Done
            },
            RendererCmd::TexDisable(_) => RendererOutput::Done,
        }
    }

    /// Take a data word: see `data_done`.
    fn take_data(&mut self, data: u32) -> (out: RendererOutput)
        requires
            old(self).wf(),
        ensures
            final(self).wf(),
            data_done(old(self)@, data, final(self)@, out),
    {
        match self.pending {
            None => RendererOutput::Data(data),
            Some(p) => {
                self.staging_buffer.push((data & 0xFFFF) as u16);
                self.staging_buffer.push(((data >> 16) & 0xFFFF) as u16);
                if p.words_left == 1 {
                    self.pending = None;
                    proof {
                        let w = p.size.width as int;
                        let h = p.size.height as int;
                        assert(self@.staging.len() == 2 * ((w * h + 1) / 2));
                    }
                    self.renderer.write_vram_block(self.staging_buffer.as_slice(), p.dest, p.size);
                } else {
                    self.pending = Some(PendingBlit { words_left: p.words_left - 1, ..p });
                }
                RendererOutput::Done
            },
        }
    }

    fn display_vram_offset(&mut self, offset: u32)
        ensures
            final(self)@ == (RendererView {
                sw: RendererState {
                    frame_pos: Coord { x: (offset & 0x3FF) as i16, y: ((offset >> 10) & 0x1FF) as i16 },
                    ..old(self)@.sw
                },
                ..old(self)@
            }),
    {
        let coord = Coord { x: (offset & 0x3FF) as i16, y: ((offset >> 10) & 0x1FF) as i16 };
        self.renderer.set_display_offset(coord);
    }

    /// The horizontal display range: begin in bits 0-11, end in bits 12-23.
    fn display_range_x(&mut self, range: u32)
        ensures
            final(self)@ == old(self)@,
    {
        let begin = range & 0xFFF;
        let end = (range >> 12) & 0xFFF;
        self.renderer.set_display_range_x(begin, end);
    }

    /// The vertical display range: begin in bits 0-9, end in bits 10-19.
    fn display_range_y(&mut self, range: u32)
        requires
            range & 0x3FF <= (range >> 10) & 0x3FF,
        ensures
            final(self)@ == (RendererView {
                sw: RendererState { display_height: (((range >> 10) & 0x3FF) - (range & 0x3FF)) as u16, ..old(self)@.sw },
                ..old(self)@
            }),
    {
        let begin = range & 0x3FF;
        let end = (range >> 10) & 0x3FF;
        self.renderer.set_display_range_y(begin, end);
    }

    /// A new display mode: the frame takes its size, and the renderer its
    /// resolution, interlacing and colour depth.
    fn display_mode(&mut self, frame: &mut Frame, h_res: usize, v_res: usize, interlace: bool, rgb24: bool)
        requires
            h_res * v_res * 4 <= usize::MAX,
        ensures
            final(self)@ == (RendererView {
                sw: RendererState {
                    resolution: Size { width: h_res as u16, height: v_res as u16 },
                    interlace,
                    ..old(self)@.sw
                },
                rgb24,
                ..old(self)@
            }),
            if old(frame).size == (h_res, v_res) {
                *final(frame) == *old(frame)
            } else {
                final(frame).size == (h_res, v_res)
                    && final(frame).frame_buffer@ == Seq::new((h_res * v_res * 4) as nat, |i: int| 0u8)
            },
    {
        frame.resize((h_res, v_res));
        self.renderer.set_display_resolution(Size { width: h_res as u16, height: v_res as u16 }, interlace);
        self.rgb24 = rgb24;
    }
}

impl Renderer {
    /// Carry out a drawing or setting command.
    #[verifier::rlimit(100)]
    fn handle_gp0(&mut self, c: GP0Command) -> (out: RendererOutput)
        requires
            old(self).wf(),
            gp0_ok(old(self)@, c),
        ensures
            final(self).wf(),
            gp0_done(old(self)@, c, final(self)@, out),
    {
        match c {
            GP0Command::ClearCache => {},
            GP0Command::FillRectangle(params) => self.fill_rectangle(&params),
            GP0Command::DrawTri { params, transparent } => self.draw_tri(&params, transparent),
            GP0Command::DrawTexTri { params, transparent } => self.draw_textured_tri(&params, transparent),
            GP0Command::DrawTexBlendTri { params, transparent } => self.draw_textured_blended_tri(&params, transparent),
            GP0Command::DrawShadedTri { params, transparent } => self.draw_shaded_tri(&params, transparent),
            GP0Command::DrawTexShadedTri { params, transparent } => self.draw_textured_shaded_tri(&params, transparent),
            GP0Command::DrawQuad { params, transparent } => self.draw_quad(&params, transparent),
            GP0Command::DrawTexQuad { params, transparent } => self.draw_textured_quad(&params, transparent),
            GP0Command::DrawTexBlendQuad { params, transparent } => self.draw_textured_blended_quad(&params, transparent),
            GP0Command::DrawShadedQuad { params, transparent } => self.draw_shaded_quad(&params, transparent),
            GP0Command::DrawTexShadedQuad { params, transparent } => self.draw_textured_shaded_quad(&params, transparent),
            GP0Command::DrawLine { params, transparent } => self.draw_line(&params, transparent),
            GP0Command::DrawShadedLine { params, transparent } => self.draw_shaded_line(&params, transparent),
            GP0Command::DrawRect { params, transparent } => self.draw_rectangle(&params, transparent),
            GP0Command::DrawTexRect { params, transparent } => self.draw_tex_rectangle(&params, transparent),
            GP0Command::DrawTexBlendedRect { params, transparent } => self.draw_tex_blended_rectangle(&params, transparent),
            GP0Command::DrawFixedRect { params, size, transparent } => self.draw_fixed_rectangle(&params, transparent, size),
            GP0Command::DrawTexFixedRect { params, size, transparent } =>
                self.draw_tex_fixed_rectangle(&params, transparent, size),
            GP0Command::DrawTexBlendedFixedRect { params, size, transparent } =>
                self.draw_tex_blended_fixed_rectangle(&params, transparent, size),
            GP0Command::BlitVRAMtoVRAM { params } => self.blit_vram_to_vram(&params),
            GP0Command::BlitCPUtoVRAM { params } => self.blit_cpu_to_vram(&params),
            GP0Command::BlitVRAMtoCPU { params } => {
                let words = self.blit_vram_to_cpu(&params);
                return RendererOutput::VramData(words);
            },
            GP0Command::DrawMode(status) => self.set_draw_mode(status),
            GP0Command::TexWindow(param) => self.texture_window_setting(param),
            GP0Command::DrawAreaTopLeft(param) => self.set_draw_area_top_left(param),
            GP0Command::DrawAreaBottomRight(param) => self.set_draw_area_bottom_right(param),
            GP0Command::DrawOffset(param) => self.set_draw_offset(param),
            GP0Command::MaskBit { set_mask, check_mask } => self.renderer.set_mask_settings(set_mask, check_mask),
        }
        RendererOutput::Done
    }

    /// Fill a rectangle.
    fn fill_rectangle(&mut self, params: &[u32; 3])
        requires
            old(self).wf(),
            fill_ok(coord_of(params[1]), size_of(params[2])),
        ensures
            final(self).wf(),
            final(self)@ == (RendererView { sw: final(self)@.sw, ..old(self)@ }),
            filled(old(self)@.sw, color24(params[0]), coord_of(params[1]), size_of(params[2]), final(self)@.sw),
    {
        let color = Color::from_rgb24(params[0]);
        let top_left = Coord::from_xy(params[1]);
        let size = Size::from_xy(params[2]);
        self.renderer.fill_rectangle(color, top_left, size);
    }

    /// Draw a triangle, or both triangles of a quad, with `fill`.
    fn draw_polygon(&mut self, vertices: &[Vertex], fill: &TriangleFill, transparent: bool)
        requires
            old(self).wf(),
            vertices@.len() == 3 ==> tri_ok(old(self)@.sw, vertices@, *fill),
            vertices@.len() == 4 ==> quad_ok(old(self)@.sw, vertices@, *fill),
            vertices@.len() == 3 || vertices@.len() == 4,
        ensures
            final(self).wf(),
            vertices@.len() == 3 ==> final(self)@ == (RendererView {
                sw: tri_step(old(self)@.sw, vertices@, *fill, transparent),
                ..old(self)@
            }),
            vertices@.len() == 4 ==> final(self)@ == (RendererView {
                sw: quad_step(old(self)@.sw, vertices@, *fill, transparent),
                ..old(self)@
            }),
    {
        if vertices.len() == 3 {
            self.draw_triangle(vertices, fill, transparent);
        } else {
            let first = [vertices[0], vertices[1], vertices[2]];
            let second = [vertices[1], vertices[2], vertices[3]];
            let ghost s0 = self@.sw;
            proof {
                assert(first@ =~= vertices@.subrange(0, 3));
                assert(second@ =~= vertices@.subrange(1, 4));
                reveal(quad_ok);
                reveal(tri_ok);
            }
            self.draw_triangle(&first, fill, transparent);
            proof {
                reveal(tri_step);
                assert(super::software::settings(self@.sw) == super::software::settings(s0));
                super::software::lemma_triangle_fits_settings(s0, self@.sw, second@, *fill);
            }
            self.draw_triangle(&second, fill, transparent);
            proof {
                reveal(quad_step);
            }
        }
    }

    /// Draw one triangle with `fill`.
    fn draw_triangle(&mut self, vertices: &[Vertex], fill: &TriangleFill, transparent: bool)
        requires
            old(self).wf(),
            tri_ok(old(self)@.sw, vertices@, *fill),
        ensures
            final(self).wf(),
            final(self)@ == (RendererView { sw: tri_step(old(self)@.sw, vertices@, *fill, transparent), ..old(self)@ }),
    {
        proof {
            reveal(tri_ok);
            reveal(tri_step);
        }
        match fill {
            TriangleFill::Shaded => self.renderer.draw_triangle(vertices, transparent),
            TriangleFill::Textured(tex_info) => self.renderer.draw_triangle_tex(vertices, tex_info, transparent),
        }
    }

    /// Draw a triangle of one colour: the first word.
    fn draw_tri(&mut self, params: &[u32; 4], transparent: bool)
        requires
            old(self).wf(),
            tri_ok(old(self)@.sw, flat_vertices(params@, 3), TriangleFill::Shaded),
        ensures
            final(self).wf(),
            final(self)@ == (RendererView {
                sw: tri_step(old(self)@.sw, flat_vertices(params@, 3), TriangleFill::Shaded, transparent),
                ..old(self)@
            }),
    {
        let rgb = params[0];
        let vertices = [
            Vertex::from_xy(params[1]).set_col(rgb),
            Vertex::from_xy(params[2]).set_col(rgb),
            Vertex::from_xy(params[3]).set_col(rgb),
        ];
        assert(vertices@ =~= flat_vertices(params@, 3));
        self.draw_polygon(&vertices, &TriangleFill::Shaded, transparent);
    }

    /// Draw a textured triangle: vertex and texture words in turn.
    fn draw_textured_tri(&mut self, params: &[u32; 6], transparent: bool)
        requires
            old(self).wf(),
            tri_ok(old(self)@.sw, tex_vertices(params@, 3), tex_fill(params[1], params[3])),
        ensures
            final(self).wf(),
            final(self)@ == (RendererView {
                sw: tri_step(old(self)@.sw, tex_vertices(params@, 3), tex_fill(params[1], params[3]), transparent),
                ..old(self)@
            }),
    {
        let vertices = [
            Vertex::from_xy(params[0]).set_tex(params[1]),
            Vertex::from_xy(params[2]).set_tex(params[3]),
            Vertex::from_xy(params[4]).set_tex(params[5]),
        ];
        assert(vertices@ =~= tex_vertices(params@, 3));
        let tex_info = TexInfo::from_data(params[1], params[3]);
        self.draw_polygon(&vertices, &TriangleFill::Textured(tex_info), transparent);
    }

    /// Draw a textured triangle blended with a colour: the colour word, then
    /// vertex and texture words in turn.
    fn draw_textured_blended_tri(&mut self, params: &[u32; 7], transparent: bool)
        requires
            old(self).wf(),
            tri_ok(old(self)@.sw, tex_blend_vertices(params@, 3), tex_fill(params[2], params[4])),
        ensures
            final(self).wf(),
            final(self)@ == (RendererView {
                sw: tri_step(old(self)@.sw, tex_blend_vertices(params@, 3), tex_fill(params[2], params[4]), transparent),
                ..old(self)@
            }),
    {
        let rgb = params[0];
        let vertices = [
            Vertex::from_xy(params[1]).set_col(rgb).set_tex(params[2]),
            Vertex::from_xy(params[3]).set_col(rgb).set_tex(params[4]),
            Vertex::from_xy(params[5]).set_col(rgb).set_tex(params[6]),
        ];
        assert(vertices@ =~= tex_blend_vertices(params@, 3));
        let tex_info = TexInfo::from_data(params[2], params[4]);
        self.draw_polygon(&vertices, &TriangleFill::Textured(tex_info), transparent);
    }

    /// Draw a shaded triangle: colour and vertex words in turn.
    fn draw_shaded_tri(&mut self, params: &[u32; 6], transparent: bool)
        requires
            old(self).wf(),
            tri_ok(old(self)@.sw, shaded_vertices(params@, 3), TriangleFill::Shaded),
        ensures
            final(self).wf(),
            final(self)@ == (RendererView {
                sw: tri_step(old(self)@.sw, shaded_vertices(params@, 3), TriangleFill::Shaded, transparent),
                ..old(self)@
            }),
    {
        let vertices = [
            Vertex::from_xy(params[1]).set_col(params[0]),
            Vertex::from_xy(params[3]).set_col(params[2]),
            Vertex::from_xy(params[5]).set_col(params[4]),
        ];
        assert(vertices@ =~= shaded_vertices(params@, 3));
        self.draw_polygon(&vertices, &TriangleFill::Shaded, transparent);
    }

    /// Draw a shaded textured triangle: colour, vertex and texture words in
    /// turn.
    fn draw_textured_shaded_tri(&mut self, params: &[u32; 9], transparent: bool)
        requires
            old(self).wf(),
            tri_ok(old(self)@.sw, tex_shaded_vertices(params@, 3), tex_fill(params[2], params[5])),
        ensures
            final(self).wf(),
            final(self)@ == (RendererView {
                sw: tri_step(old(self)@.sw, tex_shaded_vertices(params@, 3), tex_fill(params[2], params[5]), transparent),
                ..old(self)@
            }),
    {
        let vertices = [
            Vertex::from_xy(params[1]).set_col(params[0]).set_tex(params[2]),
            Vertex::from_xy(params[4]).set_col(params[3]).set_tex(params[5]),
            Vertex::from_xy(params[7]).set_col(params[6]).set_tex(params[8]),
        ];
        assert(vertices@ =~= tex_shaded_vertices(params@, 3));
        let tex_info = TexInfo::from_data(params[2], params[5]);
        self.draw_polygon(&vertices, &TriangleFill::Textured(tex_info), transparent);
    }

    /// Draw a quad of one colour.
    fn draw_quad(&mut self, params: &[u32; 5], transparent: bool)
        requires
            old(self).wf(),
            quad_ok(old(self)@.sw, flat_vertices(params@, 4), TriangleFill::Shaded),
        ensures
            final(self).wf(),
            final(self)@ == (RendererView {
                sw: quad_step(old(self)@.sw, flat_vertices(params@, 4), TriangleFill::Shaded, transparent),
                ..old(self)@
            }),
    {
        let rgb = params[0];
        let vertices = [
            Vertex::from_xy(params[1]).set_col(rgb),
            Vertex::from_xy(params[2]).set_col(rgb),
            Vertex::from_xy(params[3]).set_col(rgb),
            Vertex::from_xy(params[4]).set_col(rgb),
        ];
        assert(vertices@ =~= flat_vertices(params@, 4));
        self.draw_polygon(&vertices, &TriangleFill::Shaded, transparent);
    }

    /// Draw a textured quad.
    fn draw_textured_quad(&mut self, params: &[u32; 8], transparent: bool)
        requires
            old(self).wf(),
            quad_ok(old(self)@.sw, tex_vertices(params@, 4), tex_fill(params[1], params[3])),
        ensures
            final(self).wf(),
            final(self)@ == (RendererView {
                sw: quad_step(old(self)@.sw, tex_vertices(params@, 4), tex_fill(params[1], params[3]), transparent),
                ..old(self)@
            }),
    {
        let vertices = [
            Vertex::from_xy(params[0]).set_tex(params[1]),
            Vertex::from_xy(params[2]).set_tex(params[3]),
            Vertex::from_xy(params[4]).set_tex(params[5]),
            Vertex::from_xy(params[6]).set_tex(params[7]),
        ];
        assert(vertices@ =~= tex_vertices(params@, 4));
        let tex_info = TexInfo::from_data(params[1], params[3]);
        self.draw_polygon(&vertices, &TriangleFill::Textured(tex_info), transparent);
    }

    /// Draw a textured quad blended with a colour.
    fn draw_textured_blended_quad(&mut self, params: &[u32; 9], transparent: bool)
        requires
            old(self).wf(),
            quad_ok(old(self)@.sw, tex_blend_vertices(params@, 4), tex_fill(params[2], params[4])),
        ensures
            final(self).wf(),
            final(self)@ == (RendererView {
                sw: quad_step(old(self)@.sw, tex_blend_vertices(params@, 4), tex_fill(params[2], params[4]), transparent),
                ..old(self)@
            }),
    {
        let rgb = params[0];
        let vertices = [
            Vertex::from_xy(params[1]).set_col(rgb).set_tex(params[2]),
            Vertex::from_xy(params[3]).set_col(rgb).set_tex(params[4]),
            Vertex::from_xy(params[5]).set_col(rgb).set_tex(params[6]),
            Vertex::from_xy(params[7]).set_col(rgb).set_tex(params[8]),
        ];
        assert(vertices@ =~= tex_blend_vertices(params@, 4));
        let tex_info = TexInfo::from_data(params[2], params[4]);
        self.draw_polygon(&vertices, &TriangleFill::Textured(tex_info), transparent);
    }

    /// Draw a shaded quad.
    fn draw_shaded_quad(&mut self, params: &[u32; 8], transparent: bool)
        requires
            old(self).wf(),
            quad_ok(old(self)@.sw, shaded_vertices(params@, 4), TriangleFill::Shaded),
        ensures
            final(self).wf(),
            final(self)@ == (RendererView {
                sw: quad_step(old(self)@.sw, shaded_vertices(params@, 4), TriangleFill::Shaded, transparent),
                ..old(self)@
            }),
    {
        let vertices = [
            Vertex::from_xy(params[1]).set_col(params[0]),
            Vertex::from_xy(params[3]).set_col(params[2]),
            Vertex::from_xy(params[5]).set_col(params[4]),
            Vertex::from_xy(params[7]).set_col(params[6]),
        ];
        assert(vertices@ =~= shaded_vertices(params@, 4));
        self.draw_polygon(&vertices, &TriangleFill::Shaded, transparent);
    }

    /// Draw a shaded textured quad.
    fn draw_textured_shaded_quad(&mut self, params: &[u32; 12], transparent: bool)
        requires
            old(self).wf(),
            quad_ok(old(self)@.sw, tex_shaded_vertices(params@, 4), tex_fill(params[2], params[5])),
        ensures
            final(self).wf(),
            final(self)@ == (RendererView {
                sw: quad_step(old(self)@.sw, tex_shaded_vertices(params@, 4), tex_fill(params[2], params[5]), transparent),
                ..old(self)@
            }),
    {
        let vertices = [
            Vertex::from_xy(params[1]).set_col(params[0]).set_tex(params[2]),
            Vertex::from_xy(params[4]).set_col(params[3]).set_tex(params[5]),
            Vertex::from_xy(params[7]).set_col(params[6]).set_tex(params[8]),
            Vertex::from_xy(params[10]).set_col(params[9]).set_tex(params[11]),
        ];
        assert(vertices@ =~= tex_shaded_vertices(params@, 4));
        let tex_info = TexInfo::from_data(params[2], params[5]);
        self.draw_polygon(&vertices, &TriangleFill::Textured(tex_info), transparent);
    }

    /// Draw a line of one colour.
    fn draw_line(&mut self, params: &[u32; 3], transparent: bool)
        requires
            old(self).wf(),
            line_fits(old(self)@.sw, with_col(vertex_of(params[1]), params[0]), with_col(vertex_of(params[2]), params[0])),
        ensures
            final(self).wf(),
            final(self)@ == (RendererView { sw: final(self)@.sw, ..old(self)@ }),
            line_drawn(old(self)@.sw, with_col(vertex_of(params[1]), params[0]),
                with_col(vertex_of(params[2]), params[0]), transparent, final(self)@.sw),
    {
        let rgb = params[0];
        let vertex_a = Vertex::from_xy(params[1]).set_col(rgb);
        let vertex_b = Vertex::from_xy(params[2]).set_col(rgb);
        self.renderer.draw_line(&vertex_a, &vertex_b, transparent);
    }

    /// Draw a line shaded from one colour to another.
    fn draw_shaded_line(&mut self, params: &[u32; 4], transparent: bool)
        requires
            old(self).wf(),
            line_fits(old(self)@.sw, with_col(vertex_of(params[1]), params[0]), with_col(vertex_of(params[3]), params[2])),
        ensures
            final(self).wf(),
            final(self)@ == (RendererView { sw: final(self)@.sw, ..old(self)@ }),
            line_drawn(old(self)@.sw, with_col(vertex_of(params[1]), params[0]),
                with_col(vertex_of(params[3]), params[2]), transparent, final(self)@.sw),
    {
        let vertex_a = Vertex::from_xy(params[1]).set_col(params[0]);
        let vertex_b = Vertex::from_xy(params[3]).set_col(params[2]);
        self.renderer.draw_line(&vertex_a, &vertex_b, transparent);
    }

    /// Draw a rectangle of one colour.
    fn draw_rectangle(&mut self, params: &[u32; 3], transparent: bool)
        requires
            old(self).wf(),
            rect_fits(old(self)@.sw, coord_of(params[1]), size_of(params[2])),
        ensures
            final(self).wf(),
            final(self)@ == (RendererView { sw: final(self)@.sw, ..old(self)@ }),
            rect_drawn(old(self)@.sw, color24(params[0]), coord_of(params[1]), size_of(params[2]), transparent, final(self)@.sw),
    {
        let color = Color::from_rgb24(params[0]);
        let top_left = Coord::from_xy(params[1]);
        let size = Size::from_xy(params[2]);
        self.renderer.draw_rectangle(color, top_left, size, transparent);
    }

    /// Draw a square of one colour and a fixed size.
    fn draw_fixed_rectangle(&mut self, params: &[u32; 2], transparent: bool, size: u16)
        requires
            old(self).wf(),
            rect_fits(old(self)@.sw, coord_of(params[1]), Size { width: size, height: size }),
        ensures
            final(self).wf(),
            final(self)@ == (RendererView { sw: final(self)@.sw, ..old(self)@ }),
            rect_drawn(old(self)@.sw, color24(params[0]), coord_of(params[1]), Size { width: size, height: size },
                transparent, final(self)@.sw),
    {
        let color = Color::from_rgb24(params[0]);
        let top_left = Coord::from_xy(params[1]);
        let size = Size { width: size, height: size };
        self.renderer.draw_rectangle(color, top_left, size, transparent);
    }

    /// Draw a textured rectangle at `top_left`: the texture word holds the
    /// palette (high halfword) and the texture coordinate (low halfword).
    fn draw_textured_rect(&mut self, color: Color, top_left: Coord, tex_data: u32, size: Size, transparent: bool)
        requires
            old(self).wf(),
            tex_rect_ok(old(self)@.sw, tex_coord_of(tex_data), tex_info_of(old(self)@.tex_mode, palette_of(tex_data)),
                top_left, size),
        ensures
            final(self).wf(),
            final(self)@ == (RendererView {
                sw: tex_rect_step(old(self)@.sw, color, tex_coord_of(tex_data),
                    tex_info_of(old(self)@.tex_mode, palette_of(tex_data)), top_left, size, transparent),
                ..old(self)@
            }),
    {
        proof {
            reveal(tex_rect_ok);
            reveal(tex_rect_step);
        }
        let palette = PaletteCoord::from_data(tex_data);
        let tex_info = TexInfo::from_draw_mode(self.tex_mode, palette);
        let tex_coord = TexCoord::from_16(tex_data as u16);
        proof {
            crate::utils::bits::lemma_low_halfword(tex_data);
        }
        assert(tex_coord == tex_coord_of(tex_data));
        self.renderer.draw_rectangle_tex(color, tex_coord, &tex_info, top_left, size, transparent);
    }

    fn draw_tex_rectangle(&mut self, params: &[u32; 3], transparent: bool)
        requires
            old(self).wf(),
            tex_rect_ok(old(self)@.sw, tex_coord_of(params[1]), tex_info_of(old(self)@.tex_mode, palette_of(params[1])),
                coord_of(params[0]), size_of(params[2])),
        ensures
            final(self).wf(),
            final(self)@ == (RendererView {
                sw: tex_rect_step(old(self)@.sw, neutral(), tex_coord_of(params[1]),
                    tex_info_of(old(self)@.tex_mode, palette_of(params[1])), coord_of(params[0]), size_of(params[2]),
                    transparent),
                ..old(self)@
            }),
    {
        let color = Color::default();
        let top_left = Coord::from_xy(params[0]);
        let size = Size::from_xy(params[2]);
        self.draw_textured_rect(color, top_left, params[1], size, transparent);
    }

    fn draw_tex_blended_rectangle(&mut self, params: &[u32; 4], transparent: bool)
        requires
            old(self).wf(),
            tex_rect_ok(old(self)@.sw, tex_coord_of(params[2]), tex_info_of(old(self)@.tex_mode, palette_of(params[2])),
                coord_of(params[1]), size_of(params[3])),
        ensures
            final(self).wf(),
            final(self)@ == (RendererView {
                sw: tex_rect_step(old(self)@.sw, color24(params[0]), tex_coord_of(params[2]),
                    tex_info_of(old(self)@.tex_mode, palette_of(params[2])), coord_of(params[1]), size_of(params[3]),
                    transparent),
                ..old(self)@
            }),
    {
        let color = Color::from_rgb24(params[0]);
        let top_left = Coord::from_xy(params[1]);
        let size = Size::from_xy(params[3]);
        self.draw_textured_rect(color, top_left, params[2], size, transparent);
    }

    fn draw_tex_fixed_rectangle(&mut self, params: &[u32; 2], transparent: bool, size: u16)
        requires
            old(self).wf(),
            tex_rect_ok(old(self)@.sw, tex_coord_of(params[1]), tex_info_of(old(self)@.tex_mode, palette_of(params[1])),
                coord_of(params[0]), Size { width: size, height: size }),
        ensures
            final(self).wf(),
            final(self)@ == (RendererView {
                sw: tex_rect_step(old(self)@.sw, neutral(), tex_coord_of(params[1]),
                    tex_info_of(old(self)@.tex_mode, palette_of(params[1])), coord_of(params[0]),
                    Size { width: size, height: size }, transparent),
                ..old(self)@
            }),
    {
        let color = Color::default();
        let top_left = Coord::from_xy(params[0]);
        self.draw_textured_rect(color, top_left, params[1], Size { width: size, height: size }, transparent);
    }

    fn draw_tex_blended_fixed_rectangle(&mut self, params: &[u32; 3], transparent: bool, size: u16)
        requires
            old(self).wf(),
            tex_rect_ok(old(self)@.sw, tex_coord_of(params[2]), tex_info_of(old(self)@.tex_mode, palette_of(params[2])),
                coord_of(params[1]), Size { width: size, height: size }),
        ensures
            final(self).wf(),
            final(self)@ == (RendererView {
                sw: tex_rect_step(old(self)@.sw, color24(params[0]), tex_coord_of(params[2]),
                    tex_info_of(old(self)@.tex_mode, palette_of(params[2])), coord_of(params[1]),
                    Size { width: size, height: size }, transparent),
                ..old(self)@
            }),
    {
        let color = Color::from_rgb24(params[0]);
        let top_left = Coord::from_xy(params[1]);
        self.draw_textured_rect(color, top_left, params[2], Size { width: size, height: size }, transparent);
    }

    /// Copy a block within VRAM; positions and size wrap into VRAM.
    fn blit_vram_to_vram(&mut self, params: &[u32; 3])
        requires
            old(self).wf(),
            block_fits(clip_coord(coord_of(params[0])), clip_size(size_of(params[2]))),
            block_fits(clip_coord(coord_of(params[1])), clip_size(size_of(params[2]))),
        ensures
            final(self).wf(),
            final(self)@ == (RendererView {
                sw: RendererState {
                    vram: copied(old(self)@.sw, clip_coord(coord_of(params[0])), clip_coord(coord_of(params[1])),
                        clip_size(size_of(params[2])).width as int,
                        (clip_size(size_of(params[2])).width * clip_size(size_of(params[2])).height) as nat),
                    ..old(self)@.sw
                },
                ..old(self)@
            }),
    {
        let source = Coord::from_xy(params[0]).copy_clip();
        let dest = Coord::from_xy(params[1]).copy_clip();
        let size = Size::from_xy(params[2]).copy_clip();
        self.renderer.copy_vram_block(source, dest, size);
    }

    /// Start a copy from the CPU into VRAM: its data words follow.
    fn blit_cpu_to_vram(&mut self, params: &[u32; 2])
        requires
            old(self).wf(),
            old(self)@.pending is None,
            block_fits(clip_coord(coord_of(params[0])), clip_size(size_of(params[1]))),
        ensures
            final(self).wf(),
            final(self)@ == (RendererView {
                staging: Seq::empty(),
                pending: Some(PendingBlit {
                    dest: clip_coord(coord_of(params[0])),
                    size: clip_size(size_of(params[1])),
                    words_left: words_for(clip_size(size_of(params[1])).width, clip_size(size_of(params[1])).height) as usize,
                }),
                ..old(self)@
            }),
    {
        let dest = Coord::from_xy(params[0]).copy_clip();
        let size = Size::from_xy(params[1]).copy_clip();
        let data_words = size.word_count();
        proof {
            assert(size.width * size.height >= 1) by (nonlinear_arith)
                requires size.width >= 1, size.height >= 1;
        }
        self.staging_buffer.clear();
        self.pending = Some(PendingBlit { dest, size, words_left: data_words as usize });
    }

    /// Read a block out of VRAM for the CPU: two pixels a word, low first.
    fn blit_vram_to_cpu(&mut self, params: &[u32; 2]) -> (words: Vec<u32>)
        requires
            old(self).wf(),
            old(self)@.pending is None,
            clip_coord(coord_of(params[0])).x + clip_size(size_of(params[1])).width <= 1024,
            clip_coord(coord_of(params[0])).y + clip_size(size_of(params[1])).height <= 512,
        ensures
            final(self).wf(),
            vram_read_done(old(self)@, params[0], params[1], final(self)@, RendererOutput::VramData(words)),
    {
        proof {
            reveal(vram_read_done);
        }
        let source = Coord::from_xy(params[0]).copy_clip();
        let size = Size::from_xy(params[1]).copy_clip();
        let data_words = size.word_count() as usize;
        proof {
            assert(size.width * size.height <= 1024 * 512) by (nonlinear_arith)
                requires size.width <= 1024, size.height <= 512;
        }
        let ghost old_staging = self.staging_buffer@;
        self.staging_buffer.resize(data_words * 2, 0);
        let ghost resized = self.staging_buffer@;
        proof {
            assert forall|j: int| 0 <= j < 2 * data_words implies #[trigger] resized[j] == (
                if j < old_staging.len() { old_staging[j] } else { 0u16 }) by {
                if j < old_staging.len() && old_staging.len() <= 2 * data_words {
                    assert(resized.subrange(0, old_staging.len() as int)[j] == old_staging[j]);
                }
            }
            assert(size.width * size.height <= 2 * data_words);
        }
        self.renderer.read_vram_block(self.staging_buffer.as_mut_slice(), source, size);
        let mut words: Vec<u32> = Vec::new();
        let mut i: usize = 0;
        while i < data_words
            invariant
                i <= data_words,
                data_words <= 0x4_0000,
                self.staging_buffer@.len() == 2 * data_words,
                words@.len() == i,
                forall|k: int| 0 <= k < i ==> #[trigger] words@[k] ==
                    ((self.staging_buffer@[2 * k + 1] as u32) << 16) | (self.staging_buffer@[2 * k] as u32),
            decreases data_words - i,
        {
            let idx = i * 2;
            let data_lo = self.staging_buffer[idx] as u32;
            let data_hi = self.staging_buffer[idx + 1] as u32;
            words.push((data_hi << 16) | data_lo);
            i = i + 1;
        }
        proof {
            let w = size.width as int;
            let px = size.width * size.height;
            assert forall|j: int| 0 <= j < 2 * data_words implies #[trigger] self@.staging[j] == (
                if j < px {
                    old(self)@.sw.vram[(source.y + j / w) * 1024 + source.x + j % w]
                } else if j < old_staging.len() {
                    old_staging[j]
                } else {
                    0
                }) by {
                if j < px {
                    let r = j / w;
                    let c = j % w;
                    vstd::arithmetic::div_mod::lemma_fundamental_div_mod(j, w);
                    assert(r * w + c == j) by (nonlinear_arith)
                        requires j == w * r + c;
                    assert(0 <= r < size.height) by (nonlinear_arith)
                        requires j == r * w + c, 0 <= c < w, 0 <= j < px, px == w * size.height, w > 0;
                }
            }
        }
        words
    }

    /// A draw mode setting: the texture page for textured rectangles, the
    /// semi-transparency mode and dithering.
    fn set_draw_mode(&mut self, status: GPUStatus)
        ensures
            final(self)@ == (RendererView {
                tex_mode: (status.bits & 0x87FF) as u16,
                sw: RendererState { trans_mode: trans_mode_of(status.bits), dither: status.bits & 0x200 != 0, ..old(self)@.sw },
                ..old(self)@
            }),
    {
        self.tex_mode = (status.bits & 0x87FF) as u16;
        let m = (status.bits & 0x60) >> 5;
        let trans_mode = if m == 0 {
            TransparencyMode::Average
        } else if m == 1 {
            TransparencyMode::Add
        } else if m == 2 {
            TransparencyMode::Subtract
        } else {
            TransparencyMode::Combine
        };
        let dither = status.bits & 0x200 != 0;
        self.renderer.set_draw_mode(trans_mode, dither);
    }

    /// The texture window: masks in bits 0-4 and 5-9, offsets in bits 10-14
    /// and 15-19, in units of 8 texels.
    fn texture_window_setting(&mut self, param: u32)
        ensures
            final(self)@ == (RendererView {
                sw: RendererState {
                    tex_window: super::software::TextureWindow {
                        mask_s: (((param & 0x1F) as u8) << 3) as u8,
                        mask_t: ((((param >> 5) & 0x1F) as u8) << 3) as u8,
                        offset_s: ((((param >> 10) & 0x1F) as u8) << 3) as u8,
                        offset_t: ((((param >> 15) & 0x1F) as u8) << 3) as u8,
                    },
                    ..old(self)@.sw
                },
                ..old(self)@
            }),
    {
        let mask_s = ((param & 0x1F) as u8) << 3;
        let mask_t = (((param >> 5) & 0x1F) as u8) << 3;
        let offset_s = (((param >> 10) & 0x1F) as u8) << 3;
        let offset_t = (((param >> 15) & 0x1F) as u8) << 3;
        self.renderer.set_texture_window(mask_s, mask_t, offset_s, offset_t);
    }

    /// The top left of the drawing area: X in bits 0-9, Y in bits 10-18.
    fn set_draw_area_top_left(&mut self, param: u32)
        requires
            old(self).wf(),
        ensures
            final(self).wf(),
            final(self)@ == (RendererView {
                sw: RendererState {
                    drawing_area: super::software::DrawingArea {
                        left: (param & 0x3FF) as i16,
                        top: ((param >> 10) & 0x1FF) as i16,
                        ..old(self)@.sw.drawing_area
                    },
                    ..old(self)@.sw
                },
                ..old(self)@
            }),
    {
        proof {
            crate::utils::bits::lemma_masked_fields(param);
        }
        let left = (param & 0x3FF) as i16;
        let top = ((param >> 10) & 0x1FF) as i16;
        self.renderer.set_draw_area_top_left(left, top);
    }

    /// The bottom right of the drawing area (inclusive).
    fn set_draw_area_bottom_right(&mut self, param: u32)
        requires
            old(self).wf(),
        ensures
            final(self).wf(),
            final(self)@ == (RendererView {
                sw: RendererState {
                    drawing_area: super::software::DrawingArea {
                        right: ((param & 0x3FF) + 1) as i16,
                        bottom: (((param >> 10) & 0x1FF) + 1) as i16,
                        ..old(self)@.sw.drawing_area
                    },
                    ..old(self)@.sw
                },
                ..old(self)@
            }),
    {
        proof {
            crate::utils::bits::lemma_masked_fields(param);
        }
        let right = (param & 0x3FF) as i16;
        let bottom = ((param >> 10) & 0x1FF) as i16;
        self.renderer.set_draw_area_bottom_right(right, bottom);
    }

    /// The drawing offset: signed 11-bit X in bits 0-10, Y in bits 11-21.
    fn set_draw_offset(&mut self, param: u32)
        requires
            old(self).wf(),
        ensures
            final(self).wf(),
            final(self)@ == (RendererView {
                sw: RendererState { draw_offset: Coord { x: sext11(param), y: sext11(param >> 11) }, ..old(self)@.sw },
                ..old(self)@
            }),
    {
        proof {
            crate::utils::bits::lemma_masked_fields(param);
        }
        let x = (param & 0x7FF) as i16;
        let y = ((param >> 11) & 0x7FF) as i16;
        proof {
            crate::utils::bits::lemma_i16_sext11(x);
            crate::utils::bits::lemma_i16_sext11(y);
        }
        let signed_x = (x << 5) >> 5;
        let signed_y = (y << 5) >> 5;
        self.renderer.set_draw_area_offset(signed_x, signed_y);
    }
}

impl Renderer {
    /// Whether the triangle (three vertices) or quad (four) `vertices`
    /// drawn with `fill` can be drawn.
    fn poly_fits(&self, vertices: &[Vertex], fill: &TriangleFill) -> (r: bool)
        requires
            self.wf(),
            vertices@.len() == 3 || vertices@.len() == 4,
        ensures
            vertices@.len() == 3 ==> r == tri_ok(self@.sw, vertices@, *fill),
            vertices@.len() == 4 ==> r == quad_ok(self@.sw, vertices@, *fill),
    {
        proof {
            reveal(tri_ok);
            reveal(quad_ok);
        }
        if vertices.len() == 3 {
            self.renderer.triangle_fits_check(vertices, fill)
        } else {
            let first = [vertices[0], vertices[1], vertices[2]];
            let second = [vertices[1], vertices[2], vertices[3]];
            assert(first@ =~= vertices@.subrange(0, 3));
            assert(second@ =~= vertices@.subrange(1, 4));
            self.renderer.triangle_fits_check(&first, fill) && self.renderer.triangle_fits_check(&second, fill)
        }
    }

    /// Whether a textured rectangle at `top_left`, with the texture word
    /// `tex_data`, can be drawn.
    fn tex_rect_fits_cmd(&self, top_left: Coord, tex_data: u32, size: Size) -> (r: bool)
        requires
            self.wf(),
        ensures
            r == tex_rect_ok(self@.sw, tex_coord_of(tex_data), tex_info_of(self@.tex_mode, palette_of(tex_data)),
                top_left, size),
    {
        proof {
            reveal(tex_rect_ok);
        }
        let palette = PaletteCoord::from_data(tex_data);
        let tex_info = TexInfo::from_draw_mode(self.tex_mode, palette);
        let tex_coord = TexCoord::from_16(tex_data as u16);
        proof {
            crate::utils::bits::lemma_low_halfword(tex_data);
        }
        assert(tex_coord == tex_coord_of(tex_data));
        self.renderer.tex_rect_fits_check(tex_coord, &tex_info, top_left, size)
    }

    /// Whether a drawing or setting command can be carried out (`gp0_ok`).
    #[verifier::rlimit(100)]
    pub fn gp0_fits(&self, c: &GP0Command) -> (r: bool)
        requires
            self.wf(),
        ensures
            r == gp0_ok(self@, *c),
    {
        match c {
            GP0Command::FillRectangle(p) => {
                let tl = Coord::from_xy(p[1]);
                let size = Size::from_xy(p[2]);
                tl.x >= 0 && tl.y >= 0 && (size.height == 0
                    || (tl.y as usize + size.height as usize - 1) * 1024 + tl.x as usize + size.width as usize
                        <= VRAM_HALFWORDS)
            },
            GP0Command::DrawTri { params: p, .. } => {
                let vs = [Vertex::from_xy(p[1]).set_col(p[0]), Vertex::from_xy(p[2]).set_col(p[0]),
                    Vertex::from_xy(p[3]).set_col(p[0])];
                assert(vs@ =~= flat_vertices(p@, 3));
                self.poly_fits(&vs, &TriangleFill::Shaded)
            },
            GP0Command::DrawTexTri { params: p, .. } => {
                let vs = [Vertex::from_xy(p[0]).set_tex(p[1]), Vertex::from_xy(p[2]).set_tex(p[3]),
                    Vertex::from_xy(p[4]).set_tex(p[5])];
                assert(vs@ =~= tex_vertices(p@, 3));
                self.poly_fits(&vs, &TriangleFill::Textured(TexInfo::from_data(p[1], p[3])))
            },
            GP0Command::DrawTexBlendTri { params: p, .. } => {
                let vs = [Vertex::from_xy(p[1]).set_col(p[0]).set_tex(p[2]),
                    Vertex::from_xy(p[3]).set_col(p[0]).set_tex(p[4]),
                    Vertex::from_xy(p[5]).set_col(p[0]).set_tex(p[6])];
                assert(vs@ =~= tex_blend_vertices(p@, 3));
                self.poly_fits(&vs, &TriangleFill::Textured(TexInfo::from_data(p[2], p[4])))
            },
            GP0Command::DrawShadedTri { params: p, .. } => {
                let vs = [Vertex::from_xy(p[1]).set_col(p[0]), Vertex::from_xy(p[3]).set_col(p[2]),
                    Vertex::from_xy(p[5]).set_col(p[4])];
                assert(vs@ =~= shaded_vertices(p@, 3));
                self.poly_fits(&vs, &TriangleFill::Shaded)
            },
            GP0Command::DrawTexShadedTri { params: p, .. } => {
                let vs = [Vertex::from_xy(p[1]).set_col(p[0]).set_tex(p[2]),
                    Vertex::from_xy(p[4]).set_col(p[3]).set_tex(p[5]),
                    Vertex::from_xy(p[7]).set_col(p[6]).set_tex(p[8])];
                assert(vs@ =~= tex_shaded_vertices(p@, 3));
                self.poly_fits(&vs, &TriangleFill::Textured(TexInfo::from_data(p[2], p[5])))
            },
            GP0Command::DrawQuad { params: p, .. } => {
                let vs = [Vertex::from_xy(p[1]).set_col(p[0]), Vertex::from_xy(p[2]).set_col(p[0]),
                    Vertex::from_xy(p[3]).set_col(p[0]), Vertex::from_xy(p[4]).set_col(p[0])];
                assert(vs@ =~= flat_vertices(p@, 4));
                self.poly_fits(&vs, &TriangleFill::Shaded)
            },
            GP0Command::DrawTexQuad { params: p, .. } => {
                let vs = [Vertex::from_xy(p[0]).set_tex(p[1]), Vertex::from_xy(p[2]).set_tex(p[3]),
                    Vertex::from_xy(p[4]).set_tex(p[5]), Vertex::from_xy(p[6]).set_tex(p[7])];
                assert(vs@ =~= tex_vertices(p@, 4));
                self.poly_fits(&vs, &TriangleFill::Textured(TexInfo::from_data(p[1], p[3])))
            },
            GP0Command::DrawTexBlendQuad { params: p, .. } => {
                let vs = [Vertex::from_xy(p[1]).set_col(p[0]).set_tex(p[2]),
                    Vertex::from_xy(p[3]).set_col(p[0]).set_tex(p[4]),
                    Vertex::from_xy(p[5]).set_col(p[0]).set_tex(p[6]),
                    Vertex::from_xy(p[7]).set_col(p[0]).set_tex(p[8])];
                assert(vs@ =~= tex_blend_vertices(p@, 4));
                self.poly_fits(&vs, &TriangleFill::Textured(TexInfo::from_data(p[2], p[4])))
            },
            GP0Command::DrawShadedQuad { params: p, .. } => {
                let vs = [Vertex::from_xy(p[1]).set_col(p[0]), Vertex::from_xy(p[3]).set_col(p[2]),
                    Vertex::from_xy(p[5]).set_col(p[4]), Vertex::from_xy(p[7]).set_col(p[6])];
                assert(vs@ =~= shaded_vertices(p@, 4));
                self.poly_fits(&vs, &TriangleFill::Shaded)
            },
            GP0Command::DrawTexShadedQuad { params: p, .. } => {
                let vs = [Vertex::from_xy(p[1]).set_col(p[0]).set_tex(p[2]),
                    Vertex::from_xy(p[4]).set_col(p[3]).set_tex(p[5]),
                    Vertex::from_xy(p[7]).set_col(p[6]).set_tex(p[8]),
                    Vertex::from_xy(p[10]).set_col(p[9]).set_tex(p[11])];
                assert(vs@ =~= tex_shaded_vertices(p@, 4));
                self.poly_fits(&vs, &TriangleFill::Textured(TexInfo::from_data(p[2], p[5])))
            },
            GP0Command::DrawLine { params: p, .. } => {
                let a = Vertex::from_xy(p[1]).set_col(p[0]);
                let b = Vertex::from_xy(p[2]).set_col(p[0]);
                self.renderer.line_fits_check(&a, &b)
            },
            GP0Command::DrawShadedLine { params: p, .. } => {
                let a = Vertex::from_xy(p[1]).set_col(p[0]);
                let b = Vertex::from_xy(p[3]).set_col(p[2]);
                self.renderer.line_fits_check(&a, &b)
            },
            GP0Command::DrawRect { params: p, .. } =>
                self.renderer.rect_fits_check(Coord::from_xy(p[1]), Size::from_xy(p[2])),
            GP0Command::DrawFixedRect { params: p, size, .. } =>
                self.renderer.rect_fits_check(Coord::from_xy(p[1]), Size { width: *size, height: *size }),
            GP0Command::DrawTexRect { params: p, .. } =>
                self.tex_rect_fits_cmd(Coord::from_xy(p[0]), p[1], Size::from_xy(p[2])),
            GP0Command::DrawTexBlendedRect { params: p, .. } =>
                self.tex_rect_fits_cmd(Coord::from_xy(p[1]), p[2], Size::from_xy(p[3])),
            GP0Command::DrawTexFixedRect { params: p, size, .. } =>
                self.tex_rect_fits_cmd(Coord::from_xy(p[0]), p[1], Size { width: *size, height: *size }),
            GP0Command::DrawTexBlendedFixedRect { params: p, size, .. } =>
                self.tex_rect_fits_cmd(Coord::from_xy(p[1]), p[2], Size { width: *size, height: *size }),
            GP0Command::BlitVRAMtoVRAM { params: p } => {
                let size = Size::from_xy(p[2]).copy_clip();
                let from = Coord::from_xy(p[0]).copy_clip();
                let to = Coord::from_xy(p[1]).copy_clip();
                from.x >= 0 && from.y >= 0 && from.y as i32 + size.height as i32 <= 512 && size.width <= 1024
                    && to.x >= 0 && to.y >= 0 && to.y as i32 + size.height as i32 <= 512
            },
            GP0Command::BlitCPUtoVRAM { params: p } => {
                let size = Size::from_xy(p[1]).copy_clip();
                let to = Coord::from_xy(p[0]).copy_clip();
                self.pending.is_none() && to.x >= 0 && to.y >= 0 && to.y as i32 + size.height as i32 <= 512
                    && size.width <= 1024
            },
            GP0Command::BlitVRAMtoCPU { params: p } => {
                let size = Size::from_xy(p[1]).copy_clip();
                let from = Coord::from_xy(p[0]).copy_clip();
                self.pending.is_none() && from.x as i32 + size.width as i32 <= 1024
                    && from.y as i32 + size.height as i32 <= 512
            },
            _ => true,
        }
    }

    /// Whether a command can be handled (`command_ok`): the test to make
    /// before `handle_command`.
    pub fn command_fits(&self, cmd: &RendererCmd, frame: &Frame) -> (r: bool)
        requires
            self.wf(),
        ensures
            r == command_ok(self@, *cmd, *frame),
    {
        match cmd {
            RendererCmd::GetFrame(_) => {
                if !self.renderer.enable_display_on() {
                    return true;
                }
                let px = self.renderer.frame_pixels(DEBUG_MODE);
                let ghost w = frame_width(self@.sw, DEBUG_MODE);
                let ghost h = frame_height(self@.sw, DEBUG_MODE);
                assert(4 * w * h == 4 * px) by (nonlinear_arith)
                    requires px == w * h;
                self.renderer.frame_fits_check(self.rgb24, DEBUG_MODE) && frame.frame_buffer.len() as u64 >= 4 * px
            },
            RendererCmd::GP0(c) => self.gp0_fits(c),
            RendererCmd::DisplayYRange(range) => {
                let range = *range;
                range & 0x3FF <= (range >> 10) & 0x3FF
            },
            RendererCmd::DisplayMode { h_res, v_res, .. } => {
                match h_res.checked_mul(*v_res) {
                    Some(p) => p.checked_mul(4).is_some(),
                    None => {
                        assert(*h_res * *v_res * 4 > usize::MAX) by (nonlinear_arith)
                            requires *h_res * *v_res > usize::MAX;
                        false
                    },
                }
            },
            _ => true,
        }
    }
}

} // verus!
