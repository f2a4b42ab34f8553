//! Drawing into VRAM in software.

use vstd::prelude::*;
use crate::Frame;
use crate::gpu::status::InterlaceState;
use super::{Coord, Size, Color, Vertex, TexInfo, TexMode, TexCoord, TransparencyMode, rgb15_color, color_rgb15, mix, modulate};
use super::raster::{
    InterpolatedColor, color_ramp, ramp_advanced, ramp_color, ramp_ok, fits_i16, lemma_ramp_start,
    Line, Lines, line_advanced, line_advance_fits, line_color, line_tex, round_fits, round_fixed, span_at,
    span_fits, intersection, edges_fit, get_intersection_points, lemma_line_step, lemma_line_zero,
    round_fits_check, fits_i16_check, line_advance_fits_check, span_fits_check, edges_fit_check,
};

verus! {

/// VRAM: 1024 by 512 halfwords.
pub const VRAM_HALFWORDS: usize = 0x8_0000;

/// The rectangle that drawing is clipped to: `left..right`, `top..bottom`.
#[derive(Clone, Copy, PartialEq, Eq, Structural, Debug)]
pub struct DrawingArea {
    pub top: i16,
    pub bottom: i16,
    pub left: i16,
    pub right: i16,
}

/// The texture window: texture coordinate bits in the masks are replaced
/// by those of the offsets.
#[derive(Clone, Copy, PartialEq, Eq, Structural, Debug)]
pub struct TextureWindow {
    pub mask_s: u8,
    pub mask_t: u8,
    pub offset_s: u8,
    pub offset_t: u8,
}

/// The state of the renderer as the contracts speak of it.
pub struct RendererState {
    pub vram: Seq<u16>,
    pub enable_display: bool,
    pub resolution: Size,
    pub frame_pos: Coord,
    pub drawing_area: DrawingArea,
    pub draw_offset: Coord,
    pub tex_window: TextureWindow,
    pub interlace: bool,
    pub display_height: u16,
    pub trans_mode: TransparencyMode,
    pub dither: bool,
    pub set_mask_bit: bool,
    pub check_mask_bit: bool,
}

/// The drawing area lies within VRAM, and the drawing offset within the
/// signed 11-bit range.
pub open spec fn area_ok(a: DrawingArea, off: Coord) -> bool {
    &&& 0 <= a.left <= 1024 && 0 <= a.right <= 1024
    &&& 0 <= a.top <= 512 && 0 <= a.bottom <= 512
    &&& -1024 <= off.x <= 1023 && -1024 <= off.y <= 1023
}

/// VRAM has its size and the drawing area lies within it.
pub open spec fn renderer_ok(s: RendererState) -> bool {
    s.vram.len() == VRAM_HALFWORDS && area_ok(s.drawing_area, s.draw_offset)
}

/// A pixel written with `color`: kept when mask checking is on and it is
/// masked; else the colour, mixed with the pixel below when transparent.
pub open spec fn shade(s: RendererState, old: u16, color: Color, transparent: bool) -> u16 {
    if s.check_mask_bit && old & 0x8000 != 0 {
        old
    } else if transparent {
        color_rgb15(mix(s.trans_mode, rgb15_color(old), color))
    } else {
        color_rgb15(color)
    }
}

/// A texture coordinate inside the texture window.
pub open spec fn window_coord(c: u8, mask: u8, offset: u8) -> u8 {
    (c & !mask) | (mask & offset)
}

/// The VRAM index of the halfword that holds the texel at `tc`.
pub open spec fn texel_addr(w: TextureWindow, tc: TexCoord, ti: TexInfo) -> int {
    let ts = window_coord(tc.s, w.mask_s, w.offset_s);
    let t = window_coord(tc.t, w.mask_t, w.offset_t) + ti.t_base;
    let s = match ti.tex_mode {
        TexMode::Palette4 => ts / 4 + ti.s_base,
        TexMode::Palette8 => ts / 2 + ti.s_base,
        TexMode::Direct => ts + ti.s_base,
    };
    t * 1024 + s
}

/// The palette index a paletted texel holds.
pub open spec fn palette_index(vram: Seq<u16>, w: TextureWindow, tc: TexCoord, ti: TexInfo) -> int {
    let ts = window_coord(tc.s, w.mask_s, w.offset_s);
    let data = vram[texel_addr(w, tc, ti)];
    match ti.tex_mode {
        TexMode::Palette4 => ((data >> ((ts & 3) * 4) as u16) & 0xF) as int,
        _ => ((data >> ((ts & 1) * 8) as u16) & 0xFF) as int,
    }
}

/// The VRAM index of the palette entry of a paletted texel.
pub open spec fn palette_addr(vram: Seq<u16>, w: TextureWindow, tc: TexCoord, ti: TexInfo) -> int {
    ti.palette_coord.y * 1024 + ti.palette_coord.x + palette_index(vram, w, tc, ti)
}

/// The texel lookup stays within VRAM.
pub open spec fn texel_in_vram(vram: Seq<u16>, w: TextureWindow, tc: TexCoord, ti: TexInfo) -> bool {
    &&& texel_addr(w, tc, ti) < VRAM_HALFWORDS
    &&& ti.tex_mode != TexMode::Direct ==> palette_addr(vram, w, tc, ti) < VRAM_HALFWORDS
}

/// The colour of the texel at `tc`, in VRAM form.
pub open spec fn texel(vram: Seq<u16>, w: TextureWindow, tc: TexCoord, ti: TexInfo) -> u16 {
    match ti.tex_mode {
        TexMode::Direct => vram[texel_addr(w, tc, ti)],
        _ => vram[palette_addr(vram, w, tc, ti)],
    }
}

/// Index `i` lies in a run of `w` halfwords starting at `base + 1024 * y`
/// for a row `y` below `rows`.
pub open spec fn in_fill(i: int, base: int, w: int, rows: int) -> bool {
    exists|y: int| 0 <= y < rows && #[trigger] row_start(base, y) <= i < row_start(base, y) + w
}

/// The start of row `y` of a block starting at `base`.
pub open spec fn row_start(base: int, y: int) -> int {
    base + 1024 * y
}

/// Index `i` lies in the rectangle `x0..x1` by `y0..y1` of VRAM.
pub open spec fn in_rect(i: int, x0: int, x1: int, y0: int, y1: int) -> bool {
    y0 <= i / 1024 < y1 && x0 <= i % 1024 < x1
}

/// The bounds of a rectangle at `tl` (moved by the drawing offset) of size
/// `size`, clipped to the drawing area: (x0, x1, y0, y1).
pub open spec fn clipped_rect(s: RendererState, tl: Coord, size: Size) -> (int, int, int, int) {
    let top = tl.y + s.draw_offset.y;
    let left = tl.x + s.draw_offset.x;
    let bottom = top + (size.height as i16);
    let right = left + (size.width as i16);
    let a = s.drawing_area;
    (
        if left > a.left { left } else { a.left as int },
        if right < a.right { right } else { a.right as int },
        if top > a.top { top } else { a.top as int },
        if bottom < a.bottom { bottom } else { a.bottom as int },
    )
}

/// The rectangle's edges, moved by the drawing offset, fit in a halfword.
pub open spec fn rect_fits(s: RendererState, tl: Coord, size: Size) -> bool {
    let top = tl.y + s.draw_offset.y;
    let left = tl.x + s.draw_offset.x;
    &&& i16::MIN <= top <= i16::MAX
    &&& i16::MIN <= left <= i16::MAX
    &&& i16::MIN <= top + (size.height as i16) <= i16::MAX
    &&& i16::MIN <= left + (size.width as i16) <= i16::MAX
}

/// Bresenham's walk along the minor axis of a line: the minor coordinate
/// and the error term after `k` steps along the major axis.
pub open spec fn walk(m0: int, step: int, e0: int, d_major: int, d_minor: int, k: nat) -> (int, int)
    decreases k,
{
    if k == 0 {
        (m0, e0)
    } else {
        let (m, e) = walk(m0, step, e0, d_major, d_minor, (k - 1) as nat);
        if e > 0 {
            (m + step, e + 2 * (d_minor - d_major))
        } else {
            (m, e + 2 * d_minor)
        }
    }
}

/// How a line is drawn: along X or along Y, from `begin` to `end`
/// (inclusive) on that axis, the other coordinate starting at `m0` and
/// moving by `step`, and the colour ramp.
pub struct LinePlan {
    pub x_major: bool,
    pub begin: int,
    pub end: int,
    pub m0: int,
    pub step: int,
    pub d_major: int,
    pub d_minor: int,
    pub ramp: InterpolatedColor,
}

/// `|x|`.
pub open spec fn abs(x: int) -> int {
    if x < 0 { -x } else { x }
}

/// The plan for a line from `a` to `b`: a line longer in X than in Y runs
/// from its left end, else from its top end; both are moved by the drawing
/// offset and cut at the far edge of the drawing area.
pub open spec fn line_plan(s: RendererState, a: Vertex, b: Vertex) -> LinePlan {
    let dx = abs(a.coord.x - b.coord.x);
    let dy = abs(a.coord.y - b.coord.y);
    let off = s.draw_offset;
    let area = s.drawing_area;
    if dx > dy {
        let (l, r) = if a.coord.x < b.coord.x { (a, b) } else { (b, a) };
        let end = r.coord.x + off.x;
        LinePlan {
            x_major: true,
            begin: l.coord.x + off.x,
            end: if end < area.right - 1 { end } else { area.right - 1 },
            m0: l.coord.y + off.y,
            step: if l.coord.y < r.coord.y { 1 } else { -1 },
            d_major: dx,
            d_minor: dy,
            ramp: color_ramp(l.col, r.col, r.coord.x - l.coord.x),
        }
    } else {
        let (t, bt) = if a.coord.y < b.coord.y { (a, b) } else { (b, a) };
        let end = bt.coord.y + off.y;
        LinePlan {
            x_major: false,
            begin: t.coord.y + off.y,
            end: if end < area.bottom - 1 { end } else { area.bottom - 1 },
            m0: t.coord.x + off.x,
            step: if t.coord.x < bt.coord.x { 1 } else { -1 },
            d_major: dy,
            d_minor: dx,
            ramp: color_ramp(t.col, bt.col, bt.coord.y - t.coord.y),
        }
    }
}

/// The minor coordinate of step `k` of a line.
pub open spec fn plan_minor(p: LinePlan, k: int) -> int {
    walk(p.m0, p.step, 2 * p.d_minor - p.d_major, p.d_major, p.d_minor, k as nat).0
}

/// Step `k` of a line, if VRAM index `i` is its pixel and lies in the
/// drawing area.
pub open spec fn line_step_at(s: RendererState, p: LinePlan, i: int) -> Option<int> {
    let x = i % 1024;
    let y = i / 1024;
    let (major, minor) = if p.x_major { (x, y) } else { (y, x) };
    let k = major - p.begin;
    let a = s.drawing_area;
    if 0 <= k <= p.end - p.begin && plan_minor(p, k) == minor && a.left <= x < a.right && a.top <= y < a.bottom {
        Some(k)
    } else {
        None
    }
}

/// The line's arithmetic stays within halfwords: the differences of its
/// ends and their positions moved by the drawing offset.
pub open spec fn line_fits(s: RendererState, a: Vertex, b: Vertex) -> bool {
    let off = s.draw_offset;
    &&& fits_i16(a.coord.x - b.coord.x) && fits_i16(b.coord.x - a.coord.x)
    &&& fits_i16(a.coord.y - b.coord.y) && fits_i16(b.coord.y - a.coord.y)
    &&& fits_i16(a.coord.x + off.x) && fits_i16(b.coord.x + off.x)
    &&& fits_i16(a.coord.y + off.y) && fits_i16(b.coord.y + off.y)
}

/// The mask bit that pixels get as they are stored.
pub open spec fn mask_of(s: RendererState) -> u16 {
    if s.set_mask_bit { 0x8000 } else { 0 }
}

/// A transferred pixel stored over `old`: kept when mask checking is on and
/// `old` is masked, else the new value with the mask bit set as configured.
pub open spec fn store(s: RendererState, old: u16, v: u16) -> u16 {
    if s.check_mask_bit && old & 0x8000 != 0 { old } else { v | mask_of(s) }
}

/// Where VRAM index `i` falls in a block of `size` at `to` whose columns
/// wrap around at 1024: its (row, column).
pub open spec fn block_cell(i: int, to: Coord, size: Size) -> Option<(int, int)> {
    let r = i / 1024 - to.y;
    let c = (i % 1024 - to.x) % 1024;
    if 0 <= r < size.height && c < size.width { Some((r, c)) } else { None }
}

/// The VRAM index of column `c` of row `r` of a block at `at` whose columns
/// wrap around at 1024.
pub open spec fn block_addr(at: Coord, r: int, c: int) -> int {
    (at.y + r) * 1024 + (at.x + c) % 1024
}

/// VRAM after the first `n` pixels of a block copy: row by row, each
/// pixel is read, and stored unless mask checking is on and it is masked.
pub open spec fn copied(s: RendererState, from: Coord, to: Coord, w: int, n: nat) -> Seq<u16>
    decreases n,
{
    if n == 0 {
        s.vram
    } else {
        let v = copied(s, from, to, w, (n - 1) as nat);
        let p = n - 1;
        let data = v[block_addr(from, p / w, p % w)];
        if s.check_mask_bit && data & 0x8000 != 0 {
            v
        } else {
            v.update(block_addr(to, p / w, p % w), data | mask_of(s))
        }
    }
}

/// A block at `at` of `size` lies within the rows of VRAM.
pub open spec fn block_fits(at: Coord, size: Size) -> bool {
    at.x >= 0 && at.y >= 0 && at.y + size.height <= 512 && size.width <= 1024
}

/// Column `x` of a block at `tx` wraps to the column `(tx + x) % 1024`,
/// whose distance from `tx` modulo 1024 is `x` again.
proof fn lemma_wrap_col(tx: int, x: int)
    requires
        0 <= tx,
        0 <= x < 1024,
    ensures
        0 <= (tx + x) % 1024 < 1024,
        ((tx + x) % 1024 - tx) % 1024 == x,
{
    vstd::arithmetic::div_mod::lemma_fundamental_div_mod(tx + x, 1024);
    let q = (tx + x) / 1024;
    vstd::arithmetic::div_mod::lemma_fundamental_div_mod_converse((tx + x) % 1024 - tx, 1024, -q, x);
}

/// The width of the picture handed out: all of VRAM when debugging.
pub open spec fn frame_width(s: RendererState, debug: bool) -> int {
    if debug { 1024 } else { s.resolution.width as int }
}

/// The height of the picture handed out: all of VRAM when debugging, else
/// the resolution's height, at most the displayed lines (twice as many when
/// interlaced).
pub open spec fn frame_height(s: RendererState, debug: bool) -> int {
    if debug {
        512
    } else {
        let shown = if s.interlace { s.display_height * 2 } else { s.display_height as int };
        if s.resolution.height <= shown { s.resolution.height as int } else { shown }
    }
}

/// The VRAM index at which row `y` of the picture is read.
pub open spec fn row_source(s: RendererState, rgb24: bool, debug: bool, y: int) -> int {
    if debug {
        if rgb24 { y * 512 } else { y * 1024 }
    } else {
        s.frame_pos.x + (s.frame_pos.y + y) * 1024
    }
}

/// The halfwords of VRAM that one row of the picture reads.
pub open spec fn row_span(s: RendererState, rgb24: bool, debug: bool) -> int {
    let w = frame_width(s, debug);
    if rgb24 { 3 * (w / 2) } else { w }
}

/// The picture's rows are read from within VRAM.
pub open spec fn frame_fits(s: RendererState, rgb24: bool, debug: bool) -> bool {
    let h = frame_height(s, debug);
    &&& s.interlace ==> s.display_height * 2 <= u16::MAX
    &&& s.frame_pos.x >= 0 && s.frame_pos.y >= 0
    &&& h > 0 ==> row_source(s, rgb24, debug, h - 1) + row_span(s, rgb24, debug) <= VRAM_HALFWORDS
}

/// Byte `off` of row `y` of the picture (4 bytes a pixel: red, green,
/// blue, and a fourth left as it was). In 24-bit mode each 8 bytes hold two
/// pixels packed in three halfwords of VRAM, bytes 3 and 7 left as they were.
pub open spec fn frame_byte(s: RendererState, rgb24: bool, debug: bool, y: int, off: int, old: u8) -> u8 {
    let src = row_source(s, rgb24, debug, y);
    if rgb24 {
        let g = off / 8;
        let base = src + 3 * g;
        let k = off % 8;
        if g >= frame_width(s, debug) / 2 || k == 3 || k == 7 {
            old
        } else if k == 0 {
            s.vram[base] as u8
        } else if k == 1 {
            (s.vram[base] >> 8) as u8
        } else if k == 2 {
            s.vram[base + 1] as u8
        } else if k == 4 {
            (s.vram[base + 1] >> 8) as u8
        } else if k == 5 {
            s.vram[base + 2] as u8
        } else {
            (s.vram[base + 2] >> 8) as u8
        }
    } else {
        let c = rgb15_color(s.vram[src + off / 4]);
        let k = off % 4;
        if k == 0 {
            c.r
        } else if k == 1 {
            c.g
        } else if k == 2 {
            c.b
        } else {
            old
        }
    }
}

/// A textured pixel's colour: the texel modulated by `color`, with the
/// texel's mask unless the mask bit is forced on.
pub open spec fn tex_fragment(s: RendererState, color: Color, texel: u16) -> Color {
    let t = rgb15_color(texel);
    Color {
        r: modulate(color.r, t.r),
        g: modulate(color.g, t.g),
        b: modulate(color.b, t.b),
        mask: if !s.set_mask_bit { t.mask } else { 0x8000 },
    }
}

/// One textured pixel written at `addr`: nothing for a texel of 0, else the
/// fragment, semi-transparent only where the texel's mask bit is set.
pub open spec fn tex_pixel(s: RendererState, v: Seq<u16>, addr: int, color: Color, texel: u16, transparent: bool) -> Seq<u16> {
    if texel == 0 {
        v
    } else {
        v.update(addr, shade(s, v[addr], tex_fragment(s, color, texel), transparent && texel & 0x8000 != 0))
    }
}

/// The texture page and palette of a textured drawing lie within VRAM.
pub open spec fn tex_info_ok(ti: TexInfo) -> bool {
    &&& ti.s_base <= 960
    &&& ti.t_base <= 256
    &&& ti.palette_coord.x <= 0x3F0
    &&& ti.palette_coord.y <= 0x1FF
    &&& match ti.tex_mode {
        TexMode::Palette4 => ti.palette_coord.y * 1024 + ti.palette_coord.x + 16 <= VRAM_HALFWORDS,
        TexMode::Palette8 => ti.palette_coord.y * 1024 + ti.palette_coord.x + 256 <= VRAM_HALFWORDS,
        TexMode::Direct => true,
    }
}

/// The texture coordinate at which a rectangle's texturing starts: its
/// given one, moved on by as much as the rectangle is cut off at the left
/// or top of the drawing area.
pub open spec fn tex_start(s: RendererState, tc: TexCoord, tl: Coord) -> (int, int) {
    let top = tl.y + s.draw_offset.y;
    let left = tl.x + s.draw_offset.x;
    let a = s.drawing_area;
    (
        if left < a.left { (tc.s + (a.left - left)) as u8 as int } else { tc.s as int },
        if top < a.top { (tc.t + (a.top - top)) as u8 as int } else { tc.t as int },
    )
}

/// VRAM after the first `n` pixels of a textured rectangle, drawn row by row
/// from (`x0`, `y0`), `cw` pixels a row, the texture coordinate starting at
/// (`s0`, `t0`) and advancing with each pixel and row. Each texel is read
/// from VRAM as it stands when its pixel is drawn.
pub open spec fn tex_rect_after(
    s: RendererState, color: Color, ti: TexInfo, transparent: bool,
    x0: int, y0: int, cw: int, s0: int, t0: int, n: nat,
) -> Seq<u16>
    decreases n,
{
    if n == 0 {
        s.vram
    } else {
        let v = tex_rect_after(s, color, ti, transparent, x0, y0, cw, s0, t0, (n - 1) as nat);
        let p = n - 1;
        let row = p / cw;
        let col = p % cw;
        let tc = TexCoord { s: (s0 + col) as u8, t: (t0 + row) as u8 };
        tex_pixel(s, v, (y0 + row) * 1024 + x0 + col, color, texel(v, s.tex_window, tc, ti), transparent)
    }
}

/// The arithmetic of a textured rectangle stays within its types: the
/// texture coordinate at the start, and as it advances over the clipped
/// rectangle; and each texel it reads lies within VRAM.
pub open spec fn tex_rect_fits(s: RendererState, tc: TexCoord, ti: TexInfo, tl: Coord, size: Size) -> bool {
    let top = tl.y + s.draw_offset.y;
    let left = tl.x + s.draw_offset.x;
    let a = s.drawing_area;
    let (x0, x1, y0, y1) = clipped_rect(s, tl, size);
    let (s0, t0) = tex_start(s, tc, tl);
    &&& rect_fits(s, tl, size)
    &&& left < a.left ==> fits_i16(a.left - left) && fits_i16(tc.s + (a.left - left))
    &&& top < a.top ==> fits_i16(a.top - top) && fits_i16(tc.t + (a.top - top))
    &&& y0 < y1 ==> t0 + (y1 - y0) <= 255
    &&& y0 < y1 && x0 < x1 ==> s0 + (x1 - x0) <= 255
    &&& tex_info_ok(ti)
    &&& forall|r: int, c: int| 0 <= r < y1 - y0 && 0 <= c < x1 - x0 ==>
        #[trigger] texel_addr(s.tex_window, TexCoord { s: (s0 + c) as u8, t: (t0 + r) as u8 }, ti) < VRAM_HALFWORDS
}

/// With the texture page and palette in VRAM, a texel whose halfword is in
/// VRAM is read from within it, whatever VRAM holds.
proof fn lemma_texel_in_vram(v: Seq<u16>, w: TextureWindow, tc: TexCoord, ti: TexInfo)
    requires
        tex_info_ok(ti),
        texel_addr(w, tc, ti) < VRAM_HALFWORDS,
        texel_addr(w, tc, ti) >= 0,
    ensures
        texel_in_vram(v, w, tc, ti),
{
    let data = v[texel_addr(w, tc, ti)];
    let ts = window_coord(tc.s, w.mask_s, w.offset_s);
    crate::utils::bits::lemma_u16_low_bits((data >> ((ts & 3) * 4) as u16));
    crate::utils::bits::lemma_u16_low_bits((data >> ((ts & 1) * 8) as u16));
}

/// How a triangle is filled: with the colour its edges carry, or with a
/// texture modulated by that colour.
#[derive(Clone, Copy, PartialEq, Eq, Structural, Debug)]
pub enum TriangleFill {
    Shaded,
    Textured(TexInfo),
}

/// One pixel of a triangle drawn at `addr` over VRAM `v`, from the span
/// state `l`.
pub open spec fn tri_pixel(s: RendererState, v: Seq<u16>, addr: int, l: Line, fill: TriangleFill, transparent: bool) -> Seq<u16> {
    match fill {
        TriangleFill::Shaded => v.update(addr, shade(s, v[addr], line_color(l), transparent)),
        TriangleFill::Textured(ti) =>
            tex_pixel(s, v, addr, line_color(l), texel(v, s.tex_window, line_tex(l), ti), transparent),
    }
}

/// VRAM after the first `k` pixels of a span starting at `addr`, the span
/// state advancing by one step with each.
pub open spec fn span_after(
    s: RendererState, v: Seq<u16>, addr: int, l: Line, fill: TriangleFill, transparent: bool, k: nat,
) -> Seq<u16>
    decreases k,
{
    if k == 0 {
        v
    } else {
        let v2 = span_after(s, v, addr, l, fill, transparent, (k - 1) as nat);
        tri_pixel(s, v2, addr + k - 1, line_advanced(l, k - 1), fill, transparent)
    }
}

/// Every texel a texture can be read at lies within VRAM, as does its
/// palette.
pub open spec fn tex_page_ok(w: TextureWindow, ti: TexInfo) -> bool {
    &&& tex_info_ok(ti)
    &&& forall|tc: TexCoord| #[trigger] texel_addr(w, tc, ti) < VRAM_HALFWORDS
}

/// The colour (and texture coordinate) of a span state can be read.
pub open spec fn pixel_fits(s: RendererState, l: Line, fill: TriangleFill) -> bool {
    &&& round_fits(l.r) && round_fits(l.g) && round_fits(l.b)
    &&& match fill {
        TriangleFill::Shaded => true,
        TriangleFill::Textured(ti) => round_fits(l.tex_s) && round_fits(l.tex_t) && tex_page_ok(s.tex_window, ti),
    }
}

/// How one row of a triangle is drawn, from the states of its left and
/// right edges: whether it is drawn at all (not where the edges meet), the
/// VRAM index of its first pixel, the number of pixels, and the span state
/// at the first pixel.
pub struct RowPlan {
    pub drawn: bool,
    pub addr: int,
    pub count: int,
    pub span: Line,
}

/// The row at scanline `y` between the edge states `l` and `r`: from the
/// left edge to the right one, moved by the drawing offset and clipped to
/// the drawing area; the span state is moved on by the pixels clipped.
pub open spec fn row_plan(s: RendererState, l: Line, r: Line, y: int) -> RowPlan {
    let lx = round_fixed(l.x.val as int);
    let rx = round_fixed(r.x.val as int);
    let a = s.drawing_area;
    let left = lx + s.draw_offset.x;
    let right = rx + s.draw_offset.x;
    let x0 = if left > a.left { left } else { a.left as int };
    let x1 = if right < a.right { right } else { a.right as int };
    let clip = if left < a.left { a.left - left } else { 0 };
    RowPlan {
        drawn: lx != rx,
        addr: y * 1024 + x0,
        count: if x0 < x1 { x1 - x0 } else { 0 },
        span: line_advanced(span_at(l, r, lx), clip),
    }
}

/// The arithmetic of a row stays within its types.
pub open spec fn row_fits(s: RendererState, l: Line, r: Line, y: int, fill: TriangleFill) -> bool {
    let lx = round_fixed(l.x.val as int);
    let rx = round_fixed(r.x.val as int);
    let a = s.drawing_area;
    let left = lx + s.draw_offset.x;
    let row = row_plan(s, l, r, y);
    &&& round_fits(l.x) && round_fits(r.x)
    &&& fits_i16(left) && fits_i16(rx + s.draw_offset.x)
    &&& lx != rx ==> {
        &&& span_fits(l, r, lx)
        &&& left < a.left ==> fits_i16(a.left - left) && line_advance_fits(span_at(l, r, lx), a.left - left)
        &&& forall|k: int| 0 <= k <= row.count ==> #[trigger] line_advance_fits(row.span, k)
        &&& forall|k: int| 0 <= k < row.count ==> #[trigger] pixel_fits(s, line_advanced(row.span, k), fill)
    }
}

/// Where a part of a triangle starts: its edges moved on to the first
/// scanline in the drawing area, that scanline and the one it ends before.
pub open spec fn part_start(s: RendererState, lines: Lines, min_y: int) -> (Line, Line, int, int) {
    let a = s.drawing_area;
    let base_y = min_y + s.draw_offset.y;
    let skip = if base_y < a.top { a.top - base_y } else { 0 };
    let end = lines.max_y + s.draw_offset.y;
    (
        line_advanced(lines.left, skip),
        line_advanced(lines.right, skip),
        if base_y > a.top { base_y } else { a.top as int },
        if end < a.bottom { end } else { a.bottom as int },
    )
}

/// The number of rows of a part of a triangle.
pub open spec fn part_rows(s: RendererState, lines: Lines, min_y: int) -> int {
    let (l, r, y0, y1) = part_start(s, lines, min_y);
    if y0 < y1 { y1 - y0 } else { 0 }
}

/// VRAM after the first `j` rows of a part of a triangle.
pub open spec fn rows_after(
    s: RendererState, v: Seq<u16>, l: Line, r: Line, y0: int, fill: TriangleFill, transparent: bool, j: nat,
) -> Seq<u16>
    decreases j,
{
    if j == 0 {
        v
    } else {
        let v2 = rows_after(s, v, l, r, y0, fill, transparent, (j - 1) as nat);
        let row = row_plan(s, line_advanced(l, j - 1), line_advanced(r, j - 1), y0 + j - 1);
        if row.drawn { span_after(s, v2, row.addr, row.span, fill, transparent, row.count as nat) } else { v2 }
    }
}

/// VRAM after a part of a triangle: the rows between two edges from
/// scanline `min_y` to the end of the upper edge.
pub open spec fn part_after(
    s: RendererState, v: Seq<u16>, lines: Lines, min_y: int, fill: TriangleFill, transparent: bool,
) -> Seq<u16> {
    let (l, r, y0, y1) = part_start(s, lines, min_y);
    rows_after(s, v, l, r, y0, fill, transparent, part_rows(s, lines, min_y) as nat)
}

/// The arithmetic of a part of a triangle stays within its types.
pub open spec fn part_fits(s: RendererState, lines: Lines, min_y: int, fill: TriangleFill) -> bool {
    let a = s.drawing_area;
    let base_y = min_y + s.draw_offset.y;
    let (l, r, y0, y1) = part_start(s, lines, min_y);
    let n = part_rows(s, lines, min_y);
    &&& fits_i16(base_y)
    &&& fits_i16(lines.max_y + s.draw_offset.y)
    &&& base_y < a.top ==> fits_i16(a.top - base_y) && line_advance_fits(lines.left, a.top - base_y)
        && line_advance_fits(lines.right, a.top - base_y)
    &&& forall|j: int| 0 <= j <= n ==> #[trigger] line_advance_fits(l, j) && line_advance_fits(r, j)
    &&& forall|j: int| 0 <= j < n ==> #[trigger] row_fits(s, line_advanced(l, j), line_advanced(r, j), y0 + j, fill)
}

/// The top scanline of a triangle.
pub open spec fn tri_top(v: Seq<Vertex>) -> int {
    let y0 = v[0].coord.y as int;
    let y1 = v[1].coord.y as int;
    let y2 = v[2].coord.y as int;
    let m = if y1 < y0 { y1 } else { y0 };
    if y2 < m { y2 } else { m }
}

/// VRAM after a triangle: the part from its top to where the first edge
/// ends, then the part from there down.
pub open spec fn triangle_after(s: RendererState, vs: Seq<Vertex>, fill: TriangleFill, transparent: bool) -> Seq<u16> {
    let top = tri_top(vs);
    let st = settings(s);
    match intersection(vs, top) {
        None => s.vram,
        Some(lines) => {
            let v1 = part_after(st, s.vram, lines, top, fill, transparent);
            match intersection(vs, lines.max_y as int) {
                None => v1,
                Some(lines2) => part_after(st, v1, lines2, lines.max_y as int, fill, transparent),
            }
        },
    }
}

/// The arithmetic of a triangle stays within its types.
pub open spec fn triangle_fits(s: RendererState, vs: Seq<Vertex>, fill: TriangleFill) -> bool {
    let top = tri_top(vs);
    &&& vs.len() == 3
    &&& edges_fit(vs, top)
    &&& match intersection(vs, top) {
        None => true,
        Some(lines) => {
            &&& part_fits(settings(s), lines, top, fill)
            &&& edges_fit(vs, lines.max_y as int)
            &&& match intersection(vs, lines.max_y as int) {
                None => true,
                Some(lines2) => part_fits(settings(s), lines2, lines.max_y as int, fill),
            }
        },
    }
}

/// What the arithmetic of a part of a triangle fitting says of its row `j`.
proof fn lemma_part_row(s: RendererState, lines: Lines, min_y: int, fill: TriangleFill, j: int)
    requires
        part_fits(s, lines, min_y, fill),
        0 <= j < part_rows(s, lines, min_y),
    ensures
        ({
            let (l, r, y0, y1) = part_start(s, lines, min_y);
            &&& row_fits(s, line_advanced(l, j), line_advanced(r, j), y0 + j, fill)
            &&& line_advance_fits(l, j) && line_advance_fits(r, j)
            &&& line_advance_fits(l, j + 1) && line_advance_fits(r, j + 1)
        }),
{
    let (l, r, y0, y1) = part_start(s, lines, min_y);
    let n = part_rows(s, lines, min_y);
    assert(line_advance_fits(l, j) && line_advance_fits(r, j));
    assert(line_advance_fits(l, j + 1) && line_advance_fits(r, j + 1));
    assert(row_fits(s, line_advanced(l, j), line_advanced(r, j), y0 + j, fill));
}

/// What the arithmetic of a part of a triangle fitting says of its edges
/// stepped `j` rows on.
proof fn lemma_part_fits_steps(s: RendererState, lines: Lines, min_y: int, fill: TriangleFill, j: int)
    requires
        part_fits(s, lines, min_y, fill),
        0 <= j <= part_rows(s, lines, min_y),
    ensures
        ({
            let (l, r, y0, y1) = part_start(s, lines, min_y);
            line_advance_fits(l, j) && line_advance_fits(r, j)
        }),
{
    let (l, r, y0, y1) = part_start(s, lines, min_y);
    assert(line_advance_fits(l, j) && line_advance_fits(r, j));
}

/// `n` is `s` after a fill: row `y` of the block is the run of `width`
/// halfwords from `(x, top + y)`, all of the colour.
#[verifier::opaque]
pub open spec fn filled(s: RendererState, color: Color, top_left: Coord, size: Size, n: RendererState) -> bool {
    &&& n == (RendererState { vram: n.vram, ..s })
    &&& n.vram.len() == s.vram.len()
    &&& forall|i: int| 0 <= i < s.vram.len() ==> #[trigger] n.vram[i] == (
        if in_fill(i, top_left.y * 1024 + top_left.x, size.width as int, size.height as int) {
            color_rgb15(color)
        } else {
            s.vram[i]
        })
}

/// `n` is `s` after a rectangle of one colour: each pixel of the clipped
/// rectangle is shaded with it.
#[verifier::opaque]
pub open spec fn rect_drawn(s: RendererState, color: Color, top_left: Coord, size: Size, transparent: bool, n: RendererState) -> bool {
    &&& n == (RendererState { vram: n.vram, ..s })
    &&& n.vram.len() == s.vram.len()
    &&& forall|i: int| 0 <= i < s.vram.len() ==> #[trigger] n.vram[i] == ({
        let (x0, x1, y0, y1) = clipped_rect(s, top_left, size);
        if in_rect(i, x0, x1, y0, y1) {
            shade(s, s.vram[i], color, transparent)
        } else {
            s.vram[i]
        }
    })
}

/// `n` is `s` after a line from `a` to `b`: each of its pixels in the
/// drawing area is shaded with the colour of the ramp at its step.
#[verifier::opaque]
pub open spec fn line_drawn(s: RendererState, a: Vertex, b: Vertex, transparent: bool, n: RendererState) -> bool {
    &&& n == (RendererState { vram: n.vram, ..s })
    &&& n.vram.len() == s.vram.len()
    &&& forall|i: int| 0 <= i < s.vram.len() ==> #[trigger] n.vram[i] == (
        match line_step_at(s, line_plan(s, a, b), i) {
            Some(k) => shade(s, s.vram[i], ramp_color(ramp_advanced(line_plan(s, a, b).ramp, k)), transparent),
            None => s.vram[i],
        })
}

/// `n` is `s` after a block of `data` is stored at `to`.
#[verifier::opaque]
pub open spec fn block_written(s: RendererState, data: Seq<u16>, to: Coord, size: Size, n: RendererState) -> bool {
    &&& n == (RendererState { vram: n.vram, ..s })
    &&& n.vram.len() == s.vram.len()
    &&& forall|i: int| 0 <= i < s.vram.len() ==> #[trigger] n.vram[i] == (
        match block_cell(i, to, size) {
            Some((r, c)) => store(s, s.vram[i], data[r * size.width + c]),
            None => s.vram[i],
        })
}

/// `new` is the frame buffer `old` after the picture of `s` is copied into
/// it, or cleared when the display is off.
#[verifier::opaque]
pub open spec fn frame_copied(s: RendererState, rgb24: bool, debug: bool, old: Seq<u8>, new: Seq<u8>) -> bool {
    &&& new.len() == old.len()
    &&& !s.enable_display ==> new == Seq::new(old.len(), |j: int| 0u8)
    &&& s.enable_display ==> forall|y: int, off: int|
        0 <= y < frame_height(s, debug) && 0 <= off < 4 * frame_width(s, debug) ==>
        #[trigger] new[y * (4 * frame_width(s, debug)) + off] == frame_byte(
            s, rgb24, debug, y, off, old[y * (4 * frame_width(s, debug)) + off])
    &&& s.enable_display ==> forall|j: int|
        4 * frame_width(s, debug) * frame_height(s, debug) <= j < old.len() ==> #[trigger] new[j] == old[j]
}

/// The settings of the renderer, without the contents of VRAM.
pub open spec fn settings(s: RendererState) -> RendererState {
    RendererState { vram: Seq::empty(), ..s }
}

/// Whether a triangle's arithmetic fits depends on the settings alone.
pub proof fn lemma_triangle_fits_settings(s0: RendererState, s1: RendererState, vs: Seq<Vertex>, fill: TriangleFill)
    requires
        settings(s0) == settings(s1),
    ensures
        triangle_fits(s0, vs, fill) == triangle_fits(s1, vs, fill),
{
}

/// A block written into VRAM with mask checking and the forced mask bit
/// off reads back as written: each pixel holds its datum.
pub proof fn lemma_block_write_read(s: RendererState, data: Seq<u16>, to: Coord, size: Size, n: RendererState, r: int, c: int)
    requires
        renderer_ok(s),
        block_written(s, data, to, size, n),
        block_fits(to, size),
        !s.check_mask_bit,
        !s.set_mask_bit,
        0 <= r < size.height,
        0 <= c < size.width,
    ensures
        n.vram[block_addr(to, r, c)] == data[r * size.width + c],
{
    reveal(block_written);
    let a = block_addr(to, r, c);
    lemma_wrap_col(to.x as int, c);
    assert(a / 1024 == to.y + r && a % 1024 == (to.x + c) % 1024);
    assert(block_cell(a, to, size) == Some((r, c)));
    let v = data[r * size.width + c];
    assert(v | 0 == v) by (bit_vector);
}

/// Software implementation of rendering functions for the PlayStation GPU.
pub struct SoftwareRenderer {
    vram: Vec<u16>,

    // Settings
    enable_display: bool,
    resolution: Size,
    frame_pos: Coord,
    drawing_area: DrawingArea,
    draw_offset: Coord,
    tex_window: TextureWindow,
    interlace: bool,
    display_height: u16,

    trans_mode: TransparencyMode,
    dither: bool,
    set_mask_bit: bool,
    check_mask_bit: bool,
}

impl View for SoftwareRenderer {
    type V = RendererState;

    closed spec fn view(&self) -> RendererState {
        RendererState {
            vram: self.vram@,
            enable_display: self.enable_display,
            resolution: self.resolution,
            frame_pos: self.frame_pos,
            drawing_area: self.drawing_area,
            draw_offset: self.draw_offset,
            tex_window: self.tex_window,
            interlace: self.interlace,
            display_height: self.display_height,
            trans_mode: self.trans_mode,
            dither: self.dither,
            set_mask_bit: self.set_mask_bit,
            check_mask_bit: self.check_mask_bit,
        }
    }
}

impl SoftwareRenderer {
    /// VRAM has its size and the drawing area lies within it.
    pub open spec fn wf(&self) -> bool {
        renderer_ok(self@)
    }

    pub fn new() -> (r: Self)
        ensures
            r@ == (RendererState {
                vram: Seq::new(VRAM_HALFWORDS as nat, |i: int| 0u16),
                enable_display: false,
                resolution: Size { width: 320, height: 240 },
                frame_pos: Coord { x: 0, y: 0 },
                drawing_area: DrawingArea { top: 0, bottom: 0, left: 0, right: 0 },
                draw_offset: Coord { x: 0, y: 0 },
                tex_window: TextureWindow { mask_s: 0, mask_t: 0, offset_s: 0, offset_t: 0 },
                interlace: false,
                display_height: 240,
                trans_mode: TransparencyMode::Average,
                dither: false,
                set_mask_bit: false,
                check_mask_bit: false,
            }),
    {
        let vram: Vec<u16> = vec![0; VRAM_HALFWORDS];
        assert(vram@ =~= Seq::new(VRAM_HALFWORDS as nat, |i: int| 0u16));
        Self {
            vram,
            enable_display: false,
            resolution: Size { width: 320, height: 240 },
            frame_pos: Coord { x: 0, y: 0 },
            drawing_area: DrawingArea { top: 0, bottom: 0, left: 0, right: 0 },
            draw_offset: Coord { x: 0, y: 0 },
            tex_window: TextureWindow { mask_s: 0, mask_t: 0, offset_s: 0, offset_t: 0 },
            interlace: false,
            display_height: 240,
            trans_mode: TransparencyMode::Average,
            dither: false,
            set_mask_bit: false,
            check_mask_bit: false,
        }
    }

    pub fn enable_display(&mut self, enable: bool)
        ensures
            final(self)@ == (RendererState { enable_display: enable, ..old(self)@ }),
    {
        self.enable_display = enable;
    }

    pub fn set_display_offset(&mut self, offset: Coord)
        ensures
            final(self)@ == (RendererState { frame_pos: offset, ..old(self)@ }),
    {
        self.frame_pos = offset;
    }

    /// The horizontal display range has no effect on the picture.
    pub fn set_display_range_x(&mut self, _begin: u32, _end: u32)
        ensures
            final(self)@ == old(self)@,
    {
    }

    /// The vertical display range gives the height of the picture.
    pub fn set_display_range_y(&mut self, begin: u32, end: u32)
        requires
            begin <= end,
        ensures
            final(self)@ == (RendererState { display_height: (end - begin) as u16, ..old(self)@ }),
    {
        self.display_height = (end - begin) as u16;
    }

    pub fn set_display_resolution(&mut self, res: Size, interlace: bool)
        ensures
            final(self)@ == (RendererState { resolution: res, interlace, ..old(self)@ }),
    {
        self.resolution = res;
        self.interlace = interlace;
    }

    pub fn set_draw_mode(&mut self, trans_mode: TransparencyMode, dither: bool)
        ensures
            final(self)@ == (RendererState { trans_mode, dither, ..old(self)@ }),
    {
        self.trans_mode = trans_mode;
        self.dither = dither;
    }

    pub fn set_texture_window(&mut self, mask_s: u8, mask_t: u8, offset_s: u8, offset_t: u8)
        ensures
            final(self)@ == (RendererState { tex_window: TextureWindow { mask_s, mask_t, offset_s, offset_t }, ..old(self)@ }),
    {
        self.tex_window = TextureWindow { mask_s, mask_t, offset_s, offset_t };
    }

    pub fn set_draw_area_top_left(&mut self, left: i16, top: i16)
        requires
            0 <= left <= 1024,
            0 <= top <= 512,
        ensures
            final(self)@ == (RendererState {
                drawing_area: DrawingArea { left, top, ..old(self)@.drawing_area },
                ..old(self)@
            }),
    {
        self.drawing_area = DrawingArea { left, top, ..self.drawing_area };
    }

    /// The area ends after the given pixel.
    pub fn set_draw_area_bottom_right(&mut self, right: i16, bottom: i16)
        requires
            0 <= right < 1024,
            0 <= bottom < 512,
        ensures
            final(self)@ == (RendererState {
                drawing_area: DrawingArea { right: (right + 1) as i16, bottom: (bottom + 1) as i16, ..old(self)@.drawing_area },
                ..old(self)@
            }),
    {
        self.drawing_area = DrawingArea { right: right + 1, bottom: bottom + 1, ..self.drawing_area };
    }

    pub fn set_draw_area_offset(&mut self, x: i16, y: i16)
        requires
            -1024 <= x <= 1023,
            -1024 <= y <= 1023,
        ensures
            final(self)@ == (RendererState { draw_offset: Coord { x, y }, ..old(self)@ }),
    {
        self.draw_offset = Coord { x, y };
    }

    pub fn set_mask_settings(&mut self, set_mask_bit: bool, check_mask_bit: bool)
        ensures
            final(self)@ == (RendererState { set_mask_bit, check_mask_bit, ..old(self)@ }),
    {
        self.set_mask_bit = set_mask_bit;
        self.check_mask_bit = check_mask_bit;
    }

    /// Write a pixel: see `shade`.
    fn write_pixel(&mut self, addr: usize, color: &Color, transparent: bool)
        requires
            addr < old(self)@.vram.len(),
        ensures
            final(self)@ == (RendererState {
                vram: old(self)@.vram.update(addr as int, shade(old(self)@, old(self)@.vram[addr as int], *color, transparent)),
                ..old(self)@
            }),
    {
        let old_pixel = self.vram[addr];
        if !self.check_mask_bit || old_pixel & 0x8000 == 0 {
            let color = if transparent {
                let base_color = Color::from_rgb15(old_pixel);
                self.trans_mode.blend(&base_color, color)
            } else {
                *color
            };
            let v = color.to_rgb15();
            self.vram.set(addr, v);
        } else {
            assert(self@.vram.update(addr as int, old_pixel) =~= self@.vram);
        }
    }

    /// Draw a line from `vertex_a` to `vertex_b` with Bresenham's
    /// algorithm, shading from one end's colour to the other's, moved by the
    /// drawing offset and clipped to the drawing area.
    #[verifier::spinoff_prover]
    pub fn draw_line(&mut self, vertex_a: &Vertex, vertex_b: &Vertex, transparent: bool)
        requires
            old(self).wf(),
            line_fits(old(self)@, *vertex_a, *vertex_b),
        ensures
            line_drawn(old(self)@, *vertex_a, *vertex_b, transparent, final(self)@),
            final(self)@ == (RendererState { vram: final(self)@.vram, ..old(self)@ }),
            final(self)@.vram.len() == old(self)@.vram.len(),
    {
        proof {
            reveal(line_drawn);
        }
        let ghost plan = line_plan(self@, *vertex_a, *vertex_b);
        let ddx = vertex_a.coord.x - vertex_b.coord.x;
        let dx = if ddx < 0 { -ddx } else { ddx };
        let ddy = vertex_a.coord.y - vertex_b.coord.y;
        let dy = if ddy < 0 { -ddy } else { ddy };
        if dx > dy {
            let (left, right) = if vertex_a.coord.x < vertex_b.coord.x {
                (vertex_a, vertex_b)
            } else {
                (vertex_b, vertex_a)
            };
            let color = InterpolatedColor::from_x_major(left, right);
            let y_step: i32 = if left.coord.y < right.coord.y { 1 } else { -1 };
            let x_begin = left.coord.x + self.draw_offset.x;
            let x_end = right.coord.x + self.draw_offset.x;
            let x_end = if x_end < self.drawing_area.right - 1 { x_end } else { self.drawing_area.right - 1 };
            let y = left.coord.y + self.draw_offset.y;
            proof {
                lemma_ramp_start(left.col, right.col, right.coord.x - left.coord.x);
            }
            self.trace_line(
                true, x_begin as i32, x_end as i32, y as i32, y_step, dx as i32, dy as i32, color, transparent, Ghost(plan));
        } else {
            let (top, bottom) = if vertex_a.coord.y < vertex_b.coord.y {
                (vertex_a, vertex_b)
            } else {
                (vertex_b, vertex_a)
            };
            let color = InterpolatedColor::from_y_major(top, bottom);
            let x_step: i32 = if top.coord.x < bottom.coord.x { 1 } else { -1 };
            let y_begin = top.coord.y + self.draw_offset.y;
            let y_end = bottom.coord.y + self.draw_offset.y;
            let y_end = if y_end < self.drawing_area.bottom - 1 { y_end } else { self.drawing_area.bottom - 1 };
            let x = top.coord.x + self.draw_offset.x;
            proof {
                lemma_ramp_start(top.col, bottom.col, bottom.coord.y - top.coord.y);
            }
            self.trace_line(
                false, y_begin as i32, y_end as i32, x as i32, x_step, dy as i32, dx as i32, color, transparent, Ghost(plan));
        }
    }

    /// Walk a line planned by `draw_line`, writing each of its pixels that
    /// lies in the drawing area.
    fn trace_line(
        &mut self,
        x_major: bool,
        begin: i32,
        end: i32,
        m0: i32,
        step: i32,
        d_major: i32,
        d_minor: i32,
        color: InterpolatedColor,
        transparent: bool,
        Ghost(plan): Ghost<LinePlan>,
    )
        requires
            old(self).wf(),
            plan == (LinePlan { x_major, begin: begin as int, end: end as int, m0: m0 as int, step: step as int,
                d_major: d_major as int, d_minor: d_minor as int, ramp: color }),
            step == 1 || step == -1,
            0 <= d_minor <= d_major <= 0xFFFF,
            fits_i16(begin as int),
            fits_i16(m0 as int),
            end <= 1023,
            end - begin <= d_major,
            ramp_ok(color, d_major as int),
        ensures
            final(self)@ == (RendererState { vram: final(self)@.vram, ..old(self)@ }),
            final(self)@.vram.len() == old(self)@.vram.len(),
            forall|i: int| 0 <= i < old(self)@.vram.len() ==> #[trigger] final(self)@.vram[i] == (
                match line_step_at(old(self)@, plan, i) {
                    Some(k) => shade(old(self)@, old(self)@.vram[i], ramp_color(ramp_advanced(plan.ramp, k)), transparent),
                    None => old(self)@.vram[i],
                }),
    {
        let ghost s0 = self@;
        let ghost e0 = 2 * d_minor - d_major;
        let mut k: i32 = 0;
        let mut major = begin;
        let mut m = m0;
        let mut e: i32 = 2 * d_minor - d_major;
        let mut color = color;
        while major <= end
            invariant
                renderer_ok(s0),
                plan == (LinePlan { x_major, begin: begin as int, end: end as int, m0: m0 as int, step: step as int,
                    d_major: d_major as int, d_minor: d_minor as int, ramp: plan.ramp }),
                step == 1 || step == -1,
                0 <= d_minor <= d_major <= 0xFFFF,
                fits_i16(begin as int),
                fits_i16(m0 as int),
                end <= 1023,
                end - begin <= d_major,
                ramp_ok(plan.ramp, d_major as int),
                e0 == 2 * d_minor - d_major,
                0 <= k,
                major == begin + k,
                begin <= end + 1 ==> major <= end + 1,
                begin > end + 1 ==> k == 0,
                (m as int, e as int) == walk(m0 as int, step as int, e0, d_major as int, d_minor as int, k as nat),
                -k <= m - m0 <= k,
                2 * d_minor - 2 * d_major <= e <= 2 * d_minor,
                color == ramp_advanced(plan.ramp, k as int),
                self@ == (RendererState { vram: self@.vram, ..s0 }),
                self@.vram.len() == VRAM_HALFWORDS,
                forall|i: int| 0 <= i < VRAM_HALFWORDS ==> #[trigger] self@.vram[i] == (
                    match line_step_at(s0, plan, i) {
                        Some(kk) => if kk < k {
                            shade(s0, s0.vram[i], ramp_color(ramp_advanced(plan.ramp, kk)), transparent)
                        } else {
                            s0.vram[i]
                        },
                        None => s0.vram[i],
                    }),
            decreases end + 1 - major,
        {
            let x = if x_major { major } else { m };
            let y = if x_major { m } else { major };
            proof {
                crate::gpu::renderer::raster::lemma_ramp_advance(plan.ramp, d_major as int, k as int);
                crate::gpu::renderer::raster::lemma_ramp_advance(plan.ramp, d_major as int, k + 1);
            }
            if x >= self.drawing_area.left as i32 && x < self.drawing_area.right as i32
                && y >= self.drawing_area.top as i32 && y < self.drawing_area.bottom as i32 {
                let addr = (y as usize) * 1024 + (x as usize);
                let c = color.get();
                proof {
                    assert(addr as int % 1024 == x && addr as int / 1024 == y);
                    assert(line_step_at(s0, plan, addr as int) == Some(k as int));
                }
                self.write_pixel(addr, &c, transparent);
                proof {
                    assert forall|i: int| 0 <= i < VRAM_HALFWORDS && i != addr implies
                        line_step_at(s0, plan, i) != Some(k as int) by {
                        if line_step_at(s0, plan, i) == Some(k as int) {
                            assert(i == 1024 * (i / 1024) + i % 1024);
                        }
                    }
                }
            } else {
                proof {
                    assert forall|i: int| 0 <= i < VRAM_HALFWORDS implies
                        line_step_at(s0, plan, i) != Some(k as int) by {
                        if line_step_at(s0, plan, i) == Some(k as int) {
                            assert(i == 1024 * (i / 1024) + i % 1024);
                        }
                    }
                }
            }
            if e > 0 {
                m = m + step;
                e = e + 2 * (d_minor - d_major);
            } else {
                e = e + 2 * d_minor;
            }
            color.inc();
            major = major + 1;
            k = k + 1;
        }
    }

    /// Store a block of pixels, row by row, at `to`; columns wrap around at
    /// the right edge of VRAM.
    pub fn write_vram_block(&mut self, data_in: &[u16], to: Coord, size: Size)
        requires
            old(self).wf(),
            block_fits(to, size),
            data_in@.len() >= size.width * size.height,
        ensures
            block_written(old(self)@, data_in@, to, size, final(self)@),
            final(self)@ == (RendererState { vram: final(self)@.vram, ..old(self)@ }),
            final(self)@.vram.len() == old(self)@.vram.len(),
    {
        proof {
            reveal(block_written);
        }
        let ghost s0 = self@;
        let mask: u16 = if self.set_mask_bit { 0x8000 } else { 0 };
        let width = size.width as usize;
        proof {
            assert(size.width * size.height <= 1024 * 512) by (nonlinear_arith)
                requires size.width <= 1024, size.height <= 512;
        }
        let mut y: u16 = 0;
        let mut src: usize = 0;
        while y < size.height
            invariant
                renderer_ok(s0),
                block_fits(to, size),
                data_in@.len() >= size.width * size.height,
                size.width * size.height <= 1024 * 512,
                width == size.width,
                mask == mask_of(s0),
                y <= size.height,
                src == y * size.width,
                self@ == (RendererState { vram: self@.vram, ..s0 }),
                self@.vram.len() == VRAM_HALFWORDS,
                forall|i: int| 0 <= i < VRAM_HALFWORDS ==> #[trigger] self@.vram[i] == (
                    match block_cell(i, to, size) {
                        Some((r, c)) => if r < y {
                            store(s0, s0.vram[i], data_in@[r * size.width + c])
                        } else {
                            s0.vram[i]
                        },
                        None => s0.vram[i],
                    }),
            decreases size.height - y,
        {
            proof {
                assert(src + width <= size.width * size.height) by (nonlinear_arith)
                    requires src == y * size.width, y < size.height, width == size.width;
            }
            let addr_base = ((to.y + y as i16) as usize) * 1024;
            let ghost before = self@.vram;
            let mut x: usize = 0;
            while x < width
                invariant
                    renderer_ok(s0),
                    block_fits(to, size),
                    data_in@.len() >= size.width * size.height,
                    size.width * size.height <= 1024 * 512,
                    width == size.width,
                    mask == mask_of(s0),
                    y < size.height,
                    src == y * size.width,
                    src + width <= size.width * size.height,
                    x <= width,
                    addr_base == (to.y + y) * 1024,
                    self@ == (RendererState { vram: self@.vram, ..s0 }),
                    self@.vram.len() == VRAM_HALFWORDS,
                    forall|i: int| 0 <= i < VRAM_HALFWORDS ==> #[trigger] self@.vram[i] == (
                        match block_cell(i, to, size) {
                            Some((r, c)) => if r == y && c < x {
                                store(s0, s0.vram[i], data_in@[r * size.width + c])
                            } else {
                                before[i]
                            },
                            None => before[i],
                        }),
                    forall|i: int| 0 <= i < VRAM_HALFWORDS ==> #[trigger] before[i] == (
                        match block_cell(i, to, size) {
                            Some((r, c)) => if r < y {
                                store(s0, s0.vram[i], data_in@[r * size.width + c])
                            } else {
                                s0.vram[i]
                            },
                            None => s0.vram[i],
                        }),
                decreases width - x,
            {
                let x_addr = ((to.x as usize) + x) % 1024;
                let addr = addr_base + x_addr;
                proof {
                    lemma_wrap_col(to.x as int, x as int);
                    assert(addr as int / 1024 == to.y + y && addr as int % 1024 == x_addr);
                    assert(block_cell(addr as int, to, size) == Some((y as int, x as int)));
                }
                let pixel = data_in[src + x];
                if !self.check_mask_bit || self.vram[addr] & 0x8000 == 0 {
                    self.vram.set(addr, pixel | mask);
                }
                proof {
                    assert forall|i: int| 0 <= i < VRAM_HALFWORDS && i != addr implies
                        block_cell(i, to, size) != Some((y as int, x as int)) by {
                        if block_cell(i, to, size) == Some((y as int, x as int)) {
                            assert(i == 1024 * (i / 1024) + i % 1024);
                            lemma_wrap_col(to.x as int, x as int);
                            vstd::arithmetic::div_mod::lemma_fundamental_div_mod(i % 1024 - to.x, 1024);
                        }
                    }
                }
                x = x + 1;
            }
            proof {
                assert(src + width == (y + 1) * size.width) by (nonlinear_arith)
                    requires src == y * size.width, width == size.width;
            }
            src = src + width;
            y = y + 1;
        }
    }

    /// Read a block of pixels, row by row, from `from`.
    pub fn read_vram_block(&self, data_out: &mut [u16], from: Coord, size: Size)
        requires
            self.wf(),
            from.x >= 0,
            from.y >= 0,
            from.x + size.width <= 1024,
            from.y + size.height <= 512,
            old(data_out)@.len() >= size.width * size.height,
        ensures
            final(data_out)@.len() == old(data_out)@.len(),
            forall|r: int, c: int| 0 <= r < size.height && 0 <= c < size.width ==>
                #[trigger] final(data_out)@[r * size.width + c] == self@.vram[(from.y + r) * 1024 + from.x + c],
            forall|j: int| size.width * size.height <= j < old(data_out)@.len() ==>
                #[trigger] final(data_out)@[j] == old(data_out)@[j],
    {
        let width = size.width as usize;
        proof {
            assert(size.width * size.height <= 1024 * 512) by (nonlinear_arith)
                requires size.width <= 1024, size.height <= 512;
        }
        let mut y: u16 = 0;
        let mut dst: usize = 0;
        while y < size.height
            invariant
                self.wf(),
                from.x >= 0,
                from.y >= 0,
                from.x + size.width <= 1024,
                from.y + size.height <= 512,
                data_out@.len() == old(data_out)@.len(),
                old(data_out)@.len() >= size.width * size.height,
                size.width * size.height <= 1024 * 512,
                width == size.width,
                y <= size.height,
                dst == y * size.width,
                forall|r: int, c: int| 0 <= r < y && 0 <= c < size.width ==>
                    #[trigger] data_out@[r * size.width + c] == self@.vram[(from.y + r) * 1024 + from.x + c],
                forall|j: int| y * size.width <= j < data_out@.len() ==>
                    #[trigger] data_out@[j] == old(data_out)@[j],
            decreases size.height - y,
        {
            proof {
                assert(dst + width <= size.width * size.height) by (nonlinear_arith)
                    requires dst == y * size.width, y < size.height, width == size.width;
            }
            let src_begin = Coord { x: from.x, y: from.y + y as i16 }.get_vram_idx();
            let ghost before = data_out@;
            let mut x: usize = 0;
            while x < width
                invariant
                    self.wf(),
                    from.x + size.width <= 1024,
                    from.y + size.height <= 512,
                    data_out@.len() == old(data_out)@.len(),
                    old(data_out)@.len() >= size.width * size.height,
                    width == size.width,
                    y < size.height,
                    dst == y * size.width,
                    dst + width <= size.width * size.height,
                    size.width * size.height <= 1024 * 512,
                    src_begin == from.x + (from.y + y) * 1024,
                    x <= width,
                    forall|j: int| 0 <= j < data_out@.len() ==> #[trigger] data_out@[j] == (
                        if dst <= j < dst + x { self@.vram[src_begin + (j - dst)] } else { before[j] }),
                decreases width - x,
            {
                data_out[dst + x] = self.vram[src_begin + x];
                x = x + 1;
            }
            proof {
                assert forall|r: int, c: int| 0 <= r < y + 1 && 0 <= c < size.width implies
                    #[trigger] data_out@[r * size.width + c] == self@.vram[(from.y + r) * 1024 + from.x + c] by {
                    if r < y {
                        assert(r * size.width + c < y * size.width) by (nonlinear_arith)
                            requires r < y, c < size.width;
                    } else {
                        assert(r * size.width + c == dst + c);
                    }
                }
                assert((y + 1) * size.width == dst + width) by (nonlinear_arith)
                    requires dst == y * size.width, width == size.width;
            }
            dst = dst + width;
            y = y + 1;
        }
        proof {
            assert(y * size.width == size.width * size.height) by (nonlinear_arith)
                requires y == size.height;
        }
    }

    /// Copy a block of pixels from `from` to `to`, pixel by pixel, row by
    /// row; columns wrap around at the right edge of VRAM. A source pixel
    /// with its mask bit set is not copied when mask checking is on.
    pub fn copy_vram_block(&mut self, from: Coord, to: Coord, size: Size)
        requires
            old(self).wf(),
            block_fits(from, size),
            block_fits(to, size),
            fits_i16(from.x + size.width),
            fits_i16(to.x + size.width),
        ensures
            final(self)@ == (RendererState {
                vram: copied(old(self)@, from, to, size.width as int, (size.width * size.height) as nat),
                ..old(self)@
            }),
            final(self)@.vram.len() == old(self)@.vram.len(),
    {
        let ghost s0 = self@;
        let mask: u16 = if self.set_mask_bit { 0x8000 } else { 0 };
        let ghost w = size.width as int;
        let ghost mut p: int = 0;
        let mut y: u16 = 0;
        while y < size.height
            invariant
                renderer_ok(s0),
                block_fits(from, size),
                block_fits(to, size),
                fits_i16(from.x + size.width),
                fits_i16(to.x + size.width),
                mask == mask_of(s0),
                w == size.width,
                y <= size.height,
                p == y * w,
                self@ == (RendererState { vram: copied(s0, from, to, w, p as nat), ..s0 }),
                copied(s0, from, to, w, p as nat).len() == VRAM_HALFWORDS,
            decreases size.height - y,
        {
            let read_addr_base = ((from.y + y as i16) as usize) * 1024;
            let write_addr_base = ((to.y + y as i16) as usize) * 1024;
            let mut x: u16 = 0;
            while x < size.width
                invariant
                    renderer_ok(s0),
                    block_fits(from, size),
                    block_fits(to, size),
                    fits_i16(from.x + size.width),
                    fits_i16(to.x + size.width),
                    mask == mask_of(s0),
                    w == size.width,
                    y < size.height,
                    x <= size.width,
                    p == y * w + x,
                    read_addr_base == (from.y + y) * 1024,
                    write_addr_base == (to.y + y) * 1024,
                    self@ == (RendererState { vram: copied(s0, from, to, w, p as nat), ..s0 }),
                    copied(s0, from, to, w, p as nat).len() == VRAM_HALFWORDS,
                decreases size.width - x,
            {
                let read_x_addr = ((from.x + x as i16) as usize) % 1024;
                let write_x_addr = ((to.x + x as i16) as usize) % 1024;
                let read_addr = read_addr_base + read_x_addr;
                let write_addr = write_addr_base + write_x_addr;
                proof {
                    vstd::arithmetic::div_mod::lemma_fundamental_div_mod_converse(p, w, y as int, x as int);
                    assert(read_addr == block_addr(from, y as int, x as int));
                    assert(write_addr == block_addr(to, y as int, x as int));
                }
                let data = self.vram[read_addr];
                if !self.check_mask_bit || data & 0x8000 == 0 {
                    self.vram.set(write_addr, data | mask);
                }
                proof {
                    p = p + 1;
                }
                x = x + 1;
            }
            proof {
                assert(y * w + w == (y + 1) * w) by (nonlinear_arith);
            }
            y = y + 1;
        }
        proof {
            assert(p == size.width * size.height) by (nonlinear_arith)
                requires p == y * w, y == size.height, w == size.width;
        }
    }

    /// Copy the displayed picture out of VRAM into `frame`, or clear it
    /// when the display is off. With `debug`, all of VRAM is shown.
    pub fn get_frame(&self, frame: &mut Frame, _interlace_state: InterlaceState, rgb24: bool, debug: bool)
        requires
            self.wf(),
            self@.enable_display ==> frame_fits(self@, rgb24, debug),
            self@.enable_display ==>
                old(frame).frame_buffer@.len() >= 4 * frame_width(self@, debug) * frame_height(self@, debug),
        ensures
            final(frame).size == old(frame).size,
            frame_copied(self@, rgb24, debug, old(frame).frame_buffer@, final(frame).frame_buffer@),
    {
        proof {
            reveal(frame_copied);
        }
        let ghost s = self@;
        if !self.enable_display {
            let len = frame.frame_buffer.len();
            let mut j: usize = 0;
            while j < len
                invariant
                    j <= len,
                    len == old(frame).frame_buffer@.len(),
                    frame.size == old(frame).size,
                    frame.frame_buffer@.len() == len,
                    forall|k: int| 0 <= k < j ==> #[trigger] frame.frame_buffer@[k] == 0u8,
                decreases len - j,
            {
                frame.frame_buffer.set(j, 0);
                j = j + 1;
            }
            assert(frame.frame_buffer@ =~= Seq::new(len as nat, |j: int| 0u8));
            return;
        }
        let width: usize = if debug { 1024 } else { self.resolution.width as usize };
        let height: usize = if debug {
            512
        } else {
            let display_height = if self.interlace { self.display_height * 2 } else { self.display_height };
            let h = if self.resolution.height <= display_height { self.resolution.height } else { display_height };
            h as usize
        };
        let len = frame.frame_buffer.len();
        let line_size = width * 4;
        let ghost w = width as int;
        let mut y: usize = 0;
        let mut frame_idx: usize = 0;
        while y < height
            invariant
                s == self@,
                self.wf(),
                self@.enable_display,
                frame_fits(s, rgb24, debug),
                w == width,
                width == frame_width(s, debug),
                height == frame_height(s, debug),
                line_size == 4 * w,
                frame.size == old(frame).size,
                frame.frame_buffer@.len() == old(frame).frame_buffer@.len(),
                frame.frame_buffer@.len() == len,
                old(frame).frame_buffer@.len() >= 4 * w * height,
                y <= height,
                frame_idx == y * (4 * w),
                forall|r: int, off: int| 0 <= r < y && 0 <= off < 4 * w ==>
                    #[trigger] frame.frame_buffer@[r * (4 * w) + off] == frame_byte(
                        s, rgb24, debug, r, off, old(frame).frame_buffer@[r * (4 * w) + off]),
                forall|j: int| y * (4 * w) <= j < frame.frame_buffer@.len() ==>
                    #[trigger] frame.frame_buffer@[j] == old(frame).frame_buffer@[j],
            decreases height - y,
        {
            proof {
                assert(frame_idx + 4 * w <= 4 * w * height) by (nonlinear_arith)
                    requires frame_idx == y * (4 * w), y < height, w >= 0;
                assert(row_source(s, rgb24, debug, y as int) + row_span(s, rgb24, debug) <= VRAM_HALFWORDS) by {
                    if debug {
                        if rgb24 {
                            assert(y * 512 <= 511 * 512) by (nonlinear_arith) requires y < 512;
                        } else {
                            assert(y * 1024 <= 511 * 1024) by (nonlinear_arith) requires y < 512;
                        }
                    }
                }
            }
            let vram_addr: usize = if debug {
                if rgb24 { y * (width / 2) } else { y * width }
            } else {
                Coord { x: self.frame_pos.x, y: self.frame_pos.y + y as i16 }.get_vram_idx()
            };
            assert(vram_addr == row_source(s, rgb24, debug, y as int));
            let ghost before = frame.frame_buffer@;
            if rgb24 {
                let mut g: usize = 0;
                while g < width / 2
                    invariant
                        s == self@,
                        self.wf(),
                        w == width,
                        width == frame_width(s, debug),
                        frame.size == old(frame).size,
                        frame.frame_buffer@.len() == old(frame).frame_buffer@.len(),
                        frame.frame_buffer@.len() == len,
                        frame_idx + 4 * w <= frame.frame_buffer@.len(),
                        vram_addr == row_source(s, rgb24, debug, y as int),
                        vram_addr + 3 * (w / 2) <= VRAM_HALFWORDS,
                        rgb24,
                        g <= width / 2,
                        forall|j: int| 0 <= j < frame.frame_buffer@.len() ==> #[trigger] frame.frame_buffer@[j] == (
                            if frame_idx <= j < frame_idx + 8 * g {
                                frame_byte(s, rgb24, debug, y as int, j - frame_idx, before[j])
                            } else {
                                before[j]
                            }),
                    decreases width / 2 - g,
                {
                    let a = vram_addr + 3 * g;
                    let idx = frame_idx + 8 * g;
                    let h0 = self.vram[a];
                    let h1 = self.vram[a + 1];
                    let h2 = self.vram[a + 2];
                    frame.frame_buffer.set(idx, h0 as u8);
                    frame.frame_buffer.set(idx + 1, (h0 >> 8) as u8);
                    frame.frame_buffer.set(idx + 2, h1 as u8);
                    frame.frame_buffer.set(idx + 4, (h1 >> 8) as u8);
                    frame.frame_buffer.set(idx + 5, h2 as u8);
                    frame.frame_buffer.set(idx + 6, (h2 >> 8) as u8);
                    proof {
                        assert forall|j: int| idx <= j < idx + 8 implies
                            #[trigger] frame.frame_buffer@[j] == frame_byte(s, rgb24, debug, y as int, j - frame_idx, before[j]) by {
                            assert((j - frame_idx) / 8 == g && (j - frame_idx) % 8 == j - idx);
                        }
                    }
                    g = g + 1;
                }
                proof {
                    assert forall|j: int| frame_idx + 8 * (w / 2) <= j < frame_idx + 4 * w implies
                        #[trigger] before[j] == frame_byte(s, rgb24, debug, y as int, j - frame_idx, before[j]) by {}
                }
            } else {
                let mut x: usize = 0;
                while x < width
                    invariant
                        s == self@,
                        self.wf(),
                        w == width,
                        width == frame_width(s, debug),
                        frame.size == old(frame).size,
                        frame.frame_buffer@.len() == old(frame).frame_buffer@.len(),
                        frame.frame_buffer@.len() == len,
                        frame_idx + 4 * w <= frame.frame_buffer@.len(),
                        vram_addr == row_source(s, rgb24, debug, y as int),
                        vram_addr + w <= VRAM_HALFWORDS,
                        !rgb24,
                        x <= width,
                        forall|j: int| 0 <= j < frame.frame_buffer@.len() ==> #[trigger] frame.frame_buffer@[j] == (
                            if frame_idx <= j < frame_idx + 4 * x {
                                frame_byte(s, rgb24, debug, y as int, j - frame_idx, before[j])
                            } else {
                                before[j]
                            }),
                    decreases width - x,
                {
                    let idx = frame_idx + 4 * x;
                    let pixel = self.vram[vram_addr + x];
                    let col = Color::from_rgb15(pixel);
                    frame.frame_buffer.set(idx, col.r);
                    frame.frame_buffer.set(idx + 1, col.g);
                    frame.frame_buffer.set(idx + 2, col.b);
                    proof {
                        assert forall|j: int| idx <= j < idx + 4 implies
                            #[trigger] frame.frame_buffer@[j] == frame_byte(s, rgb24, debug, y as int, j - frame_idx, before[j]) by {
                            assert((j - frame_idx) / 4 == x && (j - frame_idx) % 4 == j - idx);
                        }
                    }
                    x = x + 1;
                }
            }
            proof {
                assert forall|r: int, off: int| 0 <= r < y + 1 && 0 <= off < 4 * w implies
                    #[trigger] frame.frame_buffer@[r * (4 * w) + off] == frame_byte(
                        s, rgb24, debug, r, off, old(frame).frame_buffer@[r * (4 * w) + off]) by {
                    if r < y {
                        assert(r * (4 * w) + off < y * (4 * w)) by (nonlinear_arith)
                            requires 0 <= r < y, 0 <= off < 4 * w, w >= 0;
                        assert(r * (4 * w) + off >= 0) by (nonlinear_arith)
                            requires r >= 0, off >= 0, w >= 0;
                    } else {
                        assert(r * (4 * w) + off == frame_idx + off);
                    }
                }
                assert((y + 1) * (4 * w) == frame_idx + 4 * w) by (nonlinear_arith)
                    requires frame_idx == y * (4 * w);
            }
            frame_idx = frame_idx + line_size;
            y = y + 1;
        }
        proof {
            assert(y * (4 * w) == 4 * w * height) by (nonlinear_arith)
                requires y == height;
        }
    }

    /// Draw a textured rectangle, moved by the drawing offset and clipped to
    /// the drawing area; the texture coordinate advances by one with each
    /// pixel and each row. Texels of 0 are not drawn.
    pub fn draw_rectangle_tex(
        &mut self, color: Color, tex_coord: TexCoord, tex_info: &TexInfo, top_left: Coord, size: Size, transparent: bool,
    )
        requires
            old(self).wf(),
            tex_rect_fits(old(self)@, tex_coord, *tex_info, top_left, size),
        ensures
            final(self)@ == (RendererState {
                vram: {
                    let (x0, x1, y0, y1) = clipped_rect(old(self)@, top_left, size);
                    let (s0, t0) = tex_start(old(self)@, tex_coord, top_left);
                    let cw = if x0 < x1 { x1 - x0 } else { 0 };
                    let rows = if y0 < y1 { y1 - y0 } else { 0 };
                    tex_rect_after(old(self)@, color, *tex_info, transparent, x0, y0, cw, s0, t0, (cw * rows) as nat)
                },
                ..old(self)@
            }),
            final(self)@.vram.len() == old(self)@.vram.len(),
    {
        let ghost st = self@;
        let top = top_left.y + self.draw_offset.y;
        let bottom = top + size.height as i16;
        let left = top_left.x + self.draw_offset.x;
        let right = left + size.width as i16;
        let y_min = if top > self.drawing_area.top { top } else { self.drawing_area.top };
        let y_max = if bottom < self.drawing_area.bottom { bottom } else { self.drawing_area.bottom };
        let x_min = if left > self.drawing_area.left { left } else { self.drawing_area.left };
        let x_max = if right < self.drawing_area.right { right } else { self.drawing_area.right };
        let start_s: u8 = if left < self.drawing_area.left {
            let offset = self.drawing_area.left - left;
            ((tex_coord.s as u16 as i16) + offset) as u8
        } else {
            tex_coord.s
        };
        let start_t: u8 = if top < self.drawing_area.top {
            let offset = self.drawing_area.top - top;
            ((tex_coord.t as u16 as i16) + offset) as u8
        } else {
            tex_coord.t
        };
        let ghost (s0, t0) = tex_start(st, tex_coord, top_left);
        assert(start_s == s0 && start_t == t0);
        let ghost cw: int = if x_min < x_max { x_max - x_min } else { 0 };
        let ghost mut p: int = 0;
        let mut cur_t = start_t;
        let mut y = y_min;
        while y < y_max
            invariant
                renderer_ok(st),
                tex_rect_fits(st, tex_coord, *tex_info, top_left, size),
                (x_min as int, x_max as int, y_min as int, y_max as int) == clipped_rect(st, top_left, size),
                (s0, t0) == tex_start(st, tex_coord, top_left),
                start_s == s0,
                cw == (if x_min < x_max { x_max - x_min } else { 0 }),
                0 <= y_min,
                y_max <= 512,
                0 <= x_min,
                x_max <= 1024,
                y_min <= y_max ==> y_min <= y <= y_max,
                y_max < y_min ==> y == y_min,
                cur_t == t0 + (y - y_min),
                p == (y - y_min) * cw,
                self@ == (RendererState {
                    vram: tex_rect_after(st, color, *tex_info, transparent, x_min as int, y_min as int, cw, s0, t0, p as nat),
                    ..st
                }),
                self@.vram.len() == VRAM_HALFWORDS,
            decreases y_max - y,
        {
            let line_addr = (y as usize) * 1024;
            let mut cur_s = start_s;
            let mut x = x_min;
            while x < x_max
                invariant
                    renderer_ok(st),
                    tex_rect_fits(st, tex_coord, *tex_info, top_left, size),
                    (x_min as int, x_max as int, y_min as int, y_max as int) == clipped_rect(st, top_left, size),
                    (s0, t0) == tex_start(st, tex_coord, top_left),
                    cw == (if x_min < x_max { x_max - x_min } else { 0 }),
                    0 <= y_min <= y < y_max <= 512,
                    0 <= x_min,
                    x_max <= 1024,
                    x_min <= x_max ==> x_min <= x <= x_max,
                    x_max < x_min ==> x == x_min,
                    line_addr == y * 1024,
                    cur_t == t0 + (y - y_min),
                    cur_s == s0 + (x - x_min),
                    p == (y - y_min) * cw + (x - x_min),
                    self@ == (RendererState {
                        vram: tex_rect_after(st, color, *tex_info, transparent, x_min as int, y_min as int, cw, s0, t0, p as nat),
                        ..st
                    }),
                    self@.vram.len() == VRAM_HALFWORDS,
                decreases x_max - x,
            {
                let tc = TexCoord { s: cur_s, t: cur_t };
                proof {
                    vstd::arithmetic::div_mod::lemma_fundamental_div_mod_converse(p, cw, y - y_min, x - x_min);
                    let r = y - y_min;
                    let c = x - x_min;
                    assert(texel_addr(st.tex_window, TexCoord { s: (s0 + c) as u8, t: (t0 + r) as u8 }, *tex_info) < VRAM_HALFWORDS);
                    assert(tc == (TexCoord { s: (s0 + c) as u8, t: (t0 + r) as u8 }));
                    lemma_texel_in_vram(self@.vram, self@.tex_window, tc, *tex_info);
                }
                let tex_color = self.tex_lookup(&tc, tex_info);
                if tex_color != 0 {
                    let addr = line_addr + (x as usize);
                    let frag_color = color.blend(&Color::from_rgb15(tex_color), !self.set_mask_bit);
                    let transparent = transparent && tex_color & 0x8000 != 0;
                    self.write_pixel(addr, &frag_color, transparent);
                }
                proof {
                    p = p + 1;
                }
                cur_s = cur_s + 1;
                x = x + 1;
            }
            proof {
                assert(p == (y + 1 - y_min) * cw) by (nonlinear_arith)
                    requires
                        p == (y - y_min) * cw + (x - x_min),
                        (x == x_max && cw == x_max - x_min) || (x == x_min && cw == 0);
            }
            cur_t = cur_t + 1;
            y = y + 1;
        }
        proof {
            if y_min < y_max {
                assert(p == cw * (y_max - y_min)) by (nonlinear_arith)
                    requires p == (y - y_min) * cw, y == y_max;
            }
        }
    }

    /// Draw one pixel of a triangle from its span state.
    fn draw_fragment(
        &mut self, line: &Line, addr: usize, fill: &TriangleFill, transparent: bool, Ghost(st): Ghost<RendererState>,
    )
        requires
            old(self).wf(),
            old(self)@ == (RendererState { vram: old(self)@.vram, ..st }),
            addr < VRAM_HALFWORDS,
            pixel_fits(st, *line, *fill),
        ensures
            final(self)@ == (RendererState {
                vram: tri_pixel(st, old(self)@.vram, addr as int, *line, *fill, transparent),
                ..st
            }),
            final(self)@.vram.len() == old(self)@.vram.len(),
    {
        match fill {
            TriangleFill::Shaded => {
                let color = line.get_color();
                self.write_pixel(addr, &color, transparent);
            },
            TriangleFill::Textured(tex_info) => {
                let tc = line.get_tex_coords();
                proof {
                    assert(texel_addr(self@.tex_window, tc, *tex_info) < VRAM_HALFWORDS);
                    lemma_texel_in_vram(self@.vram, self@.tex_window, tc, *tex_info);
                }
                let tex_color = self.tex_lookup(&tc, tex_info);
                if tex_color != 0 {
                    let color = line.get_color();
                    let frag_color = color.blend(&Color::from_rgb15(tex_color), !self.set_mask_bit);
                    let transparent = transparent && tex_color & 0x8000 != 0;
                    self.write_pixel(addr, &frag_color, transparent);
                }
            },
        }
    }

    /// Draw `count` pixels of a span from `addr` on, the span state
    /// advancing with each.
    fn draw_span(
        &mut self, line: Line, addr: usize, count: usize, fill: &TriangleFill, transparent: bool,
        Ghost(st): Ghost<RendererState>,
    )
        requires
            old(self).wf(),
            old(self)@ == (RendererState { vram: old(self)@.vram, ..st }),
            count > 0 ==> addr + count <= VRAM_HALFWORDS,
            forall|k: int| 0 <= k <= count ==> #[trigger] line_advance_fits(line, k),
            forall|k: int| 0 <= k < count ==> #[trigger] pixel_fits(st, line_advanced(line, k), *fill),
        ensures
            final(self)@ == (RendererState {
                vram: span_after(st, old(self)@.vram, addr as int, line, *fill, transparent, count as nat),
                ..st
            }),
            final(self)@.vram.len() == old(self)@.vram.len(),
    {
        let ghost s0 = st;
        let ghost v0 = self@.vram;
        let mut cur = line;
        proof {
            lemma_line_zero(line);
        }
        let mut k: usize = 0;
        while k < count
            invariant
                area_ok(s0.drawing_area, s0.draw_offset),
                count > 0 ==> addr + count <= VRAM_HALFWORDS,
                forall|k: int| 0 <= k <= count ==> #[trigger] line_advance_fits(line, k),
                forall|k: int| 0 <= k < count ==> #[trigger] pixel_fits(s0, line_advanced(line, k), *fill),
                k <= count,
                cur == line_advanced(line, k as int),
                self@ == (RendererState {
                    vram: span_after(s0, v0, addr as int, line, *fill, transparent, k as nat),
                    ..s0
                }),
                self@.vram.len() == VRAM_HALFWORDS,
            decreases count - k,
        {
            proof {
                assert(line_advance_fits(line, k as int));
                assert(line_advance_fits(line, k + 1));
                assert(pixel_fits(s0, line_advanced(line, k as int), *fill));
                lemma_line_step(line, k as int);
            }
            self.draw_fragment(&cur, addr + k, fill, transparent, Ghost(s0));
            cur.inc();
            k = k + 1;
        }
    }

    /// Draw the rows of a part of a triangle between two edges, from
    /// scanline `min_y` to the end of the upper edge, clipped to the drawing
    /// area.
    #[verifier::spinoff_prover]
    #[verifier::rlimit(40)]
    fn draw_lines(
        &mut self, min_y: i16, lines: &mut Lines, fill: &TriangleFill, transparent: bool,
        Ghost(st): Ghost<RendererState>,
    )
        requires
            old(self).wf(),
            old(self)@ == (RendererState { vram: old(self)@.vram, ..st }),
            part_fits(st, *old(lines), min_y as int, *fill),
        ensures
            final(self)@ == (RendererState {
                vram: part_after(st, old(self)@.vram, *old(lines), min_y as int, *fill, transparent),
                ..st
            }),
            final(self)@.vram.len() == old(self)@.vram.len(),
            final(lines).max_y == old(lines).max_y,
    {
        let ghost s0 = st;
        let ghost v0 = self@.vram;
        let ghost lines0 = *lines;
        let ghost (l0, r0, gy0, gy1) = part_start(s0, lines0, min_y as int);
        let ghost n = part_rows(s0, lines0, min_y as int);
        let base_y = min_y + self.draw_offset.y;
        if base_y < self.drawing_area.top {
            let skip = (self.drawing_area.top - base_y) as i32;
            lines.left.mul(skip);
            lines.right.mul(skip);
        } else {
            proof {
                lemma_line_zero(lines0.left);
                lemma_line_zero(lines0.right);
            }
        }
        let y_min = if base_y > self.drawing_area.top { base_y } else { self.drawing_area.top };
        let end = lines.max_y + self.draw_offset.y;
        let y_max = if end < self.drawing_area.bottom { end } else { self.drawing_area.bottom };
        let mut y = y_min;
        let ghost mut j: int = 0;
        while y < y_max
            invariant
                area_ok(s0.drawing_area, s0.draw_offset),
                part_fits(s0, lines0, min_y as int, *fill),
                (l0, r0, gy0, gy1) == part_start(s0, lines0, min_y as int),
                n == part_rows(s0, lines0, min_y as int),
                y_min == gy0,
                y_max == gy1,
                0 <= y_min,
                y_max <= 512,
                0 <= j,
                y == y_min + j,
                y_min <= y_max ==> y <= y_max,
                y_max < y_min ==> j == 0,
                lines.left == line_advanced(l0, j),
                lines.right == line_advanced(r0, j),
                lines.max_y == lines0.max_y,
                self@ == (RendererState {
                    vram: rows_after(s0, v0, l0, r0, gy0, *fill, transparent, j as nat),
                    ..s0
                }),
                self@.vram.len() == VRAM_HALFWORDS,
            decreases y_max - y,
        {
            proof {
                lemma_part_row(s0, lines0, min_y as int, *fill, j);
            }
            let ghost row = row_plan(s0, line_advanced(l0, j), line_advanced(r0, j), gy0 + j);
            let lx = lines.left.get_x();
            let rx = lines.right.get_x();
            let left = lx + self.draw_offset.x;
            let right = rx + self.draw_offset.x;
            let x_min = if left > self.drawing_area.left { left } else { self.drawing_area.left };
            let x_max = if right < self.drawing_area.right { right } else { self.drawing_area.right };
            if lx != rx {
                let line_addr = (y as usize) * 1024;
                let mut line = Line::from_lines(&lines.left, &lines.right, lx);
                if left < self.drawing_area.left {
                    line.mul((self.drawing_area.left - left) as i32);
                } else {
                    proof {
                        lemma_line_zero(line);
                    }
                }
                let count: usize = if x_min < x_max { (x_max - x_min) as usize } else { 0 };
                assert(line == row.span && count == row.count && line_addr + x_min == row.addr);
                self.draw_span(line, line_addr + (x_min as usize), count, fill, transparent, Ghost(s0));
            }
            proof {
                lemma_line_step(l0, j);
                lemma_line_step(r0, j);
            }
            lines.left.inc();
            lines.right.inc();
            y = y + 1;
            proof {
                j = j + 1;
            }
        }
    }

    /// Draw a triangle scanline by scanline: from its top to where its
    /// first edge ends, then on to its bottom.
    fn rasterize_triangle(&mut self, vertices: &[Vertex], fill: &TriangleFill, transparent: bool)
        requires
            old(self).wf(),
            triangle_fits(old(self)@, vertices@, *fill),
        ensures
            final(self)@ == (RendererState {
                vram: triangle_after(old(self)@, vertices@, *fill, transparent),
                ..old(self)@
            }),
            final(self)@.vram.len() == old(self)@.vram.len(),
    {
        let ghost s0 = settings(self@);
        let mut min_y = i16::MAX;
        let mut i: usize = 0;
        while i < vertices.len()
            invariant
                vertices@.len() == 3,
                i <= 3,
                i == 0 ==> min_y == i16::MAX,
                i == 1 ==> min_y == vertices@[0].coord.y,
                i == 2 ==> min_y == (if vertices@[1].coord.y < vertices@[0].coord.y {
                    vertices@[1].coord.y
                } else {
                    vertices@[0].coord.y
                }),
                i == 3 ==> min_y == tri_top(vertices@),
            decreases 3 - i,
        {
            let y = vertices[i].coord.y;
            if y < min_y || i == 0 {
                min_y = y;
            }
            i = i + 1;
        }
        match get_intersection_points(vertices, min_y) {
            None => {},
            Some(mut lines) => {
                let ghost first = lines;
                assert(part_fits(s0, first, min_y as int, *fill));
                self.draw_lines(min_y, &mut lines, fill, transparent, Ghost(s0));
                let min_y = lines.max_y;
                match get_intersection_points(vertices, min_y) {
                    None => {},
                    Some(mut lines) => {
                        self.draw_lines(min_y, &mut lines, fill, transparent, Ghost(s0));
                    },
                }
            },
        }
    }

    /// Draw a triangle shaded between the colours of its vertices.
    pub fn draw_triangle(&mut self, vertices: &[Vertex], transparent: bool)
        requires
            old(self).wf(),
            triangle_fits(old(self)@, vertices@, TriangleFill::Shaded),
        ensures
            final(self)@ == (RendererState {
                vram: triangle_after(old(self)@, vertices@, TriangleFill::Shaded, transparent),
                ..old(self)@
            }),
            final(self)@.vram.len() == old(self)@.vram.len(),
    {
        self.rasterize_triangle(vertices, &TriangleFill::Shaded, transparent);
    }

    /// Draw a textured triangle, the texture modulated by the colours of its
    /// vertices. Texels of 0 are not drawn; a texel is semi-transparent
    /// only when its mask bit is set.
    pub fn draw_triangle_tex(&mut self, vertices: &[Vertex], tex_info: &TexInfo, transparent: bool)
        requires
            old(self).wf(),
            triangle_fits(old(self)@, vertices@, TriangleFill::Textured(*tex_info)),
        ensures
            final(self)@ == (RendererState {
                vram: triangle_after(old(self)@, vertices@, TriangleFill::Textured(*tex_info), transparent),
                ..old(self)@
            }),
            final(self)@.vram.len() == old(self)@.vram.len(),
    {
        self.rasterize_triangle(vertices, &TriangleFill::Textured(*tex_info), transparent);
    }

    /// The colour of the texel at `tex_coords`, in VRAM form.
    pub fn tex_lookup(&self, tex_coords: &TexCoord, tex_info: &TexInfo) -> (r: u16)
        requires
            self.wf(),
            tex_info.s_base <= 960,
            tex_info.t_base <= 256,
            tex_info.palette_coord.x <= 0x3F0,
            tex_info.palette_coord.y <= 0x1FF,
            texel_in_vram(self@.vram, self@.tex_window, *tex_coords, *tex_info),
        ensures
            r == texel(self@.vram, self@.tex_window, *tex_coords, *tex_info),
    {
        let w = self.tex_window;
        let tex_s = (tex_coords.s & !w.mask_s) | (w.mask_s & w.offset_s);
        let tex_t = (tex_coords.t & !w.mask_t) | (w.mask_t & w.offset_t);
        let t = tex_t as usize + tex_info.t_base;
        match tex_info.tex_mode {
            TexMode::Palette4 => {
                let s = (tex_s as usize / 4) + tex_info.s_base;
                let tex_addr = t * 1024 + s;
                let data = self.vram[tex_addr];
                proof {
                    crate::utils::bits::lemma_masked_byte_fields(tex_s);
                }
                let palette_shift = (tex_s & 0x3) * 4;
                let palette_idx = ((data >> palette_shift) & 0xF) as usize;
                let palette_addr = tex_info.palette_coord.y * 1024 + tex_info.palette_coord.x + palette_idx;
                self.vram[palette_addr]
            },
            TexMode::Palette8 => {
                let s = (tex_s as usize / 2) + tex_info.s_base;
                let tex_addr = t * 1024 + s;
                let data = self.vram[tex_addr];
                proof {
                    crate::utils::bits::lemma_masked_byte_fields(tex_s);
                }
                let palette_shift = (tex_s & 0x1) * 8;
                let palette_idx = ((data >> palette_shift) & 0xFF) as usize;
                let palette_addr = tex_info.palette_coord.y * 1024 + tex_info.palette_coord.x + palette_idx;
                self.vram[palette_addr]
            },
            TexMode::Direct => {
                let s = tex_s as usize + tex_info.s_base;
                let tex_addr = t * 1024 + s;
                self.vram[tex_addr]
            },
        }
    }

    /// Fill rows of VRAM with a colour, ignoring the drawing area and the
    /// mask: row `y` is the run of `width` halfwords from `(x, top + y)`.
    pub fn fill_rectangle(&mut self, color: Color, top_left: Coord, size: Size)
        requires
            old(self).wf(),
            top_left.x >= 0,
            top_left.y >= 0,
            size.height > 0 ==> (top_left.y + size.height - 1) * 1024 + top_left.x + size.width <= VRAM_HALFWORDS,
        ensures
            filled(old(self)@, color, top_left, size, final(self)@),
            final(self)@ == (RendererState { vram: final(self)@.vram, ..old(self)@ }),
            final(self)@.vram.len() == old(self)@.vram.len(),
    {
        proof {
            reveal(filled);
        }
        let rgb15 = color.to_rgb15();
        let ghost base = top_left.y * 1024 + top_left.x;
        let ghost w = size.width as int;
        let mut y: u16 = 0;
        while y < size.height
            invariant
                0 <= y <= size.height,
                top_left.x >= 0,
                top_left.y >= 0,
                base == top_left.y * 1024 + top_left.x,
                w == size.width,
                size.height > 0 ==> (top_left.y + size.height - 1) * 1024 + top_left.x + size.width <= VRAM_HALFWORDS,
                rgb15 == color_rgb15(color),
                self@ == (RendererState { vram: self@.vram, ..old(self)@ }),
                self@.vram.len() == old(self)@.vram.len(),
                old(self)@.vram.len() == VRAM_HALFWORDS,
                forall|i: int| 0 <= i < old(self)@.vram.len() ==> #[trigger] self@.vram[i] == (
                    if in_fill(i, base, w, y as int) { rgb15 } else { old(self)@.vram[i] }),
            decreases size.height - y,
        {
            let dst_begin = (top_left.x as usize) + ((top_left.y + y as i16) as usize) * 1024;
            let dst_end = dst_begin + (size.width as usize);
            let ghost before = self@.vram;
            let mut a = dst_begin;
            while a < dst_end
                invariant
                    dst_begin <= a <= dst_end,
                    dst_begin == row_start(base, y as int),
                    dst_end == dst_begin + w,
                    dst_end <= VRAM_HALFWORDS,
                    self@ == (RendererState { vram: self@.vram, ..old(self)@ }),
                    self@.vram.len() == VRAM_HALFWORDS,
                    forall|i: int| 0 <= i < VRAM_HALFWORDS ==> #[trigger] self@.vram[i] == (
                        if dst_begin <= i < a { rgb15 } else { before[i] }),
                decreases dst_end - a,
            {
                self.vram.set(a, rgb15);
                a = a + 1;
            }
            assert forall|i: int| 0 <= i < old(self)@.vram.len() implies #[trigger] self@.vram[i] == (
                if in_fill(i, base, w, y + 1) { rgb15 } else { old(self)@.vram[i] }) by {
                if dst_begin <= i < dst_end {
                    assert(row_start(base, y as int) <= i < row_start(base, y as int) + w);
                } else if in_fill(i, base, w, y + 1) {
                    let yy = choose|yy: int| 0 <= yy < y + 1 && #[trigger] row_start(base, yy) <= i < row_start(base, yy) + w;
                    assert(yy < y);
                }
            }
            y = y + 1;
        }
    }

    /// Draw a rectangle of one colour, moved by the drawing offset and
    /// clipped to the drawing area.
    pub fn draw_rectangle(&mut self, color: Color, top_left: Coord, size: Size, transparent: bool)
        requires
            old(self).wf(),
            rect_fits(old(self)@, top_left, size),
        ensures
            rect_drawn(old(self)@, color, top_left, size, transparent, final(self)@),
            final(self)@ == (RendererState { vram: final(self)@.vram, ..old(self)@ }),
            final(self)@.vram.len() == old(self)@.vram.len(),
    {
        proof {
            reveal(rect_drawn);
        }
        let top = top_left.y + self.draw_offset.y;
        let bottom = top + size.height as i16;
        let left = top_left.x + self.draw_offset.x;
        let right = left + size.width as i16;
        let y_min = if top > self.drawing_area.top { top } else { self.drawing_area.top };
        let y_max = if bottom < self.drawing_area.bottom { bottom } else { self.drawing_area.bottom };
        let x_min = if left > self.drawing_area.left { left } else { self.drawing_area.left };
        let x_max = if right < self.drawing_area.right { right } else { self.drawing_area.right };
        let ghost s0 = old(self)@;
        let mut y = y_min;
        while y < y_max
            invariant
                renderer_ok(s0),
                (x_min as int, x_max as int, y_min as int, y_max as int) == clipped_rect(s0, top_left, size),
                0 <= y_min,
                y_max <= 512,
                0 <= x_min,
                x_max <= 1024,
                y_min <= y_max ==> y_min <= y <= y_max,
                y_max < y_min ==> y == y_min,
                self@ == (RendererState { vram: self@.vram, ..s0 }),
                self@.vram.len() == VRAM_HALFWORDS,
                forall|i: int| 0 <= i < VRAM_HALFWORDS ==> #[trigger] self@.vram[i] == (
                    if in_rect(i, x_min as int, x_max as int, y_min as int, y as int) {
                        shade(s0, s0.vram[i], color, transparent)
                    } else {
                        s0.vram[i]
                    }),
            decreases y_max - y,
        {
            let line_addr = (y as usize) * 1024;
            let ghost before = self@.vram;
            let mut x = x_min;
            while x < x_max
                invariant
                    renderer_ok(s0),
                    0 <= y_min <= y < y_max <= 512,
                    0 <= x_min,
                    x_max <= 1024,
                    x_min <= x_max ==> x_min <= x <= x_max,
                    x_max < x_min ==> x == x_min,
                    line_addr == y * 1024,
                    self@ == (RendererState { vram: self@.vram, ..s0 }),
                    self@.vram.len() == VRAM_HALFWORDS,
                    forall|i: int| 0 <= i < VRAM_HALFWORDS ==> #[trigger] self@.vram[i] == (
                        if line_addr + x_min <= i < line_addr + x { shade(s0, s0.vram[i], color, transparent) } else { before[i] }),
                    forall|i: int| 0 <= i < VRAM_HALFWORDS ==> #[trigger] before[i] == (
                        if in_rect(i, x_min as int, x_max as int, y_min as int, y as int) {
                            shade(s0, s0.vram[i], color, transparent)
                        } else {
                            s0.vram[i]
                        }),
                decreases x_max - x,
            {
                let addr = line_addr + (x as usize);
                proof {
                    assert(!in_rect(addr as int, x_min as int, x_max as int, y_min as int, y as int)) by {
                        assert((addr as int) / 1024 == y);
                    }
                }
                self.write_pixel(addr, &color, transparent);
                x = x + 1;
            }
            assert forall|i: int| 0 <= i < VRAM_HALFWORDS implies #[trigger] self@.vram[i] == (
                if in_rect(i, x_min as int, x_max as int, y_min as int, y + 1) {
                    shade(s0, s0.vram[i], color, transparent)
                } else {
                    s0.vram[i]
                }) by {
                assert(i == 1024 * (i / 1024) + i % 1024 && 0 <= i % 1024 < 1024);
                if i / 1024 == y {
                    assert(i % 1024 == i - line_addr);
                } else {
                    assert(!(line_addr + x_min <= i < line_addr + x));
                }
            }
            y = y + 1;
        }
    }
}

/// The VRAM index of the texel at `tc`.
fn texel_addr_exec(w: &TextureWindow, tc: TexCoord, ti: &TexInfo) -> (r: usize)
    requires
        ti.s_base <= 960,
        ti.t_base <= 256,
    ensures
        r == texel_addr(*w, tc, *ti),
{
    let ts = (tc.s & !w.mask_s) | (w.mask_s & w.offset_s);
    let t = ((tc.t & !w.mask_t) | (w.mask_t & w.offset_t)) as usize + ti.t_base;
    let s = match ti.tex_mode {
        TexMode::Palette4 => ts as usize / 4 + ti.s_base,
        TexMode::Palette8 => ts as usize / 2 + ti.s_base,
        TexMode::Direct => ts as usize + ti.s_base,
    };
    t * 1024 + s
}

/// Whether the texture page and palette of `ti` lie within VRAM.
pub fn tex_page_ok_check(w: &TextureWindow, ti: &TexInfo) -> (r: bool)
    ensures
        r == tex_page_ok(*w, *ti),
{
    if !(ti.s_base <= 960 && ti.t_base <= 256 && ti.palette_coord.x <= 0x3F0 && ti.palette_coord.y <= 0x1FF) {
        return false;
    }
    let pal_ok = match ti.tex_mode {
        TexMode::Palette4 => ti.palette_coord.y * 1024 + ti.palette_coord.x + 16 <= VRAM_HALFWORDS,
        TexMode::Palette8 => ti.palette_coord.y * 1024 + ti.palette_coord.x + 256 <= VRAM_HALFWORDS,
        TexMode::Direct => true,
    };
    if !pal_ok {
        return false;
    }
    let mut t: u16 = 0;
    while t < 256
        invariant
            t <= 256,
            ti.s_base <= 960,
            ti.t_base <= 256,
            forall|tc: TexCoord| tc.t < t ==> #[trigger] texel_addr(*w, tc, *ti) < VRAM_HALFWORDS,
        decreases 256 - t,
    {
        let mut c: u16 = 0;
        while c < 256
            invariant
                t < 256,
                c <= 256,
                ti.s_base <= 960,
                ti.t_base <= 256,
                forall|tc: TexCoord| tc.t < t ==> #[trigger] texel_addr(*w, tc, *ti) < VRAM_HALFWORDS,
                forall|tc: TexCoord| tc.t == t && tc.s < c ==> #[trigger] texel_addr(*w, tc, *ti) < VRAM_HALFWORDS,
            decreases 256 - c,
        {
            if texel_addr_exec(w, TexCoord { s: c as u8, t: t as u8 }, ti) >= VRAM_HALFWORDS {
                return false;
            }
            c = c + 1;
        }
        t = t + 1;
    }
    true
}

impl SoftwareRenderer {
    /// Whether a pixel of the span state `l` can be drawn with `fill`;
    /// `tex_ok` tells whether the texture page of a textured fill lies in VRAM.
    fn pixel_fits_check(&self, l: &Line, fill: &TriangleFill, tex_ok: bool) -> (r: bool)
        requires
            *fill matches TriangleFill::Textured(ti) ==> tex_ok == tex_page_ok(self@.tex_window, ti),
        ensures
            r == pixel_fits(settings(self@), *l, *fill),
    {
        if !(round_fits_check(l.r) && round_fits_check(l.g) && round_fits_check(l.b)) {
            return false;
        }
        match fill {
            TriangleFill::Shaded => true,
            TriangleFill::Textured(_) => round_fits_check(l.tex_s) && round_fits_check(l.tex_t) && tex_ok,
        }
    }

    /// Whether the arithmetic of a row between the edge states `l` and `r`
    /// fits.
    #[verifier::spinoff_prover]
    fn row_fits_check(&self, l: &Line, r: &Line, y: Ghost<int>, fill: &TriangleFill, tex_ok: bool) -> (res: bool)
        requires
            self.wf(),
            *fill matches TriangleFill::Textured(ti) ==> tex_ok == tex_page_ok(self@.tex_window, ti),
        ensures
            res == row_fits(settings(self@), *l, *r, y@, *fill),
    {
        let ghost st = settings(self@);
        if !round_fits_check(l.x) || !round_fits_check(r.x) {
            return false;
        }
        let lx = l.get_x();
        let rx = r.get_x();
        let left = lx as i64 + self.draw_offset.x as i64;
        let right = rx as i64 + self.draw_offset.x as i64;
        if !fits_i16_check(left) || !fits_i16_check(right) {
            return false;
        }
        if lx == rx {
            return true;
        }
        if !span_fits_check(l, r, lx) {
            return false;
        }
        let a = self.drawing_area;
        let mut span = Line::from_lines(l, r, lx);
        let ghost start = span;
        let clip: i64 = if left < a.left as i64 { a.left as i64 - left } else { 0 };
        if left < a.left as i64 {
            if !fits_i16_check(clip) || !line_advance_fits_check(&span, clip) {
                return false;
            }
            span.mul(clip as i32);
        } else {
            proof {
                lemma_line_zero(span);
            }
        }
        let x0 = if left > a.left as i64 { left } else { a.left as i64 };
        let x1 = if right < a.right as i64 { right } else { a.right as i64 };
        let count: i64 = if x0 < x1 { x1 - x0 } else { 0 };
        let ghost row = row_plan(st, *l, *r, y@);
        assert(span == row.span && count == row.count);
        let mut k: i64 = 0;
        while k <= count
            invariant
                0 <= k <= count + 1,
                count <= 0x10000,
                span == row.span && count == row.count,
                row == row_plan(st, *l, *r, y@),
                st == settings(self@),
                lx != rx && lx == round_fixed(l.x.val as int) && rx == round_fixed(r.x.val as int),
                forall|j: int| 0 <= j < k ==> #[trigger] line_advance_fits(span, j),
            decreases count + 1 - k,
        {
            if !line_advance_fits_check(&span, k) {
                return false;
            }
            k = k + 1;
        }
        let mut cur = span;
        proof {
            lemma_line_zero(span);
        }
        let mut k: i64 = 0;
        while k < count
            invariant
                0 <= k <= count,
                count <= 0x10000,
                span == row.span && count == row.count,
                row == row_plan(st, *l, *r, y@),
                lx != rx && lx == round_fixed(l.x.val as int) && rx == round_fixed(r.x.val as int),
                forall|j: int| 0 <= j <= count ==> #[trigger] line_advance_fits(span, j),
                cur == line_advanced(span, k as int),
                *fill matches TriangleFill::Textured(ti) ==> tex_ok == tex_page_ok(self@.tex_window, ti),
                forall|j: int| 0 <= j < k ==> #[trigger] pixel_fits(st, line_advanced(span, j), *fill),
                st == settings(self@),
            decreases count - k,
        {
            if !self.pixel_fits_check(&cur, fill, tex_ok) {
                return false;
            }
            proof {
                assert(line_advance_fits(span, k as int));
                assert(line_advance_fits(span, k + 1));
                lemma_line_step(span, k as int);
            }
            cur.inc();
            k = k + 1;
        }
        true
    }
}

impl SoftwareRenderer {
    /// Whether the arithmetic of a part of a triangle between `lines`, from
    /// scanline `min_y`, fits.
    #[verifier::spinoff_prover]
    #[verifier::rlimit(40)]
    fn part_fits_check(&self, lines: &Lines, min_y: i16, fill: &TriangleFill, tex_ok: bool) -> (res: bool)
        requires
            self.wf(),
            *fill matches TriangleFill::Textured(ti) ==> tex_ok == tex_page_ok(self@.tex_window, ti),
        ensures
            res == part_fits(settings(self@), *lines, min_y as int, *fill),
    {
        let ghost st = settings(self@);
        let ghost (gl, gr, gy0, gy1) = part_start(st, *lines, min_y as int);
        let ghost gn = part_rows(st, *lines, min_y as int);
        let base_y = min_y as i64 + self.draw_offset.y as i64;
        let end = lines.max_y as i64 + self.draw_offset.y as i64;
        if !fits_i16_check(base_y) || !fits_i16_check(end) {
            return false;
        }
        let a = self.drawing_area;
        let mut l = lines.left;
        let mut r = lines.right;
        if base_y < a.top as i64 {
            let skip = a.top as i64 - base_y;
            if !fits_i16_check(skip) || !line_advance_fits_check(&l, skip) || !line_advance_fits_check(&r, skip) {
                return false;
            }
            l.mul(skip as i32);
            r.mul(skip as i32);
        } else {
            proof {
                lemma_line_zero(l);
                lemma_line_zero(r);
            }
        }
        let y0 = if base_y > a.top as i64 { base_y } else { a.top as i64 };
        let y1 = if end < a.bottom as i64 { end } else { a.bottom as i64 };
        let n: i64 = if y0 < y1 { y1 - y0 } else { 0 };
        assert(l == gl && r == gr && y0 == gy0 && n == gn);
        let mut j: i64 = 0;
        while j <= n
            invariant
                0 <= j <= n + 1,
                n <= 0x10000,
                l == gl && r == gr && y0 == gy0 && n == gn,
                (gl, gr, gy0, gy1) == part_start(st, *lines, min_y as int),
                gn == part_rows(st, *lines, min_y as int),
                st == settings(self@),
                fits_i16(base_y as int) && fits_i16(end as int),
                base_y == min_y + self@.draw_offset.y,
                base_y < self@.drawing_area.top ==> fits_i16(self@.drawing_area.top - base_y)
                    && line_advance_fits(lines.left, self@.drawing_area.top - base_y)
                    && line_advance_fits(lines.right, self@.drawing_area.top - base_y),
                forall|k: int| #![trigger line_advance_fits(l, k)] 0 <= k < j ==> line_advance_fits(l, k) && line_advance_fits(r, k),
            decreases n + 1 - j,
        {
            if !line_advance_fits_check(&l, j) || !line_advance_fits_check(&r, j) {
                proof {
                    if part_fits(st, *lines, min_y as int, *fill) {
                        lemma_part_fits_steps(st, *lines, min_y as int, *fill, j as int);
                    }
                }
                return false;
            }
            j = j + 1;
        }
        let mut cl = l;
        let mut cr = r;
        proof {
            lemma_line_zero(l);
            lemma_line_zero(r);
        }
        let mut j: i64 = 0;
        while j < n
            invariant
                0 <= j <= n,
                n <= 0x10000,
                self.wf(),
                *fill matches TriangleFill::Textured(ti) ==> tex_ok == tex_page_ok(self@.tex_window, ti),
                l == gl && r == gr && y0 == gy0 && n == gn,
                (gl, gr, gy0, gy1) == part_start(st, *lines, min_y as int),
                gn == part_rows(st, *lines, min_y as int),
                st == settings(self@),
                fits_i16(base_y as int) && fits_i16(end as int),
                base_y == min_y + self@.draw_offset.y,
                base_y < self@.drawing_area.top ==> fits_i16(self@.drawing_area.top - base_y)
                    && line_advance_fits(lines.left, self@.drawing_area.top - base_y)
                    && line_advance_fits(lines.right, self@.drawing_area.top - base_y),
                forall|k: int| #![trigger line_advance_fits(l, k)] 0 <= k <= n ==> line_advance_fits(l, k) && line_advance_fits(r, k),
                cl == line_advanced(l, j as int),
                cr == line_advanced(r, j as int),
                forall|k: int| 0 <= k < j ==> #[trigger] row_fits(st, line_advanced(l, k), line_advanced(r, k), y0 + k, *fill),
            decreases n - j,
        {
            if !self.row_fits_check(&cl, &cr, Ghost(y0 + j), fill, tex_ok) {
                proof {
                    if part_fits(st, *lines, min_y as int, *fill) {
                        lemma_part_row(st, *lines, min_y as int, *fill, j as int);
                    }
                }
                return false;
            }
            proof {
                assert(line_advance_fits(l, j as int) && line_advance_fits(l, j + 1));
                assert(line_advance_fits(r, j as int) && line_advance_fits(r, j + 1));
                lemma_line_step(l, j as int);
                lemma_line_step(r, j as int);
            }
            cl.inc();
            cr.inc();
            j = j + 1;
        }
        proof {
            let ps = part_start(st, *lines, min_y as int);
            assert(ps.0 == l && ps.1 == r && ps.2 == y0);
            assert(forall|k: int| #![trigger line_advance_fits(ps.0, k)]
                0 <= k <= n ==> line_advance_fits(ps.0, k) && line_advance_fits(ps.1, k));
            assert(forall|k: int| 0 <= k < n ==>
                #[trigger] row_fits(st, line_advanced(ps.0, k), line_advanced(ps.1, k), ps.2 + k, *fill));
        }
        true
    }

    /// Whether the arithmetic of the triangle `vertices` drawn with `fill` fits.
    #[verifier::spinoff_prover]
    pub fn triangle_fits_check(&self, vertices: &[Vertex], fill: &TriangleFill) -> (res: bool)
        requires
            self.wf(),
        ensures
            res == triangle_fits(self@, vertices@, *fill),
    {
        if vertices.len() != 3 {
            return false;
        }
        let tex_ok = match fill {
            TriangleFill::Textured(ti) => tex_page_ok_check(&self.tex_window, ti),
            TriangleFill::Shaded => true,
        };
        let y0 = vertices[0].coord.y;
        let y1 = vertices[1].coord.y;
        let y2 = vertices[2].coord.y;
        let m = if y1 < y0 { y1 } else { y0 };
        let top = if y2 < m { y2 } else { m };
        assert(top == tri_top(vertices@));
        if !edges_fit_check(vertices, top) {
            return false;
        }
        match get_intersection_points(vertices, top) {
            None => true,
            Some(lines) => {
                if !self.part_fits_check(&lines, top, fill, tex_ok) {
                    return false;
                }
                let next = lines.max_y;
                if !edges_fit_check(vertices, next) {
                    return false;
                }
                match get_intersection_points(vertices, next) {
                    None => true,
                    Some(lines2) => self.part_fits_check(&lines2, next, fill, tex_ok),
                }
            },
        }
    }
}

impl SoftwareRenderer {
    /// Whether the picture is shown.
    pub fn enable_display_on(&self) -> (r: bool)
        ensures
            r == self@.enable_display,
    {
        self.enable_display
    }

    /// Whether a rectangle's edges, moved by the drawing offset, fit.
    pub fn rect_fits_check(&self, tl: Coord, size: Size) -> (r: bool)
        ensures
            r == rect_fits(self@, tl, size),
    {
        let top = tl.y as i64 + self.draw_offset.y as i64;
        let left = tl.x as i64 + self.draw_offset.x as i64;
        fits_i16_check(top) && fits_i16_check(left) && fits_i16_check(top + (size.height as i16) as i64)
            && fits_i16_check(left + (size.width as i16) as i64)
    }

    /// Whether a line's arithmetic fits.
    pub fn line_fits_check(&self, a: &Vertex, b: &Vertex) -> (r: bool)
        ensures
            r == line_fits(self@, *a, *b),
    {
        let ax = a.coord.x as i64;
        let ay = a.coord.y as i64;
        let bx = b.coord.x as i64;
        let by = b.coord.y as i64;
        let ox = self.draw_offset.x as i64;
        let oy = self.draw_offset.y as i64;
        fits_i16_check(ax - bx) && fits_i16_check(bx - ax) && fits_i16_check(ay - by) && fits_i16_check(by - ay)
            && fits_i16_check(ax + ox) && fits_i16_check(bx + ox) && fits_i16_check(ay + oy) && fits_i16_check(by + oy)
    }

    /// Whether a textured rectangle's arithmetic fits and every texel it
    /// reads lies within VRAM.
    #[verifier::spinoff_prover]
    pub fn tex_rect_fits_check(&self, tc: TexCoord, ti: &TexInfo, tl: Coord, size: Size) -> (r: bool)
        requires
            self.wf(),
        ensures
            r == tex_rect_fits(self@, tc, *ti, tl, size),
    {
        let ghost st = self@;
        if !self.rect_fits_check(tl, size) {
            return false;
        }
        let a = self.drawing_area;
        let top = tl.y as i64 + self.draw_offset.y as i64;
        let left = tl.x as i64 + self.draw_offset.x as i64;
        if left < a.left as i64 {
            if !fits_i16_check(a.left as i64 - left) || !fits_i16_check(tc.s as i64 + (a.left as i64 - left)) {
                return false;
            }
        }
        if top < a.top as i64 {
            if !fits_i16_check(a.top as i64 - top) || !fits_i16_check(tc.t as i64 + (a.top as i64 - top)) {
                return false;
            }
        }
        let bottom = top + (size.height as i16) as i64;
        let right = left + (size.width as i16) as i64;
        let x0 = if left > a.left as i64 { left } else { a.left as i64 };
        let x1 = if right < a.right as i64 { right } else { a.right as i64 };
        let y0 = if top > a.top as i64 { top } else { a.top as i64 };
        let y1 = if bottom < a.bottom as i64 { bottom } else { a.bottom as i64 };
        let s0: i64 = if left < a.left as i64 { ((tc.s as i64 + (a.left as i64 - left)) as u8) as i64 } else { tc.s as i64 };
        let t0: i64 = if top < a.top as i64 { ((tc.t as i64 + (a.top as i64 - top)) as u8) as i64 } else { tc.t as i64 };
        assert((x0 as int, x1 as int, y0 as int, y1 as int) == clipped_rect(st, tl, size));
        assert((s0 as int, t0 as int) == tex_start(st, tc, tl));
        if y0 < y1 && t0 + (y1 - y0) > 255 {
            return false;
        }
        if y0 < y1 && x0 < x1 && s0 + (x1 - x0) > 255 {
            return false;
        }
        if !(ti.s_base <= 960 && ti.t_base <= 256 && ti.palette_coord.x <= 0x3F0 && ti.palette_coord.y <= 0x1FF) {
            return false;
        }
        let pal_ok = match ti.tex_mode {
            TexMode::Palette4 => ti.palette_coord.y * 1024 + ti.palette_coord.x + 16 <= VRAM_HALFWORDS,
            TexMode::Palette8 => ti.palette_coord.y * 1024 + ti.palette_coord.x + 256 <= VRAM_HALFWORDS,
            TexMode::Direct => true,
        };
        if !pal_ok {
            return false;
        }
        let rows: i64 = if y0 < y1 { y1 - y0 } else { 0 };
        let cols: i64 = if x0 < x1 { x1 - x0 } else { 0 };
        let w = self.tex_window;
        proof {
            let (sx0, sx1, sy0, sy1) = clipped_rect(st, tl, size);
            let (ss0, st0) = tex_start(st, tc, tl);
            assert(sx0 == x0 && sx1 == x1 && sy0 == y0 && sy1 == y1 && ss0 == s0 && st0 == t0);
            assert(tex_info_ok(*ti));
            if tex_rect_fits(st, tc, *ti, tl, size) {
                assert forall|i: int, j: int| 0 <= i < rows && 0 <= j < cols implies
                    #[trigger] texel_addr(w, TexCoord { s: (s0 + j) as u8, t: (t0 + i) as u8 }, *ti) < VRAM_HALFWORDS by {
                    assert(0 <= i < sy1 - sy0 && 0 <= j < sx1 - sx0);
                    assert(texel_addr(st.tex_window, TexCoord { s: (ss0 + j) as u8, t: (st0 + i) as u8 }, *ti)
                        < VRAM_HALFWORDS);
                }
            }
            if forall|i: int, j: int| 0 <= i < rows && 0 <= j < cols ==>
                #[trigger] texel_addr(w, TexCoord { s: (s0 + j) as u8, t: (t0 + i) as u8 }, *ti) < VRAM_HALFWORDS {
                assert forall|i: int, j: int| 0 <= i < sy1 - sy0 && 0 <= j < sx1 - sx0 implies
                    #[trigger] texel_addr(st.tex_window, TexCoord { s: (ss0 + j) as u8, t: (st0 + i) as u8 }, *ti)
                        < VRAM_HALFWORDS by {
                    assert(0 <= i < rows && 0 <= j < cols);
                }
                assert(tex_rect_fits(st, tc, *ti, tl, size));
            }
        }
        let mut r: i64 = 0;
        while r < rows
            invariant
                st == self@,
                0 <= r <= rows,
                0 <= cols,
                (tex_rect_fits(st, tc, *ti, tl, size) <==> forall|i: int, j: int| 0 <= i < rows && 0 <= j < cols ==>
                    #[trigger] texel_addr(w, TexCoord { s: (s0 + j) as u8, t: (t0 + i) as u8 }, *ti) < VRAM_HALFWORDS),
                rows == y1 - y0 || (rows == 0 && y1 <= y0),
                cols == x1 - x0 || (cols == 0 && x1 <= x0),
                rows > 0 ==> t0 + rows <= 255,
                rows > 0 && cols > 0 ==> s0 + cols <= 255,
                0 <= s0 <= 255 && 0 <= t0 <= 255,
                ti.s_base <= 960 && ti.t_base <= 256,
                w == st.tex_window,
                forall|i: int, j: int| 0 <= i < r && 0 <= j < cols ==>
                    #[trigger] texel_addr(w, TexCoord { s: (s0 + j) as u8, t: (t0 + i) as u8 }, *ti) < VRAM_HALFWORDS,
            decreases rows - r,
        {
            let mut c: i64 = 0;
            while c < cols
                invariant
                    st == self@,
                    0 <= r < rows,
                    0 <= c <= cols,
                (tex_rect_fits(st, tc, *ti, tl, size) <==> forall|i: int, j: int| 0 <= i < rows && 0 <= j < cols ==>
                    #[trigger] texel_addr(w, TexCoord { s: (s0 + j) as u8, t: (t0 + i) as u8 }, *ti) < VRAM_HALFWORDS),

                    rows > 0 ==> t0 + rows <= 255,
                    rows > 0 && cols > 0 ==> s0 + cols <= 255,
                    0 <= s0 <= 255 && 0 <= t0 <= 255,
                    ti.s_base <= 960 && ti.t_base <= 256,
                    forall|i: int, j: int| 0 <= i < r && 0 <= j < cols ==>
                        #[trigger] texel_addr(w, TexCoord { s: (s0 + j) as u8, t: (t0 + i) as u8 }, *ti) < VRAM_HALFWORDS,
                    forall|j: int| 0 <= j < c ==>
                        #[trigger] texel_addr(w, TexCoord { s: (s0 + j) as u8, t: (t0 + r) as u8 }, *ti) < VRAM_HALFWORDS,
                decreases cols - c,
            {
                let tcoord = TexCoord { s: (s0 + c) as u8, t: (t0 + r) as u8 };
                if texel_addr_exec(&w, tcoord, ti) >= VRAM_HALFWORDS {
                    return false;
                }
                c = c + 1;
            }
            r = r + 1;
        }
        true
    }

    /// Whether the rows of the picture are read from within VRAM.
    pub fn frame_fits_check(&self, rgb24: bool, debug: bool) -> (r: bool)
        ensures
            r == frame_fits(self@, rgb24, debug),
    {
        let dh = self.display_height as u64;
        if self.interlace && dh * 2 > u16::MAX as u64 {
            return false;
        }
        if !(self.frame_pos.x >= 0 && self.frame_pos.y >= 0) {
            return false;
        }
        let w: u64 = if debug { 1024 } else { self.resolution.width as u64 };
        let h: u64 = if debug {
            512
        } else {
            let shown = if self.interlace { dh * 2 } else { dh };
            if (self.resolution.height as u64) <= shown { self.resolution.height as u64 } else { shown }
        };
        if h == 0 {
            return true;
        }
        let y = h - 1;
        let source: u64 = if debug {
            if rgb24 { y * 512 } else { y * 1024 }
        } else {
            self.frame_pos.x as u64 + (self.frame_pos.y as u64 + y) * 1024
        };
        let span: u64 = if rgb24 { 3 * (w / 2) } else { w };
        source + span <= VRAM_HALFWORDS as u64
    }

    /// The number of pixels of the picture: its width times its height.
    pub fn frame_pixels(&self, debug: bool) -> (r: u64)
        ensures
            r == frame_width(self@, debug) * frame_height(self@, debug),
            r <= 0x10000 * 0x20000,
    {
        let dh = self.display_height as u64;
        let w: u64 = if debug { 1024 } else { self.resolution.width as u64 };
        let h: u64 = if debug {
            512
        } else {
            let shown = if self.interlace { dh * 2 } else { dh };
            if (self.resolution.height as u64) <= shown { self.resolution.height as u64 } else { shown }
        };
        assert(w * h <= 0x10000 * 0x20000) by (nonlinear_arith)
            requires w <= 0x10000, h <= 0x20000;
        w * h
    }
}

} // verus!
