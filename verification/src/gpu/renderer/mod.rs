//! What the GPU hands to its renderer, and the renderer's data types.

pub mod software;
pub mod raster;
pub mod commands;

use vstd::prelude::*;
use crate::gpu::status::{GPUStatus, InterlaceState};

verus! {

/// A command for the renderer.
#[derive(Debug)]
pub enum RendererCmd {
    /// A new frame has begun, and we want to capture the frame buffer.
    GetFrame(InterlaceState),

    // GP0 commands:
    GP0(GP0Command),
    GP0Data(u32),

    // GP1 commands:
    DisplayEnable(bool),
    DisplayVRAMOffset(u32),
    DisplayXRange(u32),
    DisplayYRange(u32),
    DisplayMode { h_res: usize, v_res: usize, interlace: bool, rgb24: bool },
    TexDisable(bool),
}

/// A drawing or setting command, with its parameter words.
#[derive(Debug)]
#[allow(inconsistent_fields)]
pub enum GP0Command {
    ClearCache,
    FillRectangle([u32; 3]),

    DrawTri { params: [u32; 4], transparent: bool },
    DrawTexTri { params: [u32; 6], transparent: bool },
    DrawTexBlendTri { params: [u32; 7], transparent: bool },
    DrawShadedTri { params: [u32; 6], transparent: bool },
    DrawTexShadedTri { params: [u32; 9], transparent: bool },

    DrawQuad { params: [u32; 5], transparent: bool },
    DrawTexQuad { params: [u32; 8], transparent: bool },
    DrawTexBlendQuad { params: [u32; 9], transparent: bool },
    DrawShadedQuad { params: [u32; 8], transparent: bool },
    DrawTexShadedQuad { params: [u32; 12], transparent: bool },

    DrawLine { params: [u32; 3], transparent: bool },
    DrawShadedLine { params: [u32; 4], transparent: bool },

    DrawRect { params: [u32; 3], transparent: bool },
    DrawTexRect { params: [u32; 3], transparent: bool },
    DrawTexBlendedRect { params: [u32; 4], transparent: bool },
    DrawFixedRect { params: [u32; 2], size: u16, transparent: bool },
    DrawTexFixedRect { params: [u32; 2], size: u16, transparent: bool },
    DrawTexBlendedFixedRect { params: [u32; 3], size: u16, transparent: bool },

    BlitVRAMtoVRAM { params: [u32; 3] },
    BlitCPUtoVRAM { params: [u32; 2] },
    BlitVRAMtoCPU { params: [u32; 2] },

    DrawMode(GPUStatus),
    TexWindow(u32),
    DrawAreaTopLeft(u32),
    DrawAreaBottomRight(u32),
    DrawOffset(u32),
    MaskBit { set_mask: bool, check_mask: bool },
}

/// A position in VRAM or on screen.
#[derive(Clone, Copy, PartialEq, Eq, Structural, Debug)]
pub struct Coord {
    pub x: i16,
    pub y: i16,
}

impl Coord {
    /// X from the low halfword, Y from the high one.
    pub fn from_xy(xy: u32) -> (r: Self)
        ensures
            r.x == (xy & 0xFFFF) as i16,
            r.y == ((xy >> 16) & 0xFFFF) as i16,
    {
        Self { x: (xy & 0xFFFF) as i16, y: ((xy >> 16) & 0xFFFF) as i16 }
    }

    /// Wrap the coordinates into VRAM (1024 by 512).
    pub fn copy_clip(self) -> (r: Self)
        ensures
            r.x == self.x & 0x3FF,
            r.y == self.y & 0x1FF,
            0 <= r.x <= 0x3FF,
            0 <= r.y <= 0x1FF,
    {
        proof {
            crate::utils::bits::lemma_i16_clip(self.x);
            crate::utils::bits::lemma_i16_clip(self.y);
        }
        Self { x: self.x & 0x3FF, y: self.y & 0x1FF }
    }

    /// The halfword index of this position in VRAM.
    pub fn get_vram_idx(&self) -> (r: usize)
        requires
            self.x >= 0,
            self.y >= 0,
        ensures
            r == self.x + self.y * 1024,
    {
        (self.x as usize) + (self.y as usize) * 1024
    }
}

/// The size of a rectangle, in pixels.
#[derive(Clone, Copy, PartialEq, Eq, Structural, Debug)]
pub struct Size {
    pub width: u16,
    pub height: u16,
}

/// The width of a copy: `w - 1` wrapped to 10 bits, plus one (1 to 1024).
pub open spec fn clip_width(w: u16) -> u16 {
    ((((w as int - 1) % 0x10000) as u16 & 0x3FF) + 1) as u16
}

/// The height of a copy: `h - 1` wrapped to 9 bits, plus one (1 to 512).
pub open spec fn clip_height(h: u16) -> u16 {
    ((((h as int - 1) % 0x10000) as u16 & 0x1FF) + 1) as u16
}

/// The number of 32-bit words that hold `width * height` pixels of 2 bytes.
pub open spec fn words_for(width: u16, height: u16) -> int {
    (width * height + 1) / 2
}

impl Size {
    /// Width from the low halfword, height from the high one.
    pub fn from_xy(xy: u32) -> (r: Self)
        ensures
            r.width == (xy & 0xFFFF) as u16,
            r.height == ((xy >> 16) & 0xFFFF) as u16,
    {
        Self { width: (xy & 0xFFFF) as u16, height: ((xy >> 16) & 0xFFFF) as u16 }
    }

    /// The size of a copy: the width wraps to 1..=1024 and the height to 1..=512.
    pub fn copy_clip(self) -> (r: Self)
        ensures
            r.width == clip_width(self.width),
            r.height == clip_height(self.height),
            1 <= r.width <= 1024,
            1 <= r.height <= 512,
    {
        let w = self.width.wrapping_sub(1);
        let h = self.height.wrapping_sub(1);
        proof {
            crate::utils::bits::lemma_u16_low_bits(w);
            crate::utils::bits::lemma_u16_low_bits(h);
        }
        Self { width: (w & 0x3FF) + 1, height: (h & 0x1FF) + 1 }
    }

    /// The number of 32-bit words needed to hold this data; each pixel is 2 bytes.
    pub fn word_count(&self) -> (r: u32)
        ensures
            r == words_for(self.width, self.height),
    {
        proof {
            assert(self.width * self.height <= 0xFFFF * 0xFFFF) by (nonlinear_arith)
                requires self.width <= 0xFFFF, self.height <= 0xFFFF;
        }
        ((self.width as u32) * (self.height as u32) + 1) / 2
    }
}

/// A colour: 8 bits per channel, and the mask bit (bit 15) as stored in VRAM.
#[derive(Clone, Copy, PartialEq, Eq, Structural, Debug)]
pub struct Color {
    pub r: u8,
    pub g: u8,
    pub b: u8,
    pub mask: u16,
}

/// The colour of a VRAM halfword.
pub open spec fn rgb15_color(rgb: u16) -> Color {
    Color {
        r: widen5((rgb & 0x1F) as int) as u8,
        g: widen5(((rgb >> 5) & 0x1F) as int) as u8,
        b: widen5(((rgb >> 10) & 0x1F) as int) as u8,
        mask: rgb & 0x8000,
    }
}

/// The VRAM halfword of a colour.
pub open spec fn color_rgb15(c: Color) -> u16 {
    c.mask | ((c.r >> 3) as u16) | (((c.g >> 3) as u16) << 5) | (((c.b >> 3) as u16) << 10)
}

/// A 5-bit channel widened to 8 bits: shifted up, with its top bits repeated below.
pub open spec fn widen5(c: int) -> int {
    c * 8 + c / 4
}

/// The saturated product of two channels, 0x80 standing for 1.
pub open spec fn modulate(a: u8, b: u8) -> u8 {
    let p = (a * b) / 128;
    if p > 0xFF { 0xFF } else { p as u8 }
}

/// A channel plus a dither offset, clamped to a byte.
pub open spec fn dither_channel(c: u8, d: i8) -> u8 {
    let v = c + d;
    if v < 0 { 0 } else if v > 0xFF { 0xFF } else { v as u8 }
}

/// The 5-bit fields of a 15-bit colour.
proof fn lemma_rgb15_fields(rgb: u16)
    by (bit_vector)
    ensures
        rgb & 0x1F <= 31,
        (rgb >> 5) & 0x1F <= 31,
        (rgb >> 10) & 0x1F <= 31,
        rgb & 0x8000 == 0 || rgb & 0x8000 == 0x8000,
{
}

/// Widening a 5-bit channel: the shift and the repeated bits do not overlap.
proof fn lemma_widen(c: u8)
    by (bit_vector)
    requires
        c <= 31,
    ensures
        ((c << 3) | (c >> 2)) == c * 8 + c / 4,
{
}

/// Widen a 5-bit channel to 8 bits.
fn widen_channel(c: u8) -> (r: u8)
    requires
        c <= 31,
    ensures
        r == widen5(c as int),
{
    proof {
        lemma_widen(c);
    }
    (c << 3) | (c >> 2)
}

impl Default for Color {
    /// The neutral colour for blending: 0x80 in each channel.
    fn default() -> (r: Self)
        ensures
            r == (Color { r: 0x80, g: 0x80, b: 0x80, mask: 0 }),
    {
        Self { r: 0x80, g: 0x80, b: 0x80, mask: 0 }
    }
}

impl Color {
    /// A colour from its VRAM form: 5 bits each of red, green and blue, and the mask bit.
    pub fn from_rgb15(rgb: u16) -> (r: Self)
        ensures
            r.r == widen5((rgb & 0x1F) as int),
            r.g == widen5(((rgb >> 5) & 0x1F) as int),
            r.b == widen5(((rgb >> 10) & 0x1F) as int),
            r.mask == rgb & 0x8000,
            r == rgb15_color(rgb),
    {
        proof {
            lemma_rgb15_fields(rgb);
        }
        let r = (rgb & 0x1F) as u8;
        let g = ((rgb >> 5) & 0x1F) as u8;
        let b = ((rgb >> 10) & 0x1F) as u8;
        let mask = rgb & 0x8000;
        Self { r: widen_channel(r), g: widen_channel(g), b: widen_channel(b), mask }
    }

    /// A colour from a command word: red in the low byte, then green and blue.
    pub fn from_rgb24(rgb: u32) -> (r: Self)
        ensures
            r.r == (rgb & 0xFF) as u8,
            r.g == ((rgb >> 8) & 0xFF) as u8,
            r.b == ((rgb >> 16) & 0xFF) as u8,
            r.mask == 0,
    {
        Self { r: (rgb & 0xFF) as u8, g: ((rgb >> 8) & 0xFF) as u8, b: ((rgb >> 16) & 0xFF) as u8, mask: 0 }
    }

    /// The VRAM form: the top 5 bits of each channel, and the mask.
    pub fn to_rgb15(&self) -> (r: u16)
        ensures
            r == color_rgb15(*self),
    {
        let r = (self.r >> 3) as u16;
        let g = (self.g >> 3) as u16;
        let b = (self.b >> 3) as u16;
        self.mask | r | (g << 5) | (b << 10)
    }

    /// Blend a colour with another, usually a texture colour: each channel
    /// is the saturated product, 0x80 standing for 1. The mask is that of
    /// `other` when `use_other_mask`, else set.
    pub fn blend(&self, other: &Color, use_other_mask: bool) -> (r: Color)
        ensures
            r.r == modulate(self.r, other.r),
            r.g == modulate(self.g, other.g),
            r.b == modulate(self.b, other.b),
            r.mask == (if use_other_mask { other.mask } else { 0x8000 }),
    {
        Color {
            r: modulate_exec(self.r, other.r),
            g: modulate_exec(self.g, other.g),
            b: modulate_exec(self.b, other.b),
            mask: if use_other_mask { other.mask } else { 0x8000 },
        }
    }

    /// Add a dither offset to each channel, clamped.
    pub fn dither(&self, dither_val: i8) -> (r: Color)
        ensures
            r.r == dither_channel(self.r, dither_val),
            r.g == dither_channel(self.g, dither_val),
            r.b == dither_channel(self.b, dither_val),
            r.mask == self.mask,
    {
        Color {
            r: dither_exec(self.r, dither_val),
            g: dither_exec(self.g, dither_val),
            b: dither_exec(self.b, dither_val),
            mask: self.mask,
        }
    }
}

fn modulate_exec(a: u8, b: u8) -> (r: u8)
    ensures
        r == modulate(a, b),
{
    proof {
        assert(a * b <= 255 * 255) by (nonlinear_arith)
            requires a <= 255, b <= 255;
    }
    let prod = (a as u16) * (b as u16);
    proof {
        crate::utils::bits::lemma_u16_shr7(prod);
    }
    let p = prod >> 7;
    if p > 0xFF { 0xFF } else { p as u8 }
}

fn dither_exec(c: u8, d: i8) -> (r: u8)
    ensures
        r == dither_channel(c, d),
{
    let v = c as i16 + d as i16;
    if v < 0 { 0 } else if v > 0xFF { 0xFF } else { v as u8 }
}

/// A texture coordinate.
#[derive(Clone, Copy, PartialEq, Eq, Structural, Debug)]
pub struct TexCoord {
    pub s: u8,
    pub t: u8,
}

impl TexCoord {
    /// S from the low byte, T from the high one.
    pub fn from_16(coords: u16) -> (r: Self)
        ensures
            r.s == (coords & 0xFF) as u8,
            r.t == ((coords >> 8) & 0xFF) as u8,
    {
        Self { s: (coords & 0xFF) as u8, t: ((coords >> 8) & 0xFF) as u8 }
    }
}

/// A vertex: its position, colour and texture coordinate.
#[derive(Clone, Copy, PartialEq, Eq, Structural, Debug)]
pub struct Vertex {
    pub coord: Coord,
    pub col: Color,
    pub tex: TexCoord,
}

impl Vertex {
    /// A vertex at the position in `xy`, in the neutral colour.
    pub fn from_xy(xy: u32) -> (r: Self)
        ensures
            r.coord.x == (xy & 0xFFFF) as i16,
            r.coord.y == ((xy >> 16) & 0xFFFF) as i16,
            r.col == (Color { r: 0x80, g: 0x80, b: 0x80, mask: 0 }),
            r.tex == (TexCoord { s: 0, t: 0 }),
    {
        Self { coord: Coord::from_xy(xy), col: Color::default(), tex: TexCoord { s: 0, t: 0 } }
    }

    /// The vertex with the colour of a command word.
    pub fn set_col(self, rgb: u32) -> (r: Self)
        ensures
            r.coord == self.coord && r.tex == self.tex,
            r.col.r == (rgb & 0xFF) as u8,
            r.col.g == ((rgb >> 8) & 0xFF) as u8,
            r.col.b == ((rgb >> 16) & 0xFF) as u8,
            r.col.mask == 0,
    {
        Vertex { col: Color::from_rgb24(rgb), ..self }
    }

    /// The vertex with the texture coordinate in the low halfword of `tex`.
    pub fn set_tex(self, tex: u32) -> (r: Self)
        ensures
            r.coord == self.coord && r.col == self.col,
            r.tex.s == (tex & 0xFF) as u8,
            r.tex.t == ((tex >> 8) & 0xFF) as u8,
    {
        let t = TexCoord::from_16(tex as u16);
        proof {
            crate::utils::bits::lemma_low_halfword(tex);
        }
        Vertex { tex: t, ..self }
    }
}

/// Where a palette stands in VRAM.
#[derive(Clone, Copy, PartialEq, Eq, Structural, Debug)]
pub struct PaletteCoord {
    pub x: usize,
    pub y: usize,
}

impl PaletteCoord {
    /// From the high halfword of a command word: X in units of 16 (bits
    /// 0-5), Y in lines (bits 6-14).
    pub fn from_data(data: u32) -> (r: Self)
        ensures
            r.x == ((data >> 16) & 0x3F) * 16,
            r.y == ((data >> 16) >> 6) & 0x1FF,
            r.x <= 0x3F0,
            r.y <= 0x1FF,
    {
        let palette = (data >> 16) as usize;
        proof {
            crate::utils::bits::lemma_palette_fields(data);
        }
        Self { x: (palette & 0x3F) * 16, y: (palette >> 6) & 0x1FF }
    }
}

/// How texels are stored.
#[derive(Clone, Copy, PartialEq, Eq, Structural, Debug)]
pub enum TexMode {
    /// 4 bpp with palette
    Palette4,
    /// 8 bpp with palette
    Palette8,
    /// RGB-15
    Direct,
}

/// The texture page and palette of a textured drawing.
#[derive(Clone, Copy, PartialEq, Eq, Structural, Debug)]
pub struct TexInfo {
    pub s_base: usize,
    pub t_base: usize,
    pub tex_mode: TexMode,
    pub palette_coord: PaletteCoord,
}

/// The texel storage selected by bits 7 and 8 of a draw mode.
pub open spec fn tex_mode_of(draw_mode: u16) -> TexMode {
    let m = (draw_mode >> 7) & 0x3;
    if m == 0 { TexMode::Palette4 } else if m == 1 { TexMode::Palette8 } else { TexMode::Direct }
}

impl TexInfo {
    /// From the first two texture words of a textured drawing: the palette
    /// in the first, the draw mode in the high halfword of the second.
    pub fn from_data(texcoord_1: u32, texcoord_2: u32) -> (r: Self)
        ensures
            r.palette_coord.x == ((texcoord_1 >> 16) & 0x3F) * 16,
            r.palette_coord.y == ((texcoord_1 >> 16) >> 6) & 0x1FF,
            r.tex_mode == tex_mode_of((texcoord_2 >> 16) as u16),
            r.s_base == (((texcoord_2 >> 16) as u16 & 0x0F) as usize) * 64,
            r.t_base == (((texcoord_2 >> 16) as u16 & 0x10) as usize) * 16,
    {
        let palette = PaletteCoord::from_data(texcoord_1);
        let draw_mode = (texcoord_2 >> 16) as u16;
        Self::from_draw_mode(draw_mode, palette)
    }

    /// From a draw mode: the texture page X in units of 64 (bits 0-3), Y in
    /// units of 256 (bit 4), and the texel storage (bits 7, 8).
    pub fn from_draw_mode(draw_mode: u16, palette: PaletteCoord) -> (r: Self)
        ensures
            r.palette_coord == palette,
            r.tex_mode == tex_mode_of(draw_mode),
            r.s_base == ((draw_mode & 0x0F) as usize) * 64,
            r.t_base == ((draw_mode & 0x10) as usize) * 16,
            r.s_base <= 960,
            r.t_base <= 256,
    {
        let m = (draw_mode >> 7) & 0x3;
        let tex_mode = if m == 0 { TexMode::Palette4 } else if m == 1 { TexMode::Palette8 } else { TexMode::Direct };
        proof {
            crate::utils::bits::lemma_u16_low_bits(draw_mode);
            crate::utils::bits::lemma_draw_mode_fields(draw_mode);
        }
        let s = (draw_mode & 0x0F) as usize;
        let t = (draw_mode & 0x10) as usize;
        Self { s_base: s * 64, t_base: t * 16, tex_mode, palette_coord: palette }
    }
}

/// How a semi-transparent pixel mixes with the one below.
#[derive(Clone, Copy, PartialEq, Eq, Structural, Debug)]
pub enum TransparencyMode {
    /// Base / 2 + Frag / 2
    Average,
    /// Base + Frag
    Add,
    /// Base - Frag
    Subtract,
    /// Base + (Frag / 4)
    Combine,
}

/// The mix of `b` (drawn) into `a` (below) in mode `m`.
pub open spec fn mix(m: TransparencyMode, a: Color, b: Color) -> Color {
    Color { r: mix_channel(m, a.r, b.r), g: mix_channel(m, a.g, b.g), b: mix_channel(m, a.b, b.b), mask: a.mask }
}

/// A channel of the mix of `a` (below) and `b` (drawn) in mode `m`.
pub open spec fn mix_channel(m: TransparencyMode, a: u8, b: u8) -> u8 {
    match m {
        TransparencyMode::Average => (a / 2 + b / 2) as u8,
        TransparencyMode::Add => if a + b > 0xFF { 0xFF } else { (a + b) as u8 },
        TransparencyMode::Subtract => if a < b { 0 } else { (a - b) as u8 },
        TransparencyMode::Combine => if a + b / 4 > 0xFF { 0xFF } else { (a + b / 4) as u8 },
    }
}

fn mix_channel_exec(m: TransparencyMode, a: u8, b: u8) -> (r: u8)
    ensures
        r == mix_channel(m, a, b),
{
    proof {
        crate::utils::bits::lemma_masked_byte_fields(a);
        crate::utils::bits::lemma_masked_byte_fields(b);
    }
    match m {
        TransparencyMode::Average => (a >> 1) + (b >> 1),
        TransparencyMode::Add => if a as u16 + b as u16 > 0xFF { 0xFF } else { a + b },
        TransparencyMode::Subtract => if a < b { 0 } else { a - b },
        TransparencyMode::Combine => if a as u16 + (b >> 2) as u16 > 0xFF { 0xFF } else { a + (b >> 2) },
    }
}

impl TransparencyMode {
    /// Mix `b` (drawn) into `a` (below); the mask stays that of `a`.
    pub fn blend(&self, a: &Color, b: &Color) -> (r: Color)
        ensures
            r.r == mix_channel(*self, a.r, b.r),
            r.g == mix_channel(*self, a.g, b.g),
            r.b == mix_channel(*self, a.b, b.b),
            r.mask == a.mask,
            r == mix(*self, *a, *b),
    {
        Color {
            r: mix_channel_exec(*self, a.r, b.r),
            g: mix_channel_exec(*self, a.g, b.g),
            b: mix_channel_exec(*self, a.b, b.b),
            mask: a.mask,
        }
    }
}

} // verus!
