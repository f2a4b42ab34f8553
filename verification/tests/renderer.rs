use phase::gpu::renderer::software::SoftwareRenderer;
use phase::gpu::renderer::raster::{InterpolatedValue, InterpolatedColor, Line, get_intersection_points};
use phase::gpu::renderer::{
    Color, Coord, Size, Vertex, TexCoord, TexInfo, TexMode, PaletteCoord, TransparencyMode,
};
use phase::gpu::status::InterlaceState;
use phase::Frame;

fn renderer() -> SoftwareRenderer {
    let mut r = SoftwareRenderer::new();
    r.set_draw_area_top_left(0, 0);
    r.set_draw_area_bottom_right(1023, 511);
    r
}

fn read(r: &SoftwareRenderer, x: i16, y: i16, w: u16, h: u16) -> Vec<u16> {
    let mut out = vec![0u16; (w as usize) * (h as usize)];
    r.read_vram_block(&mut out, Coord { x, y }, Size { width: w, height: h });
    out
}

fn col(r: u8, g: u8, b: u8) -> Color {
    Color { r, g, b, mask: 0 }
}

fn vertex(x: i16, y: i16, c: Color) -> Vertex {
    Vertex { coord: Coord { x, y }, col: c, tex: TexCoord { s: 0, t: 0 } }
}

#[test]
fn color_conversions() {
    let c = Color::from_rgb15(0x8000 | 0x1F | (0x10 << 5) | (0x01 << 10));
    assert_eq!((c.r, c.g, c.b, c.mask), (0xFF, 0x84, 0x08, 0x8000));
    assert_eq!(c.to_rgb15(), 0x8000 | 0x1F | (0x10 << 5) | (0x01 << 10));
    let c = Color::from_rgb24(0x00_30_20_10);
    assert_eq!((c.r, c.g, c.b, c.mask), (0x10, 0x20, 0x30, 0));
    let d = Color::default();
    assert_eq!((d.r, d.g, d.b), (0x80, 0x80, 0x80));
    // 0x80 stands for one: blending with it keeps the colour.
    let t = col(0x40, 0xFF, 0x00);
    let b = d.blend(&t, true);
    assert_eq!((b.r, b.g, b.b), (0x40, 0xFF, 0x00));
    let b = col(0xFF, 0xFF, 0xFF).blend(&t, false);
    assert_eq!((b.r, b.g, b.b, b.mask), (0x7F, 0xFF, 0x00, 0x8000));
    let dd = col(0x05, 0x80, 0xFE).dither(-8);
    assert_eq!((dd.r, dd.g, dd.b), (0, 0x78, 0xF6));
    let dd = col(0x05, 0x80, 0xFE).dither(3);
    assert_eq!((dd.r, dd.g, dd.b), (0x08, 0x83, 0xFF));
}

#[test]
fn transparency_modes() {
    let a = col(100, 200, 10);
    let b = col(60, 100, 20);
    let m = TransparencyMode::Average.blend(&a, &b);
    assert_eq!((m.r, m.g, m.b), (80, 150, 15));
    let m = TransparencyMode::Add.blend(&a, &b);
    assert_eq!((m.r, m.g, m.b), (160, 255, 30));
    let m = TransparencyMode::Subtract.blend(&a, &b);
    assert_eq!((m.r, m.g, m.b), (40, 100, 0));
    let m = TransparencyMode::Combine.blend(&a, &b);
    assert_eq!((m.r, m.g, m.b), (115, 225, 15));
}

#[test]
fn fill_rectangle_ignores_area() {
    let mut r = SoftwareRenderer::new();
    r.fill_rectangle(col(0xF8, 0, 0), Coord { x: 2, y: 1 }, Size { width: 3, height: 2 });
    let v = read(&r, 0, 0, 6, 4);
    let red = 0x1F;
    assert_eq!(v, vec![
        0, 0, 0, 0, 0, 0,
        0, 0, red, red, red, 0,
        0, 0, red, red, red, 0,
        0, 0, 0, 0, 0, 0,
    ]);
}

#[test]
fn draw_rectangle_clipped_and_offset() {
    let mut r = SoftwareRenderer::new();
    r.set_draw_area_top_left(1, 1);
    r.set_draw_area_bottom_right(3, 2);
    r.set_draw_area_offset(1, 0);
    r.draw_rectangle(col(0, 0xF8, 0), Coord { x: -1, y: 0 }, Size { width: 4, height: 4 }, false);
    let v = read(&r, 0, 0, 5, 4);
    let g = 0x1F << 5;
    assert_eq!(v, vec![
        0, 0, 0, 0, 0,
        0, g, g, g, 0,
        0, g, g, g, 0,
        0, 0, 0, 0, 0,
    ]);
}

#[test]
fn draw_rectangle_transparent_and_masked() {
    let mut r = renderer();
    r.fill_rectangle(col(8, 0, 0), Coord { x: 0, y: 0 }, Size { width: 2, height: 1 });
    r.set_draw_mode(TransparencyMode::Add, false);
    r.draw_rectangle(col(16, 0, 0), Coord { x: 0, y: 0 }, Size { width: 1, height: 1 }, true);
    assert_eq!(read(&r, 0, 0, 2, 1), vec![3, 1]);
    // With mask checking, a pixel with its mask bit is kept.
    r.write_vram_block(&[0x8001], Coord { x: 5, y: 0 }, Size { width: 1, height: 1 });
    r.set_mask_settings(false, true);
    r.draw_rectangle(col(0xF8, 0xF8, 0xF8), Coord { x: 4, y: 0 }, Size { width: 2, height: 1 }, false);
    assert_eq!(read(&r, 4, 0, 2, 1), vec![0x7FFF, 0x8001]);
}

#[test]
fn vram_block_write_wraps_and_masks() {
    let mut r = renderer();
    r.set_mask_settings(true, false);
    r.write_vram_block(&[1, 2, 3, 4], Coord { x: 1023, y: 10 }, Size { width: 2, height: 2 });
    assert_eq!(read(&r, 1023, 10, 1, 2), vec![0x8001, 0x8003]);
    assert_eq!(read(&r, 0, 10, 1, 2), vec![0x8002, 0x8004]);
}

#[test]
fn vram_block_copy() {
    let mut r = renderer();
    r.write_vram_block(&[1, 2, 3, 4, 5, 6], Coord { x: 0, y: 0 }, Size { width: 3, height: 2 });
    r.copy_vram_block(Coord { x: 0, y: 0 }, Coord { x: 10, y: 5 }, Size { width: 3, height: 2 });
    assert_eq!(read(&r, 10, 5, 3, 2), vec![1, 2, 3, 4, 5, 6]);
    // Overlapping copy one pixel to the right: each pixel is read after the
    // one before it was written.
    r.copy_vram_block(Coord { x: 0, y: 0 }, Coord { x: 1, y: 0 }, Size { width: 3, height: 1 });
    assert_eq!(read(&r, 0, 0, 4, 1), vec![1, 1, 1, 1]);
}

#[test]
fn vram_block_copy_skips_masked_source() {
    let mut r = renderer();
    r.write_vram_block(&[0x8001, 2], Coord { x: 0, y: 0 }, Size { width: 2, height: 1 });
    r.set_mask_settings(false, true);
    r.copy_vram_block(Coord { x: 0, y: 0 }, Coord { x: 0, y: 1 }, Size { width: 2, height: 1 });
    assert_eq!(read(&r, 0, 1, 2, 1), vec![0, 2]);
}

#[test]
fn draw_line_x_major() {
    let mut r = renderer();
    let white = col(0xFF, 0xFF, 0xFF);
    r.draw_line(&vertex(0, 0, white), &vertex(4, 2, white), false);
    let v = read(&r, 0, 0, 6, 3);
    let w = 0x7FFF;
    assert_eq!(v, vec![
        w, w, 0, 0, 0, 0,
        0, 0, w, w, 0, 0,
        0, 0, 0, 0, w, 0,
    ]);
}

#[test]
fn draw_line_y_major_shaded() {
    let mut r = renderer();
    r.draw_line(&vertex(2, 0, col(0, 0, 0)), &vertex(2, 2, col(0xF8, 0, 0)), false);
    let v = read(&r, 2, 0, 1, 3);
    assert_eq!(v, vec![0, 0x0F, 0x1F]);
}

#[test]
fn draw_line_clipped() {
    let mut r = renderer();
    r.set_draw_area_bottom_right(2, 511);
    let white = col(0xFF, 0xFF, 0xFF);
    r.draw_line(&vertex(0, 0, white), &vertex(5, 0, white), false);
    assert_eq!(read(&r, 0, 0, 5, 1), vec![0x7FFF, 0x7FFF, 0x7FFF, 0, 0]);
}

#[test]
fn textured_rectangle_direct() {
    let mut r = renderer();
    // A 2 by 2 texture at the start of texture page (64, 0).
    r.write_vram_block(&[0x001F, 0, 0x03E0, 0x7C00], Coord { x: 64, y: 0 }, Size { width: 2, height: 2 });
    let info = TexInfo {
        s_base: 64,
        t_base: 0,
        tex_mode: TexMode::Direct,
        palette_coord: PaletteCoord { x: 0, y: 0 },
    };
    r.draw_rectangle_tex(Color::default(), TexCoord { s: 0, t: 0 }, &info, Coord { x: 0, y: 10 },
        Size { width: 2, height: 2 }, false);
    // Texel 0 is not drawn; the rest keep their colour, masked as the texel.
    assert_eq!(read(&r, 0, 10, 2, 2), vec![0x001F, 0, 0x03E0, 0x7C00]);
}

#[test]
fn textured_rectangle_palette4() {
    let mut r = renderer();
    // Palette at (0, 20): entry 1 red, entry 2 blue.
    r.write_vram_block(&[0, 0x001F, 0x7C00], Coord { x: 0, y: 20 }, Size { width: 3, height: 1 });
    // Texels 1, 2, 0, 1 in one halfword at (128, 0).
    r.write_vram_block(&[0x1021], Coord { x: 128, y: 0 }, Size { width: 1, height: 1 });
    let info = TexInfo {
        s_base: 128,
        t_base: 0,
        tex_mode: TexMode::Palette4,
        palette_coord: PaletteCoord { x: 0, y: 20 },
    };
    r.draw_rectangle_tex(Color::default(), TexCoord { s: 0, t: 0 }, &info, Coord { x: 0, y: 30 },
        Size { width: 4, height: 1 }, false);
    assert_eq!(read(&r, 0, 30, 4, 1), vec![0x001F, 0x7C00, 0, 0x001F]);
}

#[test]
fn frame_out_of_vram() {
    let mut r = renderer();
    r.write_vram_block(&[0x001F, 0x7C00], Coord { x: 0, y: 0 }, Size { width: 2, height: 1 });
    r.set_display_resolution(Size { width: 2, height: 1 }, false);
    r.set_display_range_y(0x10, 0x11);
    let mut frame = Frame::new();
    frame.resize((2, 1));
    r.get_frame(&mut frame, InterlaceState::Off, false, false);
    // The display is off: the frame is cleared.
    assert_eq!(frame.frame_buffer, vec![0; 8]);
    r.enable_display(true);
    r.get_frame(&mut frame, InterlaceState::Off, false, false);
    assert_eq!(frame.frame_buffer, vec![0xFF, 0, 0, 0, 0, 0, 0xFF, 0]);
    r.get_frame(&mut frame, InterlaceState::Off, true, false);
    assert_eq!(frame.frame_buffer, vec![0x1F, 0x00, 0x00, 0, 0x7C, 0, 0, 0]);
}

#[test]
fn interpolation_steps() {
    // From 10 to 20 over 4 steps, 2 steps in.
    let mut v = InterpolatedValue::new(0x10000 / 4, 10, 20, 2);
    assert_eq!(v.gradient, 0x10000 / 4 * 10);
    assert_eq!(v.val, 15 << 16);
    v.inc();
    assert_eq!(v.val, (17 << 16) + 0x8000);
    v.mul(-3);
    assert_eq!(v.val, 10 << 16);
    let s = InterpolatedValue::new_shifted(0x10000 / 2, 0, 8 << 16, 1);
    assert_eq!(s.gradient, 8 * 0x8000);
    assert_eq!(s.val, 8 * 0x8000);
}

#[test]
fn edges_of_a_triangle() {
    let white = col(0xFF, 0xFF, 0xFF);
    let tri = [vertex(0, 0, white), vertex(4, 4, white), vertex(0, 8, white)];
    let lines = get_intersection_points(&tri, 2).unwrap();
    assert_eq!(lines.max_y, 4);
    assert_eq!(lines.left.get_x(), 0);
    assert_eq!(lines.right.get_x(), 2);
    let lines = get_intersection_points(&tri, 4).unwrap();
    assert_eq!(lines.max_y, 8);
    assert_eq!(lines.right.get_x(), 4);
    assert!(get_intersection_points(&tri, 8).is_none());
    assert!(get_intersection_points(&tri, -1).is_none());
    let e = Line::from_vertices(&tri[0], &tri[1], 2);
    assert_eq!(e.get_x(), 2);
    let c = e.get_color();
    assert_eq!((c.r, c.g, c.b), (0xFF, 0xFF, 0xFF));
    let span = Line::from_lines(&Line::from_vertices(&tri[0], &tri[2], 2), &e, 1);
    assert_eq!(span.get_color().r, 0xFF);
}

#[test]
fn colour_ramp() {
    let mut c = InterpolatedColor::from_x_major(&vertex(0, 0, col(0, 0, 0)), &vertex(2, 0, col(200, 100, 50)));
    let c0 = c.get();
    assert_eq!((c0.r, c0.g, c0.b), (0, 0, 0));
    c.inc();
    let c1 = c.get();
    assert_eq!((c1.r, c1.g, c1.b), (100, 50, 25));
    c.inc();
    let c2 = c.get();
    assert_eq!((c2.r, c2.g, c2.b), (200, 100, 50));
    let flat = InterpolatedColor::from_y_major(&vertex(0, 3, col(7, 7, 7)), &vertex(0, 3, col(9, 9, 9)));
    assert_eq!(flat.get().r, 7);
}

#[test]
fn triangle_shaded_flat() {
    let mut r = renderer();
    let white = col(0xFF, 0xFF, 0xFF);
    r.draw_triangle(&[vertex(0, 0, white), vertex(4, 0, white), vertex(0, 4, white)], false);
    let w = 0x7FFF;
    assert_eq!(read(&r, 0, 0, 5, 5), vec![
        w, w, w, w, 0,
        w, w, w, 0, 0,
        w, w, 0, 0, 0,
        w, 0, 0, 0, 0,
        0, 0, 0, 0, 0,
    ]);
}

#[test]
fn triangle_textured() {
    let mut r = renderer();
    // A row of four direct texels at (64, 0).
    r.write_vram_block(&[0x001F, 0x03E0, 0x7C00, 0x7FFF], Coord { x: 64, y: 0 }, Size { width: 4, height: 1 });
    let info = TexInfo { s_base: 64, t_base: 0, tex_mode: TexMode::Direct, palette_coord: PaletteCoord { x: 0, y: 0 } };
    let n = Color::default();
    let v = |x: i16, y: i16, s: u8| Vertex { coord: Coord { x, y: y + 10 }, col: n, tex: TexCoord { s, t: 0 } };
    r.draw_triangle_tex(&[v(0, 0, 0), v(4, 0, 4), v(0, 2, 0)], &info, false);
    // The top row steps through the texels one by one.
    assert_eq!(read(&r, 0, 10, 4, 1), vec![0x001F, 0x03E0, 0x7C00, 0x7FFF]);
}
