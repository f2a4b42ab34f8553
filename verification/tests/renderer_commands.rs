use phase::gpu::renderer::commands::{Renderer, RendererOutput};
use phase::gpu::renderer::{RendererCmd, GP0Command};
use phase::gpu::status::{GPUStatus, InterlaceState};
use phase::Frame;

fn gp0(r: &mut Renderer, frame: &mut Frame, c: GP0Command) -> RendererOutput {
    r.handle_command(RendererCmd::GP0(c), frame)
}

fn setup() -> (Renderer, Frame) {
    let mut r = Renderer::new();
    let mut f = Frame::new();
    gp0(&mut r, &mut f, GP0Command::DrawAreaTopLeft(0));
    gp0(&mut r, &mut f, GP0Command::DrawAreaBottomRight(0x3FF | (0x1FF << 10)));
    (r, f)
}

fn read_back(r: &mut Renderer, f: &mut Frame, xy: u32, size: u32) -> Vec<u32> {
    match gp0(r, f, GP0Command::BlitVRAMtoCPU { params: [xy, size] }) {
        RendererOutput::VramData(words) => words,
        _ => panic!("expected words"),
    }
}

#[test]
fn renderer_fill_and_read_back() {
    let (mut r, mut f) = setup();
    assert!(matches!(gp0(&mut r, &mut f, GP0Command::FillRectangle([0x0000FF, 0, 0x0002_0002])), RendererOutput::Done));
    assert_eq!(read_back(&mut r, &mut f, 0, 0x0001_0003), vec![0x001F_001F, 0]);
    assert_eq!(read_back(&mut r, &mut f, 0x0001_0000, 0x0001_0002), vec![0x001F_001F]);
}

#[test]
fn renderer_cpu_to_vram() {
    let (mut r, mut f) = setup();
    gp0(&mut r, &mut f, GP0Command::BlitCPUtoVRAM { params: [0x0000_000A, 0x0002_0002] });
    // Commands in between are carried out.
    gp0(&mut r, &mut f, GP0Command::MaskBit { set_mask: false, check_mask: false });
    assert!(matches!(r.handle_command(RendererCmd::GP0Data(0xBBBB_AAAA), &mut f), RendererOutput::Done));
    assert!(matches!(r.handle_command(RendererCmd::GP0Data(0xDDDD_CCCC), &mut f), RendererOutput::Done));
    assert_eq!(read_back(&mut r, &mut f, 0x0000_000A, 0x0002_0002), vec![0xBBBB_AAAA, 0xDDDD_CCCC]);
    // With no copy waiting, a data word is handed back.
    assert!(matches!(r.handle_command(RendererCmd::GP0Data(7), &mut f), RendererOutput::Data(7)));
}

#[test]
fn renderer_vram_to_vram() {
    let (mut r, mut f) = setup();
    gp0(&mut r, &mut f, GP0Command::FillRectangle([0x00FF00, 0, 0x0001_0001]));
    gp0(&mut r, &mut f, GP0Command::BlitVRAMtoVRAM { params: [0, 0x0005_0005, 0x0001_0001] });
    assert_eq!(read_back(&mut r, &mut f, 0x0005_0005, 0x0001_0002), vec![0x0000_03E0]);
}

#[test]
fn renderer_draw_offset_is_signed() {
    let (mut r, mut f) = setup();
    // X offset -1, Y offset 0.
    gp0(&mut r, &mut f, GP0Command::DrawOffset(0x7FF));
    gp0(&mut r, &mut f, GP0Command::DrawRect { params: [0xFF0000, 0x0005_0001, 0x0001_0001], transparent: false });
    assert_eq!(read_back(&mut r, &mut f, 0x0005_0000, 0x0001_0002), vec![0x0000_7C00]);
}

#[test]
fn renderer_triangle_and_line() {
    let (mut r, mut f) = setup();
    gp0(&mut r, &mut f, GP0Command::DrawTri {
        params: [0xFFFFFF, 0x0000_0000, 0x0000_0004, 0x0004_0000],
        transparent: false,
    });
    assert_eq!(read_back(&mut r, &mut f, 0, 0x0001_0004), vec![0x7FFF_7FFF, 0x7FFF_7FFF]);
    assert_eq!(read_back(&mut r, &mut f, 0x0003_0000, 0x0001_0002), vec![0x0000_7FFF]);
    gp0(&mut r, &mut f, GP0Command::DrawLine { params: [0x0000FF, 0x0010_0000, 0x0010_0003], transparent: false });
    assert_eq!(read_back(&mut r, &mut f, 0x0010_0000, 0x0001_0004), vec![0x001F_001F, 0x001F_001F]);
}

#[test]
fn renderer_textured_rectangle_uses_draw_mode() {
    let (mut r, mut f) = setup();
    // A texel at (64, 0) and texture page 1 (X 64) in direct colour.
    gp0(&mut r, &mut f, GP0Command::BlitCPUtoVRAM { params: [0x0000_0040, 0x0001_0002] });
    r.handle_command(RendererCmd::GP0Data(0x7C00_001F), &mut f);
    gp0(&mut r, &mut f, GP0Command::DrawMode(GPUStatus { bits: 0x0000_0101 }));
    gp0(&mut r, &mut f, GP0Command::DrawTexRect { params: [0x0020_0000, 0x0000_0000, 0x0001_0002], transparent: false });
    assert_eq!(read_back(&mut r, &mut f, 0x0020_0000, 0x0001_0002), vec![0x7C00_001F]);
}

#[test]
fn renderer_frame_output() {
    let (mut r, mut f) = setup();
    gp0(&mut r, &mut f, GP0Command::FillRectangle([0x0000FF, 0, 0x0001_0002]));
    r.handle_command(RendererCmd::DisplayMode { h_res: 2, v_res: 1, interlace: false, rgb24: false }, &mut f);
    assert_eq!(f.size, (2, 1));
    r.handle_command(RendererCmd::DisplayYRange((0x11 << 10) | 0x10), &mut f);
    assert!(matches!(r.handle_command(RendererCmd::GetFrame(InterlaceState::Off), &mut f), RendererOutput::Frame));
    assert_eq!(f.frame_buffer, vec![0; 8]);
    r.handle_command(RendererCmd::DisplayEnable(true), &mut f);
    r.handle_command(RendererCmd::GetFrame(InterlaceState::Off), &mut f);
    assert_eq!(f.frame_buffer, vec![0xFF, 0, 0, 0, 0xFF, 0, 0, 0]);
}

#[test]
fn renderer_command_fits_decides() {
    let (mut r, mut f) = setup();
    let tri = GP0Command::DrawTri { params: [0x0000FF, 0, 0x0000_0010, 0x0010_0000], transparent: false };
    assert!(r.command_fits(&RendererCmd::GP0(tri), &f));
    // The vertical display range may not end before it begins.
    assert!(r.command_fits(&RendererCmd::DisplayYRange((100 << 10) | 50), &f));
    assert!(!r.command_fits(&RendererCmd::DisplayYRange((50 << 10) | 100), &f));
    // No copy for the CPU starts while a copy from it waits for data.
    gp0(&mut r, &mut f, GP0Command::BlitCPUtoVRAM { params: [0, 0x0001_0002] });
    let read = GP0Command::BlitVRAMtoCPU { params: [0, 0x0001_0002] };
    assert!(!r.command_fits(&RendererCmd::GP0(read), &f));
}
