use phase::gpu::GPU;
use phase::gpu::status::{
    GPUStatus, InterlaceState, STAT_COMMAND_READY, STAT_DMA_RECV_READY, STAT_IRQ, STAT_X_RESOLUTION,
    STAT_DISPLAY_ENABLE, STAT_INTERLACE,
};
use phase::gpu::renderer::{RendererCmd, GP0Command};
use phase::gpu::videostate::StateMachine;

#[test]
fn gpu_initial_status() {
    let gpu = GPU::new();
    assert_eq!(gpu.read_status(), STAT_COMMAND_READY | STAT_DMA_RECV_READY);
    assert!(gpu.dma_cmd_ready());
    assert!(!gpu.awaits_vram_word());
    assert!(matches!(gpu.get_frame(), RendererCmd::GetFrame(InterlaceState::Off)));
}

#[test]
fn gpu_triangle_packet() {
    let mut gpu = GPU::new();
    assert!(gpu.send_gp0(0x2012_3456).is_none());
    assert!(gpu.send_gp0(0x0000_0000).is_none());
    assert!(gpu.send_gp0(0x0010_0000).is_none());
    match gpu.send_gp0(0x0000_0010) {
        Some(RendererCmd::GP0(GP0Command::DrawTri { params, transparent })) => {
            assert_eq!(params, [0x2012_3456, 0, 0x0010_0000, 0x0000_0010]);
            assert!(!transparent);
        },
        _ => panic!("expected a triangle"),
    }
    // The next word starts a new packet.
    match gpu.send_gp0(0x2200_0000) {
        None => {},
        _ => panic!("a packet of one word"),
    }
}

#[test]
fn gpu_fill_and_settings() {
    let mut gpu = GPU::new();
    assert!(gpu.send_gp0(0x0200_00FF).is_none());
    assert!(gpu.send_gp0(0x0000_0000).is_none());
    match gpu.send_gp0(0x0010_0010) {
        Some(RendererCmd::GP0(GP0Command::FillRectangle(p))) => assert_eq!(p, [0x0200_00FF, 0, 0x0010_0010]),
        _ => panic!("expected a fill"),
    }
    match gpu.send_gp0(0xE300_0400) {
        Some(RendererCmd::GP0(GP0Command::DrawAreaTopLeft(v))) => assert_eq!(v, 0x400),
        _ => panic!("expected a drawing area"),
    }
    // GP1 info request 3 reads back the drawing area's top left.
    assert!(gpu.send_gp1_command(0x1000_0003).is_empty());
    assert_eq!(gpu.recv_response(0), 0x400);
}

#[test]
fn gpu_irq_and_acknowledge() {
    let mut gpu = GPU::new();
    assert!(gpu.send_gp0(0x1F00_0000).is_none());
    assert_ne!(gpu.read_status() & STAT_IRQ, 0);
    assert!(gpu.send_gp1_command(0x0200_0000).is_empty());
    assert_eq!(gpu.read_status() & STAT_IRQ, 0);
}

#[test]
fn gpu_cpu_to_vram_transfer() {
    let mut gpu = GPU::new();
    assert!(gpu.send_gp0(0xA000_0000).is_none());
    assert!(gpu.send_gp0(0x0000_0000).is_none());
    match gpu.send_gp0(0x0002_0002) {
        Some(RendererCmd::GP0(GP0Command::BlitCPUtoVRAM { .. })) => {},
        _ => panic!("expected a blit"),
    }
    assert!(gpu.awaits_vram_word());
    assert_eq!(gpu.read_status() & STAT_COMMAND_READY, 0);
    assert!(matches!(gpu.send_gp0(0x1111_2222), Some(RendererCmd::GP0Data(0x1111_2222))));
    assert!(matches!(gpu.send_gp0(0x3333_4444), Some(RendererCmd::GP0Data(0x3333_4444))));
    assert!(!gpu.awaits_vram_word());
    assert_ne!(gpu.read_status() & STAT_COMMAND_READY, 0);
}

#[test]
fn gpu_reset_and_display_mode() {
    let mut gpu = GPU::new();
    let out = gpu.send_gp1_command(0x0300_0000);
    assert!(matches!(out[..], [RendererCmd::DisplayEnable(true)]));
    assert_ne!(gpu.read_status() & STAT_DISPLAY_ENABLE, 0);
    let out = gpu.send_gp1_command(0x0800_0001);
    assert_eq!(out.len(), 1);
    match out[0] {
        RendererCmd::DisplayMode { h_res, v_res, interlace, rgb24 } => {
            assert_eq!((h_res, v_res, interlace, rgb24), (320, 240, false, false));
        },
        _ => panic!("expected a display mode"),
    }
    assert_eq!(gpu.read_status() & STAT_X_RESOLUTION, 0x0002_0000);
    let out = gpu.send_gp1_command(0x0800_0024);
    match out[0] {
        RendererCmd::DisplayMode { h_res, v_res, interlace, .. } => {
            assert_eq!((h_res, v_res, interlace), (256, 480, true));
        },
        _ => panic!("expected a display mode"),
    }
    assert_ne!(gpu.read_status() & STAT_INTERLACE, 0);
    let out = gpu.send_gp1_command(0x0000_0000);
    assert_eq!(out.len(), 5);
    assert!(matches!(out[0], RendererCmd::DisplayEnable(false)));
    assert!(matches!(out[1], RendererCmd::DisplayVRAMOffset(0)));
    assert!(matches!(out[4], RendererCmd::DisplayMode { h_res: 256, v_res: 240, interlace: false, rgb24: false }));
    assert_eq!(gpu.read_status() & STAT_DISPLAY_ENABLE, 0);
}

#[test]
fn gpu_status_resolution() {
    assert_eq!(GPUStatus { bits: 0x0002_0000 }.h_res(), 320);
    assert_eq!(GPUStatus { bits: 0x0001_0000 }.h_res(), 368);
    assert_eq!(GPUStatus { bits: 0x0006_0000 }.h_res(), 640);
    assert_eq!(GPUStatus { bits: STAT_INTERLACE }.v_res(), 240);
    assert_eq!(GPUStatus { bits: STAT_INTERLACE | 0x0008_0000 }.v_res(), 480);
}

#[test]
fn video_timing_blanking() {
    let mut gpu = GPU::new();
    let r = gpu.clock(2560);
    assert!(r.in_h_blank);
    assert!(!r.in_v_blank);
    assert_eq!(r.dots, 256);
    let r = gpu.clock(853);
    assert!(!r.in_h_blank);
    assert_eq!(r.dots, 85);
    assert!(!r.new_frame);
}

#[test]
fn video_frame_and_interlace() {
    let mut sm = StateMachine::new();
    sm.set_interlace(true);
    assert_eq!(sm.get_interlace_state(), InterlaceState::Odd);
    let mut frames = 0;
    let mut vblanks = 0;
    for _ in 0..(263 * 2) {
        let a = sm.clock(2560);
        let b = sm.clock(853);
        if a.irq != 0 || b.irq != 0 {
            vblanks += 1;
        }
        if b.new_frame {
            frames += 1;
        }
    }
    assert_eq!(vblanks, 2);
    assert_eq!(frames, 2);
    // Toggled twice: back to odd.
    assert_eq!(sm.get_interlace_state(), InterlaceState::Odd);
}

#[test]
fn video_v_blank_and_new_frame_alternate() {
    let mut sm = StateMachine::new();
    // 1 for a v-blank interrupt, 2 for a new frame, in order of arrival.
    let mut events = Vec::new();
    for _ in 0..(263 * 3) {
        for cycles in [2560, 853] {
            let r = sm.clock(cycles);
            if r.irq != 0 {
                assert!(r.in_v_blank && !r.in_h_blank);
                events.push(1);
            }
            if r.new_frame {
                events.push(2);
            }
        }
    }
    assert_eq!(events, vec![1, 2, 1, 2, 1, 2]);
    assert_eq!(sm.get_interlace_state(), InterlaceState::Off);
}
