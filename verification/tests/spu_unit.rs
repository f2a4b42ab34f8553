use phase::spu::SPU;

const MAIN_VOL_LEFT: u32 = 0x1F80_1D80;
const RAM_ADDR: u32 = 0x1F80_1DA6;
const RAM_FIFO: u32 = 0x1F80_1DA8;
const CONTROL: u32 = 0x1F80_1DAA;
const STATUS: u32 = 0x1F80_1DAE;

#[test]
fn spu_registers_read_back() {
    let mut spu = SPU::new();
    // Voice 3, sample rate register.
    spu.write_halfword(0x1F80_1C34, 0x1234);
    assert_eq!(spu.read_halfword(0x1F80_1C34), 0x1234);
    assert_eq!(spu.read_halfword(0x1F80_1C24), 0);
    spu.write_halfword(MAIN_VOL_LEFT, 0x3FFF);
    assert_eq!(spu.read_halfword(MAIN_VOL_LEFT), 0x3FFF);
    // Key-on flags and reverb registers read as zero.
    spu.write_halfword(0x1F80_1D88, 0xFFFF);
    assert_eq!(spu.read_halfword(0x1F80_1D88), 0);
    assert_eq!(spu.read_halfword(0x1F80_1DC0), 0);
    spu.write_word(0x1F80_1D84, 0x2222_1111);
    assert_eq!(spu.read_word(0x1F80_1D84), 0x2222_1111);
}

#[test]
fn spu_control_sets_status() {
    let mut spu = SPU::new();
    assert_eq!(spu.read_halfword(STATUS), 0);
    // DMA write mode: the request bits and the mode bits show in the status.
    spu.write_halfword(CONTROL, 0x8020);
    assert_eq!(spu.read_halfword(STATUS), 0x01A0);
    assert!(spu.dma_ready());
    // DMA read mode.
    spu.write_halfword(CONTROL, 0x8030);
    assert_eq!(spu.read_halfword(STATUS), 0x02B0);
    // Stopped.
    spu.write_halfword(CONTROL, 0x8000);
    assert_eq!(spu.read_halfword(STATUS), 0x0000);
    assert!(!spu.dma_ready());
}

#[test]
fn spu_manual_transfer() {
    let mut spu = SPU::new();
    spu.write_halfword(RAM_ADDR, 0x0002);
    spu.write_halfword(RAM_FIFO, 0xBEEF);
    spu.write_halfword(RAM_FIFO, 0xCAFE);
    spu.write_halfword(CONTROL, 0x0010);
    assert_eq!(spu.read_halfword(STATUS), 0x0410);
    spu.clock(1);
    spu.clock(1);
    // The queue is empty: the transfer ends.
    spu.clock(1);
    assert_eq!(spu.read_halfword(STATUS), 0x0010);
    spu.write_halfword(RAM_ADDR, 0x0002);
    let word = spu.dma_read_word();
    assert_eq!(word.data, 0xCAFE_BEEF);
    assert_eq!(word.cycles, 1);
}

#[test]
fn spu_dma_write_then_read() {
    let mut spu = SPU::new();
    spu.write_halfword(RAM_ADDR, 0x0100);
    assert_eq!(spu.dma_write_word(0x0102_0304), 1);
    assert_eq!(spu.dma_write_word(0x0506_0708), 1);
    spu.write_halfword(RAM_ADDR, 0x0100);
    assert_eq!(spu.dma_read_word().data, 0x0102_0304);
    assert_eq!(spu.dma_read_word().data, 0x0506_0708);
}

#[test]
fn spu_sample_packets() {
    let mut spu = SPU::new();
    spu.write_halfword(CONTROL, 0x8040);
    for _ in 0..31 {
        let r = spu.clock(0x301);
        assert!(!r.packet_ready);
        assert_eq!(r.irq, 0);
    }
    assert!(spu.clock(0x301).packet_ready);
    // A sample needs more than 0x300 cycles: 40 half periods make fewer
    // than 32 samples.
    let mut quiet = SPU::new();
    for _ in 0..40 {
        assert!(!quiet.clock(0x180).packet_ready);
    }
}

#[test]
fn spu_transfer_past_ram_is_refused() {
    let mut spu = SPU::new();
    spu.write_halfword(RAM_ADDR, 0xFFFF);
    for i in 0..5 {
        spu.write_halfword(RAM_FIFO, i);
    }
    spu.write_halfword(CONTROL, 0x0010);
    for _ in 0..4 {
        assert!(spu.can_clock(1));
        spu.clock(1);
    }
    assert!(!spu.can_clock(1));
}
