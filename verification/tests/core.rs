use phase::utils::bcd::{to_bcd, from_bcd};
use phase::utils::interface::{
    MemInterface, byte_of_word, replace_byte_of_word, halfword_of_word, replace_halfword_of_word,
};
use phase::interrupt::{InterruptControl, I_STAT_ADDR, I_MASK_ADDR, IRQ_VBLANK, IRQ_CDROM, IRQ_SPU};
use phase::mem::ram::RAM;
use phase::mem::bios::BIOS;
use phase::Frame;
use phase::mem::dma::{DMA, DICR_ADDR};
use phase::interrupt::IRQ_DMA;

#[test]
fn bcd_encodes_two_digits() {
    assert_eq!(to_bcd(0), Some(0x00));
    assert_eq!(to_bcd(9), Some(0x09));
    assert_eq!(to_bcd(42), Some(0x42));
    assert_eq!(to_bcd(99), Some(0x99));
    assert_eq!(to_bcd(100), None);
}

#[test]
fn bcd_decodes_valid_digits_only() {
    assert_eq!(from_bcd(0x42), Some(42));
    assert_eq!(from_bcd(0x99), Some(99));
    assert_eq!(from_bcd(0x1A), None);
    assert_eq!(from_bcd(0xA1), None);
}

#[test]
fn bcd_round_trip() {
    for n in 0..100u8 {
        assert_eq!(from_bcd(to_bcd(n).unwrap()), Some(n));
    }
}

#[test]
fn word_lanes() {
    let w = 0x1234_5678;
    assert_eq!(byte_of_word(w, 0), 0x78);
    assert_eq!(byte_of_word(w, 1), 0x56);
    assert_eq!(byte_of_word(w, 3), 0x12);
    assert_eq!(replace_byte_of_word(w, 2, 0xAB), 0x12AB_5678);
    assert_eq!(halfword_of_word(w, 0), 0x5678);
    assert_eq!(halfword_of_word(w, 2), 0x1234);
    assert_eq!(replace_halfword_of_word(w, 2, 0xBEEF), 0xBEEF_5678);
    assert_eq!(replace_halfword_of_word(w, 0, 0xBEEF), 0x1234_BEEF);
}

#[test]
fn interrupt_trigger_mask_acknowledge() {
    let mut ic = InterruptControl::new();
    ic.trigger_irq(IRQ_VBLANK | IRQ_CDROM);
    assert!(!ic.check_irq());
    ic.write_word(I_MASK_ADDR, 0xFFFF_FFFF);
    assert_eq!(ic.read_word(I_MASK_ADDR), 0x7FF);
    assert!(ic.check_irq());
    assert_eq!(ic.read_word(I_STAT_ADDR), IRQ_VBLANK | IRQ_CDROM);
    // Writing a 0 bit acknowledges that line.
    ic.write_word(I_STAT_ADDR, !IRQ_VBLANK);
    assert_eq!(ic.read_word(I_STAT_ADDR), IRQ_CDROM);
    ic.write_word(I_STAT_ADDR, 0);
    assert!(!ic.check_irq());
    ic.write_word(I_MASK_ADDR, IRQ_SPU);
    ic.trigger_irq(IRQ_CDROM);
    assert!(!ic.check_irq());
    ic.trigger_irq(IRQ_SPU);
    assert!(ic.check_irq());
}

#[test]
fn ram_little_endian() {
    let mut ram = RAM::new(16);
    assert_eq!(ram.len(), 16);
    ram.write_word(4, 0xDEAD_BEEF);
    assert_eq!(ram.read_byte(4), 0xEF);
    assert_eq!(ram.read_byte(7), 0xDE);
    assert_eq!(ram.read_halfword(6), 0xDEAD);
    ram.write_halfword(8, 0x1234);
    assert_eq!(ram.read_word(8), 0x0000_1234);
    ram.write_byte(11, 0x80);
    assert_eq!(ram.read_word(8), 0x8000_1234);
    // A write leaves the other words alone.
    assert_eq!(ram.read_word(4), 0xDEAD_BEEF);
    assert_eq!(ram.read_word(0), 0);
}

#[test]
fn bios_pads_image() {
    let bios = BIOS::new(&[0x01, 0x02, 0x03, 0x04, 0x05]);
    assert_eq!(bios.read_word(0), 0x0403_0201);
    assert_eq!(bios.read_halfword(4), 0x0005);
    assert_eq!(bios.read_byte(6), 0);
    assert_eq!(bios.read_word(512 * 1024 - 4), 0);
}

#[test]
fn frame_resize_clears() {
    let mut frame = Frame::new();
    assert_eq!(frame.frame_buffer.len(), 0);
    frame.resize((4, 2));
    assert_eq!(frame.size, (4, 2));
    assert_eq!(frame.frame_buffer.len(), 32);
    frame.frame_buffer[3] = 9;
    frame.resize((4, 2));
    assert_eq!(frame.frame_buffer[3], 9);
    frame.resize((2, 2));
    assert_eq!(frame.frame_buffer, vec![0u8; 16]);
}

#[test]
fn dma_interrupt_reported_once_per_rise() {
    let mut dma = DMA::new();
    assert_eq!(dma.check_irq(), 0);
    // Forcing the interrupt raises the request bit: reported once.
    dma.write_word(DICR_ADDR, 0x0000_8000);
    assert_eq!(dma.read_word(DICR_ADDR) & 0x8000_0000, 0x8000_0000);
    assert_eq!(dma.check_irq(), IRQ_DMA);
    assert_eq!(dma.check_irq(), 0);
    // The bit stays up: writing again raises nothing new.
    dma.write_word(DICR_ADDR, 0x0000_8000);
    assert_eq!(dma.check_irq(), 0);
    // Dropping the bit and raising it again is reported again.
    dma.write_word(DICR_ADDR, 0);
    assert_eq!(dma.check_irq(), 0);
    dma.write_word(DICR_ADDR, 0x0000_8000);
    assert_eq!(dma.check_irq(), IRQ_DMA);
}

#[test]
fn dma_no_transfer_without_enabled_busy_channel() {
    let mut dma = DMA::new();
    assert!(dma.get_transfer().is_none());
    // Channel 2 busy but not enabled in the control register.
    dma.write_word(0x1F80_10F0, 0);
    dma.write_word(0x1F80_10A8, 0x0100_0000);
    assert!(dma.get_transfer().is_none());
    // Enabled: it is chosen.
    dma.write_word(0x1F80_10F0, 0x0000_0800);
    assert_eq!(dma.get_transfer().map(|t| t.device), Some(2));
}
