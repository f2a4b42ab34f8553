use phase::mdec::{MDEC, Command, OutputDepth, combine_u8, rgb_24_to_15};
use phase::mdec::decode::sign_extend_10;

#[test]
fn mdec_initial_status() {
    let m = MDEC::new();
    assert_eq!(m.read_status(), 0x8004_FFFF);
}

#[test]
fn mdec_quant_table_command() {
    let mut m = MDEC::new();
    m.write_control(0x4000_0000);
    m.write_command(0x4000_0000);
    assert_eq!(m.read_status(), 0xB004_000F);
    for i in 0..16u32 {
        m.write_command(i * 0x0101_0101);
    }
    assert_eq!(m.read_status(), 0xE004_FFFF);
    let st = m.clock(100).unwrap();
    assert!(!st.data_in_ready);
    assert!(!st.data_out_ready);
    assert_eq!(m.read_status(), 0x8000_FFFF);
}

#[test]
fn mdec_reset_control() {
    let mut m = MDEC::new();
    m.write_control(0x4000_0000);
    m.write_command(0x6000_0000);
    assert_eq!(m.read_status() & 0xFFFF, 31);
    m.write_control(0x8000_0000);
    assert_eq!(m.read_status(), 0x8004_FFFF);
}

#[test]
fn mdec_command_words() {
    assert!(matches!(Command::decode(0x2000_0010),
        Command::DecodeMacroblock { output_depth: OutputDepth::Mono4, signed: false, set_bit_15: false }));
    assert!(matches!(Command::decode(0x3E00_0000),
        Command::DecodeMacroblock { output_depth: OutputDepth::RGB15, signed: true, set_bit_15: true }));
    assert!(matches!(Command::decode(0x3000_0000),
        Command::DecodeMacroblock { output_depth: OutputDepth::RGB24, .. }));
    assert!(matches!(Command::decode(0x4000_0001), Command::SetQuantTable { use_color: true }));
    assert!(matches!(Command::decode(0x6000_0000), Command::SetScaleTable));
}

#[test]
fn mdec_pixel_helpers() {
    assert_eq!(sign_extend_10(0x1FF), 511);
    assert_eq!(sign_extend_10(0x200), -512);
    assert_eq!(sign_extend_10(0xFFFF), -1);
    assert_eq!(combine_u8(0xA0, 0xB0), 0xBA);
    assert_eq!(rgb_24_to_15(0xFF, 0x00, 0x08, 0x8000), 0x8000 | 0x1F | (1 << 10));
}
