use phase::spu::adpcm::ADPCMDecoder;
use phase::spu::adsr::ADSRGenerator;
use phase::spu::sweep::SweepVolume;
use phase::spu::voice::Voice;
use phase::spu::reverb::ReverbUnit;
use phase::spu::{rate_step_scale, rate_cycle_count};
use phase::mem::ram::RAM;

#[test]
fn adpcm_shift_and_flags() {
    let mut dec = ADPCMDecoder::default();
    assert!(dec.needs_block());
    let mut block = [0u8; 16];
    block[0] = 0x04; // shift 4, filter 0
    block[1] = 0x05; // loop end, no repeat, loop start
    block[2] = 0x21;
    block[3] = 0xF0;
    let loop_start = dec.decode_block(&block);
    assert!(loop_start);
    assert!(!dec.needs_block());
    assert!(dec.is_loop_end());
    assert!(dec.should_release());
    assert_eq!(dec.get_sample(0), 256);
    assert_eq!(dec.get_sample(1), 512);
    assert_eq!(dec.get_sample(2), 0);
    assert_eq!(dec.get_sample(3), -256);
    assert_eq!(dec.get_sample(27), 0);
    dec.reset();
    assert!(dec.needs_block());
    assert_eq!(dec.get_sample(0), 0);
}

#[test]
fn adpcm_filter_uses_previous_samples() {
    let mut dec = ADPCMDecoder::default();
    let mut block = [0u8; 16];
    block[0] = 0x10; // shift 0, filter 1 (60/64 of the last sample)
    block[2] = 0x01;
    assert!(!dec.decode_block(&block));
    assert!(!dec.is_loop_end());
    assert_eq!(dec.get_sample(0), 4096);
    assert_eq!(dec.get_sample(1), 3840);
    assert_eq!(dec.get_sample(2), 3600);
}

#[test]
fn adpcm_saturates() {
    let mut dec = ADPCMDecoder::default();
    let mut block = [0u8; 16];
    block[0] = 0x40; // shift 0, filter 4 (122/64 of the last, -60/64 of the one before)
    for b in block.iter_mut().skip(2) {
        *b = 0x77;
    }
    dec.decode_block(&block);
    for i in 0..28 {
        let s = dec.get_sample(i);
        assert!(s >= i16::MIN && s <= i16::MAX);
    }
    assert_eq!(dec.get_sample(27), i16::MAX);
}

#[test]
fn rate_tables() {
    assert_eq!(rate_step_scale(0), 2048);
    assert_eq!(rate_step_scale(11), 1);
    assert_eq!(rate_step_scale(31), 1);
    assert_eq!(rate_cycle_count(0), 1);
    assert_eq!(rate_cycle_count(12), 2);
    assert_eq!(rate_cycle_count(31), 1 << 20);
}

#[test]
fn adsr_registers_mask_bit_29() {
    let mut adsr = ADSRGenerator::default();
    adsr.write_adsr_lo(0x1234);
    adsr.write_adsr_hi(0xFFFF);
    assert_eq!(adsr.read_adsr_lo(), 0x1234);
    assert_eq!(adsr.read_adsr_hi(), 0xDFFF);
}

#[test]
fn adsr_envelope_phases() {
    let mut adsr = ADSRGenerator::default();
    // Off: the level stays.
    assert_eq!(adsr.step(), 0);
    adsr.init();
    let levels: Vec<i16> = (0..7).map(|_| adsr.step()).collect();
    assert_eq!(levels, vec![0, 14336, 28672, 32767, 16383, 2048, 16384]);
    adsr.release();
    assert_eq!(adsr.step(), 30720);
    assert_eq!(adsr.step(), 14336);
    assert_eq!(adsr.step(), 0);
    assert_eq!(adsr.step(), 0);
}

#[test]
fn adsr_end_silences() {
    let mut adsr = ADSRGenerator::default();
    adsr.init();
    adsr.step();
    adsr.step();
    adsr.end();
    assert_eq!(adsr.step(), 0);
}

#[test]
fn adsr_level_stays_in_range() {
    // Fast attack, slow decay, exponential decreasing sustain and
    // exponential release.
    let mut adsr = ADSRGenerator::default();
    adsr.write_adsr_lo(0x00FF);
    adsr.write_adsr_hi(0xC020);
    adsr.init();
    let mut last = 0;
    for i in 0..200 {
        let v = adsr.step();
        assert!(v >= 0);
        if i < 3 {
            assert!(v >= last);
        }
        last = v;
    }
    adsr.release();
    let mut last = i16::MAX;
    for _ in 0..5000 {
        let v = adsr.step();
        assert!(v >= 0 && v <= last);
        last = v;
    }
}

#[test]
fn sweep_fixed_volume() {
    let mut vol = SweepVolume::new();
    vol.set_left(0x1234);
    vol.set_right(0x0100);
    assert_eq!(vol.get_left(), 0x1234);
    assert_eq!(vol.get_right(), 0x0100);
    let v = vol.get_vol();
    assert_eq!(v.left, 0x2468);
    assert_eq!(v.right, 0x0200);
}

#[test]
fn sweep_linear_increase() {
    let mut vol = SweepVolume::new();
    // Sweep, linear, increasing, shift 11, step 7.
    vol.set_left(0x802C);
    assert_eq!(vol.get_left(), 0);
    assert_eq!(vol.get_vol().left, 0);
    assert_eq!(vol.get_vol().left, 7);
    assert_eq!(vol.get_vol().left, 14);
    assert_eq!(vol.get_left(), 21);
}

#[test]
fn voice_registers() {
    let mut voice = Voice::default();
    for (i, addr) in (0..16).step_by(2).enumerate() {
        voice.write_halfword(addr, 0x100 + i as u16);
    }
    for (i, addr) in (0..16).step_by(2).enumerate() {
        assert_eq!(voice.read_halfword(addr), 0x100 + i as u16);
    }
    let ram = RAM::new(16);
    voice.clock(10);
    assert_eq!(voice.get_sample(&ram, 0), (0, 0));
}

#[test]
fn reverb_buffer_steps_and_wraps_in_work_area() {
    let mut r = ReverbUnit::default();
    r.set_base_addr(0xFFFF);
    r.apf_addr_left = [0, 3];
    let expected = [0x7FFF8u32, 0x7FFFA, 0x7FFFC, 0x7FFFE, 0x7FFF8];
    for (k, e) in expected.iter().enumerate() {
        if k > 0 {
            r.inc_buffer_addr();
        }
        assert_eq!(r.apf_dst_addr_left(0), *e);
    }
    // Stepping leaves the other registers alone.
    assert_eq!(r.apf_addr_left, [0, 3]);
    assert_eq!(r.base_addr, 0xFFFF);
}
