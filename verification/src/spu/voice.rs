use vstd::prelude::*;
use crate::mem::ram::RAM;

verus! {

/// The register offsets of a voice: eight halfwords.
pub open spec fn is_voice_reg(addr: u32) -> bool {
    addr < 16 && addr % 2 == 0
}

/// One of the 24 voices of the sound unit: its eight registers.
#[derive(Clone, Copy)]
pub struct Voice {
    vol_left: u16,
    vol_right: u16,
    sample_rate: u16,
    start_addr: u16,
    adsr_lo: u16,
    adsr_hi: u16,
    adsr_vol: u16,
    repeat_addr: u16,
}

impl Voice {
    /// The registers, in order of their offsets (0, 2, .., 0xE).
    pub closed spec fn regs(&self) -> Seq<u16> {
        seq![self.vol_left, self.vol_right, self.sample_rate, self.start_addr,
            self.adsr_lo, self.adsr_hi, self.adsr_vol, self.repeat_addr]
    }

    /// A voice has eight registers.
    pub proof fn lemma_regs_len(&self)
        ensures
            self.regs().len() == 8,
    {
    }

    pub fn read_halfword(&self, addr: u32) -> (r: u16)
        requires
            is_voice_reg(addr),
        ensures
            self.regs().len() == 8,
            r == self.regs()[(addr / 2) as int],
    {
        match addr {
            0x0 => self.vol_left,
            0x2 => self.vol_right,
            0x4 => self.sample_rate,
            0x6 => self.start_addr,
            0x8 => self.adsr_lo,
            0xA => self.adsr_hi,
            0xC => self.adsr_vol,
            _ => self.repeat_addr,
        }
    }

    pub fn write_halfword(&mut self, addr: u32, data: u16)
        requires
            is_voice_reg(addr),
        ensures
            old(self).regs().len() == 8,
            final(self).regs() == old(self).regs().update((addr / 2) as int, data),
    {
        match addr {
            0x0 => self.vol_left = data,
            0x2 => self.vol_right = data,
            0x4 => self.sample_rate = data,
            0x6 => self.start_addr = data,
            0x8 => self.adsr_lo = data,
            0xA => self.adsr_hi = data,
            0xC => self.adsr_vol = data,
            _ => self.repeat_addr = data,
        }
        assert(self.regs() =~= old(self).regs().update((addr / 2) as int, data));
    }

    /// Advance the voice by `cycles`; a voice keeps no timing state yet.
    pub fn clock(&mut self, cycles: usize)
        ensures
            *final(self) == *old(self),
    {
    }

    /// The stereo sample of this voice; voices produce silence so far.
    pub fn get_sample(&self, ram: &RAM, irq_addr: u32) -> (r: (i32, i32))
        ensures
            r == (0i32, 0i32),
    {
        (0, 0)
    }
}

impl Default for Voice {
    fn default() -> (r: Self)
        ensures
            r.regs() == Seq::new(8, |i: int| 0u16),
    {
        let r = Voice {
            vol_left: 0, vol_right: 0, sample_rate: 0, start_addr: 0,
            adsr_lo: 0, adsr_hi: 0, adsr_vol: 0, repeat_addr: 0,
        };
        assert(r.regs() =~= Seq::new(8, |i: int| 0u16));
        r
    }
}

} // verus!
