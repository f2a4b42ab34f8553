//! The sound processing unit's registers: the 24 voices, volumes, control
//! and status, the transfer of data into sound RAM, and sample timing.

use vstd::prelude::*;
use std::collections::VecDeque;

use crate::interrupt::IRQ_SPU;
use crate::mem::dma::DmaWord;
use crate::mem::ram::{RAM, le32};
use crate::spu::StereoVolume;
use crate::spu::voice::{Voice, is_voice_reg};

verus! {

pub const SPU_RAM_SIZE: usize = 524288;
pub const SPU_FIFO_SIZE: usize = 32;
/// Cycles per output sample.
pub const CYCLES_PER_SAMPLE: usize = 0x300;
/// Samples per packet sent to the audio output.
pub const SAMPLE_PACKET_SIZE: usize = 32;

/// Control: the unit is on.
pub const SPU_CTRL_ENABLE: u16 = 0x8000;
pub const SPU_CTRL_IRQ_ENABLE: u16 = 0x0040;
/// Control: the sound RAM transfer mode (stop, manual, DMA write, DMA read).
pub const SPU_CTRL_TRANSFER: u16 = 0x0030;
/// Control and status: the mode bits, mirrored into the status.
pub const SPU_MODE_BITS: u16 = 0x003F;

pub const SPU_STAT_TRANSFER_BUSY: u16 = 0x0400;
pub const SPU_STAT_DMA_READ_REQ: u16 = 0x0200;
pub const SPU_STAT_DMA_WRITE_REQ: u16 = 0x0100;
pub const SPU_STAT_DMA_TRANSFER_REQ: u16 = 0x0080;
pub const SPU_STAT_IRQ: u16 = 0x0040;
pub const SPU_STAT_DMA_BITS: u16 = 0x0380;

/// The state of the unit, its voices and RAM as sequences.
pub struct SpuView {
    pub voices: Seq<Seq<u16>>,
    pub ram: Seq<u8>,
    pub ram_full_addr: u32,
    pub ram_fifo: Seq<u16>,
    pub transfer_fifo: bool,
    pub ram_addr: u16,
    pub ram_irq_addr: u16,
    pub ram_ctrl: u16,
    pub main_vol: (u16, u16),
    pub cd_input_vol: (u16, u16),
    pub ext_input_vol: (u16, u16),
    pub reverb_vol: (u16, u16),
    pub control: u16,
    pub status: u16,
    pub cycle_count: usize,
    pub samples: usize,
}

/// Sound processing unit.
pub struct SPU {
    voices: Vec<Voice>,
    ram: RAM,
    ram_full_addr: u32,
    ram_fifo: VecDeque<u16>,
    transfer_fifo: bool,

    ram_addr: u16,
    ram_irq_addr: u16,
    ram_ctrl: u16,

    main_vol: StereoVolume,
    cd_input_vol: StereoVolume,
    ext_input_vol: StereoVolume,
    reverb_vol: StereoVolume,

    control: u16,
    status: u16,

    cycle_count: usize,
    /// Samples made since the last packet.
    samples: usize,
}

/// What a clock of the unit gives: its interrupt, and whether a packet of
/// samples is ready for the audio output.
pub struct SpuClockRes {
    pub irq: u32,
    pub packet_ready: bool,
}

pub open spec fn vol(v: StereoVolume) -> (u16, u16) {
    (v.left, v.right)
}

impl View for SPU {
    type V = SpuView;

    closed spec fn view(&self) -> SpuView {
        SpuView {
            voices: Seq::new(self.voices@.len(), |i: int| self.voices@[i].regs()),
            ram: self.ram.bytes(),
            ram_full_addr: self.ram_full_addr,
            ram_fifo: self.ram_fifo@,
            transfer_fifo: self.transfer_fifo,
            ram_addr: self.ram_addr,
            ram_irq_addr: self.ram_irq_addr,
            ram_ctrl: self.ram_ctrl,
            main_vol: vol(self.main_vol),
            cd_input_vol: vol(self.cd_input_vol),
            ext_input_vol: vol(self.ext_input_vol),
            reverb_vol: vol(self.reverb_vol),
            control: self.control,
            status: self.status,
            cycle_count: self.cycle_count,
            samples: self.samples,
        }
    }
}

/// The unit is consistent: 24 voices of eight registers, 512 KiB of sound
/// RAM, at most 32 halfwords waiting to be written, and fewer than a
/// packet's samples waiting to be sent.
pub open spec fn spu_ok(s: SpuView) -> bool {
    &&& s.voices.len() == 24
    &&& forall|i: int| 0 <= i < 24 ==> (#[trigger] s.voices[i]).len() == 8
    &&& s.ram.len() == SPU_RAM_SIZE
    &&& s.ram_fifo.len() <= SPU_FIFO_SIZE
    &&& s.samples < SAMPLE_PACKET_SIZE
}

/// The voice registers lie at 0x1F80_1C00..=0x1F80_1D7F, 16 bytes each.
pub open spec fn voice_addr(addr: u32) -> bool {
    0x1F80_1C00 <= addr <= 0x1F80_1D7F
}

pub open spec fn voice_index(addr: u32) -> int {
    (addr - 0x1F80_1C00) / 16
}

pub open spec fn voice_reg(addr: u32) -> int {
    (addr - 0x1F80_1C00) % 16
}

/// A halfword register that reads back as zero (the key, modulation,
/// noise, echo and end flags, the reverb base and the current volume).
pub open spec fn zero_reg(addr: u32) -> bool {
    (0x1F80_1D88 <= addr <= 0x1F80_1D9E && addr % 2 == 0) || addr == 0x1F80_1DA2
        || addr == 0x1F80_1DB8 || addr == 0x1F80_1DBA
}

/// The reverb registers.
pub open spec fn reverb_addr(addr: u32) -> bool {
    0x1F80_1DC0 <= addr <= 0x1F80_1DFF
}

/// The halfword registers that can be read.
pub open spec fn half_read_ok(addr: u32) -> bool {
    ||| voice_addr(addr) && addr % 2 == 0
    ||| 0x1F80_1D80 <= addr <= 0x1F80_1D86 && addr % 2 == 0
    ||| zero_reg(addr)
    ||| addr == 0x1F80_1DA4 || addr == 0x1F80_1DA6 || addr == 0x1F80_1DAA || addr == 0x1F80_1DAC
    ||| addr == 0x1F80_1DAE
    ||| 0x1F80_1DB0 <= addr <= 0x1F80_1DB6 && addr % 2 == 0
    ||| reverb_addr(addr)
}

/// A halfword read.
pub open spec fn half_read(s: SpuView, addr: u32) -> u16 {
    if voice_addr(addr) {
        s.voices[voice_index(addr)][voice_reg(addr) / 2]
    } else if addr == 0x1F80_1D80 {
        s.main_vol.0
    } else if addr == 0x1F80_1D82 {
        s.main_vol.1
    } else if addr == 0x1F80_1D84 {
        s.reverb_vol.0
    } else if addr == 0x1F80_1D86 {
        s.reverb_vol.1
    } else if addr == 0x1F80_1DA4 {
        s.ram_irq_addr
    } else if addr == 0x1F80_1DA6 {
        s.ram_addr
    } else if addr == 0x1F80_1DAA {
        s.control
    } else if addr == 0x1F80_1DAC {
        s.ram_ctrl
    } else if addr == 0x1F80_1DAE {
        s.status
    } else if addr == 0x1F80_1DB0 {
        s.cd_input_vol.0
    } else if addr == 0x1F80_1DB2 {
        s.cd_input_vol.1
    } else if addr == 0x1F80_1DB4 {
        s.ext_input_vol.0
    } else if addr == 0x1F80_1DB6 {
        s.ext_input_vol.1
    } else {
        0
    }
}

/// The halfword registers that can be written; a halfword goes into the
/// transfer queue only while it has room.
pub open spec fn half_write_ok(s: SpuView, addr: u32) -> bool {
    ||| voice_addr(addr) && addr % 2 == 0
    ||| 0x1F80_1D80 <= addr <= 0x1F80_1D86 && addr % 2 == 0
    ||| (0x1F80_1D88 <= addr <= 0x1F80_1D9E && addr % 2 == 0) || addr == 0x1F80_1DA2
    ||| addr == 0x1F80_1DA4 || addr == 0x1F80_1DA6 || addr == 0x1F80_1DAA || addr == 0x1F80_1DAC
    ||| addr == 0x1F80_1DA8 && s.ram_fifo.len() < SPU_FIFO_SIZE
    ||| 0x1F80_1DB0 <= addr <= 0x1F80_1DB6 && addr % 2 == 0
    ||| reverb_addr(addr)
}

/// A write of the control register: the mode bits show in the status, an
/// interrupt is acknowledged when interrupts are disabled, and the transfer
/// mode starts a manual transfer or requests DMA.
pub open spec fn control_written(s: SpuView, data: u16) -> SpuView {
    let st = if data & SPU_CTRL_IRQ_ENABLE == 0 { s.status & !SPU_STAT_IRQ } else { s.status };
    let st = ((st & !SPU_MODE_BITS) | (data & SPU_MODE_BITS)) & !SPU_STAT_DMA_BITS;
    let t = (data & SPU_CTRL_TRANSFER) >> 4;
    SpuView {
        control: data,
        status: if t == 1 {
            st | SPU_STAT_TRANSFER_BUSY
        } else if t == 2 {
            st | SPU_STAT_DMA_WRITE_REQ | SPU_STAT_DMA_TRANSFER_REQ
        } else if t == 3 {
            st | SPU_STAT_DMA_READ_REQ | SPU_STAT_DMA_TRANSFER_REQ
        } else {
            st
        },
        transfer_fifo: t == 1,
        ..s
    }
}

/// A halfword write.
pub open spec fn half_written(s: SpuView, addr: u32, data: u16) -> SpuView {
    if voice_addr(addr) {
        SpuView {
            voices: s.voices.update(voice_index(addr), s.voices[voice_index(addr)].update(voice_reg(addr) / 2, data)),
            ..s
        }
    } else if addr == 0x1F80_1D80 {
        SpuView { main_vol: (data, s.main_vol.1), ..s }
    } else if addr == 0x1F80_1D82 {
        SpuView { main_vol: (s.main_vol.0, data), ..s }
    } else if addr == 0x1F80_1D84 {
        SpuView { reverb_vol: (data, s.reverb_vol.1), ..s }
    } else if addr == 0x1F80_1D86 {
        SpuView { reverb_vol: (s.reverb_vol.0, data), ..s }
    } else if addr == 0x1F80_1DA4 {
        SpuView { ram_irq_addr: data, ..s }
    } else if addr == 0x1F80_1DA6 {
        SpuView { ram_addr: data, ram_full_addr: ((data as u32) << 3) as u32, ..s }
    } else if addr == 0x1F80_1DA8 {
        SpuView { ram_fifo: s.ram_fifo.push(data), ..s }
    } else if addr == 0x1F80_1DAA {
        control_written(s, data)
    } else if addr == 0x1F80_1DAC {
        SpuView { ram_ctrl: data, ..s }
    } else if addr == 0x1F80_1DB0 {
        SpuView { cd_input_vol: (data, s.cd_input_vol.1), ..s }
    } else if addr == 0x1F80_1DB2 {
        SpuView { cd_input_vol: (s.cd_input_vol.0, data), ..s }
    } else if addr == 0x1F80_1DB4 {
        SpuView { ext_input_vol: (data, s.ext_input_vol.1), ..s }
    } else if addr == 0x1F80_1DB6 {
        SpuView { ext_input_vol: (s.ext_input_vol.0, data), ..s }
    } else {
        s
    }
}

/// The manual transfer writes the next halfword of the queue into sound RAM,
/// or ends when the queue is empty.
pub open spec fn fifo_step(s: SpuView) -> SpuView {
    if s.ram_fifo.len() > 0 {
        let a = s.ram_full_addr as int;
        let d = s.ram_fifo[0];
        SpuView {
            ram: s.ram.update(a, d as u8).update(a + 1, (d >> 8) as u8),
            ram_full_addr: (s.ram_full_addr + 2) as u32,
            ram_fifo: s.ram_fifo.drop_first(),
            ..s
        }
    } else {
        SpuView { status: s.status & !SPU_STAT_TRANSFER_BUSY, transfer_fifo: false, ..s }
    }
}

/// The unit after `cycles`: the transfer moves on a halfword, and a sample
/// is made each time more than 0x300 cycles have run (a packet is ready
/// every 32 samples).
pub open spec fn clocked(s: SpuView, cycles: usize) -> (SpuView, bool) {
    let s1 = if s.transfer_fifo { fifo_step(s) } else { s };
    let count = s1.cycle_count + cycles;
    if count > CYCLES_PER_SAMPLE {
        let n = s1.samples + 1;
        (SpuView {
            cycle_count: (count - CYCLES_PER_SAMPLE) as usize,
            samples: if n >= SAMPLE_PACKET_SIZE { 0 } else { n as usize },
            ..s1
        }, n >= SAMPLE_PACKET_SIZE)
    } else {
        (SpuView { cycle_count: count as usize, ..s1 }, false)
    }
}

/// The clock can run: a halfword of the transfer fits in sound RAM, and the
/// cycle count does not overflow.
pub open spec fn clock_ok(s: SpuView, cycles: usize) -> bool {
    &&& s.transfer_fifo && s.ram_fifo.len() > 0 ==> s.ram_full_addr + 2 <= s.ram.len()
    &&& s.cycle_count + cycles <= usize::MAX
}

/// The interrupt is raised while the unit and its interrupt are enabled and
/// the flag is set.
pub open spec fn spu_irq(s: SpuView) -> bool {
    s.control & (SPU_CTRL_ENABLE | SPU_CTRL_IRQ_ENABLE) == SPU_CTRL_ENABLE | SPU_CTRL_IRQ_ENABLE
        && s.status & SPU_STAT_IRQ != 0
}

proof fn lemma_voice_addr(addr: u32)
    requires
        voice_addr(addr),
    ensures
        (addr >> 4) & 0x1F == voice_index(addr),
        addr & 0xF == voice_reg(addr),
        voice_index(addr) < 24,
        addr % 2 == 0 ==> (addr & 0xF) % 2 == 0,
{
    assert(0x1F80_1C00 <= addr <= 0x1F80_1D7F ==> (addr >> 4) & 0x1F == (addr - 0x1F80_1C00) / 16
        && addr & 0xF == (addr - 0x1F80_1C00) % 16 && (addr % 2 == 0 ==> (addr & 0xF) % 2 == 0)) by (bit_vector);
}

impl SPU {
    pub open spec fn wf(&self) -> bool {
        spu_ok(self@)
    }

    pub fn new() -> (r: Self)
        ensures
            r.wf(),
            r@.voices == Seq::new(24, |i: int| Seq::new(8, |j: int| 0u16)),
            r@.ram == Seq::new(SPU_RAM_SIZE as nat, |i: int| 0u8),
            r@.ram_full_addr == 0 && r@.ram_fifo.len() == 0 && !r@.transfer_fifo,
            r@.ram_addr == 0 && r@.ram_irq_addr == 0 && r@.ram_ctrl == 0,
            r@.main_vol == (0u16, 0u16) && r@.cd_input_vol == (0u16, 0u16),
            r@.ext_input_vol == (0u16, 0u16) && r@.reverb_vol == (0u16, 0u16),
            r@.control == 0 && r@.status == 0,
            r@.cycle_count == 0 && r@.samples == 0,
    {
        let mut voices: Vec<Voice> = Vec::new();
        while voices.len() < 24
            invariant
                voices.len() <= 24,
                forall|i: int| 0 <= i < voices.len() ==> (#[trigger] voices@[i]).regs() == Seq::new(8, |j: int| 0u16),
            decreases 24 - voices.len(),
        {
            voices.push(Voice::default());
        }
        let r = SPU {
            voices,
            ram: RAM::new(SPU_RAM_SIZE),
            ram_full_addr: 0,
            ram_fifo: VecDeque::new(),
            transfer_fifo: false,
            ram_addr: 0,
            ram_irq_addr: 0,
            ram_ctrl: 0,
            main_vol: StereoVolume { left: 0, right: 0 },
            cd_input_vol: StereoVolume { left: 0, right: 0 },
            ext_input_vol: StereoVolume { left: 0, right: 0 },
            reverb_vol: StereoVolume { left: 0, right: 0 },
            control: 0,
            status: 0,
            cycle_count: 0,
            samples: 0,
        };
        assert(r@.voices =~= Seq::new(24, |i: int| Seq::new(8, |j: int| 0u16)));
        r
    }

    /// Clock the unit: the interrupt, and whether a packet of samples is
    /// ready for the audio output. (The voices make silence so far.)
    pub fn clock(&mut self, cycles: usize) -> (r: SpuClockRes)
        requires
            old(self).wf(),
            clock_ok(old(self)@, cycles),
        ensures
            final(self).wf(),
            (final(self)@, r.packet_ready) == clocked(old(self)@, cycles),
            r.irq == (if spu_irq(final(self)@) { IRQ_SPU } else { 0 }),
    {
        if self.transfer_fifo {
            self.transfer_from_fifo();
        }
        self.clock_voices(cycles);
        self.cycle_count = self.cycle_count + cycles;
        let mut packet_ready = false;
        if self.cycle_count > CYCLES_PER_SAMPLE {
            self.cycle_count = self.cycle_count - CYCLES_PER_SAMPLE;
            let _sample = self.generate_sample();
            self.samples = self.samples + 1;
            if self.samples >= SAMPLE_PACKET_SIZE {
                self.samples = 0;
                packet_ready = true;
            }
        }
        let irq = if self.control & (SPU_CTRL_ENABLE | SPU_CTRL_IRQ_ENABLE) == SPU_CTRL_ENABLE | SPU_CTRL_IRQ_ENABLE
            && self.status & SPU_STAT_IRQ != 0 {
            IRQ_SPU
        } else {
            0
        };
        SpuClockRes { irq, packet_ready }
    }

    /// The clock can run.
    pub fn can_clock(&self, cycles: usize) -> (r: bool)
        requires
            self.wf(),
        ensures
            r == clock_ok(self@, cycles),
    {
        let room = !(self.transfer_fifo && self.ram_fifo.len() > 0)
            || (self.ram_full_addr as u64) + 2 <= self.ram.len() as u64;
        room && cycles <= usize::MAX - self.cycle_count
    }

    pub fn dma_ready(&self) -> (r: bool)
        ensures
            r == (self@.status & SPU_STAT_DMA_TRANSFER_REQ != 0),
    {
        self.status & SPU_STAT_DMA_TRANSFER_REQ != 0
    }

    fn clock_voices(&mut self, cycles: usize)
        requires
            old(self).wf(),
        ensures
            final(self)@ == old(self)@,
    {
        SPU::clock_voice_list(&mut self.voices, cycles);
        assert(self@.voices =~= old(self)@.voices);
    }

    fn clock_voice_list(voices: &mut Vec<Voice>, cycles: usize)
        ensures
            final(voices).len() == old(voices).len(),
            forall|j: int| 0 <= j < old(voices).len() ==> (#[trigger] final(voices)@[j]).regs() == old(voices)@[j].regs(),
    {
        let ghost before = voices@;
        let mut i: usize = 0;
        while i < voices.len()
            invariant
                i <= voices.len(),
                voices.len() == before.len(),
                forall|j: int| 0 <= j < before.len() ==> (#[trigger] voices@[j]).regs() == before[j].regs(),
            decreases voices.len() - i,
        {
            let mut voice = voices[i];
            voice.clock(cycles);
            voices.set(i, voice);
            i = i + 1;
        }
    }

    /// The sum of the voices' samples while the unit is on; the voices make
    /// silence so far.
    fn generate_sample(&self) -> (r: (i32, i32))
        requires
            self.wf(),
        ensures
            r == (0i32, 0i32),
    {
        if self.control & SPU_CTRL_ENABLE == 0 {
            return (0, 0);
        }
        let irq_addr = (self.ram_irq_addr as u32) * 8;
        let mut output: (i32, i32) = (0, 0);
        let mut i: usize = 0;
        while i < self.voices.len()
            invariant
                output == (0i32, 0i32),
            decreases self.voices.len() - i,
        {
            let voice_out = self.voices[i].get_sample(&self.ram, irq_addr);
            output = (output.0 + voice_out.0, output.1 + voice_out.1);
            i = i + 1;
        }
        output
    }

    fn transfer_from_fifo(&mut self)
        requires
            old(self).wf(),
            old(self)@.ram_fifo.len() > 0 ==> old(self)@.ram_full_addr + 2 <= old(self)@.ram.len(),
        ensures
            final(self).wf(),
            final(self)@ == fifo_step(old(self)@),
    {
        match self.ram_fifo.pop_front() {
            Some(data) => {
                self.ram.write_halfword(self.ram_full_addr, data);
                self.ram_full_addr = self.ram_full_addr + 2;
            },
            None => {
                // Done.
                self.status = self.status & !SPU_STAT_TRANSFER_BUSY;
                self.transfer_fifo = false;
            },
        }
    }

    fn set_control(&mut self, data: u16)
        ensures
            final(self)@ == control_written(old(self)@, data),
    {
        self.control = data;
        if self.control & SPU_CTRL_IRQ_ENABLE == 0 {
            // Acknowledge.
            self.status = self.status & !SPU_STAT_IRQ;
        }
        self.status = (self.status & !SPU_MODE_BITS) | (self.control & SPU_MODE_BITS);
        self.status = self.status & !SPU_STAT_DMA_BITS;
        self.transfer_fifo = false;
        let t = (self.control & SPU_CTRL_TRANSFER) >> 4;
        if t == 1 {
            // Manual.
            self.transfer_fifo = true;
            self.status = self.status | SPU_STAT_TRANSFER_BUSY;
        } else if t == 2 {
            self.status = self.status | SPU_STAT_DMA_WRITE_REQ | SPU_STAT_DMA_TRANSFER_REQ;
        } else if t == 3 {
            self.status = self.status | SPU_STAT_DMA_READ_REQ | SPU_STAT_DMA_TRANSFER_REQ;
        }
    }
    pub fn read_halfword(&self, addr: u32) -> (r: u16)
        requires
            self.wf(),
            half_read_ok(addr),
        ensures
            r == half_read(self@, addr),
    {
        if 0x1F80_1C00 <= addr && addr <= 0x1F80_1D7F {
            proof {
                lemma_voice_addr(addr);
            }
            let voice_idx = (addr >> 4) & 0x1F;
            self.voices[voice_idx as usize].read_halfword(addr & 0xF)
        } else if addr == 0x1F80_1D80 {
            self.main_vol.left
        } else if addr == 0x1F80_1D82 {
            self.main_vol.right
        } else if addr == 0x1F80_1D84 {
            self.reverb_vol.left
        } else if addr == 0x1F80_1D86 {
            self.reverb_vol.right
        } else if addr == 0x1F80_1DA4 {
            self.ram_irq_addr
        } else if addr == 0x1F80_1DA6 {
            self.ram_addr
        } else if addr == 0x1F80_1DAA {
            self.control
        } else if addr == 0x1F80_1DAC {
            self.ram_ctrl
        } else if addr == 0x1F80_1DAE {
            self.status
        } else if addr == 0x1F80_1DB0 {
            self.cd_input_vol.left
        } else if addr == 0x1F80_1DB2 {
            self.cd_input_vol.right
        } else if addr == 0x1F80_1DB4 {
            self.ext_input_vol.left
        } else if addr == 0x1F80_1DB6 {
            self.ext_input_vol.right
        } else {
            // The flags, reverb base, current volume and reverb registers.
            0
        }
    }

    pub fn write_halfword(&mut self, addr: u32, data: u16)
        requires
            old(self).wf(),
            half_write_ok(old(self)@, addr),
        ensures
            final(self).wf(),
            final(self)@ == half_written(old(self)@, addr, data),
    {
        if 0x1F80_1C00 <= addr && addr <= 0x1F80_1D7F {
            proof {
                lemma_voice_addr(addr);
            }
            let voice_idx = ((addr >> 4) & 0x1F) as usize;
            let mut voice = self.voices[voice_idx];
            voice.write_halfword(addr & 0xF, data);
            self.voices.set(voice_idx, voice);
            assert(self@.voices =~= old(self)@.voices.update(voice_index(addr),
                old(self)@.voices[voice_index(addr)].update(voice_reg(addr) / 2, data)));
        } else if addr == 0x1F80_1D80 {
            self.main_vol.left = data;
        } else if addr == 0x1F80_1D82 {
            self.main_vol.right = data;
        } else if addr == 0x1F80_1D84 {
            self.reverb_vol.left = data;
        } else if addr == 0x1F80_1D86 {
            self.reverb_vol.right = data;
        } else if addr == 0x1F80_1DA4 {
            self.ram_irq_addr = data;
        } else if addr == 0x1F80_1DA6 {
            self.ram_addr = data;
            self.ram_full_addr = (self.ram_addr as u32) << 3;
        } else if addr == 0x1F80_1DA8 {
            self.write_fifo(data);
        } else if addr == 0x1F80_1DAA {
            self.set_control(data);
        } else if addr == 0x1F80_1DAC {
            self.ram_ctrl = data;
        } else if addr == 0x1F80_1DB0 {
            self.cd_input_vol.left = data;
        } else if addr == 0x1F80_1DB2 {
            self.cd_input_vol.right = data;
        } else if addr == 0x1F80_1DB4 {
            self.ext_input_vol.left = data;
        } else if addr == 0x1F80_1DB6 {
            self.ext_input_vol.right = data;
        }
    }

    /// A word is two halfword registers, the lower address low.
    pub fn read_word(&self, addr: u32) -> (r: u32)
        requires
            self.wf(),
            half_read_ok(addr),
            half_read_ok((addr + 2) as u32),
            addr + 2 <= u32::MAX,
        ensures
            r == (half_read(self@, addr) as u32) | ((half_read(self@, (addr + 2) as u32) as u32) << 16),
    {
        let lo = self.read_halfword(addr) as u32;
        let hi = self.read_halfword(addr + 2) as u32;
        lo | (hi << 16)
    }

    pub fn write_word(&mut self, addr: u32, data: u32)
        requires
            old(self).wf(),
            half_write_ok(old(self)@, addr),
            half_write_ok(half_written(old(self)@, addr, data as u16), (addr + 2) as u32),
            addr + 2 <= u32::MAX,
        ensures
            final(self).wf(),
            final(self)@ == half_written(half_written(old(self)@, addr, data as u16), (addr + 2) as u32,
                (data >> 16) as u16),
    {
        let lo = data as u16;
        let hi = (data >> 16) as u16;
        self.write_halfword(addr, lo);
        self.write_halfword(addr + 2, hi);
    }

    /// Take a word of sound RAM by DMA.
    pub fn dma_read_word(&mut self) -> (r: DmaWord)
        requires
            old(self).wf(),
            old(self)@.ram_full_addr + 4 <= SPU_RAM_SIZE,
        ensures
            final(self).wf(),
            r.data == le32(old(self)@.ram, old(self)@.ram_full_addr as int),
            r.cycles == 1,
            final(self)@ == (SpuView { ram_full_addr: (old(self)@.ram_full_addr + 4) as u32, ..old(self)@ }),
    {
        let data = self.ram.read_word(self.ram_full_addr);
        self.ram_full_addr = self.ram_full_addr + 4;
        DmaWord { data, cycles: 1 }
    }

    /// Write a word of sound RAM by DMA; it takes one cycle.
    pub fn dma_write_word(&mut self, data: u32) -> (r: usize)
        requires
            old(self).wf(),
            old(self)@.ram_full_addr + 4 <= SPU_RAM_SIZE,
        ensures
            final(self).wf(),
            r == 1,
            le32(final(self)@.ram, old(self)@.ram_full_addr as int) == data,
            ({
                let a = old(self)@.ram_full_addr as int;
                final(self)@ == (SpuView {
                    ram: old(self)@.ram.update(a, data as u8).update(a + 1, (data >> 8) as u8)
                        .update(a + 2, (data >> 16) as u8).update(a + 3, (data >> 24) as u8),
                    ram_full_addr: (old(self)@.ram_full_addr + 4) as u32,
                    ..old(self)@
                })
            }),
    {
        self.ram.write_word(self.ram_full_addr, data);
        self.ram_full_addr = self.ram_full_addr + 4;
        1
    }

    fn write_fifo(&mut self, data: u16)
        requires
            old(self)@.ram_fifo.len() < SPU_FIFO_SIZE,
        ensures
            final(self)@ == (SpuView { ram_fifo: old(self)@.ram_fifo.push(data), ..old(self)@ }),
    {
        self.ram_fifo.push_back(data);
    }
}


/// A register that keeps what is written to it: the voice registers, the
/// volumes, and the RAM interrupt address, transfer address and transfer
/// control.
pub open spec fn plain_reg(addr: u32) -> bool {
    ||| voice_addr(addr) && addr % 2 == 0
    ||| 0x1F80_1D80 <= addr <= 0x1F80_1D86 && addr % 2 == 0
    ||| addr == 0x1F80_1DA4 || addr == 0x1F80_1DA6 || addr == 0x1F80_1DAC
    ||| 0x1F80_1DB0 <= addr <= 0x1F80_1DB6 && addr % 2 == 0
}

/// A register that keeps what is written reads back what was written last,
/// and a write can always be made to it.
pub proof fn lemma_register_read_back(s: SpuView, addr: u32, data: u16)
    requires
        spu_ok(s),
        plain_reg(addr),
    ensures
        half_write_ok(s, addr),
        half_read_ok(addr),
        half_read(half_written(s, addr, data), addr) == data,
{
    if voice_addr(addr) {
        lemma_voice_addr(addr);
    }
}

/// A step of the manual transfer stores the halfword at the front of the
/// queue at the transfer address, low byte first, and moves the address on
/// by two.
pub proof fn lemma_transfer_writes_ram(s: SpuView)
    requires
        spu_ok(s),
        s.ram_fifo.len() > 0,
        s.ram_full_addr + 2 <= s.ram.len(),
    ensures
        crate::mem::ram::le16(fifo_step(s).ram, s.ram_full_addr as int) == s.ram_fifo[0],
        fifo_step(s).ram_full_addr == s.ram_full_addr + 2,
        fifo_step(s).ram_fifo == s.ram_fifo.drop_first(),
{
    crate::utils::bits::lemma_u16_bytes(s.ram_fifo[0]);
}

} // verus!
