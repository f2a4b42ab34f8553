use vstd::prelude::*;
use crate::utils::interface::{MemInterface, word_access, lemma_word_access_aligned};

verus! {

/// Interrupt lines of the PlayStation, as bits of the interrupt status word.
pub const IRQ_VBLANK: u32 = 0x001;
pub const IRQ_GPU: u32 = 0x002;
pub const IRQ_CDROM: u32 = 0x004;
pub const IRQ_DMA: u32 = 0x008;
pub const IRQ_TIMER0: u32 = 0x010;
pub const IRQ_TIMER1: u32 = 0x020;
pub const IRQ_TIMER2: u32 = 0x040;
pub const IRQ_PERIPHERAL: u32 = 0x080;
pub const IRQ_SIO: u32 = 0x100;
pub const IRQ_SPU: u32 = 0x200;
pub const IRQ_CONTROLLER_LIGHTPEN: u32 = 0x400;

/// All interrupt lines together.
pub const IRQ_ALL: u32 = 0x7FF;

/// Address of the interrupt status register.
pub const I_STAT_ADDR: u32 = 0x1F80_1070;
/// Address of the interrupt mask register.
pub const I_MASK_ADDR: u32 = 0x1F80_1074;

/// A set of interrupt lines holds no bit outside the defined lines.
pub open spec fn is_irq_set(bits: u32) -> bool {
    bits & !IRQ_ALL == 0
}

/// How the controller's updates keep a set of lines within the defined lines.
proof fn lemma_irq_set_ops(s: u32, irq: u32, data: u32)
    by (bit_vector)
    ensures
        0u32 & !IRQ_ALL == 0,
        (data & IRQ_ALL) & !IRQ_ALL == 0,
        s & !IRQ_ALL == 0 && irq & !IRQ_ALL == 0 ==> (s | irq) & !IRQ_ALL == 0,
        s & !IRQ_ALL == 0 ==> s & !(!data & IRQ_ALL) == s & data,
        s & !IRQ_ALL == 0 ==> (s & data) & !IRQ_ALL == 0,
{
}

/// Interrupt controller: pending interrupts and the interrupt mask.
pub struct InterruptControl {
    status: u32,
    mask: u32,
}

impl InterruptControl {
    #[verifier::type_invariant]
    spec fn inv(self) -> bool {
        is_irq_set(self.status) && is_irq_set(self.mask)
    }

    /// Pending interrupt lines.
    pub closed spec fn pending(&self) -> u32 {
        self.status
    }

    /// Enabled interrupt lines.
    pub closed spec fn enabled(&self) -> u32 {
        self.mask
    }

    pub fn new() -> (r: Self)
        ensures
            r.pending() == 0,
            r.enabled() == 0,
    {
        proof {
            lemma_irq_set_ops(0, 0, 0);
        }
        Self { status: 0, mask: 0 }
    }

    /// Trigger newly occurring interrupts.
    pub fn trigger_irq(&mut self, irq: u32)
        requires
            is_irq_set(irq),
        ensures
            final(self).pending() == old(self).pending() | irq,
            final(self).enabled() == old(self).enabled(),
    {
        proof {
            use_type_invariant(&*self);
            lemma_irq_set_ops(self.status, irq, 0);
        }
        self.status = self.status | irq;
    }

    /// Returns true if any pending interrupts overlap with the interrupt mask.
    pub fn check_irq(&self) -> (r: bool)
        ensures
            r == (self.pending() & self.enabled() != 0),
    {
        self.status & self.mask != 0
    }

    /// Clear the pending lines whose bit is 0 in `data`.
    fn acknowledge_irq(&mut self, data: u32)
        ensures
            final(self).pending() == old(self).pending() & data,
            final(self).enabled() == old(self).enabled(),
    {
        proof {
            use_type_invariant(&*self);
            lemma_irq_set_ops(self.status, 0, data);
        }
        let ack = !data & IRQ_ALL;
        self.status = self.status & !ack;
    }

    fn set_mask(&mut self, data: u32)
        ensures
            final(self).enabled() == data & IRQ_ALL,
            final(self).pending() == old(self).pending(),
    {
        proof {
            use_type_invariant(&*self);
            lemma_irq_set_ops(0, 0, data);
        }
        self.mask = data & IRQ_ALL;
    }
}

impl MemInterface for InterruptControl {
    open spec fn readable(addr: u32, width: u32) -> bool {
        word_access(addr & 0xFFFF_FFFC, addr, width)
            && (addr & 0xFFFF_FFFC == I_STAT_ADDR || addr & 0xFFFF_FFFC == I_MASK_ADDR)
    }

    open spec fn writable(addr: u32, width: u32) -> bool {
        Self::readable(addr, width)
    }

    open spec fn word_read(before: InterruptControl, after: InterruptControl, addr: u32, r: u32) -> bool {
        &&& (addr == I_STAT_ADDR ==> r == before.pending())
        &&& (addr == I_MASK_ADDR ==> r == before.enabled())
        &&& after.pending() == before.pending()
        &&& after.enabled() == before.enabled()
    }

    open spec fn word_written(before: InterruptControl, after: InterruptControl, addr: u32, data: u32) -> bool {
        &&& (addr == I_STAT_ADDR ==> after.pending() == before.pending() & data
                && after.enabled() == before.enabled())
        &&& (addr == I_MASK_ADDR ==> after.enabled() == data & IRQ_ALL
                && after.pending() == before.pending())
    }

    proof fn lemma_read_byte(addr: u32) {
        lemma_word_access_aligned(addr);
    }

    proof fn lemma_write_byte(addr: u32) {
        lemma_word_access_aligned(addr);
    }

    proof fn lemma_read_halfword(addr: u32) {
        lemma_word_access_aligned(addr);
    }

    proof fn lemma_write_halfword(addr: u32) {
        lemma_word_access_aligned(addr);
    }

    fn read_word(&mut self, addr: u32) -> (r: u32)
        ensures
            addr == I_STAT_ADDR ==> r == old(self).pending(),
            addr == I_MASK_ADDR ==> r == old(self).enabled(),
            final(self).pending() == old(self).pending(),
            final(self).enabled() == old(self).enabled(),
    {
        if addr == I_STAT_ADDR {
            self.status
        } else {
            self.mask
        }
    }

    fn write_word(&mut self, addr: u32, data: u32)
        ensures
            addr == I_STAT_ADDR ==> final(self).pending() == old(self).pending() & data
                && final(self).enabled() == old(self).enabled(),
            addr == I_MASK_ADDR ==> final(self).enabled() == data & IRQ_ALL
                && final(self).pending() == old(self).pending(),
    {
        if addr == I_STAT_ADDR {
            self.acknowledge_irq(data)
        } else {
            self.set_mask(data)
        }
    }
}

/// A triggered interrupt whose line is enabled is reported by `check_irq`.
pub proof fn lemma_triggered_enabled_irq_reported(pending: u32, irq: u32, mask: u32)
    by (bit_vector)
    requires
        irq & mask != 0,
    ensures
        (pending | irq) & mask != 0,
{
}

/// Acknowledging a line (writing 0 in its bit) clears it, and leaves
/// the lines written as 1 as they were.
pub proof fn lemma_acknowledge_clears(pending: u32, data: u32, line: u32)
    by (bit_vector)
    requires
        line < 32,
    ensures
        (data >> line) & 1 == 0 ==> ((pending & data) >> line) & 1 == 0,
        (data >> line) & 1 == 1 ==> ((pending & data) >> line) & 1 == (pending >> line) & 1,
{
}

} // verus!
