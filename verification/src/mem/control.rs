use vstd::prelude::*;
use crate::utils::interface::{MemInterface, word_access, lemma_word_access_aligned};

verus! {

/// The registers of the memory bus control block, by address.
pub open spec fn is_mem_control_reg(addr: u32) -> bool {
    addr == 0x1F80_1000 || addr == 0x1F80_1004 || addr == 0x1F80_1008 || addr == 0x1F80_100C
        || addr == 0x1F80_1010 || addr == 0x1F80_1014 || addr == 0x1F80_1018 || addr == 0x1F80_101C
        || addr == 0x1F80_1020 || addr == 0x1F80_1060
}

/// PSX Memory bus control.
pub struct MemControl {
    exp_1_base_addr: u32,
    exp_2_base_addr: u32,
    exp_1_delay_size: u32,
    exp_2_delay_size: u32,
    exp_3_delay_size: u32,
    bios_delay_size: u32,
    spu_delay_size: u32,
    cdrom_delay_size: u32,
    common_delay: u32,
    ram_size: u32,
}

impl MemControl {
    /// The value of the register at `addr`.
    pub closed spec fn reg(&self, addr: u32) -> u32 {
        if addr == 0x1F80_1000 {
            self.exp_1_base_addr
        } else if addr == 0x1F80_1004 {
            self.exp_2_base_addr
        } else if addr == 0x1F80_1008 {
            self.exp_1_delay_size
        } else if addr == 0x1F80_100C {
            self.exp_3_delay_size
        } else if addr == 0x1F80_1010 {
            self.bios_delay_size
        } else if addr == 0x1F80_1014 {
            self.spu_delay_size
        } else if addr == 0x1F80_1018 {
            self.cdrom_delay_size
        } else if addr == 0x1F80_101C {
            self.exp_2_delay_size
        } else if addr == 0x1F80_1020 {
            self.common_delay
        } else {
            self.ram_size
        }
    }

    pub fn new() -> (r: Self)
        ensures
            r.reg(0x1F80_1000) == 0x1F00_0000,
            r.reg(0x1F80_1004) == 0x1F80_2000,
            forall|a: u32| is_mem_control_reg(a) && a != 0x1F80_1000 && a != 0x1F80_1004 ==> #[trigger] r.reg(a) == 0,
    {
        Self {
            exp_1_base_addr: 0x1F00_0000,
            exp_2_base_addr: 0x1F80_2000,
            exp_1_delay_size: 0,
            exp_2_delay_size: 0,
            exp_3_delay_size: 0,
            bios_delay_size: 0,
            spu_delay_size: 0,
            cdrom_delay_size: 0,
            common_delay: 0,
            ram_size: 0,
        }
    }
}

impl MemInterface for MemControl {
    open spec fn readable(addr: u32, width: u32) -> bool {
        word_access(addr & 0xFFFF_FFFC, addr, width) && is_mem_control_reg(addr & 0xFFFF_FFFC)
    }

    open spec fn writable(addr: u32, width: u32) -> bool {
        Self::readable(addr, width)
    }

    open spec fn word_read(before: MemControl, after: MemControl, addr: u32, r: u32) -> bool {
        &&& r == before.reg(addr)
        &&& after == before
    }

    open spec fn word_written(before: MemControl, after: MemControl, addr: u32, data: u32) -> bool {
        &&& after.reg(addr) == data
        &&& (forall|a: u32| is_mem_control_reg(a) && a != addr ==> #[trigger] after.reg(a) == before.reg(a))
    }

    proof fn lemma_read_byte(addr: u32) {
        lemma_word_access_aligned(addr);
    }

    proof fn lemma_write_byte(addr: u32) {
        lemma_word_access_aligned(addr);
    }

    proof fn lemma_read_halfword(addr: u32) {
        lemma_word_access_aligned(addr);
    }

    proof fn lemma_write_halfword(addr: u32) {
        lemma_word_access_aligned(addr);
    }

    fn read_word(&mut self, addr: u32) -> (r: u32)
        ensures
            r == old(self).reg(addr),
            *final(self) == *old(self),
    {
        if addr == 0x1F80_1000 {
            self.exp_1_base_addr
        } else if addr == 0x1F80_1004 {
            self.exp_2_base_addr
        } else if addr == 0x1F80_1008 {
            self.exp_1_delay_size
        } else if addr == 0x1F80_100C {
            self.exp_3_delay_size
        } else if addr == 0x1F80_1010 {
            self.bios_delay_size
        } else if addr == 0x1F80_1014 {
            self.spu_delay_size
        } else if addr == 0x1F80_1018 {
            self.cdrom_delay_size
        } else if addr == 0x1F80_101C {
            self.exp_2_delay_size
        } else if addr == 0x1F80_1020 {
            self.common_delay
        } else {
            self.ram_size
        }
    }

    fn write_word(&mut self, addr: u32, data: u32)
        ensures
            final(self).reg(addr) == data,
            forall|a: u32| is_mem_control_reg(a) && a != addr ==> #[trigger] final(self).reg(a) == old(self).reg(a),
    {
        if addr == 0x1F80_1000 {
            self.exp_1_base_addr = data
        } else if addr == 0x1F80_1004 {
            self.exp_2_base_addr = data
        } else if addr == 0x1F80_1008 {
            self.exp_1_delay_size = data
        } else if addr == 0x1F80_100C {
            self.exp_3_delay_size = data
        } else if addr == 0x1F80_1010 {
            self.bios_delay_size = data
        } else if addr == 0x1F80_1014 {
            self.spu_delay_size = data
        } else if addr == 0x1F80_1018 {
            self.cdrom_delay_size = data
        } else if addr == 0x1F80_101C {
            self.exp_2_delay_size = data
        } else if addr == 0x1F80_1020 {
            self.common_delay = data
        } else {
            self.ram_size = data
        }
    }
}

} // verus!
