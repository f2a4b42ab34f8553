use vstd::prelude::*;
use crate::utils::interface::{MemInterface, lemma_word_access_aligned};

verus! {

/// Address of the POST (boot status) register of expansion port 2.
pub const BOOT_STATUS_ADDR: u32 = 0x1F80_2041;

/// Expansion port 1: nothing is attached. Reads give 0, writes are ignored.
pub struct ExpansionPort1 {}

impl ExpansionPort1 {
    pub fn new() -> (r: Self) {
        Self {}
    }
}

impl MemInterface for ExpansionPort1 {
    open spec fn readable(addr: u32, width: u32) -> bool {
        (width == 1 || width == 4 || (width == 2 && addr & 3 < 3))
    }

    open spec fn writable(addr: u32, width: u32) -> bool {
        Self::readable(addr, width)
    }

    open spec fn word_read(before: ExpansionPort1, after: ExpansionPort1, addr: u32, r: u32) -> bool {
        r == 0
    }

    open spec fn word_written(before: ExpansionPort1, after: ExpansionPort1, addr: u32, data: u32) -> bool {
        after == before
    }

    proof fn lemma_read_byte(addr: u32) {
    }

    proof fn lemma_write_byte(addr: u32) {
    }

    proof fn lemma_read_halfword(addr: u32) {
    }

    proof fn lemma_write_halfword(addr: u32) {
    }

    fn read_word(&mut self, _addr: u32) -> (r: u32)
        ensures
            r == 0,
    {
        0
    }

    fn write_word(&mut self, _addr: u32, _data: u32) {
    }
}

/// Expansion port 2: holds the boot status written by the BIOS.
pub struct ExpansionPort2 {
    boot_status: u8,
}

impl ExpansionPort2 {
    /// The last boot status written.
    pub closed spec fn status(&self) -> u8 {
        self.boot_status
    }

    pub fn new() -> (r: Self)
        ensures
            r.status() == 0,
    {
        Self { boot_status: 0 }
    }

    fn write_boot_status(&mut self, data: u8)
        ensures
            final(self).status() == data,
    {
        self.boot_status = data;
    }
}

impl MemInterface for ExpansionPort2 {
    /// Reads of any size anywhere give 0.
    open spec fn readable(addr: u32, width: u32) -> bool {
        (width == 1 || width == 4 || (width == 2 && addr & 3 < 3))
    }

    /// Only the four byte registers at 0x1F802040..=0x1F802043 can be written.
    open spec fn writable(addr: u32, width: u32) -> bool {
        (width == 1 && 0x1F80_2040 <= addr <= 0x1F80_2043) || (width == 4 && addr == 0x1F80_2040)
            || (width == 2 && (addr == 0x1F80_2040 || addr == 0x1F80_2041 || addr == 0x1F80_2042))
    }

    open spec fn word_read(before: ExpansionPort2, after: ExpansionPort2, addr: u32, r: u32) -> bool {
        r == 0 && after.status() == before.status()
    }

    open spec fn word_written(before: ExpansionPort2, after: ExpansionPort2, addr: u32, data: u32) -> bool {
        after.status() == (data >> 8) as u8
    }

    proof fn lemma_read_byte(addr: u32) {
    }

    proof fn lemma_write_byte(addr: u32) {
        lemma_word_access_aligned(addr);
    }

    proof fn lemma_read_halfword(addr: u32) {
    }

    proof fn lemma_write_halfword(addr: u32) {
        lemma_word_access_aligned(addr);
    }

    fn read_word(&mut self, _addr: u32) -> (r: u32)
        ensures
            r == 0,
            final(self).status() == old(self).status(),
    {
        0
    }

    fn write_word(&mut self, addr: u32, data: u32)
        ensures
            final(self).status() == (data >> 8) as u8,
    {
        self.write_byte(addr, data as u8);
        self.write_byte(addr + 1, (data >> 8) as u8);
        self.write_byte(addr + 2, (data >> 16) as u8);
        self.write_byte(addr + 3, (data >> 24) as u8);
    }

    fn write_byte(&mut self, addr: u32, data: u8)
        ensures
            addr == BOOT_STATUS_ADDR ==> final(self).status() == data,
            addr != BOOT_STATUS_ADDR ==> final(self).status() == old(self).status(),
    {
        if addr == BOOT_STATUS_ADDR {
            self.write_boot_status(data);
        }
    }
}

} // verus!
