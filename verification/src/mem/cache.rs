use vstd::prelude::*;
use crate::utils::interface::{MemInterface, lemma_word_access_aligned};
use super::ram::{le16, le32};

verus! {

/// Size of the instruction cache in bytes.
pub const ICACHE_SIZE: u32 = 1024 * 4;

/// Instruction Cache for CPU.
///
/// 4kB
pub struct ICache {
    data: [u8; 4096],
}

impl ICache {
    /// The cached bytes.
    pub closed spec fn bytes(&self) -> Seq<u8> {
        self.data@
    }

    pub fn new() -> (r: Self)
        ensures
            r.bytes() == Seq::new(ICACHE_SIZE as nat, |i: int| 0u8),
    {
        let r = Self { data: [0; 4096] };
        assert(r.bytes() =~= Seq::new(ICACHE_SIZE as nat, |i: int| 0u8));
        r
    }
}

impl MemInterface for ICache {
    open spec fn readable(addr: u32, width: u32) -> bool {
        (width == 1 || width == 4 || (width == 2 && addr & 3 < 3)) && addr + width <= ICACHE_SIZE
    }

    open spec fn writable(addr: u32, width: u32) -> bool {
        Self::readable(addr, width)
    }

    open spec fn word_read(before: ICache, after: ICache, addr: u32, r: u32) -> bool {
        &&& r == le32(before.bytes(), addr as int)
        &&& after.bytes() == before.bytes()
    }

    open spec fn word_written(before: ICache, after: ICache, addr: u32, data: u32) -> bool {
        &&& after.bytes() == before.bytes().update(addr as int, data as u8).update(addr + 1, (data >> 8) as u8)
                .update(addr + 2, (data >> 16) as u8).update(addr + 3, (data >> 24) as u8)
    }

    proof fn lemma_read_byte(addr: u32) {
        lemma_word_access_aligned(addr);
    }

    proof fn lemma_write_byte(addr: u32) {
        lemma_word_access_aligned(addr);
    }

    proof fn lemma_read_halfword(addr: u32) {
        lemma_word_access_aligned(addr);
    }

    proof fn lemma_write_halfword(addr: u32) {
        lemma_word_access_aligned(addr);
    }

    fn read_byte(&mut self, addr: u32) -> (r: u8)
        ensures
            r == old(self).bytes()[addr as int],
            final(self).bytes() == old(self).bytes(),
    {
        self.data[addr as usize]
    }

    fn read_halfword(&mut self, addr: u32) -> (r: u16)
        ensures
            r == le16(old(self).bytes(), addr as int),
            final(self).bytes() == old(self).bytes(),
    {
        let a = addr as usize;
        (self.data[a] as u16) | ((self.data[a + 1] as u16) << 8)
    }

    fn read_word(&mut self, addr: u32) -> (r: u32)
        ensures
            r == le32(old(self).bytes(), addr as int),
            final(self).bytes() == old(self).bytes(),
    {
        let a = addr as usize;
        (self.data[a] as u32) | ((self.data[a + 1] as u32) << 8) | ((self.data[a + 2] as u32) << 16)
            | ((self.data[a + 3] as u32) << 24)
    }

    fn write_byte(&mut self, addr: u32, data: u8)
        ensures
            final(self).bytes() == old(self).bytes().update(addr as int, data),
    {
        self.data[addr as usize] = data;
        assert(self.bytes() =~= old(self).bytes().update(addr as int, data));
    }

    fn write_halfword(&mut self, addr: u32, data: u16)
        ensures
            final(self).bytes() == old(self).bytes().update(addr as int, data as u8).update(addr + 1, (data >> 8) as u8),
    {
        let a = addr as usize;
        self.data[a] = data as u8;
        self.data[a + 1] = (data >> 8) as u8;
        assert(self.bytes() =~= old(self).bytes().update(addr as int, data as u8).update(addr + 1, (data >> 8) as u8));
    }

    fn write_word(&mut self, addr: u32, data: u32)
        ensures
            final(self).bytes() == old(self).bytes().update(addr as int, data as u8).update(addr + 1, (data >> 8) as u8)
                .update(addr + 2, (data >> 16) as u8).update(addr + 3, (data >> 24) as u8),
    {
        let a = addr as usize;
        self.data[a] = data as u8;
        self.data[a + 1] = (data >> 8) as u8;
        self.data[a + 2] = (data >> 16) as u8;
        self.data[a + 3] = (data >> 24) as u8;
        assert(self.bytes() =~= old(self).bytes().update(addr as int, data as u8).update(addr + 1, (data >> 8) as u8)
            .update(addr + 2, (data >> 16) as u8).update(addr + 3, (data >> 24) as u8));
    }
}

} // verus!
