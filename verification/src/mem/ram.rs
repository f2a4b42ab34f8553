use vstd::prelude::*;
use crate::utils::bits::{lemma_u16_bytes, lemma_u32_bytes};

verus! {

/// Little-endian halfword of a byte sequence at `a`.
pub open spec fn le16(b: Seq<u8>, a: int) -> u16 {
    ((b[a] as u16) | ((b[a + 1] as u16) << 8)) as u16
}

/// Little-endian word of a byte sequence at `a`.
pub open spec fn le32(b: Seq<u8>, a: int) -> u32 {
    ((b[a] as u32) | ((b[a + 1] as u32) << 8) | ((b[a + 2] as u32) << 16) | ((b[a + 3] as u32) << 24)) as u32
}

/// A block of read-write RAM.
pub struct RAM {
    data: Vec<u8>,
}

impl RAM {
    /// The bytes held.
    pub closed spec fn bytes(&self) -> Seq<u8> {
        self.data@
    }

    /// A block of `size` zero bytes.
    pub fn new(size: usize) -> (r: Self)
        ensures
            r.bytes() == Seq::new(size as nat, |i: int| 0u8),
    {
        let mut data: Vec<u8> = Vec::new();
        let mut i: usize = 0;
        while i < size
            invariant
                i <= size,
                data@ == Seq::new(i as nat, |j: int| 0u8),
            decreases size - i,
        {
            data.push(0);
            i = i + 1;
            assert(data@ =~= Seq::new(i as nat, |j: int| 0u8));
        }
        assert(data@ =~= Seq::new(size as nat, |j: int| 0u8));
        Self { data }
    }

    /// The size in bytes.
    pub fn len(&self) -> (r: usize)
        ensures
            r == self.bytes().len(),
    {
        self.data.len()
    }

    pub fn read_byte(&self, addr: u32) -> (r: u8)
        requires
            addr < self.bytes().len(),
        ensures
            r == self.bytes()[addr as int],
    {
        self.data[addr as usize]
    }

    pub fn write_byte(&mut self, addr: u32, data: u8)
        requires
            addr < old(self).bytes().len(),
        ensures
            final(self).bytes() == old(self).bytes().update(addr as int, data),
    {
        self.data.set(addr as usize, data);
    }

    /// Read 2 bytes in little-endian order.
    pub fn read_halfword(&self, addr: u32) -> (r: u16)
        requires
            addr + 2 <= self.bytes().len(),
        ensures
            r == le16(self.bytes(), addr as int),
    {
        let a = addr as usize;
        assert(self.data@.len() == self.data.len());
        (self.data[a] as u16) | ((self.data[a + 1] as u16) << 8)
    }

    /// Write 2 bytes in little-endian order.
    pub fn write_halfword(&mut self, addr: u32, data: u16)
        requires
            addr + 2 <= old(self).bytes().len(),
        ensures
            final(self).bytes() == old(self).bytes().update(addr as int, data as u8).update(addr + 1, (data >> 8) as u8),
            le16(final(self).bytes(), addr as int) == data,
    {
        let a = addr as usize;
        assert(self.data@.len() == self.data.len());
        self.data.set(a, data as u8);
        self.data.set(a + 1, (data >> 8) as u8);
        proof {
            lemma_u16_bytes(data);
        }
    }

    /// Read 4 bytes in little-endian order.
    pub fn read_word(&self, addr: u32) -> (r: u32)
        requires
            addr + 4 <= self.bytes().len(),
        ensures
            r == le32(self.bytes(), addr as int),
    {
        let a = addr as usize;
        assert(self.data@.len() == self.data.len());
        (self.data[a] as u32) | ((self.data[a + 1] as u32) << 8) | ((self.data[a + 2] as u32) << 16)
            | ((self.data[a + 3] as u32) << 24)
    }

    /// Write 4 bytes in little-endian order.
    pub fn write_word(&mut self, addr: u32, data: u32)
        requires
            addr + 4 <= old(self).bytes().len(),
        ensures
            final(self).bytes() == old(self).bytes().update(addr as int, data as u8).update(addr + 1, (data >> 8) as u8)
                .update(addr + 2, (data >> 16) as u8).update(addr + 3, (data >> 24) as u8),
            le32(final(self).bytes(), addr as int) == data,
    {
        let a = addr as usize;
        assert(self.data@.len() == self.data.len());
        self.data.set(a, data as u8);
        self.data.set(a + 1, (data >> 8) as u8);
        self.data.set(a + 2, (data >> 16) as u8);
        self.data.set(a + 3, (data >> 24) as u8);
        proof {
            lemma_u32_bytes(data);
        }
    }
}

/// Reading a word just written at the same address gives it back, and the
/// bytes outside the word keep their values.
pub proof fn lemma_word_write_read(b: Seq<u8>, addr: int, data: u32, other: int)
    requires
        0 <= addr,
        addr + 4 <= b.len(),
        0 <= other < b.len(),
        other < addr || other >= addr + 4,
    ensures
        le32(b.update(addr, data as u8).update(addr + 1, (data >> 8) as u8).update(addr + 2, (data >> 16) as u8)
            .update(addr + 3, (data >> 24) as u8), addr) == data,
        b.update(addr, data as u8).update(addr + 1, (data >> 8) as u8).update(addr + 2, (data >> 16) as u8)
            .update(addr + 3, (data >> 24) as u8)[other] == b[other],
{
    lemma_u32_bytes(data);
}

} // verus!
