use vstd::prelude::*;
use super::ram::{le16, le32};

verus! {

/// Size of the BIOS ROM in bytes.
pub const BIOS_SIZE: usize = 512 * 1024;

/// The BIOS ROM.
pub struct BIOS {
    data: Vec<u8>,
}

impl BIOS {
    /// The ROM contents.
    pub closed spec fn bytes(&self) -> Seq<u8> {
        self.data@
    }

    /// A ROM whose first bytes are `image` (at most `BIOS_SIZE` of them are
    /// used), padded with zeroes to `BIOS_SIZE` bytes.
    ///
    /// Reading the image from a file is done by the caller.
    pub fn new(image: &[u8]) -> (r: Self)
        ensures
            r.bytes().len() == BIOS_SIZE,
            forall|i: int| 0 <= i < BIOS_SIZE ==> #[trigger] r.bytes()[i] == if i < image@.len() { image@[i] } else { 0u8 },
    {
        let mut data: Vec<u8> = Vec::new();
        let mut i: usize = 0;
        while i < BIOS_SIZE
            invariant
                i <= BIOS_SIZE,
                data@.len() == i,
                forall|j: int| 0 <= j < i ==> #[trigger] data@[j] == if j < image@.len() { image@[j] } else { 0u8 },
            decreases BIOS_SIZE - i,
        {
            let b = if i < image.len() { image[i] } else { 0 };
            data.push(b);
            i = i + 1;
        }
        Self { data }
    }

    pub fn read_byte(&self, addr: u32) -> (r: u8)
        requires
            addr < self.bytes().len(),
        ensures
            r == self.bytes()[addr as int],
    {
        self.data[addr as usize]
    }

    /// Read 2 bytes in little-endian order.
    pub fn read_halfword(&self, addr: u32) -> (r: u16)
        requires
            addr + 2 <= self.bytes().len(),
        ensures
            r == le16(self.bytes(), addr as int),
    {
        let a = addr as usize;
        assert(self.data@.len() == self.data.len());
        (self.data[a] as u16) | ((self.data[a + 1] as u16) << 8)
    }

    /// Read 4 bytes in little-endian order.
    pub fn read_word(&self, addr: u32) -> (r: u32)
        requires
            addr + 4 <= self.bytes().len(),
        ensures
            r == le32(self.bytes(), addr as int),
    {
        let a = addr as usize;
        assert(self.data@.len() == self.data.len());
        (self.data[a] as u32) | ((self.data[a + 1] as u32) << 8) | ((self.data[a + 2] as u32) << 16)
            | ((self.data[a + 3] as u32) << 24)
    }
}

} // verus!
