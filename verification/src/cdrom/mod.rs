//! The CD-ROM drive: disc positions, sector headers, and cue sheets.

pub mod cue;
pub mod disc;
pub mod drive;
pub mod xa;

pub use drive::CDROM;

use vstd::prelude::*;

verus! {

/// CD sectors are 2352 bytes.
pub const SECTOR_SIZE: u64 = 2352;

/// A position on the disc: minutes, seconds and sectors (75 per second).
#[derive(Clone, Copy, PartialEq, Eq, Structural, Debug)]
pub struct DriveLoc {
    pub minute: u8,
    pub second: u8,
    pub sector: u8,
}

/// The position of `loc` in bytes from the start of the disc, counting
/// sectors of 2352 bytes.
pub open spec fn loc_bytes(loc: DriveLoc) -> int {
    (loc.minute * 60 * 75 + loc.second * 75 + loc.sector) * SECTOR_SIZE
}

/// The data starts two seconds into the disc.
pub open spec fn root_offset() -> int {
    2 * 75 * SECTOR_SIZE
}

impl DriveLoc {
    /// The byte offset of this position into the data, which starts two
    /// seconds into the disc.
    pub fn byte_offset(&self) -> (r: u64)
        requires
            loc_bytes(*self) >= root_offset(),
        ensures
            r == loc_bytes(*self) - root_offset(),
    {
        let sec_size: u64 = 75 * SECTOR_SIZE;
        let min_size: u64 = 60 * sec_size;
        let root: u64 = 2 * sec_size;
        let sector_offset = (self.sector as u64) * SECTOR_SIZE;
        let sec_offset = (self.second as u64) * sec_size;
        let min_offset = (self.minute as u64) * min_size;
        min_offset + sec_offset + sector_offset - root
    }
}

} // verus!
