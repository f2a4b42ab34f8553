//! The physical memory map of the bus: which device or memory answers an
//! address, at which offset, and how many cycles an access takes.

use vstd::prelude::*;

verus! {

/// The I/O devices behind the register window at 0x1F80_1000.
#[derive(Clone, Copy, PartialEq, Eq, Structural, Debug)]
pub enum IoDevice {
    MemControl,
    Peripheral,
    Interrupts,
    Dma,
    Timers,
    Cdrom,
    Gpu,
    Mdec,
    Spu,
}

/// Where an address leads: a memory with the offset into it, or a device
/// with the full address.
#[derive(Clone, Copy, PartialEq, Eq, Structural, Debug)]
pub enum Region {
    MainRam(u32),
    Expansion1(u32),
    Scratchpad(u32),
    Io(IoDevice, u32),
    Expansion2(u32),
    Bios(u32),
}

/// The device whose registers hold `addr`, if any.
pub open spec fn io_device_of(addr: u32) -> Option<IoDevice> {
    if 0x1F80_1000 <= addr <= 0x1F80_1023 {
        Some(IoDevice::MemControl)
    } else if 0x1F80_1040 <= addr <= 0x1F80_104F {
        Some(IoDevice::Peripheral)
    } else if 0x1F80_1060 <= addr <= 0x1F80_1063 {
        Some(IoDevice::MemControl)
    } else if 0x1F80_1070 <= addr <= 0x1F80_1077 {
        Some(IoDevice::Interrupts)
    } else if 0x1F80_1080 <= addr <= 0x1F80_10FF {
        Some(IoDevice::Dma)
    } else if 0x1F80_1100 <= addr <= 0x1F80_1129 {
        Some(IoDevice::Timers)
    } else if 0x1F80_1800 <= addr <= 0x1F80_1807 {
        Some(IoDevice::Cdrom)
    } else if 0x1F80_1810 <= addr <= 0x1F80_1817 {
        Some(IoDevice::Gpu)
    } else if 0x1F80_1820 <= addr <= 0x1F80_1827 {
        Some(IoDevice::Mdec)
    } else if 0x1F80_1C00 <= addr <= 0x1F80_1FFF {
        Some(IoDevice::Spu)
    } else {
        None
    }
}

/// The region of `addr`: 2 MiB of main RAM mirrored over 8 MiB, the
/// expansion ports, 1 KiB of scratchpad, the I/O registers and 512 KiB of
/// BIOS. `None` where nothing answers.
pub open spec fn region_of(addr: u32) -> Option<Region> {
    if addr <= 0x007F_FFFF {
        Some(Region::MainRam((addr % 0x20_0000) as u32))
    } else if 0x1F00_0000 <= addr <= 0x1F7F_FFFF {
        Some(Region::Expansion1(addr))
    } else if 0x1F80_0000 <= addr <= 0x1F80_03FF {
        Some(Region::Scratchpad((addr % 0x400) as u32))
    } else if 0x1F80_1000 <= addr <= 0x1F80_1FFF {
        match io_device_of(addr) {
            Some(d) => Some(Region::Io(d, addr)),
            None => None,
        }
    } else if 0x1F80_2000 <= addr <= 0x1F80_2FFF {
        Some(Region::Expansion2(addr))
    } else if 0x1FC0_0000 <= addr <= 0x1FC7_FFFF {
        Some(Region::Bios((addr % 0x8_0000) as u32))
    } else {
        None
    }
}

proof fn lemma_masks(addr: u32)
    by (bit_vector)
    ensures
        addr & 0x1F_FFFF == addr % 0x20_0000,
        addr & 0x3FF == addr % 0x400,
        addr & 0x7_FFFF == addr % 0x8_0000,
{
}

/// The device whose registers hold `addr`.
pub fn io_device(addr: u32) -> (r: Option<IoDevice>)
    ensures
        r == io_device_of(addr),
{
    if 0x1F80_1000 <= addr && addr <= 0x1F80_1023 {
        Some(IoDevice::MemControl)
    } else if 0x1F80_1040 <= addr && addr <= 0x1F80_104F {
        Some(IoDevice::Peripheral)
    } else if 0x1F80_1060 <= addr && addr <= 0x1F80_1063 {
        Some(IoDevice::MemControl)
    } else if 0x1F80_1070 <= addr && addr <= 0x1F80_1077 {
        Some(IoDevice::Interrupts)
    } else if 0x1F80_1080 <= addr && addr <= 0x1F80_10FF {
        Some(IoDevice::Dma)
    } else if 0x1F80_1100 <= addr && addr <= 0x1F80_1129 {
        Some(IoDevice::Timers)
    } else if 0x1F80_1800 <= addr && addr <= 0x1F80_1807 {
        Some(IoDevice::Cdrom)
    } else if 0x1F80_1810 <= addr && addr <= 0x1F80_1817 {
        Some(IoDevice::Gpu)
    } else if 0x1F80_1820 <= addr && addr <= 0x1F80_1827 {
        Some(IoDevice::Mdec)
    } else if 0x1F80_1C00 <= addr && addr <= 0x1F80_1FFF {
        Some(IoDevice::Spu)
    } else {
        None
    }
}

/// Decode a physical address.
pub fn decode(addr: u32) -> (r: Option<Region>)
    ensures
        r == region_of(addr),
{
    proof {
        lemma_masks(addr);
    }
    if addr <= 0x007F_FFFF {
        Some(Region::MainRam(addr & 0x1F_FFFF))
    } else if 0x1F00_0000 <= addr && addr <= 0x1F7F_FFFF {
        Some(Region::Expansion1(addr))
    } else if 0x1F80_0000 <= addr && addr <= 0x1F80_03FF {
        Some(Region::Scratchpad(addr & 0x3FF))
    } else if 0x1F80_1000 <= addr && addr <= 0x1F80_1FFF {
        match io_device(addr) {
            Some(d) => Some(Region::Io(d, addr)),
            None => None,
        }
    } else if 0x1F80_2000 <= addr && addr <= 0x1F80_2FFF {
        Some(Region::Expansion2(addr))
    } else if 0x1FC0_0000 <= addr && addr <= 0x1FC7_FFFF {
        Some(Region::Bios(addr & 0x7_FFFF))
    } else {
        None
    }
}

/// The cycles an access takes: three for main RAM, one elsewhere.
pub fn access_cycles(region: Region) -> (r: usize)
    ensures
        r == (if region is MainRam { 3usize } else { 1usize }),
{
    match region {
        Region::MainRam(_) => 3,
        _ => 1,
    }
}

/// Main RAM is mirrored: addresses 2 MiB apart in its 8 MiB window reach
/// the same byte.
pub proof fn lemma_ram_mirror(addr: u32)
    requires
        addr + 0x20_0000 <= 0x007F_FFFF,
    ensures
        region_of(addr) == region_of((addr + 0x20_0000) as u32),
{
}

} // verus!
