use phase::mem::map::{access_cycles, decode, io_device, IoDevice, Region};

#[test]
fn map_main_ram_mirrors() {
    assert_eq!(decode(0x0000_1234), Some(Region::MainRam(0x1234)));
    assert_eq!(decode(0x0060_1234), Some(Region::MainRam(0x1234)));
    assert_eq!(decode(0x0080_0000), None);
    assert_eq!(access_cycles(Region::MainRam(0)), 3);
}

#[test]
fn map_memories() {
    assert_eq!(decode(0x1F80_03FC), Some(Region::Scratchpad(0x3FC)));
    assert_eq!(decode(0x1F80_0400), None);
    assert_eq!(decode(0x1FC0_0180), Some(Region::Bios(0x180)));
    assert_eq!(decode(0x1FC8_0000), None);
    assert_eq!(decode(0x1F00_0084), Some(Region::Expansion1(0x1F00_0084)));
    assert_eq!(decode(0x1F80_2041), Some(Region::Expansion2(0x1F80_2041)));
    assert_eq!(access_cycles(Region::Bios(0)), 1);
}

#[test]
fn map_io_devices() {
    assert_eq!(io_device(0x1F80_1010), Some(IoDevice::MemControl));
    assert_eq!(io_device(0x1F80_1060), Some(IoDevice::MemControl));
    assert_eq!(io_device(0x1F80_1044), Some(IoDevice::Peripheral));
    assert_eq!(io_device(0x1F80_1070), Some(IoDevice::Interrupts));
    assert_eq!(io_device(0x1F80_10F0), Some(IoDevice::Dma));
    assert_eq!(io_device(0x1F80_1120), Some(IoDevice::Timers));
    assert_eq!(io_device(0x1F80_1803), Some(IoDevice::Cdrom));
    assert_eq!(io_device(0x1F80_1814), Some(IoDevice::Gpu));
    assert_eq!(io_device(0x1F80_1824), Some(IoDevice::Mdec));
    assert_eq!(io_device(0x1F80_1DAA), Some(IoDevice::Spu));
    // The serial port is not mapped.
    assert_eq!(io_device(0x1F80_1050), None);
    assert_eq!(decode(0x1F80_1050), None);
    assert_eq!(decode(0x1F80_1814), Some(Region::Io(IoDevice::Gpu, 0x1F80_1814)));
}
