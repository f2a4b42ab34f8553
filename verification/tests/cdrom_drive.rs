use phase::cdrom::CDROM;
use phase::cdrom::cue::CueFile;
use phase::cdrom::disc::Disc;
use phase::interrupt::IRQ_CDROM;

const STATUS: u32 = 0x1F80_1800;
const PORT1: u32 = 0x1F80_1801;
const PORT2: u32 = 0x1F80_1802;
const PORT3: u32 = 0x1F80_1803;
const SECTOR: usize = 2352;

/// A disc image of `seconds` seconds whose bytes count up modulo 251.
fn disc(seconds: usize) -> Vec<u8> {
    (0..seconds * 75 * SECTOR).map(|i| (i % 251) as u8).collect()
}

/// Queue the parameters and write the command.
fn command(cd: &mut CDROM, cmd: u8, params: &[u8]) {
    cd.write_byte(STATUS, 0);
    for p in params {
        cd.write_byte(PORT2, *p);
    }
    cd.write_byte(PORT1, cmd);
}

/// Take every queued response byte.
fn responses(cd: &mut CDROM) -> Vec<u8> {
    let mut out = Vec::new();
    while cd.read_byte(STATUS) & 0x20 != 0 {
        out.push(cd.read_byte(PORT1));
    }
    out
}

/// The response type in the interrupt flags.
fn response_type(cd: &mut CDROM) -> u8 {
    cd.write_byte(STATUS, 1);
    let flags = cd.read_byte(PORT3) & 7;
    cd.write_byte(STATUS, 0);
    flags
}

/// Acknowledge all interrupt flags.
fn acknowledge(cd: &mut CDROM) {
    cd.write_byte(STATUS, 1);
    cd.write_byte(PORT3, 0x1F);
    cd.write_byte(STATUS, 0);
}

#[test]
fn cdrom_initial_status() {
    let mut cd = CDROM::new();
    assert_eq!(cd.read_byte(STATUS), 0x18);
    // The interrupt registers read with their unused bits set.
    assert_eq!(cd.read_byte(PORT3), 0xE0);
    // No response: reads as zero.
    assert_eq!(cd.read_byte(PORT1), 0);
    assert_eq!(cd.clock(100), 0);
}

#[test]
fn cdrom_port_index() {
    let mut cd = CDROM::new();
    cd.write_byte(STATUS, 0xFF);
    assert_eq!(cd.read_byte(STATUS), 0x1B);
    cd.write_byte(STATUS, 0x02);
    assert_eq!(cd.read_byte(STATUS), 0x1A);
}

#[test]
fn cdrom_parameter_queue() {
    let mut cd = CDROM::new();
    cd.write_byte(PORT2, 0x12);
    // Not empty, not full.
    assert_eq!(cd.read_byte(STATUS), 0x10);
    for _ in 0..15 {
        cd.write_byte(PORT2, 0);
    }
    // Full: neither empty nor "not full".
    assert_eq!(cd.read_byte(STATUS), 0x00);
    // Writing the reset bit of the interrupt flags empties the queue.
    cd.write_byte(STATUS, 1);
    cd.write_byte(PORT3, 0x40);
    assert_eq!(cd.read_byte(STATUS) & 0x18, 0x18);
}

#[test]
fn cdrom_get_stat_and_interrupt() {
    let mut cd = CDROM::new();
    cd.insert_disc(Some(Disc::new_from_bin(disc(1))));
    // Enable all interrupts.
    cd.write_byte(STATUS, 1);
    cd.write_byte(PORT2, 0x1F);
    command(&mut cd, 0x01, &[]);
    assert_eq!(cd.read_byte(STATUS) & 0x80, 0x80);
    assert_eq!(cd.clock(49_999), 0);
    assert_eq!(cd.clock(1), IRQ_CDROM);
    assert_eq!(cd.read_byte(STATUS) & 0x80, 0);
    assert_eq!(response_type(&mut cd), 3);
    // The shell was opened by inserting the disc; GetStat reports and clears it.
    assert_eq!(responses(&mut cd), vec![0x10]);
    acknowledge(&mut cd);
    assert_eq!(cd.clock(1), 0);
    command(&mut cd, 0x01, &[]);
    cd.clock(50_000);
    assert_eq!(responses(&mut cd), vec![0x00]);
}

#[test]
fn cdrom_missing_parameter() {
    let mut cd = CDROM::new();
    command(&mut cd, 0x02, &[0x00, 0x02]);
    cd.clock(50_000);
    assert_eq!(response_type(&mut cd), 5);
    assert_eq!(responses(&mut cd), vec![0x20]);
    // The error bit of the drive status is set.
    command(&mut cd, 0x01, &[]);
    cd.clock(50_000);
    assert_eq!(responses(&mut cd), vec![0x01]);
}

#[test]
fn cdrom_invalid_bcd() {
    let mut cd = CDROM::new();
    command(&mut cd, 0x02, &[0x00, 0x1A, 0x00]);
    cd.clock(50_000);
    assert_eq!(response_type(&mut cd), 5);
    assert_eq!(responses(&mut cd), vec![0x10]);
}

#[test]
fn cdrom_read_sector_data() {
    let image = disc(3);
    let mut cd = CDROM::new();
    cd.insert_disc(Some(Disc::new_from_bin(image.clone())));
    // Two seconds and one sector: one sector into the data.
    command(&mut cd, 0x02, &[0x00, 0x02, 0x01]);
    cd.clock(50_000);
    assert_eq!(responses(&mut cd), vec![0x10]);
    command(&mut cd, 0x06, &[]);
    cd.clock(50_000);
    // First response: seeking; the command is still busy.
    assert_eq!(cd.read_byte(STATUS) & 0x80, 0x80);
    assert_eq!(response_type(&mut cd), 3);
    assert_eq!(responses(&mut cd), vec![0x50]);
    cd.clock(50_000);
    // Second response: data ready, reading; the command has ended.
    assert_eq!(cd.read_byte(STATUS) & 0x80, 0);
    assert_eq!(response_type(&mut cd), 1);
    assert_eq!(responses(&mut cd), vec![0x30]);
    assert_eq!(cd.read_byte(STATUS) & 0x40, 0x40);
    for i in 0..2048 {
        assert_eq!(cd.read_byte(PORT2), image[SECTOR + 24 + i]);
    }
    // The data queue is empty, and the next sector comes after a delay.
    assert_eq!(cd.read_byte(STATUS) & 0x40, 0);
    cd.clock(50_000);
    assert_eq!(responses(&mut cd), vec![0x30]);
    assert_eq!(cd.read_byte(PORT2), image[2 * SECTOR + 24]);
}

#[test]
fn cdrom_read_whole_sectors_by_dma() {
    let image = disc(3);
    let mut cd = CDROM::new();
    cd.insert_disc(Some(Disc::new_from_bin(image.clone())));
    command(&mut cd, 0x0E, &[0x20]);
    cd.clock(50_000);
    assert_eq!(responses(&mut cd), vec![0x10]);
    // Read at the start of the data, in the second chunk of the image.
    command(&mut cd, 0x02, &[0x00, 0x03, 0x00]);
    cd.clock(50_000);
    responses(&mut cd);
    command(&mut cd, 0x1B, &[]);
    cd.clock(50_000);
    cd.clock(50_000);
    responses(&mut cd);
    let start = 75 * SECTOR + 12;
    let word = cd.dma_read_word();
    assert_eq!(word.cycles, 23);
    let expect = u32::from_le_bytes([image[start], image[start + 1], image[start + 2], image[start + 3]]);
    assert_eq!(word.data, expect);
}

#[test]
fn cdrom_seek_then_read() {
    let image = disc(3);
    let mut cd = CDROM::new();
    cd.insert_disc(Some(Disc::new_from_bin(image.clone())));
    command(&mut cd, 0x02, &[0x00, 0x02, 0x05]);
    cd.clock(50_000);
    command(&mut cd, 0x15, &[]);
    cd.clock(50_000);
    assert_eq!(responses(&mut cd), vec![0x10, 0x52]);
    cd.clock(50_000);
    assert_eq!(response_type(&mut cd), 2);
    assert_eq!(responses(&mut cd), vec![0x52]);
    command(&mut cd, 0x06, &[]);
    cd.clock(50_000);
    cd.clock(50_000);
    responses(&mut cd);
    assert_eq!(cd.read_byte(PORT2), image[5 * SECTOR + 24]);
}

#[test]
fn cdrom_get_id() {
    let mut cd = CDROM::new();
    command(&mut cd, 0x1A, &[]);
    cd.clock(50_000);
    assert_eq!(responses(&mut cd), vec![0x00]);
    cd.clock(50_000);
    assert_eq!(response_type(&mut cd), 5);
    assert_eq!(responses(&mut cd), vec![0x08, 0x40, 0, 0, 0, 0, 0, 0]);

    cd.insert_disc(Some(Disc::new_from_bin(disc(1))));
    command(&mut cd, 0x1A, &[]);
    cd.clock(50_000);
    cd.clock(50_000);
    assert_eq!(response_type(&mut cd), 2);
    assert_eq!(responses(&mut cd), vec![0x10, 0x02, 0x00, 0x20, 0x00, b'S', b'C', b'E', b'A']);
}

#[test]
fn cdrom_tracks() {
    let mut cd = CDROM::new();
    command(&mut cd, 0x13, &[]);
    cd.clock(50_000);
    assert_eq!(responses(&mut cd), vec![0x00, 0x01, 0x01]);
    command(&mut cd, 0x14, &[0x01]);
    cd.clock(50_000);
    assert_eq!(responses(&mut cd), vec![0x00, 0x00, 0x00]);
    // The end of the disc, with no disc: the seek fails.
    command(&mut cd, 0x14, &[0x00]);
    cd.clock(50_000);
    assert_eq!(responses(&mut cd), vec![0x04]);
    // 59 seconds of data end at 1:01.
    cd.insert_disc(Some(Disc::new_from_bin(disc(59))));
    command(&mut cd, 0x14, &[0x00]);
    cd.clock(50_000);
    assert_eq!(responses(&mut cd), vec![0x10, 0x01, 0x01]);
    command(&mut cd, 0x14, &[0x02]);
    cd.clock(50_000);
    assert_eq!(responses(&mut cd), vec![0x10]);
}

#[test]
fn cdrom_sessions() {
    let mut cd = CDROM::new();
    command(&mut cd, 0x12, &[0x00]);
    cd.clock(50_000);
    assert_eq!(responses(&mut cd), vec![0x03, 0x10]);
    command(&mut cd, 0x12, &[0x02]);
    cd.clock(50_000);
    assert_eq!(responses(&mut cd), vec![0x00, 0x06, 0x40]);
    command(&mut cd, 0x12, &[0x01]);
    cd.clock(50_000);
    assert_eq!(response_type(&mut cd), 2);
    assert_eq!(responses(&mut cd), vec![0x00, 0x00]);
}

#[test]
fn cdrom_subfunction_and_motor() {
    let mut cd = CDROM::new();
    command(&mut cd, 0x19, &[0x20]);
    cd.clock(50_000);
    assert_eq!(responses(&mut cd), vec![0x95, 0x05, 0x16, 0xC1]);
    // Init turns the motor on; MotorOn then fails.
    command(&mut cd, 0x0A, &[]);
    cd.clock(50_000);
    cd.clock(50_000);
    assert_eq!(responses(&mut cd), vec![0x00, 0x02]);
    command(&mut cd, 0x07, &[]);
    cd.clock(50_000);
    assert_eq!(responses(&mut cd), vec![0x20]);
    // Stop turns it off again.
    command(&mut cd, 0x08, &[]);
    cd.clock(50_000);
    cd.clock(50_000);
    assert_eq!(responses(&mut cd), vec![0x03, 0x01]);
}

#[test]
fn cdrom_unsupported_command_is_refused() {
    let mut cd = CDROM::new();
    command(&mut cd, 0x1D, &[]);
    assert!(!cd.can_clock(50_000));
    assert!(cd.can_clock(100));
    command(&mut cd, 0x19, &[0x21]);
    assert!(!cd.command_supported());
    command(&mut cd, 0x01, &[]);
    assert!(cd.command_supported());
}

#[test]
fn cdrom_registers_by_word() {
    let mut cd = CDROM::new();
    // Status, no response, no data, interrupt enable.
    cd.write_byte(STATUS, 0);
    let w = cd.read_halfword(STATUS);
    assert_eq!(w, 0x0018);
    cd.write_halfword(STATUS, 0x0101);
    assert_eq!(cd.read_byte(STATUS) & 3, 1);
}

#[test]
fn cdrom_reads_second_track_from_its_image() {
    let sheet = "FILE \"a.bin\" BINARY\n  TRACK 01 MODE2/2352\n    INDEX 01 00:00:00\nFILE \"b.bin\" BINARY\n  TRACK 02 MODE2/2352\n    INDEX 01 00:00:00\n";
    let cue = CueFile::parse_from_str(sheet).ok().unwrap();
    let first = vec![0x11u8; 75 * SECTOR];
    let second: Vec<u8> = (0..75 * SECTOR).map(|i| (i % 199) as u8).collect();
    let disc = Disc::new_from_cue(&cue.tracks, vec![first, second.clone()]).unwrap();
    // Track 1 spans 00:02:00 to 00:05:00, track 2 starts there.
    assert_eq!(disc.get_track_count(), 2);
    assert_eq!(disc.get_track_start_pos(2), phase::cdrom::DriveLoc { minute: 0, second: 5, sector: 0 });
    let mut cd = CDROM::new();
    cd.insert_disc(Some(disc));
    command(&mut cd, 0x02, &[0x00, 0x05, 0x01]);
    cd.clock(50_000);
    assert_eq!(responses(&mut cd), vec![0x10]);
    command(&mut cd, 0x06, &[]);
    cd.clock(50_000);
    responses(&mut cd);
    cd.clock(50_000);
    assert_eq!(responses(&mut cd), vec![0x30]);
    for i in 0..2048 {
        assert_eq!(cd.read_byte(PORT2), second[SECTOR + 24 + i]);
    }
    // The end of the disc is the end of its last track: 00:08:00.
    command(&mut cd, 0x14, &[0x00]);
    cd.clock(50_000);
    let r = responses(&mut cd);
    assert_eq!(r[1..].to_vec(), vec![0x00, 0x08]);
}
