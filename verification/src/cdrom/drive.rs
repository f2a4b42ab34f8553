//! The CD-ROM controller: its registers, parameter and response queues, and
//! the drive commands that read sectors out of a disc image.

use vstd::prelude::*;
use std::collections::VecDeque;

use crate::cdrom::{DriveLoc, SECTOR_SIZE, loc_bytes, root_offset};
use crate::cdrom::disc::{Disc, DiscView, disc_ok, disc_end, locate, last_start_at_or_before, loc_index, lemma_first_track_found};
use crate::interrupt::IRQ_CDROM;
use crate::mem::dma::DmaWord;
use crate::utils::bcd::{bcd_value, is_bcd, from_bcd, to_bcd};

verus! {

/// One second of data is held in the memory buffer.
pub const DISC_BUFFER_SIZE: u64 = 176400;
/// Each sector starts with 12 sync bytes.
pub const SECTOR_SYNC_BYTES: u64 = 12;
/// Each sector starts with a 24 byte header: sync bytes, address, mode.
pub const SECTOR_HEADER: u64 = 24;
/// Each sector holds 2048 bytes of data.
pub const SECTOR_DATA: u64 = 2048;
/// Cycles between a command (or a finished sector) and its next response.
pub const COMMAND_DELAY: usize = 50000;

/// Status register: a command is being processed.
pub const STATUS_BUSY: u8 = 0x80;
/// Status register: the data queue holds data (clear when empty).
pub const STATUS_DATA_READY: u8 = 0x40;
/// Status register: the response queue holds data (clear when empty).
pub const STATUS_RES_READY: u8 = 0x20;
/// Status register: the parameter queue has room (clear when full).
pub const STATUS_PARAM_NOT_FULL: u8 = 0x10;
/// Status register: the parameter queue is empty.
pub const STATUS_PARAM_EMPTY: u8 = 0x08;
/// Status register: the register bank selected for ports 1-3.
pub const STATUS_PORT_INDEX: u8 = 0x03;

/// Interrupt registers: bits that always read as set.
pub const INT_UNUSED: u8 = 0xE0;
/// Interrupt flag write: clear the parameter queue.
pub const INT_RESET_PARAM_FIFO: u8 = 0x40;
/// Interrupt flags: the response type (1-7).
pub const INT_RESPONSE: u8 = 0x07;
/// The bits of the request register.
pub const REQUEST_BITS: u8 = 0xE0;

/// Drive status: seeking.
pub const DRIVE_SEEKING: u8 = 0x40;
/// Drive status: reading data sectors.
pub const DRIVE_READING: u8 = 0x20;
/// Drive status: the shell was opened.
pub const DRIVE_SHELL_OPEN: u8 = 0x10;
/// Drive status: the spindle motor is on.
pub const DRIVE_SPINDLE: u8 = 0x02;
/// Drive status: a command failed.
pub const DRIVE_ERROR: u8 = 0x01;
/// Drive status: playing, seeking and reading.
pub const DRIVE_READ_BITS: u8 = 0xE0;

/// Error response: the command is not valid.
pub const ERR_INVALID_CMD: u8 = 0x40;
/// Error response: too few parameters.
pub const ERR_MISSING_PARAM: u8 = 0x20;
/// Error response: a parameter is out of range.
pub const ERR_INVALID_PARAM: u8 = 0x10;
/// Error response: the seek failed (no disc).
pub const ERR_SEEK_FAILED: u8 = 0x04;

/// Drive mode: whole sectors (2340 bytes after the sync bytes) instead of
/// the 2048 data bytes.
pub const MODE_SECTOR_SIZE: u8 = 0x20;

/// The registers of the controller.
pub const CDROM_STATUS_ADDR: u32 = 0x1F80_1800;
pub const CDROM_PORT1_ADDR: u32 = 0x1F80_1801;
pub const CDROM_PORT2_ADDR: u32 = 0x1F80_1802;
pub const CDROM_PORT3_ADDR: u32 = 0x1F80_1803;

/// The state of the controller, with its queues and buffers as sequences.
pub struct CdromView {
    pub disc: Option<DiscView>,
    pub buffer: Seq<u8>,
    pub buffer_file_offset: u64,
    pub seek_file_offset: u64,
    pub sector_offset: u64,
    pub status: u8,
    pub int_enable: u8,
    pub int_flags: u8,
    pub request: u8,
    pub vol_left_to_left: u8,
    pub vol_left_to_right: u8,
    pub vol_right_to_left: u8,
    pub vol_right_to_right: u8,
    pub param_fifo: Seq<u8>,
    pub response_fifo: Seq<u8>,
    pub drive_status: u8,
    pub mode: u8,
    pub loc: DriveLoc,
    pub seeked: bool,
    pub counter: usize,
    pub command: u8,
    pub response_count: u8,
    pub data_fifo_size: u64,
}

/// CD-ROM reader.
pub struct CDROM {
    disc: Option<Disc>,
    buffer: Vec<u8>,
    buffer_file_offset: u64,
    seek_file_offset: u64,
    sector_offset: u64,

    status: u8,
    int_enable: u8,
    int_flags: u8,
    request: u8,

    vol_left_to_left: u8,
    vol_left_to_right: u8,
    vol_right_to_left: u8,
    vol_right_to_right: u8,

    param_fifo: VecDeque<u8>,
    response_fifo: VecDeque<u8>,

    drive_status: u8,
    mode: u8,
    loc: DriveLoc,
    seeked: bool,

    counter: usize,
    command: u8,
    response_count: u8,
    data_fifo_size: u64,
}

impl View for CDROM {
    type V = CdromView;

    closed spec fn view(&self) -> CdromView {
        CdromView {
            disc: match self.disc {
                Some(d) => Some(d@),
                None => None,
            },
            buffer: self.buffer@,
            buffer_file_offset: self.buffer_file_offset,
            seek_file_offset: self.seek_file_offset,
            sector_offset: self.sector_offset,
            status: self.status,
            int_enable: self.int_enable,
            int_flags: self.int_flags,
            request: self.request,
            vol_left_to_left: self.vol_left_to_left,
            vol_left_to_right: self.vol_left_to_right,
            vol_right_to_left: self.vol_right_to_left,
            vol_right_to_right: self.vol_right_to_right,
            param_fifo: self.param_fifo@,
            response_fifo: self.response_fifo@,
            drive_status: self.drive_status,
            mode: self.mode,
            loc: self.loc,
            seeked: self.seeked,
            counter: self.counter,
            command: self.command,
            response_count: self.response_count,
            data_fifo_size: self.data_fifo_size,
        }
    }
}

/// Once loaded, the buffer holds the bytes of a chunk of the disc: those of
/// the image of the track that holds the chunk's start, from there on, as
/// far as that image reaches.
pub open spec fn buffer_matches(s: CdromView) -> bool {
    match s.disc {
        Some(d) => s.buffer_file_offset != u64::MAX ==> {
            &&& s.buffer_file_offset % DISC_BUFFER_SIZE == 0
            &&& match locate(d, s.buffer_file_offset as int) {
                Some((n, rel)) => forall|i: int| 0 <= i < s.buffer.len() && rel + i < d.images[n].len()
                    ==> #[trigger] s.buffer[i] == d.images[n][rel + i],
                None => true,
            }
        },
        None => true,
    }
}

/// The controller is consistent: the buffer holds one second of sectors of
/// the disc, and the parameter queue never holds more than 16 bytes.
pub open spec fn cdrom_ok(s: CdromView) -> bool {
    &&& s.buffer.len() == DISC_BUFFER_SIZE
    &&& s.param_fifo.len() <= 16
    &&& s.disc matches Some(d) ==> disc_ok(d)
    &&& buffer_matches(s)
}

/// The register bank selected by the status register.
pub open spec fn port_index(s: CdromView) -> u8 {
    s.status & STATUS_PORT_INDEX
}

/// An interrupt is raised when an enabled flag is set.
pub open spec fn irq_pending(s: CdromView) -> bool {
    s.int_enable & s.int_flags & !INT_UNUSED != 0
}

/// The port index is written through the status register.
pub open spec fn status_written(s: CdromView, data: u8) -> CdromView {
    CdromView { status: (s.status & !STATUS_PORT_INDEX) | (data & STATUS_PORT_INDEX), ..s }
}

/// A command is written: it runs after a delay.
pub open spec fn command_written(s: CdromView, data: u8) -> CdromView {
    CdromView {
        counter: COMMAND_DELAY,
        response_count: 0,
        command: data,
        status: s.status | STATUS_BUSY,
        ..s
    }
}

/// A parameter is queued.
pub open spec fn param_written(s: CdromView, data: u8) -> CdromView {
    CdromView {
        param_fifo: s.param_fifo.push(data),
        status: if s.param_fifo.len() + 1 < 16 {
            (s.status & !STATUS_PARAM_EMPTY) | STATUS_PARAM_NOT_FULL
        } else {
            s.status & !STATUS_PARAM_EMPTY & !STATUS_PARAM_NOT_FULL
        },
        ..s
    }
}

/// Interrupt flags are acknowledged by writing ones; one bit also clears the
/// parameter queue.
pub open spec fn int_flags_written(s: CdromView, data: u8) -> CdromView {
    CdromView {
        param_fifo: if data & INT_RESET_PARAM_FIFO != 0 { Seq::empty() } else { s.param_fifo },
        status: if data & INT_RESET_PARAM_FIFO != 0 {
            s.status | STATUS_PARAM_EMPTY | STATUS_PARAM_NOT_FULL
        } else {
            s.status
        },
        int_flags: (s.int_flags & !data) | INT_UNUSED,
        ..s
    }
}

/// A response byte is taken (0 when there is none).
pub open spec fn response_taken(s: CdromView) -> (CdromView, u8) {
    let q = s.response_fifo;
    let rest = if q.len() > 0 { q.drop_first() } else { q };
    (CdromView {
        response_fifo: rest,
        status: if rest.len() == 0 { s.status & !STATUS_RES_READY } else { s.status },
        ..s
    }, if q.len() > 0 { q[0] } else { 0 })
}

/// Push a response byte and set the response type of the interrupt flags.
pub open spec fn send(s: CdromView, data: u8, kind: u8) -> CdromView {
    CdromView {
        response_fifo: s.response_fifo.push(data),
        status: s.status | STATUS_RES_READY,
        int_flags: (s.int_flags & !INT_RESPONSE) | kind,
        ..s
    }
}

/// Respond with the drive status.
pub open spec fn reply(s: CdromView, kind: u8) -> CdromView {
    send(s, s.drive_status, kind)
}

/// The final response has been sent.
pub open spec fn complete(s: CdromView) -> CdromView {
    CdromView { status: s.status & !STATUS_BUSY, ..s }
}

/// The first response has been sent: the second comes after another delay.
pub open spec fn first(s: CdromView) -> CdromView {
    CdromView { counter: COMMAND_DELAY, response_count: (s.response_count + 1) as u8, ..s }
}

/// A command failed with the error bits `err`.
pub open spec fn fail(s: CdromView, err: u8) -> CdromView {
    complete(send(s, err, 5))
}

/// Take a parameter: `None` (and the error bit set) when the queue is empty.
pub open spec fn take_param(s: CdromView) -> (CdromView, Option<u8>) {
    if s.param_fifo.len() == 0 {
        (CdromView { drive_status: s.drive_status | DRIVE_ERROR, ..s }, None)
    } else {
        let rest = s.param_fifo.drop_first();
        let st = if rest.len() == 0 {
            s.status | STATUS_PARAM_EMPTY
        } else {
            s.status & !STATUS_PARAM_EMPTY
        };
        let st = if rest.len() < 16 { st | STATUS_PARAM_NOT_FULL } else { st };
        (CdromView { param_fifo: rest, status: st, ..s }, Some(s.param_fifo[0]))
    }
}

/// The start of the one-second chunk of the disc that holds `offset`.
pub open spec fn chunk_start(offset: u64) -> u64 {
    ((offset / DISC_BUFFER_SIZE) * DISC_BUFFER_SIZE) as u64
}

/// `buf` after the bytes of `disc` from `offset` on were read into it: as
/// many as the buffer holds, or as the disc has left.
pub open spec fn loaded(buf: Seq<u8>, disc: Seq<u8>, offset: int) -> Seq<u8> {
    Seq::new(buf.len(), |i: int| if offset + i < disc.len() { disc[offset + i] } else { buf[i] })
}

/// Bring the chunk holding the seek position into the buffer, unless it is
/// there already or there is no disc.
pub open spec fn load_chunk(s: CdromView) -> CdromView {
    let target = chunk_start(s.seek_file_offset);
    if s.buffer_file_offset == target {
        s
    } else {
        match s.disc {
            None => s,
            Some(d) => match locate(d, target as int) {
                None => s,
                Some((n, rel)) => CdromView {
                    buffer_file_offset: target,
                    buffer: loaded(s.buffer, d.images[n], rel),
                    ..s
                },
            },
        }
    }
}

/// A sector can be read: after loading, the seek position lies at or after
/// the start of the buffered chunk.
pub open spec fn read_sector_ok(s: CdromView) -> bool {
    let s1 = load_chunk(s);
    &&& s1.buffer_file_offset <= s1.seek_file_offset
    &&& s1.seek_file_offset - s1.buffer_file_offset + SECTOR_HEADER <= u64::MAX
}

/// Read the sector at the seek position: its data bytes (or, in whole
/// sector mode, everything after the sync bytes) are queued for the CPU.
pub open spec fn sector_read(s: CdromView) -> CdromView {
    let s1 = load_chunk(s);
    let start = s1.seek_file_offset - s1.buffer_file_offset;
    let whole = s1.mode & MODE_SECTOR_SIZE != 0;
    CdromView {
        sector_offset: (if whole { start + SECTOR_SYNC_BYTES } else { start + SECTOR_HEADER }) as u64,
        data_fifo_size: if whole { (SECTOR_DATA + SECTOR_SYNC_BYTES) as u64 } else { SECTOR_DATA },
        status: s1.status | STATUS_DATA_READY,
        ..s1
    }
}

/// A data byte can be taken: one is queued, it lies inside the buffer, and
/// the seek position can move on to the next sector.
pub open spec fn read_data_ok(s: CdromView) -> bool {
    &&& s.data_fifo_size > 0
    &&& s.sector_offset < s.buffer.len()
    &&& s.data_fifo_size == 1 ==> s.seek_file_offset + SECTOR_SIZE <= u64::MAX
}

/// The state after a data byte was taken. When the sector runs out, the
/// next one is read after a delay.
pub open spec fn data_taken(s: CdromView) -> CdromView {
    let size = (s.data_fifo_size - 1) as u64;
    let s1 = CdromView { sector_offset: (s.sector_offset + 1) as u64, data_fifo_size: size, ..s };
    if size == 0 {
        CdromView {
            counter: COMMAND_DELAY,
            status: s1.status & !STATUS_DATA_READY,
            seek_file_offset: (s1.seek_file_offset + SECTOR_SIZE) as u64,
            ..s1
        }
    } else {
        s1
    }
}

/// Insert a disc (the shell opens), or take it out.
pub open spec fn disc_inserted(s: CdromView, disc: Option<DiscView>) -> CdromView {
    let s1 = CdromView { drive_status: s.drive_status | DRIVE_SHELL_OPEN, disc, ..s };
    match disc {
        Some(d) => load_chunk(CdromView {
            buffer_file_offset: u64::MAX,
            seek_file_offset: 0,
            sector_offset: 0,
            ..s1
        }),
        None => s1,
    }
}

/// The drive status replaced.
pub open spec fn with_drive(s: CdromView, drive_status: u8) -> CdromView {
    CdromView { drive_status, ..s }
}

/// The state a command leaves: on an error, the error bits are sent as a
/// response of type 5 and the command ends.
pub open spec fn command_done(s: CdromView, r: Result<(), u8>) -> CdromView {
    match r {
        Ok(_) => s,
        Err(e) => fail(s, e),
    }
}

/// The binary-coded-decimal byte of a number below 100.
pub open spec fn bcd_of(x: u8) -> u8 {
    ((x / 10) * 16 + x % 10) as u8
}

/// The byte offset of the requested position into the data.
pub open spec fn loc_offset(s: CdromView) -> u64 {
    (loc_bytes(s.loc) - root_offset()) as u64
}

pub open spec fn cmd_sync(s: CdromView) -> CdromView {
    complete(s)
}

pub open spec fn cmd_get_stat(s: CdromView) -> CdromView {
    complete(with_drive(reply(s, 3), s.drive_status & !DRIVE_SHELL_OPEN))
}

pub open spec fn cmd_set_filter(s: CdromView) -> CdromView {
    let (s1, p1) = take_param(s);
    if p1 is None {
        fail(s1, ERR_MISSING_PARAM)
    } else {
        let (s2, p2) = take_param(s1);
        if p2 is None {
            fail(s2, ERR_MISSING_PARAM)
        } else {
            complete(reply(s2, 3))
        }
    }
}

pub open spec fn cmd_set_mode(s: CdromView) -> CdromView {
    let (s1, p) = take_param(s);
    match p {
        None => fail(s1, ERR_MISSING_PARAM),
        Some(m) => complete(reply(CdromView { mode: m, ..s1 }, 3)),
    }
}

pub open spec fn cmd_init(s: CdromView) -> CdromView {
    if s.response_count == 0 {
        first(reply(s, 3))
    } else {
        complete(reply(CdromView {
            mode: MODE_SECTOR_SIZE,
            drive_status: s.drive_status | DRIVE_SPINDLE,
            ..s
        }, 2))
    }
}

pub open spec fn cmd_motor_on(s: CdromView) -> CdromView {
    if s.drive_status & DRIVE_SPINDLE != 0 {
        fail(with_drive(s, s.drive_status | DRIVE_ERROR), ERR_MISSING_PARAM)
    } else if s.response_count == 0 {
        first(reply(s, 3))
    } else {
        complete(reply(with_drive(s, s.drive_status | DRIVE_SPINDLE), 2))
    }
}

pub open spec fn cmd_stop(s: CdromView) -> CdromView {
    if s.response_count == 0 {
        first(reply(with_drive(s, s.drive_status & !DRIVE_READ_BITS), 3))
    } else {
        complete(reply(with_drive(s, s.drive_status & !DRIVE_SPINDLE), 2))
    }
}

pub open spec fn cmd_pause(s: CdromView) -> CdromView {
    if s.response_count == 0 {
        first(reply(s, 3))
    } else {
        complete(reply(with_drive(s, s.drive_status & !DRIVE_READ_BITS), 2))
    }
}

/// Set the position from three BCD parameters: minute, second, sector.
/// Each field is set as soon as its parameter is read and valid.
pub open spec fn cmd_set_loc(s: CdromView) -> CdromView {
    let (s1, p1) = take_param(s);
    match p1 {
        None => fail(s1, ERR_MISSING_PARAM),
        Some(b1) => if !is_bcd(b1) {
            fail(s1, ERR_INVALID_PARAM)
        } else {
            let s1 = CdromView { loc: DriveLoc { minute: bcd_value(b1) as u8, ..s1.loc }, ..s1 };
            let (s2, p2) = take_param(s1);
            match p2 {
                None => fail(s2, ERR_MISSING_PARAM),
                Some(b2) => if !is_bcd(b2) {
                    fail(s2, ERR_INVALID_PARAM)
                } else {
                    let s2 = CdromView { loc: DriveLoc { second: bcd_value(b2) as u8, ..s2.loc }, ..s2 };
                    let (s3, p3) = take_param(s2);
                    match p3 {
                        None => fail(s3, ERR_MISSING_PARAM),
                        Some(b3) => if !is_bcd(b3) {
                            fail(s3, ERR_INVALID_PARAM)
                        } else {
                            let s3 = CdromView {
                                loc: DriveLoc { sector: bcd_value(b3) as u8, ..s3.loc },
                                seeked: false,
                                ..s3
                            };
                            complete(reply(s3, 3))
                        },
                    }
                },
            }
        },
    }
}

/// Data seek to the requested position.
pub open spec fn cmd_seek_l(s: CdromView) -> CdromView {
    if s.response_count == 0 {
        first(reply(with_drive(s, (s.drive_status & !DRIVE_READ_BITS) | DRIVE_SEEKING | DRIVE_SPINDLE), 3))
    } else {
        complete(reply(CdromView { seek_file_offset: loc_offset(s), seeked: true, ..s }, 2))
    }
}

/// Only session 1 is supported.
pub open spec fn cmd_set_session(s: CdromView) -> CdromView {
    let (s1, p) = take_param(s);
    match p {
        None => fail(s1, ERR_MISSING_PARAM),
        Some(x) => if x == 0 {
            fail(send(s1, 0x03, 5), ERR_INVALID_PARAM)
        } else if x > 1 {
            fail(send(reply(s1, 3), 0x06, 5), ERR_INVALID_CMD)
        } else {
            complete(reply(reply(s1, 3), 2))
        },
    }
}

/// The state in which the second stage of a read reads its sector: seeked
/// to the requested position if that is still pending, and reading.
pub open spec fn read_start(s: CdromView) -> CdromView {
    let s1 = if !s.seeked {
        CdromView { seek_file_offset: loc_offset(s), seeked: true, ..s }
    } else {
        s
    };
    with_drive(s1, (s1.drive_status & !DRIVE_READ_BITS) | DRIVE_READING)
}

/// Read (with or without retry): a sector each time the previous one has
/// been taken.
pub open spec fn cmd_read(s: CdromView) -> CdromView {
    if s.response_count == 0 {
        first(reply(with_drive(s, (s.drive_status & !DRIVE_READ_BITS) | DRIVE_SEEKING), 3))
    } else {
        complete(reply(sector_read(read_start(s)), 1))
    }
}

/// The second stage of a read can run: the position to seek to, if a seek
/// is pending, lies after the first two seconds, and the sector can be read.
pub open spec fn read_ok(s: CdromView) -> bool {
    &&& !s.seeked ==> loc_bytes(s.loc) >= root_offset()
    &&& read_sector_ok(read_start(s))
}

/// The end of the disc, when asked for, is under 100 minutes.
pub open spec fn get_td_ok(s: CdromView) -> bool {
    s.param_fifo.len() > 0 && is_bcd(s.param_fifo[0]) && bcd_value(s.param_fifo[0]) == 0
        && s.disc is Some ==> disc_end(s.disc->0).minute <= 99
}

/// Read the table of contents.
pub open spec fn cmd_read_toc(s: CdromView) -> CdromView {
    if s.response_count == 0 {
        first(reply(s, 3))
    } else {
        complete(reply(s, 2))
    }
}

pub open spec fn cmd_get_loc_p(s: CdromView) -> CdromView {
    let s = send(send(s, 0x01, 3), 0x01, 3);
    let s = send(send(send(s, 0x00, 3), 0x00, 3), 0x00, 3);
    complete(send(send(send(s, 0x00, 3), 0x00, 3), 0x00, 3))
}

/// Track numbers: a disc of one track.
pub open spec fn cmd_get_tn(s: CdromView) -> CdromView {
    complete(send(send(reply(s, 3), 0x01, 3), 0x01, 3))
}

/// Track start: track 0 is the end of the disc, track 1 its start.
pub open spec fn cmd_get_td(s: CdromView) -> CdromView {
    let (s1, p) = take_param(s);
    match p {
        None => fail(s1, ERR_MISSING_PARAM),
        Some(b) => if !is_bcd(b) {
            fail(s1, ERR_INVALID_PARAM)
        } else if bcd_value(b) == 0 {
            match s1.disc {
                None => fail(s1, ERR_SEEK_FAILED),
                Some(d) => {
                    let end = disc_end(d);
                    complete(send(send(reply(s1, 3), bcd_of(end.minute), 3), bcd_of(end.second), 3))
                },
            }
        } else if bcd_value(b) == 1 {
            complete(send(send(reply(s1, 3), 0x00, 3), 0x00, 3))
        } else {
            fail(s1, ERR_INVALID_PARAM)
        },
    }
}

/// Identify the disc: a licensed mode 2 disc, or no disc.
pub open spec fn cmd_get_id(s: CdromView) -> CdromView {
    if s.response_count == 0 {
        first(reply(s, 3))
    } else if s.disc is Some {
        let s = send(send(send(send(s, 0x02, 2), 0x00, 2), 0x20, 2), 0x00, 2);
        complete(send(send(send(send(s, 0x53, 2), 0x43, 2), 0x45, 2), 0x41, 2))
    } else {
        let s = send(send(send(send(s, 0x08, 5), 0x40, 5), 0x00, 5), 0x00, 5);
        complete(send(send(send(send(s, 0x00, 5), 0x00, 5), 0x00, 5), 0x00, 5))
    }
}

/// Subfunction 0x20: the date and version of the controller's BIOS.
pub open spec fn cmd_subfunction(s: CdromView) -> CdromView {
    let (s1, p) = take_param(s);
    match p {
        None => fail(s1, ERR_MISSING_PARAM),
        Some(_) => complete(send(send(send(send(s1, 0x95, 3), 0x05, 3), 0x16, 3), 0xC1, 3)),
    }
}

/// Mute or demute.
pub open spec fn cmd_mute(s: CdromView) -> CdromView {
    complete(reply(s, 3))
}

/// The commands this controller carries out.
pub open spec fn command_known(c: u8) -> bool {
    c <= 0x02 || (0x06 <= c <= 0x0E) || (0x11 <= c <= 0x15) || c == 0x19 || c == 0x1A
        || c == 0x1B || c == 0x1E
}

/// The current command can be carried out: it is known, and it reaches no
/// position, disc end or subfunction that the controller cannot handle.
pub open spec fn exec_ok(s: CdromView) -> bool {
    let c = s.command;
    if c == 0x06 || c == 0x1B {
        s.response_count != 0 ==> read_ok(s)
    } else if c == 0x15 {
        s.response_count != 0 ==> loc_bytes(s.loc) >= root_offset()
    } else if c == 0x14 {
        get_td_ok(s)
    } else if c == 0x19 {
        s.param_fifo.len() > 0 ==> s.param_fifo[0] == 0x20
    } else {
        command_known(c)
    }
}

/// Carry out the current command (the next stage of it).
pub open spec fn exec_step(s: CdromView) -> CdromView {
    let c = s.command;
    if c == 0x00 {
        cmd_sync(s)
    } else if c == 0x01 {
        cmd_get_stat(s)
    } else if c == 0x02 {
        cmd_set_loc(s)
    } else if c == 0x06 || c == 0x1B {
        cmd_read(s)
    } else if c == 0x07 {
        cmd_motor_on(s)
    } else if c == 0x08 {
        cmd_stop(s)
    } else if c == 0x09 {
        cmd_pause(s)
    } else if c == 0x0A {
        cmd_init(s)
    } else if c == 0x0B || c == 0x0C {
        cmd_mute(s)
    } else if c == 0x0D {
        cmd_set_filter(s)
    } else if c == 0x0E {
        cmd_set_mode(s)
    } else if c == 0x11 {
        cmd_get_loc_p(s)
    } else if c == 0x12 {
        cmd_set_session(s)
    } else if c == 0x13 {
        cmd_get_tn(s)
    } else if c == 0x14 {
        cmd_get_td(s)
    } else if c == 0x15 {
        cmd_seek_l(s)
    } else if c == 0x19 {
        cmd_subfunction(s)
    } else if c == 0x1A {
        cmd_get_id(s)
    } else {
        cmd_read_toc(s)
    }
}

/// The counter runs down by `cycles`; the command runs when it reaches zero.
pub open spec fn clocked(s: CdromView, cycles: usize) -> CdromView {
    if s.counter > 0 {
        let c = if s.counter > cycles { (s.counter - cycles) as usize } else { 0usize };
        let s1 = CdromView { counter: c, ..s };
        if c == 0 { exec_step(s1) } else { s1 }
    } else {
        s
    }
}

/// The command due within `cycles` can be carried out.
pub open spec fn clock_ok(s: CdromView, cycles: usize) -> bool {
    s.counter > 0 && s.counter <= cycles ==> exec_ok(s)
}

/// An address of the controller.
pub open spec fn cdrom_addr(addr: u32) -> bool {
    CDROM_STATUS_ADDR <= addr <= CDROM_PORT3_ADDR
}

/// A byte can be read at `addr`: a data byte must be queued.
pub open spec fn read_byte_ok(s: CdromView, addr: u32) -> bool {
    cdrom_addr(addr) && (addr == CDROM_PORT2_ADDR ==> read_data_ok(s))
}

/// The state after a byte was read at `addr`, and the byte.
pub open spec fn byte_read(s: CdromView, addr: u32) -> (CdromView, u8) {
    if addr == CDROM_STATUS_ADDR {
        (s, s.status)
    } else if addr == CDROM_PORT1_ADDR {
        response_taken(s)
    } else if addr == CDROM_PORT2_ADDR {
        (data_taken(s), s.buffer[s.sector_offset as int])
    } else if port_index(s) == 0 || port_index(s) == 2 {
        (s, s.int_enable)
    } else {
        (s, s.int_flags)
    }
}

/// A byte can be written at `addr`: a parameter needs room in its queue.
pub open spec fn write_byte_ok(s: CdromView, addr: u32) -> bool {
    cdrom_addr(addr) && (addr == CDROM_PORT2_ADDR && port_index(s) == 0 ==> s.param_fifo.len() < 16)
}

/// The state after `data` was written at `addr`; ports 1-3 reach one of
/// four register banks, by the port index.
pub open spec fn byte_written(s: CdromView, addr: u32, data: u8) -> CdromView {
    let i = port_index(s);
    if addr == CDROM_STATUS_ADDR {
        status_written(s, data)
    } else if addr == CDROM_PORT1_ADDR {
        if i == 0 {
            command_written(s, data)
        } else if i == 3 {
            CdromView { vol_right_to_right: data, ..s }
        } else {
            s
        }
    } else if addr == CDROM_PORT2_ADDR {
        if i == 0 {
            param_written(s, data)
        } else if i == 1 {
            CdromView { int_enable: data | INT_UNUSED, ..s }
        } else if i == 2 {
            CdromView { vol_left_to_left: data, ..s }
        } else {
            CdromView { vol_right_to_left: data, ..s }
        }
    } else {
        if i == 0 {
            CdromView { request: data & REQUEST_BITS, ..s }
        } else if i == 1 {
            int_flags_written(s, data)
        } else if i == 2 {
            CdromView { vol_left_to_right: data, ..s }
        } else {
            s
        }
    }
}

impl CDROM {
    pub open spec fn wf(&self) -> bool {
        cdrom_ok(self@)
    }

    pub fn new() -> (r: Self)
        ensures
            r.wf(),
            r@.disc is None,
            r@.buffer == Seq::new(DISC_BUFFER_SIZE as nat, |i: int| 0u8),
            r@.buffer_file_offset == u64::MAX,
            r@.seek_file_offset == 0 && r@.sector_offset == 0,
            r@.status == STATUS_PARAM_EMPTY | STATUS_PARAM_NOT_FULL,
            r@.int_enable == INT_UNUSED && r@.int_flags == INT_UNUSED,
            r@.request == 0,
            r@.vol_left_to_left == 0 && r@.vol_left_to_right == 0,
            r@.vol_right_to_left == 0 && r@.vol_right_to_right == 0,
            r@.param_fifo.len() == 0 && r@.response_fifo.len() == 0,
            r@.drive_status == 0 && r@.mode == 0,
            r@.loc == (DriveLoc { minute: 0, second: 0, sector: 0 }),
            !r@.seeked,
            r@.counter == 0 && r@.command == 0 && r@.response_count == 0,
            r@.data_fifo_size == 0,
    {
        let mut buffer: Vec<u8> = Vec::new();
        let len: usize = 176400;
        while buffer.len() < len
            invariant
                buffer.len() <= len,
                buffer@ == Seq::new(buffer.len() as nat, |i: int| 0u8),
            decreases len - buffer.len(),
        {
            buffer.push(0);
            assert(buffer@ =~= Seq::new(buffer.len() as nat, |i: int| 0u8));
        }
        CDROM {
            disc: None,
            buffer,
            buffer_file_offset: u64::MAX,
            seek_file_offset: 0,
            sector_offset: 0,
            status: STATUS_PARAM_EMPTY | STATUS_PARAM_NOT_FULL,
            int_enable: INT_UNUSED,
            int_flags: INT_UNUSED,
            request: 0,
            vol_left_to_left: 0,
            vol_left_to_right: 0,
            vol_right_to_left: 0,
            vol_right_to_right: 0,
            param_fifo: VecDeque::new(),
            response_fifo: VecDeque::new(),
            drive_status: 0,
            mode: 0,
            loc: DriveLoc { minute: 0, second: 0, sector: 0 },
            seeked: false,
            counter: 0,
            command: 0,
            response_count: 0,
            data_fifo_size: 0,
        }
    }

    fn check_irq(&self) -> (r: bool)
        ensures
            r == irq_pending(self@),
    {
        self.int_enable & self.int_flags & !INT_UNUSED != 0
    }

    fn write_status(&mut self, data: u8)
        ensures
            final(self)@ == status_written(old(self)@, data),
    {
        self.status = (self.status & !STATUS_PORT_INDEX) | (data & STATUS_PORT_INDEX);
    }

    fn index(&self) -> (r: u8)
        ensures
            r == port_index(self@),
            r <= 3,
    {
        proof {
            crate::utils::bits::lemma_masked_byte_fields(self.status);
        }
        self.status & STATUS_PORT_INDEX
    }

    fn write_command(&mut self, data: u8)
        ensures
            final(self)@ == command_written(old(self)@, data),
    {
        self.counter = COMMAND_DELAY;
        self.response_count = 0;
        self.command = data;
        self.status = self.status | STATUS_BUSY;
    }

    fn write_parameter(&mut self, data: u8)
        requires
            old(self)@.param_fifo.len() < 16,
        ensures
            final(self)@ == param_written(old(self)@, data),
    {
        self.param_fifo.push_back(data);
        self.status = self.status & !STATUS_PARAM_EMPTY;
        if self.param_fifo.len() < 16 {
            self.status = self.status | STATUS_PARAM_NOT_FULL;
        } else {
            self.status = self.status & !STATUS_PARAM_NOT_FULL;
        }
    }

    fn read_parameter(&mut self) -> (r: Option<u8>)
        requires
            old(self).wf(),
        ensures
            final(self).wf(),
            (final(self)@, r) == take_param(old(self)@),
    {
        match self.param_fifo.pop_front() {
            Some(param) => {
                if self.param_fifo.len() == 0 {
                    self.status = self.status | STATUS_PARAM_EMPTY;
                } else {
                    self.status = self.status & !STATUS_PARAM_EMPTY;
                }
                if self.param_fifo.len() < 16 {
                    self.status = self.status | STATUS_PARAM_NOT_FULL;
                }
                Some(param)
            },
            None => {
                self.drive_status = self.drive_status | DRIVE_ERROR;
                None
            },
        }
    }

    fn write_request(&mut self, data: u8)
        ensures
            final(self)@ == (CdromView { request: data & REQUEST_BITS, ..old(self)@ }),
    {
        self.request = data & REQUEST_BITS;
    }

    fn set_int_enable(&mut self, data: u8)
        ensures
            final(self)@ == (CdromView { int_enable: data | INT_UNUSED, ..old(self)@ }),
    {
        self.int_enable = data | INT_UNUSED;
    }

    fn set_int_flags(&mut self, data: u8)
        ensures
            final(self)@ == int_flags_written(old(self)@, data),
    {
        if data & INT_RESET_PARAM_FIFO != 0 {
            self.param_fifo.clear();
            self.status = self.status | STATUS_PARAM_EMPTY | STATUS_PARAM_NOT_FULL;
        }
        self.int_flags = (self.int_flags & !data) | INT_UNUSED;
    }

    fn read_response(&mut self) -> (r: u8)
        ensures
            (final(self)@, r) == response_taken(old(self)@),
    {
        let data = self.response_fifo.pop_front();
        if self.response_fifo.len() == 0 {
            self.status = self.status & !STATUS_RES_READY;
        }
        match data {
            Some(d) => d,
            None => 0,
        }
    }

    /// Write a response to a command, and set the response type (1-7) in
    /// the interrupt flags.
    fn send_response(&mut self, data: u8, kind: u8)
        ensures
            final(self)@ == send(old(self)@, data, kind),
    {
        self.response_fifo.push_back(data);
        self.status = self.status | STATUS_RES_READY;
        self.int_flags = (self.int_flags & !INT_RESPONSE) | kind;
    }

    /// Indicate the first response has been sent.
    fn first_response(&mut self)
        requires
            old(self)@.response_count == 0,
        ensures
            final(self)@ == first(old(self)@),
    {
        self.counter = COMMAND_DELAY;
        self.response_count = self.response_count + 1;
    }

    /// Indicate the final response has been sent.
    fn command_complete(&mut self)
        ensures
            final(self)@ == complete(old(self)@),
    {
        self.status = self.status & !STATUS_BUSY;
    }
    /// Insert or remove a disc.
    pub fn insert_disc(&mut self, disc: Option<Disc>)
        requires
            old(self).wf(),
        ensures
            final(self).wf(),
            final(self)@ == disc_inserted(old(self)@, match disc {
                Some(d) => Some(d@),
                None => None,
            }),
    {
        self.drive_status = self.drive_status | DRIVE_SHELL_OPEN;
        match disc {
            Some(d) => {
                proof {
                    use_type_invariant(&d);
                }
                self.disc = Some(d);
                self.buffer_file_offset = u64::MAX;
                self.seek_file_offset = 0;
                self.sector_offset = 0;
                self.read_from_file();
            },
            None => {
                self.disc = None;
            },
        }
    }

    /// Read `disc` from `offset` into the buffer, as far as either reaches.
    fn fill_buffer(buffer: &mut Vec<u8>, disc: &Vec<u8>, offset: u64)
        ensures
            final(buffer)@ == loaded(old(buffer)@, disc@, offset as int),
    {
        let ghost before = buffer@;
        let mut i: usize = 0;
        while i < buffer.len()
            invariant
                i <= buffer.len(),
                buffer.len() == before.len(),
                forall|j: int| 0 <= j < i ==> buffer@[j] == loaded(before, disc@, offset as int)[j],
                forall|j: int| i <= j < buffer.len() ==> buffer@[j] == before[j],
            decreases buffer.len() - i,
        {
            let len = disc.len() as u64;
            if offset < len && (i as u64) < len - offset {
                let idx = (offset + i as u64) as usize;
                buffer.set(i, disc[idx]);
            }
            i = i + 1;
        }
        assert(buffer@ =~= loaded(before, disc@, offset as int));
    }

    /// Read from the disc into the buffer, if necessary: the chunk that holds
    /// the seek position, one second of sectors.
    fn read_from_file(&mut self)
        requires
            old(self).wf(),
        ensures
            final(self).wf(),
            final(self)@ == load_chunk(old(self)@),
    {
        let chunk_num = self.seek_file_offset / DISC_BUFFER_SIZE;
        let target = chunk_num * DISC_BUFFER_SIZE;
        if self.buffer_file_offset == target {
            return;
        }
        match &self.disc {
            None => {},
            Some(d) => {
                let (n, rel) = d.locate(target);
                CDROM::fill_buffer(&mut self.buffer, d.image(n), rel);
                self.buffer_file_offset = target;
            },
        }
    }

    /// Read a sector.
    fn read_sector(&mut self)
        requires
            old(self).wf(),
            read_sector_ok(old(self)@),
        ensures
            final(self).wf(),
            final(self)@ == sector_read(old(self)@),
    {
        self.read_from_file();
        let start_pos = self.seek_file_offset - self.buffer_file_offset;
        if self.mode & MODE_SECTOR_SIZE != 0 {
            self.sector_offset = start_pos + SECTOR_SYNC_BYTES;
            self.data_fifo_size = SECTOR_DATA + SECTOR_SYNC_BYTES;
        } else {
            self.sector_offset = start_pos + SECTOR_HEADER;
            self.data_fifo_size = SECTOR_DATA;
        }
        self.status = self.status | STATUS_DATA_READY;
    }

    fn read_data(&mut self) -> (r: u8)
        requires
            read_data_ok(old(self)@),
        ensures
            r == old(self)@.buffer[old(self)@.sector_offset as int],
            final(self)@ == data_taken(old(self)@),
    {
        assert(self.buffer@.len() == self.buffer.len());
        let index = self.sector_offset as usize;
        let data = self.buffer[index];
        self.sector_offset = self.sector_offset + 1;
        self.data_fifo_size = self.data_fifo_size - 1;
        if self.data_fifo_size == 0 {
            self.counter = COMMAND_DELAY;
            self.status = self.status & !STATUS_DATA_READY;
            self.seek_file_offset = self.seek_file_offset + SECTOR_SIZE;
        }
        data
    }

    /// The end of the disc, or the seek error when there is none.
    fn get_final_sector(&self) -> (r: Result<DriveLoc, u8>)
        ensures
            match self@.disc {
                None => r == Err::<DriveLoc, u8>(ERR_SEEK_FAILED),
                Some(d) => r == Ok::<DriveLoc, u8>(disc_end(d)),
            },
    {
        match &self.disc {
            None => Err(ERR_SEEK_FAILED),
            Some(d) => Ok(d.get_end_pos()),
        }
    }
    fn sync(&mut self) -> (r: Result<(), u8>)
        requires
            old(self).wf(),
        ensures
            final(self).wf(),
            command_done(final(self)@, r) == cmd_sync(old(self)@),
    {
        self.command_complete();
        Ok(())
    }

    fn set_filter(&mut self) -> (r: Result<(), u8>)
        requires
            old(self).wf(),
        ensures
            final(self).wf(),
            command_done(final(self)@, r) == cmd_set_filter(old(self)@),
    {
        if self.read_parameter().is_none() {
            return Err(ERR_MISSING_PARAM);
        }
        if self.read_parameter().is_none() {
            return Err(ERR_MISSING_PARAM);
        }
        let ds = self.drive_status;
        self.send_response(ds, 3);
        self.command_complete();
        Ok(())
    }

    fn set_mode(&mut self) -> (r: Result<(), u8>)
        requires
            old(self).wf(),
        ensures
            final(self).wf(),
            command_done(final(self)@, r) == cmd_set_mode(old(self)@),
    {
        let mode = match self.read_parameter() {
            Some(m) => m,
            None => return Err(ERR_MISSING_PARAM),
        };
        self.mode = mode;
        let ds = self.drive_status;
        self.send_response(ds, 3);
        self.command_complete();
        Ok(())
    }

    fn init(&mut self) -> (r: Result<(), u8>)
        requires
            old(self).wf(),
        ensures
            final(self).wf(),
            command_done(final(self)@, r) == cmd_init(old(self)@),
    {
        if self.response_count == 0 {
            let ds = self.drive_status;
            self.send_response(ds, 3);
            self.first_response();
        } else {
            self.mode = MODE_SECTOR_SIZE;
            self.drive_status = self.drive_status | DRIVE_SPINDLE;
            let ds = self.drive_status;
            self.send_response(ds, 2);
            self.command_complete();
        }
        Ok(())
    }

    fn motor_on(&mut self) -> (r: Result<(), u8>)
        requires
            old(self).wf(),
        ensures
            final(self).wf(),
            command_done(final(self)@, r) == cmd_motor_on(old(self)@),
    {
        if self.drive_status & DRIVE_SPINDLE != 0 {
            self.drive_status = self.drive_status | DRIVE_ERROR;
            return Err(ERR_MISSING_PARAM);
        }
        if self.response_count == 0 {
            let ds = self.drive_status;
            self.send_response(ds, 3);
            self.first_response();
        } else {
            self.drive_status = self.drive_status | DRIVE_SPINDLE;
            let ds = self.drive_status;
            self.send_response(ds, 2);
            self.command_complete();
        }
        Ok(())
    }

    fn stop(&mut self) -> (r: Result<(), u8>)
        requires
            old(self).wf(),
        ensures
            final(self).wf(),
            command_done(final(self)@, r) == cmd_stop(old(self)@),
    {
        if self.response_count == 0 {
            self.drive_status = self.drive_status & !DRIVE_READ_BITS;
            let ds = self.drive_status;
            self.send_response(ds, 3);
            self.first_response();
        } else {
            self.drive_status = self.drive_status & !DRIVE_SPINDLE;
            let ds = self.drive_status;
            self.send_response(ds, 2);
            self.command_complete();
        }
        Ok(())
    }

    fn pause(&mut self) -> (r: Result<(), u8>)
        requires
            old(self).wf(),
        ensures
            final(self).wf(),
            command_done(final(self)@, r) == cmd_pause(old(self)@),
    {
        if self.response_count == 0 {
            let ds = self.drive_status;
            self.send_response(ds, 3);
            self.first_response();
        } else {
            self.drive_status = self.drive_status & !DRIVE_READ_BITS;
            let ds = self.drive_status;
            self.send_response(ds, 2);
            self.command_complete();
        }
        Ok(())
    }

    fn set_loc(&mut self) -> (r: Result<(), u8>)
        requires
            old(self).wf(),
        ensures
            final(self).wf(),
            command_done(final(self)@, r) == cmd_set_loc(old(self)@),
    {
        let p = match self.read_parameter() {
            Some(p) => p,
            None => return Err(ERR_MISSING_PARAM),
        };
        self.loc.minute = match from_bcd(p) {
            Some(m) => m,
            None => return Err(ERR_INVALID_PARAM),
        };
        let p = match self.read_parameter() {
            Some(p) => p,
            None => return Err(ERR_MISSING_PARAM),
        };
        self.loc.second = match from_bcd(p) {
            Some(m) => m,
            None => return Err(ERR_INVALID_PARAM),
        };
        let p = match self.read_parameter() {
            Some(p) => p,
            None => return Err(ERR_MISSING_PARAM),
        };
        self.loc.sector = match from_bcd(p) {
            Some(m) => m,
            None => return Err(ERR_INVALID_PARAM),
        };
        self.seeked = false;
        let ds = self.drive_status;
        self.send_response(ds, 3);
        self.command_complete();
        Ok(())
    }

    /// Data seek.
    fn seek_l(&mut self) -> (r: Result<(), u8>)
        requires
            old(self).wf(),
            old(self)@.response_count != 0 ==> loc_bytes(old(self)@.loc) >= root_offset(),
        ensures
            final(self).wf(),
            command_done(final(self)@, r) == cmd_seek_l(old(self)@),
    {
        if self.response_count == 0 {
            self.drive_status = (self.drive_status & !DRIVE_READ_BITS) | DRIVE_SEEKING | DRIVE_SPINDLE;
            let ds = self.drive_status;
            self.send_response(ds, 3);
            self.first_response();
        } else {
            self.seek_file_offset = self.loc.byte_offset();
            self.seeked = true;
            let ds = self.drive_status;
            self.send_response(ds, 2);
            self.command_complete();
        }
        Ok(())
    }

    fn set_session(&mut self) -> (r: Result<(), u8>)
        requires
            old(self).wf(),
        ensures
            final(self).wf(),
            command_done(final(self)@, r) == cmd_set_session(old(self)@),
    {
        let session = match self.read_parameter() {
            Some(p) => p,
            None => return Err(ERR_MISSING_PARAM),
        };
        if session == 0x00 {
            self.send_response(0x03, 5);
            Err(ERR_INVALID_PARAM)
        } else if session > 0x01 {
            let ds = self.drive_status;
            self.send_response(ds, 3);
            self.send_response(0x06, 5);
            Err(ERR_INVALID_CMD)
        } else {
            let ds = self.drive_status;
            self.send_response(ds, 3);
            let ds = self.drive_status;
            self.send_response(ds, 2);
            self.command_complete();
            Ok(())
        }
    }

    /// Read with retry (and, the same, without).
    fn read_n(&mut self) -> (r: Result<(), u8>)
        requires
            old(self).wf(),
            old(self)@.response_count != 0 ==> read_ok(old(self)@),
        ensures
            final(self).wf(),
            command_done(final(self)@, r) == cmd_read(old(self)@),
    {
        if self.response_count == 0 {
            self.drive_status = (self.drive_status & !DRIVE_READ_BITS) | DRIVE_SEEKING;
            let ds = self.drive_status;
            self.send_response(ds, 3);
            self.first_response();
        } else {
            if !self.seeked {
                self.seek_file_offset = self.loc.byte_offset();
                self.seeked = true;
            }
            self.drive_status = (self.drive_status & !DRIVE_READ_BITS) | DRIVE_READING;
            self.read_sector();
            let ds = self.drive_status;
            self.send_response(ds, 1);
            self.command_complete();
        }
        Ok(())
    }

    /// Read the table of contents.
    fn read_toc(&mut self) -> (r: Result<(), u8>)
        requires
            old(self).wf(),
        ensures
            final(self).wf(),
            command_done(final(self)@, r) == cmd_read_toc(old(self)@),
    {
        let ds = self.drive_status;
        if self.response_count == 0 {
            self.send_response(ds, 3);
            self.first_response();
        } else {
            self.send_response(ds, 2);
            self.command_complete();
        }
        Ok(())
    }

    fn get_stat(&mut self) -> (r: Result<(), u8>)
        requires
            old(self).wf(),
        ensures
            final(self).wf(),
            command_done(final(self)@, r) == cmd_get_stat(old(self)@),
    {
        let ds = self.drive_status;
        self.send_response(ds, 3);
        self.drive_status = self.drive_status & !DRIVE_SHELL_OPEN;
        self.command_complete();
        Ok(())
    }

    fn get_loc_p(&mut self) -> (r: Result<(), u8>)
        requires
            old(self).wf(),
        ensures
            final(self).wf(),
            command_done(final(self)@, r) == cmd_get_loc_p(old(self)@),
    {
        self.send_response(0x01, 3); // Track number
        self.send_response(0x01, 3); // Index number
        self.send_response(0x00, 3); // Minute number
        self.send_response(0x00, 3); // Second number
        self.send_response(0x00, 3); // Sector number
        self.send_response(0x00, 3); // Minute number
        self.send_response(0x00, 3); // Second number
        self.send_response(0x00, 3); // Sector number
        self.command_complete();
        Ok(())
    }

    /// Get the track numbers: the disc is taken to hold one track.
    fn get_tn(&mut self) -> (r: Result<(), u8>)
        requires
            old(self).wf(),
        ensures
            final(self).wf(),
            command_done(final(self)@, r) == cmd_get_tn(old(self)@),
    {
        let first_track = match to_bcd(1) {
            Some(b) => b,
            None => 0,
        };
        let last_track = match to_bcd(1) {
            Some(b) => b,
            None => 0,
        };
        let ds = self.drive_status;
        self.send_response(ds, 3);
        self.send_response(first_track, 3);
        self.send_response(last_track, 3);
        self.command_complete();
        Ok(())
    }

    /// Get a track's start: the disc is taken to hold one track.
    fn get_td(&mut self) -> (r: Result<(), u8>)
        requires
            old(self).wf(),
            get_td_ok(old(self)@),
        ensures
            final(self).wf(),
            command_done(final(self)@, r) == cmd_get_td(old(self)@),
    {
        let p = match self.read_parameter() {
            Some(p) => p,
            None => return Err(ERR_MISSING_PARAM),
        };
        let track = match from_bcd(p) {
            Some(t) => t,
            None => return Err(ERR_INVALID_PARAM),
        };
        if track == 0 {
            let loc = match self.get_final_sector() {
                Ok(loc) => loc,
                Err(e) => return Err(e),
            };
            let minute = match to_bcd(loc.minute) {
                Some(b) => b,
                None => 0,
            };
            let second = match to_bcd(loc.second) {
                Some(b) => b,
                None => 0,
            };
            let ds = self.drive_status;
            self.send_response(ds, 3);
            self.send_response(minute, 3);
            self.send_response(second, 3);
            self.command_complete();
            Ok(())
        } else if track == 1 {
            let ds = self.drive_status;
            self.send_response(ds, 3);
            self.send_response(0x00, 3);
            self.send_response(0x00, 3);
            self.command_complete();
            Ok(())
        } else {
            Err(ERR_INVALID_PARAM)
        }
    }

    fn get_id(&mut self) -> (r: Result<(), u8>)
        requires
            old(self).wf(),
        ensures
            final(self).wf(),
            command_done(final(self)@, r) == cmd_get_id(old(self)@),
    {
        if self.response_count == 0 {
            let ds = self.drive_status;
            self.send_response(ds, 3);
            self.first_response();
        } else {
            if self.disc.is_some() {
                self.send_response(0x02, 2); // Stat
                self.send_response(0x00, 2); // Flags
                self.send_response(0x20, 2); // Mode 2
                self.send_response(0x00, 2);
                // Region string: "SCEA".
                self.send_response(0x53, 2);
                self.send_response(0x43, 2);
                self.send_response(0x45, 2);
                self.send_response(0x41, 2);
            } else {
                self.send_response(0x08, 5); // Stat
                self.send_response(0x40, 5); // Flags
                self.send_response(0x00, 5);
                self.send_response(0x00, 5);
                self.send_response(0x00, 5);
                self.send_response(0x00, 5);
                self.send_response(0x00, 5);
                self.send_response(0x00, 5);
            }
            self.command_complete();
        }
        Ok(())
    }

    fn subfunction(&mut self) -> (r: Result<(), u8>)
        requires
            old(self).wf(),
            old(self)@.param_fifo.len() > 0 ==> old(self)@.param_fifo[0] == 0x20,
        ensures
            final(self).wf(),
            command_done(final(self)@, r) == cmd_subfunction(old(self)@),
    {
        match self.read_parameter() {
            Some(_) => {},
            None => return Err(ERR_MISSING_PARAM),
        }
        // The date and version of the controller's BIOS.
        self.send_response(0x95, 3);
        self.send_response(0x05, 3);
        self.send_response(0x16, 3);
        self.send_response(0xC1, 3);
        self.command_complete();
        Ok(())
    }

    fn mute(&mut self) -> (r: Result<(), u8>)
        requires
            old(self).wf(),
        ensures
            final(self).wf(),
            command_done(final(self)@, r) == cmd_mute(old(self)@),
    {
        let ds = self.drive_status;
        self.send_response(ds, 3);
        self.command_complete();
        Ok(())
    }
    /// Carry out the current command.
    fn exec_command(&mut self)
        requires
            old(self).wf(),
            exec_ok(old(self)@),
        ensures
            final(self).wf(),
            final(self)@ == exec_step(old(self)@),
    {
        let res = match self.command {
            0x00 => self.sync(),
            0x01 => self.get_stat(),
            0x02 => self.set_loc(),
            0x06 => self.read_n(),
            0x07 => self.motor_on(),
            0x08 => self.stop(),
            0x09 => self.pause(),
            0x0A => self.init(),
            0x0B => self.mute(),
            0x0C => self.mute(),
            0x0D => self.set_filter(),
            0x0E => self.set_mode(),
            0x11 => self.get_loc_p(),
            0x12 => self.set_session(),
            0x13 => self.get_tn(),
            0x14 => self.get_td(),
            0x15 => self.seek_l(),
            0x19 => self.subfunction(),
            0x1A => self.get_id(),
            0x1B => self.read_n(),
            0x1E => self.read_toc(),
            _ => {
                assert(false);
                Ok(())
            },
        };
        if let Err(e) = res {
            self.send_response(e, 5);
            self.command_complete();
        }
    }

    /// Clock the CD-ROM reader. Returns the interrupt, if one is pending.
    pub fn clock(&mut self, cycles: usize) -> (r: u32)
        requires
            old(self).wf(),
            clock_ok(old(self)@, cycles),
        ensures
            final(self).wf(),
            final(self)@ == clocked(old(self)@, cycles),
            r == (if irq_pending(final(self)@) { IRQ_CDROM } else { 0 }),
    {
        if self.counter > 0 {
            self.counter = self.counter.saturating_sub(cycles);
            if self.counter == 0 {
                self.exec_command();
            }
        }
        if self.check_irq() {
            IRQ_CDROM
        } else {
            0
        }
    }

    /// The command due within `cycles`, if any, can be carried out.
    pub fn can_clock(&self, cycles: usize) -> (r: bool)
        ensures
            r == clock_ok(self@, cycles),
    {
        if self.counter > 0 && self.counter <= cycles {
            self.command_supported()
        } else {
            true
        }
    }

    /// The current command can be carried out.
    pub fn command_supported(&self) -> (r: bool)
        ensures
            r == exec_ok(self@),
    {
        let c = self.command;
        if c == 0x06 || c == 0x1B {
            self.response_count == 0 || self.read_possible()
        } else if c == 0x15 {
            self.response_count == 0 || self.loc_reachable()
        } else if c == 0x14 {
            self.track_end_ok()
        } else if c == 0x19 {
            self.param_fifo.len() == 0 || self.param_fifo[0] == 0x20
        } else {
            c <= 0x02 || (0x06 <= c && c <= 0x0E) || (0x11 <= c && c <= 0x15) || c == 0x19
                || c == 0x1A || c == 0x1B || c == 0x1E
        }
    }

    fn loc_reachable(&self) -> (r: bool)
        ensures
            r == (loc_bytes(self@.loc) >= root_offset()),
    {
        let sectors = (self.loc.minute as u64) * 4500 + (self.loc.second as u64) * 75 + (self.loc.sector as u64);
        sectors >= 150
    }

    fn read_possible(&self) -> (r: bool)
        ensures
            r == read_ok(self@),
    {
        let seek = if !self.seeked {
            if !self.loc_reachable() {
                return false;
            }
            self.loc.byte_offset()
        } else {
            self.seek_file_offset
        };
        let target = (seek / DISC_BUFFER_SIZE) * DISC_BUFFER_SIZE;
        proof {
            if let Some(d) = &self.disc {
                use_type_invariant(d);
                lemma_first_track(d@, target as int);
            }
        }
        let buffered = if self.buffer_file_offset == target || self.disc.is_none() {
            self.buffer_file_offset
        } else {
            target
        };
        buffered <= seek && seek - buffered <= u64::MAX - SECTOR_HEADER
    }

    fn track_end_ok(&self) -> (r: bool)
        ensures
            r == get_td_ok(self@),
    {
        if self.param_fifo.len() == 0 {
            return true;
        }
        match from_bcd(self.param_fifo[0]) {
            Some(0) => match self.get_final_sector() {
                Ok(loc) => loc.minute <= 99,
                Err(_) => true,
            },
            _ => true,
        }
    }

    /// Read a byte of a register.
    pub fn read_byte(&mut self, addr: u32) -> (r: u8)
        requires
            old(self).wf(),
            read_byte_ok(old(self)@, addr),
        ensures
            final(self).wf(),
            (final(self)@, r) == byte_read(old(self)@, addr),
    {
        if addr == CDROM_STATUS_ADDR {
            self.status
        } else if addr == CDROM_PORT1_ADDR {
            self.read_response()
        } else if addr == CDROM_PORT2_ADDR {
            self.read_data()
        } else {
            let i = self.index();
            if i == 0 || i == 2 {
                self.int_enable
            } else {
                self.int_flags
            }
        }
    }

    /// Write a byte of a register.
    pub fn write_byte(&mut self, addr: u32, data: u8)
        requires
            old(self).wf(),
            write_byte_ok(old(self)@, addr),
        ensures
            final(self).wf(),
            final(self)@ == byte_written(old(self)@, addr, data),
    {
        let i = self.index();
        if addr == CDROM_STATUS_ADDR {
            self.write_status(data);
        } else if addr == CDROM_PORT1_ADDR {
            if i == 0 {
                self.write_command(data);
            } else if i == 3 {
                self.vol_right_to_right = data;
            }
        } else if addr == CDROM_PORT2_ADDR {
            if i == 0 {
                self.write_parameter(data);
            } else if i == 1 {
                self.set_int_enable(data);
            } else if i == 2 {
                self.vol_left_to_left = data;
            } else {
                self.vol_right_to_left = data;
            }
        } else {
            if i == 0 {
                self.write_request(data);
            } else if i == 1 {
                self.set_int_flags(data);
            } else if i == 2 {
                self.vol_left_to_right = data;
            }
        }
    }

    /// Read two bytes of registers, the low one first.
    pub fn read_halfword(&mut self, addr: u32) -> (r: u16)
        requires
            old(self).wf(),
            read_byte_ok(old(self)@, addr),
            read_byte_ok(byte_read(old(self)@, addr).0, (addr + 1) as u32),
        ensures
            final(self).wf(),
            ({
                let (s1, b0) = byte_read(old(self)@, addr);
                let (s2, b1) = byte_read(s1, (addr + 1) as u32);
                &&& final(self)@ == s2
                &&& r == (b0 as u16) | ((b1 as u16) << 8)
            }),
    {
        let b0 = self.read_byte(addr);
        let b1 = self.read_byte(addr + 1);
        (b0 as u16) | ((b1 as u16) << 8)
    }

    /// Write two bytes of registers, the low one first.
    pub fn write_halfword(&mut self, addr: u32, data: u16)
        requires
            old(self).wf(),
            write_byte_ok(old(self)@, addr),
            write_byte_ok(byte_written(old(self)@, addr, data as u8), (addr + 1) as u32),
        ensures
            final(self).wf(),
            final(self)@ == byte_written(byte_written(old(self)@, addr, data as u8), (addr + 1) as u32,
                (data >> 8) as u8),
    {
        self.write_byte(addr, data as u8);
        self.write_byte(addr + 1, (data >> 8) as u8);
    }

    /// Read the four registers as a word, the status register lowest.
    pub fn read_word(&mut self, addr: u32) -> (r: u32)
        requires
            old(self).wf(),
            addr == CDROM_STATUS_ADDR,
            read_data_ok(response_taken(old(self)@).0),
        ensures
            final(self).wf(),
            ({
                let (s1, b0) = byte_read(old(self)@, addr);
                let (s2, b1) = byte_read(s1, (addr + 1) as u32);
                let (s3, b2) = byte_read(s2, (addr + 2) as u32);
                let (s4, b3) = byte_read(s3, (addr + 3) as u32);
                &&& final(self)@ == s4
                &&& r == (b0 as u32) | ((b1 as u32) << 8) | ((b2 as u32) << 16) | ((b3 as u32) << 24)
            }),
    {
        let b0 = self.read_byte(addr);
        let b1 = self.read_byte(addr + 1);
        let b2 = self.read_byte(addr + 2);
        let b3 = self.read_byte(addr + 3);
        (b0 as u32) | ((b1 as u32) << 8) | ((b2 as u32) << 16) | ((b3 as u32) << 24)
    }

    /// Write the four registers as a word, the status register lowest.
    pub fn write_word(&mut self, addr: u32, data: u32)
        requires
            old(self).wf(),
            addr == CDROM_STATUS_ADDR,
            write_byte_ok(byte_written(byte_written(old(self)@, addr, data as u8), (addr + 1) as u32,
                (data >> 8) as u8), (addr + 2) as u32),
        ensures
            final(self).wf(),
            final(self)@ == byte_written(byte_written(byte_written(byte_written(old(self)@, addr,
                data as u8), (addr + 1) as u32, (data >> 8) as u8), (addr + 2) as u32,
                (data >> 16) as u8), (addr + 3) as u32, (data >> 24) as u8),
    {
        self.write_byte(addr, data as u8);
        self.write_byte(addr + 1, (data >> 8) as u8);
        self.write_byte(addr + 2, (data >> 16) as u8);
        self.write_byte(addr + 3, (data >> 24) as u8);
    }

    /// Take a word of sector data by DMA, the first byte lowest.
    pub fn dma_read_word(&mut self) -> (r: DmaWord)
        requires
            old(self).wf(),
            read_data_ok(old(self)@),
            read_data_ok(data_taken(old(self)@)),
            read_data_ok(data_taken(data_taken(old(self)@))),
            read_data_ok(data_taken(data_taken(data_taken(old(self)@)))),
        ensures
            final(self).wf(),
            ({
                let s0 = old(self)@;
                let s1 = data_taken(s0);
                let s2 = data_taken(s1);
                let s3 = data_taken(s2);
                let b0 = s0.buffer[s0.sector_offset as int];
                let b1 = s1.buffer[s1.sector_offset as int];
                let b2 = s2.buffer[s2.sector_offset as int];
                let b3 = s3.buffer[s3.sector_offset as int];
                &&& final(self)@ == data_taken(s3)
                &&& r.data == (b0 as u32) | ((b1 as u32) << 8) | ((b2 as u32) << 16) | ((b3 as u32) << 24)
                &&& r.cycles == 23
            }),
    {
        let b0 = self.read_data();
        let b1 = self.read_data();
        let b2 = self.read_data();
        let b3 = self.read_data();
        let data = (b0 as u32) | ((b1 as u32) << 8) | ((b2 as u32) << 16) | ((b3 as u32) << 24);
        DmaWord { data, cycles: 23 }
    }
}


/// Tracks start on whole seconds, so two sectors of the same second lie in
/// the same track.
proof fn lemma_same_second_same_track(d: DiscView, a: int, b: int, k: int)
    requires
        disc_ok(d),
        0 <= k <= d.layout.len(),
        a % 75 == 0,
        a <= b < a + 75,
    ensures
        last_start_at_or_before(d.layout, a, k) == last_start_at_or_before(d.layout, b, k),
    decreases k,
{
    if k > 0 {
        let st = loc_index(d.layout[k - 1].start);
        assert(st % 75 == 0);
        assert(st <= b ==> st <= a) by (nonlinear_arith)
            requires st % 75 == 0, a % 75 == 0, a <= b < a + 75, st >= 0;
        lemma_same_second_same_track(d, a, b, k - 1);
    }
}

/// Reading a sector hands out the sector at the seek position: the `i`-th
/// queued byte is the byte `i` after the sector's header (after its sync
/// bytes in whole-sector mode) in the image of the track that holds the
/// sector, wherever that image has the byte, and every queued byte lies
/// inside the buffer.
pub proof fn lemma_sector_data(s: CdromView, i: int)
    requires
        cdrom_ok(s),
        s.disc is Some,
        s.seek_file_offset % SECTOR_SIZE == 0,
        0 <= i < sector_read(s).data_fifo_size,
    ensures
        read_sector_ok(s),
        locate(s.disc->0, s.seek_file_offset as int) is Some,
        ({
            let t = sector_read(s);
            let d = s.disc->0;
            let n = locate(d, s.seek_file_offset as int).unwrap().0;
            let rel = locate(d, s.seek_file_offset as int).unwrap().1;
            let skip = if s.mode & MODE_SECTOR_SIZE != 0 { SECTOR_SYNC_BYTES } else { SECTOR_HEADER };
            let pos = rel + skip + i;
            &&& t.sector_offset + i < t.buffer.len()
            &&& pos < d.images[n].len() ==> t.buffer[t.sector_offset + i] == d.images[n][pos]
        }),
{
    let seek = s.seek_file_offset;
    let target = chunk_start(seek);
    let q = seek / DISC_BUFFER_SIZE;
    let start = seek % DISC_BUFFER_SIZE;
    assert(target == q * DISC_BUFFER_SIZE);
    assert(seek == q * DISC_BUFFER_SIZE + start) by (nonlinear_arith)
        requires q == seek / 176400, start == seek % 176400;
    assert(start % 2352 == 0 && start < 176400) by (nonlinear_arith)
        requires seek == q * 176400 + start, seek % 2352 == 0, 0 <= start < 176400;
    assert(start <= 176400 - 2352) by (nonlinear_arith)
        requires start % 2352 == 0, 0 <= start < 176400;
    assert(target % DISC_BUFFER_SIZE == 0) by (nonlinear_arith)
        requires target == q * 176400, q >= 0;
    assert(u64::MAX % DISC_BUFFER_SIZE != 0);
    let d = s.disc->0;
    let sq = start / 2352;
    assert(target / 2352 == 75 * q && seek / 2352 == 75 * q + sq && sq < 75) by (nonlinear_arith)
        requires target == q * 176400, seek == q * 176400 + start, sq == start / 2352,
            start % 2352 == 0, 0 <= start < 176400, q >= 0;
    assert((75 * q + 150) % 75 == 0) by (nonlinear_arith) requires q >= 0;
    lemma_same_second_same_track(d, 75 * q + 150, 75 * q + sq + 150, d.layout.len() as int);
    lemma_first_track(d, target as int);
    let n = locate(d, target as int).unwrap().0;
    let rel_t = locate(d, target as int).unwrap().1;
    assert(locate(d, seek as int) == Some((n, rel_t + start)));
    let s1 = load_chunk(s);
    assert(s1.buffer_file_offset == target);
    let t = sector_read(s);
    let skip = if s.mode & MODE_SECTOR_SIZE != 0 { SECTOR_SYNC_BYTES } else { SECTOR_HEADER };
    assert(t.sector_offset == start + skip);
    let pos = rel_t + start + skip + i;
    if pos < d.images[n].len() {
        assert(t.buffer[t.sector_offset + i] == d.images[n][rel_t + (start + skip + i)]);
    }
}

/// On a disc that can be read, every byte of its data lies in some track.
proof fn lemma_first_track(d: DiscView, offset: int)
    requires
        disc_ok(d),
        offset >= 0,
    ensures
        locate(d, offset) is Some,
        0 <= locate(d, offset).unwrap().0 < d.images.len(),
{
    lemma_first_track_found(d.layout, offset / 2352 + 150, d.layout.len() as int);
}

proof fn lemma_busy_cleared(x: u8)
    by (bit_vector)
    ensures
        (x & !STATUS_BUSY) & STATUS_BUSY == 0,
{
}

proof fn lemma_complete_clears()
    ensures
        forall|x: CdromView| (#[trigger] complete(x)).status & STATUS_BUSY == 0,
{
    assert forall|x: CdromView| (#[trigger] complete(x)).status & STATUS_BUSY == 0 by {
        lemma_busy_cleared(x.status);
    }
}

/// The state a command step leaves: the command ended, or its second
/// response is scheduled.
pub open spec fn ends_or_continues(s: CdromView, t: CdromView) -> bool {
    ||| t.status & STATUS_BUSY == 0
    ||| s.response_count == 0 && t.response_count == 1 && t.counter == COMMAND_DELAY
}

proof fn lemma_parameter_commands(s: CdromView)
    requires
        exec_ok(s),
        s.command == 0x02 || s.command == 0x0D || s.command == 0x0E || s.command == 0x12
            || s.command == 0x14 || s.command == 0x19,
    ensures
        ends_or_continues(s, exec_step(s)),
{
    lemma_complete_clears();
}

proof fn lemma_staged_commands(s: CdromView)
    requires
        exec_ok(s),
        s.command == 0x06 || s.command == 0x1B || s.command == 0x07 || s.command == 0x08
            || s.command == 0x09 || s.command == 0x0A || s.command == 0x15 || s.command == 0x1A
            || s.command == 0x1E,
    ensures
        ends_or_continues(s, exec_step(s)),
{
    lemma_complete_clears();
}

proof fn lemma_single_commands(s: CdromView)
    requires
        exec_ok(s),
        s.command == 0x00 || s.command == 0x01 || s.command == 0x0B || s.command == 0x0C
            || s.command == 0x11 || s.command == 0x13,
    ensures
        ends_or_continues(s, exec_step(s)),
{
    lemma_complete_clears();
}

/// Every command step either ends the command (the busy bit is clear) or,
/// at the first stage of a two-stage command, sends its first response and
/// schedules the second after the command delay.
pub proof fn lemma_command_ends_or_continues(s: CdromView)
    requires
        exec_ok(s),
    ensures
        ends_or_continues(s, exec_step(s)),
{
    let c = s.command;
    if c == 0x02 || c == 0x0D || c == 0x0E || c == 0x12 || c == 0x14 || c == 0x19 {
        lemma_parameter_commands(s);
    } else if c == 0x06 || c == 0x1B || c == 0x07 || c == 0x08 || c == 0x09 || c == 0x0A || c == 0x15
        || c == 0x1A || c == 0x1E {
        lemma_staged_commands(s);
    } else {
        lemma_single_commands(s);
    }
}

} // verus!
