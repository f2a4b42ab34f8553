//! A 128 KiB memory card and its serial protocol: read, write and identify,
//! one byte in and one byte out at a time.

use vstd::prelude::*;

verus! {

pub const MEM_CARD_SIZE: usize = 131072;
pub const ID_1: u8 = 0x5A;
pub const ID_2: u8 = 0x5D;
pub const CMD_ACK_1: u8 = 0x5C;
pub const CMD_ACK_2: u8 = 0x5D;
/// The identification bytes of a memory card.
pub const MEM_CARD_ID_0: u8 = 0x04;
pub const MEM_CARD_ID_1: u8 = 0x00;
pub const MEM_CARD_ID_2: u8 = 0x00;
pub const MEM_CARD_ID_3: u8 = 0x80;
/// The end status of a good transfer: 'G'.
pub const STATUS_GOOD: u8 = 0x47;
/// The end status of a write whose checksum was wrong: 'N'.
pub const STATUS_BAD_CHECKSUM: u8 = 0x4E;
/// Sectors of 128 bytes.
pub const MEM_CARD_SECTOR: usize = 128;

/// The command a transfer carries out.
#[derive(Clone, Copy, PartialEq, Eq, Structural, Debug)]
pub enum MemoryCardMode {
    Read,
    Write,
    GetID,
}

/// The state of a memory card, its contents as a sequence.
pub struct MemCardView {
    pub buffer: Seq<u8>,
    pub dirty: bool,
    pub mode: Option<MemoryCardMode>,
    pub flag: u8,
    pub sector_addr: u16,
    pub byte_addr: usize,
    pub transfer_byte: usize,
    pub checksum: u8,
    pub sector_ok: bool,
    pub checksum_ok: bool,
}

/// A 128 KiB PSX memory card. Its contents are kept in memory; writing them
/// back to their file is left to the caller.
pub struct MemoryCard {
    buffer: Vec<u8>,
    dirty: bool,

    mode: Option<MemoryCardMode>,
    flag: u8,
    sector_addr: u16,
    byte_addr: usize,
    transfer_byte: usize,
    checksum: u8,

    sector_ok: bool,
    checksum_ok: bool,
}

impl View for MemoryCard {
    type V = MemCardView;

    closed spec fn view(&self) -> MemCardView {
        MemCardView {
            buffer: self.buffer@,
            dirty: self.dirty,
            mode: self.mode,
            flag: self.flag,
            sector_addr: self.sector_addr,
            byte_addr: self.byte_addr,
            transfer_byte: self.transfer_byte,
            checksum: self.checksum,
            sector_ok: self.sector_ok,
            checksum_ok: self.checksum_ok,
        }
    }
}

/// The card holds its 128 KiB.
pub open spec fn card_ok(s: MemCardView) -> bool {
    s.buffer.len() == MEM_CARD_SIZE
}

/// The next byte of the transfer.
pub open spec fn bump(s: MemCardView) -> MemCardView {
    MemCardView { transfer_byte: (s.transfer_byte + 1) as usize, ..s }
}

/// The first byte of a transfer chooses the command; the card answers with
/// its flag byte if it knows the command.
pub open spec fn mode_set(s: MemCardView, b: u8) -> (MemCardView, u8) {
    let mode = if b == 0x52 {
        Some(MemoryCardMode::Read)
    } else if b == 0x57 {
        Some(MemoryCardMode::Write)
    } else if b == 0x53 {
        Some(MemoryCardMode::GetID)
    } else {
        None
    };
    (MemCardView { transfer_byte: 0, mode, ..s }, if mode is Some { s.flag } else { 0 })
}

/// The high byte of the sector number; only sectors below 0x400 exist.
pub open spec fn sector_hi_set(s: MemCardView, d: u8) -> MemCardView {
    MemCardView { sector_addr: ((d as u16) << 8) as u16, checksum: d, sector_ok: d <= 3, ..s }
}

/// The low byte of the sector number.
pub open spec fn sector_lo_set(s: MemCardView, d: u8) -> MemCardView {
    let sector = s.sector_addr | (d as u16);
    MemCardView {
        sector_addr: sector,
        checksum: s.checksum ^ d,
        byte_addr: (sector * 128) as usize,
        ..s
    }
}

pub open spec fn sector_hi(s: MemCardView) -> u8 {
    (s.sector_addr >> 8) as u8
}

pub open spec fn sector_lo(s: MemCardView) -> u8 {
    s.sector_addr as u8
}

/// A byte of the sector is read out, and counted into the checksum.
pub open spec fn data_read(s: MemCardView) -> (MemCardView, u8) {
    let b = s.buffer[s.byte_addr as int];
    (MemCardView { byte_addr: (s.byte_addr + 1) as usize, checksum: s.checksum ^ b, ..s }, b)
}

/// A byte of the sector is written, and counted into the checksum.
pub open spec fn data_written(s: MemCardView, d: u8) -> MemCardView {
    MemCardView {
        buffer: s.buffer.update(s.byte_addr as int, d),
        byte_addr: (s.byte_addr + 1) as usize,
        checksum: s.checksum ^ d,
        ..s
    }
}

/// The card can take `d` as the next byte: the transfer is not over, a
/// sector byte lies inside the card, and a written sector's checksum is
/// right.
pub open spec fn transfer_ok(s: MemCardView, d: u8) -> bool {
    let t = s.transfer_byte;
    match s.mode {
        None => true,
        Some(MemoryCardMode::GetID) => t <= 7,
        Some(MemoryCardMode::Read) => t <= 137 && (8 <= t <= 135 ==> s.byte_addr < s.buffer.len()),
        Some(MemoryCardMode::Write) => {
            &&& t <= 135
            &&& 4 <= t <= 131 ==> s.byte_addr < s.buffer.len()
            &&& t == 132 ==> s.checksum == d
        },
    }
}

/// Identify: the card's identification bytes.
pub open spec fn id_step(s: MemCardView) -> (MemCardView, u8) {
    let t = s.transfer_byte;
    let out = if t == 0 {
        ID_1
    } else if t == 1 {
        ID_2
    } else if t == 2 {
        CMD_ACK_1
    } else if t == 3 {
        CMD_ACK_2
    } else if t == 4 {
        MEM_CARD_ID_0
    } else if t == 5 {
        MEM_CARD_ID_1
    } else if t == 6 {
        MEM_CARD_ID_2
    } else {
        MEM_CARD_ID_3
    };
    (bump(MemCardView { mode: if t == 7 { None } else { s.mode }, ..s }), out)
}

/// Read: the sector number comes in, the sector and its checksum go out.
pub open spec fn read_step(s: MemCardView, d: u8) -> (MemCardView, u8) {
    let t = s.transfer_byte;
    if t == 0 {
        (bump(s), ID_1)
    } else if t == 1 {
        (bump(s), ID_2)
    } else if t == 2 {
        (bump(sector_hi_set(s, d)), 0x00)
    } else if t == 3 {
        let s1 = sector_lo_set(s, d);
        (bump(s1), sector_hi(s1))
    } else if t == 4 {
        (bump(s), CMD_ACK_1)
    } else if t == 5 {
        (bump(s), CMD_ACK_2)
    } else if t == 6 {
        (bump(s), if s.sector_ok { sector_hi(s) } else { 0xFF })
    } else if t == 7 {
        if s.sector_ok {
            (bump(s), sector_lo(s))
        } else {
            (bump(MemCardView { mode: None, ..s }), 0xFF)
        }
    } else if t <= 135 {
        let (s1, b) = data_read(s);
        (bump(s1), b)
    } else if t == 136 {
        (bump(s), s.checksum)
    } else {
        (bump(MemCardView { flag: 0x00, mode: None, ..s }), STATUS_GOOD)
    }
}

/// Write: the sector number, the sector and its checksum come in.
pub open spec fn write_step(s: MemCardView, d: u8) -> (MemCardView, u8) {
    let t = s.transfer_byte;
    if t == 0 {
        (bump(s), ID_1)
    } else if t == 1 {
        (bump(s), ID_2)
    } else if t == 2 {
        (bump(sector_hi_set(s, d)), 0x00)
    } else if t == 3 {
        let s1 = sector_lo_set(s, d);
        (bump(s1), sector_hi(s1))
    } else if t <= 131 {
        (bump(data_written(s, d)), 0x00)
    } else if t == 132 {
        (bump(MemCardView { checksum_ok: s.checksum == d, ..s }), 0x00)
    } else if t == 133 {
        (bump(s), CMD_ACK_1)
    } else if t == 134 {
        (bump(s), CMD_ACK_2)
    } else {
        let s1 = MemCardView { mode: None, ..s };
        if !s.checksum_ok {
            (bump(s1), STATUS_BAD_CHECKSUM)
        } else if !s.sector_ok {
            (bump(s1), 0xFF)
        } else {
            (bump(MemCardView { dirty: true, ..s1 }), STATUS_GOOD)
        }
    }
}

/// One byte of a transfer: the card's state after it, and its answer.
pub open spec fn card_step(s: MemCardView, d: u8) -> (MemCardView, u8) {
    match s.mode {
        None => mode_set(s, d),
        Some(MemoryCardMode::GetID) => id_step(s),
        Some(MemoryCardMode::Read) => read_step(s, d),
        Some(MemoryCardMode::Write) => write_step(s, d),
    }
}

impl MemoryCard {
    pub open spec fn wf(&self) -> bool {
        card_ok(self@)
    }

    /// A card with the given contents, or a blank one (which has yet to be
    /// written out) when there are none.
    pub fn new(contents: Option<Vec<u8>>) -> (r: Self)
        requires
            contents matches Some(c) ==> c@.len() == MEM_CARD_SIZE,
        ensures
            r.wf(),
            match contents {
                Some(c) => r@.buffer == c@ && !r@.dirty,
                None => r@.buffer == Seq::new(MEM_CARD_SIZE as nat, |i: int| 0u8) && r@.dirty,
            },
            r@.mode is None,
            r@.flag == 0x08,
            r@.sector_addr == 0 && r@.byte_addr == 0 && r@.transfer_byte == 0 && r@.checksum == 0,
            !r@.sector_ok && !r@.checksum_ok,
    {
        let (buffer, dirty) = match contents {
            Some(c) => (c, false),
            None => {
                let mut buffer: Vec<u8> = Vec::new();
                while buffer.len() < MEM_CARD_SIZE
                    invariant
                        buffer.len() <= MEM_CARD_SIZE,
                        buffer@ == Seq::new(buffer.len() as nat, |i: int| 0u8),
                    decreases MEM_CARD_SIZE - buffer.len(),
                {
                    buffer.push(0);
                    assert(buffer@ =~= Seq::new(buffer.len() as nat, |i: int| 0u8));
                }
                (buffer, true)
            },
        };
        MemoryCard {
            buffer,
            dirty,
            mode: None,
            flag: 0x08,
            sector_addr: 0,
            byte_addr: 0,
            transfer_byte: 0,
            checksum: 0,
            sector_ok: false,
            checksum_ok: false,
        }
    }

    /// The contents to write back to the card's file, if they changed since
    /// the last time; the card is then clean.
    pub fn flush(&mut self) -> (r: Option<Vec<u8>>)
        ensures
            old(self)@.dirty ==> (r matches Some(c) && c@ == old(self)@.buffer),
            !old(self)@.dirty ==> r is None,
            final(self)@ == (MemCardView { dirty: false, ..old(self)@ }),
    {
        if self.dirty {
            self.dirty = false;
            Some(self.buffer.clone())
        } else {
            None
        }
    }

    /// Transfer a byte to the memory card, and receive a byte.
    pub fn transfer_data(&mut self, data_in: u8) -> (r: u8)
        requires
            old(self).wf(),
            transfer_ok(old(self)@, data_in),
        ensures
            final(self).wf(),
            (final(self)@, r) == card_step(old(self)@, data_in),
    {
        match self.mode {
            None => self.set_mode(data_in),
            Some(MemoryCardMode::GetID) => {
                let t = self.transfer_byte;
                let data = if t == 0 {
                    ID_1
                } else if t == 1 {
                    ID_2
                } else if t == 2 {
                    CMD_ACK_1
                } else if t == 3 {
                    CMD_ACK_2
                } else if t == 4 {
                    MEM_CARD_ID_0
                } else if t == 5 {
                    MEM_CARD_ID_1
                } else if t == 6 {
                    MEM_CARD_ID_2
                } else {
                    self.mode = None;
                    MEM_CARD_ID_3
                };
                self.transfer_byte = self.transfer_byte + 1;
                data
            },
            Some(MemoryCardMode::Read) => {
                let t = self.transfer_byte;
                let data = if t == 0 {
                    ID_1
                } else if t == 1 {
                    ID_2
                } else if t == 2 {
                    self.set_sector_hi(data_in);
                    0x00
                } else if t == 3 {
                    self.set_sector_lo(data_in);
                    self.get_sector_hi()
                } else if t == 4 {
                    CMD_ACK_1
                } else if t == 5 {
                    CMD_ACK_2
                } else if t == 6 {
                    if self.sector_ok {
                        self.get_sector_hi()
                    } else {
                        0xFF
                    }
                } else if t == 7 {
                    if self.sector_ok {
                        self.get_sector_lo()
                    } else {
                        self.mode = None;
                        0xFF
                    }
                } else if t <= 135 {
                    self.read_data()
                } else if t == 136 {
                    self.checksum
                } else {
                    self.flag = 0x00;
                    self.mode = None;
                    STATUS_GOOD
                };
                self.transfer_byte = self.transfer_byte + 1;
                data
            },
            Some(MemoryCardMode::Write) => {
                let t = self.transfer_byte;
                let data = if t == 0 {
                    ID_1
                } else if t == 1 {
                    ID_2
                } else if t == 2 {
                    self.set_sector_hi(data_in);
                    0x00
                } else if t == 3 {
                    self.set_sector_lo(data_in);
                    self.get_sector_hi()
                } else if t <= 131 {
                    self.write_data(data_in);
                    0x00
                } else if t == 132 {
                    self.checksum_ok = self.checksum == data_in;
                    0x00
                } else if t == 133 {
                    CMD_ACK_1
                } else if t == 134 {
                    CMD_ACK_2
                } else {
                    self.mode = None;
                    if !self.checksum_ok {
                        STATUS_BAD_CHECKSUM
                    } else if !self.sector_ok {
                        0xFF
                    } else {
                        self.dirty = true;
                        STATUS_GOOD
                    }
                };
                self.transfer_byte = self.transfer_byte + 1;
                data
            },
        }
    }

    /// The card can take `data_in` as the next byte.
    pub fn can_transfer(&self, data_in: u8) -> (r: bool)
        ensures
            r == transfer_ok(self@, data_in),
    {
        let t = self.transfer_byte;
        let len = self.buffer.len();
        match self.mode {
            None => true,
            Some(MemoryCardMode::GetID) => t <= 7,
            Some(MemoryCardMode::Read) => t <= 137 && (t < 8 || t > 135 || self.byte_addr < len),
            Some(MemoryCardMode::Write) => {
                t <= 135 && (t < 4 || t > 131 || self.byte_addr < len) && (t != 132 || self.checksum == data_in)
            },
        }
    }

    /// Returns true if the memory card transfer is complete.
    pub fn transfer_complete(&self) -> (r: bool)
        ensures
            r == self@.mode is None,
    {
        self.mode.is_none()
    }

    pub fn cancel_transfer(&mut self)
        ensures
            final(self)@ == (MemCardView { mode: None, ..old(self)@ }),
    {
        self.mode = None;
    }

    /// Sets the mode of the memory card transfer, and answers with the flag
    /// byte.
    fn set_mode(&mut self, mode_byte: u8) -> (r: u8)
        ensures
            (final(self)@, r) == mode_set(old(self)@, mode_byte),
    {
        self.transfer_byte = 0;
        self.mode = if mode_byte == 0x52 {
            Some(MemoryCardMode::Read)
        } else if mode_byte == 0x57 {
            Some(MemoryCardMode::Write)
        } else if mode_byte == 0x53 {
            Some(MemoryCardMode::GetID)
        } else {
            None
        };
        if self.mode.is_some() {
            self.flag
        } else {
            0x00
        }
    }

    fn set_sector_hi(&mut self, data: u8)
        ensures
            final(self)@ == sector_hi_set(old(self)@, data),
    {
        self.sector_addr = (data as u16) << 8;
        self.checksum = data;
        self.sector_ok = data <= 0x3;
    }

    fn set_sector_lo(&mut self, data: u8)
        ensures
            final(self)@ == sector_lo_set(old(self)@, data),
    {
        self.sector_addr = self.sector_addr | (data as u16);
        self.checksum = self.checksum ^ data;
        self.byte_addr = (self.sector_addr as usize) * 128;
    }

    fn get_sector_hi(&self) -> (r: u8)
        ensures
            r == sector_hi(self@),
    {
        (self.sector_addr >> 8) as u8
    }

    fn get_sector_lo(&self) -> (r: u8)
        ensures
            r == sector_lo(self@),
    {
        self.sector_addr as u8
    }

    fn read_data(&mut self) -> (r: u8)
        requires
            old(self)@.byte_addr < old(self)@.buffer.len(),
        ensures
            (final(self)@, r) == data_read(old(self)@),
    {
        assert(self.buffer@.len() == self.buffer.len());
        let data = self.buffer[self.byte_addr];
        self.byte_addr = self.byte_addr + 1;
        self.checksum = self.checksum ^ data;
        data
    }

    fn write_data(&mut self, data: u8)
        requires
            old(self)@.byte_addr < old(self)@.buffer.len(),
        ensures
            final(self)@ == data_written(old(self)@, data),
    {
        assert(self.buffer@.len() == self.buffer.len());
        self.buffer.set(self.byte_addr, data);
        self.byte_addr = self.byte_addr + 1;
        self.checksum = self.checksum ^ data;
    }
}

/// The card's state, and its answers, after the bytes `ins` in turn.
pub open spec fn transfers(s: MemCardView, ins: Seq<u8>) -> (MemCardView, Seq<u8>)
    decreases ins.len(),
{
    if ins.len() == 0 {
        (s, Seq::empty())
    } else {
        let (s1, outs) = transfers(s, ins.drop_last());
        let (s2, out) = card_step(s1, ins.last());
        (s2, outs.push(out))
    }
}

/// Every byte of `ins` could be taken in turn.
pub open spec fn transfers_ok(s: MemCardView, ins: Seq<u8>) -> bool
    decreases ins.len(),
{
    if ins.len() == 0 {
        true
    } else {
        transfers_ok(s, ins.drop_last()) && transfer_ok(transfers(s, ins.drop_last()).0, ins.last())
    }
}

/// The exclusive-or of all the bytes.
pub open spec fn xor_all(data: Seq<u8>) -> u8
    decreases data.len(),
{
    if data.len() == 0 {
        0
    } else {
        xor_all(data.drop_last()) ^ data.last()
    }
}

/// The checksum of a sector: its number's two bytes and its data, combined
/// by exclusive-or.
pub open spec fn sector_checksum(hi: u8, lo: u8, data: Seq<u8>) -> u8 {
    hi ^ lo ^ xor_all(data)
}

/// The bytes of a write of `data` to sector `hi`, `lo`.
pub open spec fn write_command(hi: u8, lo: u8, data: Seq<u8>) -> Seq<u8> {
    seq![0x57u8, 0u8, 0u8, hi, lo] + data + seq![sector_checksum(hi, lo, data), 0u8, 0u8, 0u8]
}

/// The bytes of a read of sector `hi`, `lo`.
pub open spec fn read_command(hi: u8, lo: u8) -> Seq<u8> {
    seq![0x52u8, 0u8, 0u8, hi, lo] + Seq::new(134, |i: int| 0u8)
}

/// `buf` with `data` written at `addr`.
pub open spec fn written(buf: Seq<u8>, addr: int, data: Seq<u8>) -> Seq<u8> {
    Seq::new(buf.len(), |i: int| if addr <= i < addr + data.len() { data[i - addr] } else { buf[i] })
}

proof fn lemma_xor(a: u8, b: u8, c: u8)
    by (bit_vector)
    ensures
        a ^ 0u8 == a,
        (a ^ b) ^ c == a ^ (b ^ c),
{
}

proof fn lemma_transfers_split(s: MemCardView, a: Seq<u8>, b: Seq<u8>)
    ensures
        ({
            let (s1, oa) = transfers(s, a);
            let (s2, ob) = transfers(s1, b);
            &&& transfers(s, a + b) == (s2, oa + ob)
            &&& transfers_ok(s, a + b) == (transfers_ok(s, a) && transfers_ok(s1, b))
        }),
    decreases b.len(),
{
    if b.len() == 0 {
        assert(a + b =~= a);
        assert(transfers(s, a).1 + Seq::<u8>::empty() =~= transfers(s, a).1);
    } else {
        lemma_transfers_split(s, a, b.drop_last());
        assert((a + b).drop_last() =~= a + b.drop_last());
        assert((a + b).last() == b.last());
        let (s1, oa) = transfers(s, a);
        let (s2, ob) = transfers(s1, b.drop_last());
        let (s3, o) = card_step(s2, b.last());
        assert((oa + ob).push(o) =~= oa + ob.push(o));
    }
}

/// The sector phase of a write: each byte is stored at the next address
/// and counted into the checksum; the card answers with zeroes.
proof fn lemma_write_data(s: MemCardView, data: Seq<u8>)
    requires
        card_ok(s),
        s.mode == Some(MemoryCardMode::Write),
        4 <= s.transfer_byte,
        s.transfer_byte + data.len() <= 132,
        s.byte_addr + data.len() <= s.buffer.len(),
    ensures
        transfers_ok(s, data),
        transfers(s, data) == (MemCardView {
            buffer: written(s.buffer, s.byte_addr as int, data),
            byte_addr: (s.byte_addr + data.len()) as usize,
            transfer_byte: (s.transfer_byte + data.len()) as usize,
            checksum: s.checksum ^ xor_all(data),
            ..s
        }, Seq::new(data.len(), |i: int| 0u8)),
    decreases data.len(),
{
    if data.len() == 0 {
        assert(written(s.buffer, s.byte_addr as int, data) =~= s.buffer);
        lemma_xor(s.checksum, 0, 0);
        assert(Seq::new(0, |i: int| 0u8) =~= Seq::<u8>::empty());
    } else {
        let init = data.drop_last();
        lemma_write_data(s, init);
        let s1 = transfers(s, init).0;
        let x = data.last();
        let c = s.checksum;
        let xi = xor_all(init);
        lemma_xor(c, xi, x);
        assert(data_written(s1, x).buffer =~= written(s.buffer, s.byte_addr as int, data));
        assert(Seq::new(init.len(), |i: int| 0u8).push(0u8) =~= Seq::new(data.len(), |i: int| 0u8));
    }
}

/// The sector phase of a read: each byte at the next address is answered,
/// and counted into the checksum.
proof fn lemma_read_data(s: MemCardView, ins: Seq<u8>)
    requires
        card_ok(s),
        s.mode == Some(MemoryCardMode::Read),
        8 <= s.transfer_byte,
        s.transfer_byte + ins.len() <= 136,
        s.byte_addr + ins.len() <= s.buffer.len(),
    ensures
        transfers_ok(s, ins),
        transfers(s, ins) == (MemCardView {
            byte_addr: (s.byte_addr + ins.len()) as usize,
            transfer_byte: (s.transfer_byte + ins.len()) as usize,
            checksum: s.checksum ^ xor_all(s.buffer.subrange(s.byte_addr as int, s.byte_addr + ins.len())),
            ..s
        }, s.buffer.subrange(s.byte_addr as int, s.byte_addr + ins.len())),
    decreases ins.len(),
{
    let got = s.buffer.subrange(s.byte_addr as int, s.byte_addr + ins.len());
    if ins.len() == 0 {
        assert(got =~= Seq::<u8>::empty());
        lemma_xor(s.checksum, 0, 0);
    } else {
        let init = ins.drop_last();
        lemma_read_data(s, init);
        let before = s.buffer.subrange(s.byte_addr as int, s.byte_addr + init.len());
        assert(got.drop_last() =~= before);
        let c = s.checksum;
        let xi = xor_all(before);
        let x = got.last();
        lemma_xor(c, xi, x);
        assert(before.push(x) =~= got);
    }
}

proof fn lemma_sector_number(hi: u8, lo: u8)
    requires
        hi <= 3,
    ensures
        (((hi as u16) << 8) as u16 | (lo as u16)) == hi * 256 + lo,
        ((((hi as u16) << 8) as u16 | (lo as u16)) >> 8) as u8 == hi,
        (((hi as u16) << 8) as u16 | (lo as u16)) as u8 == lo,
{
    assert(hi <= 3 ==> (((hi as u16) << 8) as u16 | (lo as u16)) == hi as u16 * 256 + lo as u16
        && ((((hi as u16) << 8) as u16 | (lo as u16)) >> 8) as u8 == hi
        && (((hi as u16) << 8) as u16 | (lo as u16)) as u8 == lo) by (bit_vector);
}

proof fn lemma_write_head(s: MemCardView, hi: u8, lo: u8)
    requires
        card_ok(s),
        s.mode is None,
        hi <= 3,
    ensures
        ({
            let (a, oa) = transfers(s, seq![0x57u8, 0u8, 0u8, hi, lo]);
            &&& transfers_ok(s, seq![0x57u8, 0u8, 0u8, hi, lo])
            &&& a == (MemCardView {
                mode: Some(MemoryCardMode::Write),
                transfer_byte: 4,
                sector_addr: (hi * 256 + lo) as u16,
                sector_ok: true,
                byte_addr: ((hi * 256 + lo) * 128) as usize,
                checksum: hi ^ lo,
                ..s
            })
            &&& oa.len() == 5
        }),
{
    lemma_sector_number(hi, lo);
    assert(seq![0x57u8, 0u8, 0u8, hi, lo] =~= seq![0x57u8].push(0u8).push(0u8).push(hi).push(lo));
    reveal_with_fuel(transfers, 6);
    reveal_with_fuel(transfers_ok, 6);
    lemma_xor(0, 0, 0);
}

proof fn lemma_write_tail(b: MemCardView, chk: u8)
    requires
        card_ok(b),
        b.mode == Some(MemoryCardMode::Write),
        b.transfer_byte == 132,
        b.checksum == chk,
        b.sector_ok,
    ensures
        ({
            let (c, oc) = transfers(b, seq![chk, 0u8, 0u8, 0u8]);
            &&& transfers_ok(b, seq![chk, 0u8, 0u8, 0u8])
            &&& c == (MemCardView { mode: None, transfer_byte: 136, checksum_ok: true, dirty: true, ..b })
            &&& oc.len() == 4 && oc.last() == STATUS_GOOD
        }),
{
    assert(seq![chk, 0u8, 0u8, 0u8] =~= seq![chk].push(0u8).push(0u8).push(0u8));
    reveal_with_fuel(transfers, 5);
    reveal_with_fuel(transfers_ok, 5);
}

/// A write of a sector below 0x400 with the right checksum stores the data
/// at the sector and ends with 'G'.
proof fn lemma_write_phase(s: MemCardView, hi: u8, lo: u8, data: Seq<u8>)
    requires
        card_ok(s),
        s.mode is None,
        hi <= 3,
        data.len() == MEM_CARD_SECTOR,
    ensures
        ({
            let w = write_command(hi, lo, data);
            let (s1, wout) = transfers(s, w);
            &&& transfers_ok(s, w)
            &&& card_ok(s1) && s1.mode is None
            &&& wout.len() == w.len() && wout.last() == STATUS_GOOD
            &&& s1.buffer == written(s.buffer, (hi * 256 + lo) * 128, data)
        }),
{
    let chk = sector_checksum(hi, lo, data);
    let head_w = seq![0x57u8, 0u8, 0u8, hi, lo];
    let tail_w = seq![chk, 0u8, 0u8, 0u8];
    lemma_write_head(s, hi, lo);
    let a = transfers(s, head_w).0;
    lemma_write_data(a, data);
    let b = transfers(a, data).0;
    lemma_xor(hi, lo, xor_all(data));
    lemma_write_tail(b, chk);
    lemma_transfers_split(s, head_w, data);
    lemma_transfers_split(s, head_w + data, tail_w);
    assert(write_command(hi, lo, data) =~= head_w + data + tail_w);
}

proof fn lemma_read_head(c: MemCardView, hi: u8, lo: u8)
    requires
        card_ok(c),
        c.mode is None,
        hi <= 3,
    ensures
        ({
            let head = seq![0x52u8, 0u8, 0u8, hi, lo, 0u8, 0u8, 0u8, 0u8];
            let (e, oe) = transfers(c, head);
            &&& transfers_ok(c, head)
            &&& e == (MemCardView {
                mode: Some(MemoryCardMode::Read),
                transfer_byte: 8,
                sector_addr: (hi * 256 + lo) as u16,
                sector_ok: true,
                byte_addr: ((hi * 256 + lo) * 128) as usize,
                checksum: hi ^ lo,
                ..c
            })
            &&& oe.len() == 9
        }),
{
    lemma_sector_number(hi, lo);
    assert(seq![0x52u8, 0u8, 0u8, hi, lo, 0u8, 0u8, 0u8, 0u8]
        =~= seq![0x52u8].push(0u8).push(0u8).push(hi).push(lo).push(0u8).push(0u8).push(0u8).push(0u8));
    reveal_with_fuel(transfers, 10);
    reveal_with_fuel(transfers_ok, 10);
}

proof fn lemma_read_tail(f: MemCardView)
    requires
        card_ok(f),
        f.mode == Some(MemoryCardMode::Read),
        f.transfer_byte == 136,
    ensures
        ({
            let (g, og) = transfers(f, seq![0u8, 0u8]);
            &&& transfers_ok(f, seq![0u8, 0u8])
            &&& g == (MemCardView { mode: None, flag: 0, transfer_byte: 138, ..f })
            &&& og == seq![f.checksum, STATUS_GOOD]
        }),
{
    assert(seq![0u8, 0u8] =~= seq![0u8].push(0u8));
    reveal_with_fuel(transfers, 3);
    reveal_with_fuel(transfers_ok, 3);
    assert(Seq::<u8>::empty().push(f.checksum).push(STATUS_GOOD) =~= seq![f.checksum, STATUS_GOOD]);
}

/// A read of a sector below 0x400 answers with the sector's bytes and its
/// checksum, ends with 'G', and leaves the contents alone.
proof fn lemma_read_phase(c: MemCardView, hi: u8, lo: u8)
    requires
        card_ok(c),
        c.mode is None,
        hi <= 3,
    ensures
        ({
            let addr = (hi * 256 + lo) * 128;
            let sector = c.buffer.subrange(addr, addr + 128);
            let (s2, rout) = transfers(c, read_command(hi, lo));
            &&& transfers_ok(c, read_command(hi, lo))
            &&& s2.mode is None && s2.buffer == c.buffer
            &&& rout.len() == 139
            &&& rout.subrange(9, 137) == sector
            &&& rout[137] == sector_checksum(hi, lo, sector)
            &&& rout.last() == STATUS_GOOD
        }),
{
    let head = seq![0x52u8, 0u8, 0u8, hi, lo, 0u8, 0u8, 0u8, 0u8];
    let data_r = Seq::new(128, |i: int| 0u8);
    let tail = seq![0u8, 0u8];
    lemma_read_head(c, hi, lo);
    let (e, oe) = transfers(c, head);
    lemma_read_data(e, data_r);
    let (f, of) = transfers(e, data_r);
    lemma_xor(hi, lo, xor_all(of));
    lemma_read_tail(f);
    let (g, og) = transfers(f, tail);
    lemma_transfers_split(c, head, data_r);
    lemma_transfers_split(c, head + data_r, tail);
    assert(read_command(hi, lo) =~= head + data_r + tail);
    let rout = oe + of + og;
    assert(rout.subrange(9, 137) =~= of);
}

/// A sector written to the card reads back as written: a write of 128
/// bytes to a sector below 0x400 with the right checksum ends with 'G' and
/// stores them, and a read of the same sector then answers with them and
/// the same checksum, and ends with 'G'.
pub proof fn lemma_write_then_read(s: MemCardView, hi: u8, lo: u8, data: Seq<u8>)
    requires
        card_ok(s),
        s.mode is None,
        hi <= 3,
        data.len() == MEM_CARD_SECTOR,
    ensures
        ({
            let w = write_command(hi, lo, data);
            let (s1, wout) = transfers(s, w);
            let (s2, rout) = transfers(s1, read_command(hi, lo));
            &&& transfers_ok(s, w)
            &&& wout.last() == STATUS_GOOD
            &&& transfers_ok(s1, read_command(hi, lo))
            &&& rout.subrange(9, 137) == data
            &&& rout[137] == sector_checksum(hi, lo, data)
            &&& rout.last() == STATUS_GOOD
            &&& s2.buffer == written(s.buffer, (hi * 256 + lo) * 128, data)
        }),
{
    lemma_write_phase(s, hi, lo, data);
    let s1 = transfers(s, write_command(hi, lo, data)).0;
    lemma_read_phase(s1, hi, lo);
    let addr = (hi * 256 + lo) * 128;
    assert(s1.buffer.subrange(addr, addr + 128) =~= data);
}

} // verus!
