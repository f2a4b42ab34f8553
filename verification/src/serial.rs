use vstd::prelude::*;
use crate::utils::interface::{MemInterface, lemma_word_access_aligned};

verus! {

/// All defined bits of the serial mode register.
pub const SIO_MODE_BITS: u16 = 0x00FF;
/// All defined bits of the serial control register.
pub const SIO_CONTROL_BITS: u16 = 0x1F5F;

pub const SIO_DATA: u32 = 0x1F80_1050;
pub const SIO_STAT: u32 = 0x1F80_1054;
pub const SIO_MODE: u32 = 0x1F80_1058;
pub const SIO_CTRL: u32 = 0x1F80_105A;
pub const SIO_BAUD: u32 = 0x1F80_105C;

/// The serial port. Nothing is attached: sent data is dropped and received data is 0.
pub struct SerialIO {
    pub status: u16,
    pub mode: u16,
    pub control: u16,
    pub baud_reload: u16,
    pub timer: u16,
}

impl SerialIO {
    pub open spec fn status_reg(&self) -> u16 {
        self.status
    }

    pub open spec fn mode_reg(&self) -> u16 {
        self.mode
    }

    pub open spec fn control_reg(&self) -> u16 {
        self.control
    }

    pub open spec fn baud(&self) -> u16 {
        self.baud_reload
    }

    pub open spec fn timer_value(&self) -> u16 {
        self.timer
    }

    /// The status word: status bits with the baud timer from bit 11.
    pub open spec fn status_word(&self) -> u32 {
        (self.status_reg() as u32) | ((self.timer_value() as u32) << 11)
    }

    /// Mode in the low half, control in the high half.
    pub open spec fn mode_control_word(&self) -> u32 {
        (self.mode_reg() as u32) | ((self.control_reg() as u32) << 16)
    }

    pub fn new() -> (r: Self)
        ensures
            r.status_reg() == 0 && r.mode_reg() == 0 && r.control_reg() == 0 && r.baud() == 0 && r.timer_value() == 0,
    {
        Self { status: 0, mode: 0, control: 0, baud_reload: 0, timer: 0 }
    }

    fn send_data(&mut self, _data: u8)
        ensures
            *final(self) == *old(self),
    {
    }

    fn receive_data(&mut self) -> (r: u32)
        ensures
            r == 0,
            *final(self) == *old(self),
    {
        0
    }

    fn get_status(&self) -> (r: u32)
        ensures
            r == self.status_word(),
    {
        let status = self.status as u32;
        let timer = (self.timer as u32) << 11;
        status | timer
    }

    fn get_mode_control(&self) -> (r: u32)
        ensures
            r == self.mode_control_word(),
    {
        let mode = self.mode as u32;
        let control = (self.control as u32) << 16;
        mode | control
    }

    fn set_mode(&mut self, data: u16)
        ensures
            *final(self) == (SerialIO { mode: data & SIO_MODE_BITS, ..*old(self) }),
    {
        self.mode = data & SIO_MODE_BITS;
    }

    fn set_control(&mut self, data: u16)
        ensures
            *final(self) == (SerialIO { control: data & SIO_CONTROL_BITS, ..*old(self) }),
    {
        self.control = data & SIO_CONTROL_BITS;
    }

    fn set_baudrate(&mut self, data: u16)
        ensures
            *final(self) == (SerialIO { baud_reload: data, ..*old(self) }),
    {
        self.baud_reload = data;
    }
}

impl MemInterface for SerialIO {
    open spec fn readable(addr: u32, width: u32) -> bool {
        (width == 4 && (addr == SIO_DATA || addr == SIO_STAT || addr == SIO_MODE || addr == SIO_BAUD))
            || (width == 2 && (addr == SIO_DATA || addr == SIO_STAT || addr == SIO_STAT + 2 || addr == SIO_MODE
                || addr == SIO_CTRL || addr == SIO_BAUD + 2))
            || (width == 1 && addr == SIO_DATA)
    }

    open spec fn writable(addr: u32, width: u32) -> bool {
        (width == 4 && (addr == SIO_DATA || addr == SIO_STAT || addr == SIO_MODE || addr == SIO_BAUD))
            || (width == 2 && (addr == SIO_DATA || addr == SIO_MODE || addr == SIO_CTRL || addr == SIO_BAUD + 2))
            || (width == 1 && addr == SIO_DATA)
    }

    open spec fn word_read(before: SerialIO, after: SerialIO, addr: u32, r: u32) -> bool {
        &&& (addr == SIO_DATA ==> r == 0)
        &&& (addr == SIO_STAT ==> r == before.status_word())
        &&& (addr == SIO_MODE ==> r == before.mode_control_word())
        &&& (addr == SIO_BAUD ==> r == (before.baud() as u32) << 16)
        &&& after == before
    }

    open spec fn word_written(before: SerialIO, after: SerialIO, addr: u32, data: u32) -> bool {
        &&& (addr == SIO_DATA || addr == SIO_STAT ==> after == before)
        &&& (addr == SIO_MODE ==> after == (SerialIO {
                mode: (data as u16) & SIO_MODE_BITS,
                control: ((data >> 16) as u16) & SIO_CONTROL_BITS,
                ..before
            }))
        &&& (addr == SIO_BAUD ==> after == (SerialIO { baud_reload: (data >> 16) as u16, ..before }))
    }

    proof fn lemma_read_byte(addr: u32) {
        lemma_word_access_aligned(addr);
    }

    proof fn lemma_write_byte(addr: u32) {
        lemma_word_access_aligned(addr);
    }

    proof fn lemma_read_halfword(addr: u32) {
        lemma_word_access_aligned(addr);
    }

    proof fn lemma_write_halfword(addr: u32) {
        lemma_word_access_aligned(addr);
    }

    fn read_word(&mut self, addr: u32) -> (r: u32)
        ensures
            addr == SIO_DATA ==> r == 0,
            addr == SIO_STAT ==> r == old(self).status_word(),
            addr == SIO_MODE ==> r == old(self).mode_control_word(),
            addr == SIO_BAUD ==> r == (old(self).baud() as u32) << 16,
            *final(self) == *old(self),
    {
        if addr == SIO_DATA {
            self.receive_data()
        } else if addr == SIO_STAT {
            self.get_status()
        } else if addr == SIO_MODE {
            self.get_mode_control()
        } else {
            (self.baud_reload as u32) << 16
        }
    }

    fn write_word(&mut self, addr: u32, data: u32)
        ensures
            addr == SIO_DATA || addr == SIO_STAT ==> *final(self) == *old(self),
            addr == SIO_MODE ==> *final(self) == (SerialIO {
                mode: (data as u16) & SIO_MODE_BITS,
                control: ((data >> 16) as u16) & SIO_CONTROL_BITS,
                ..*old(self)
            }),
            addr == SIO_BAUD ==> *final(self) == (SerialIO { baud_reload: (data >> 16) as u16, ..*old(self) }),
    {
        if addr == SIO_DATA {
            self.send_data(data as u8)
        } else if addr == SIO_STAT {
            // status is read-only
        } else if addr == SIO_MODE {
            self.set_mode(data as u16);
            self.set_control((data >> 16) as u16);
        } else {
            self.set_baudrate((data >> 16) as u16)
        }
    }

    fn read_halfword(&mut self, addr: u32) -> (r: u16)
        ensures
            addr == SIO_DATA ==> r == 0,
            addr == SIO_STAT ==> r == old(self).status_word() as u16,
            addr == SIO_STAT + 2 ==> r == (old(self).status_word() >> 16) as u16,
            addr == SIO_MODE ==> r == old(self).mode_reg(),
            addr == SIO_CTRL ==> r == old(self).control_reg(),
            addr == SIO_BAUD + 2 ==> r == old(self).baud(),
            *final(self) == *old(self),
    {
        if addr == SIO_DATA {
            self.receive_data() as u16
        } else if addr == SIO_STAT {
            self.get_status() as u16
        } else if addr == SIO_STAT + 2 {
            (self.get_status() >> 16) as u16
        } else if addr == SIO_MODE {
            self.mode
        } else if addr == SIO_CTRL {
            self.control
        } else {
            self.baud_reload
        }
    }

    fn write_halfword(&mut self, addr: u32, data: u16)
        ensures
            addr == SIO_DATA ==> *final(self) == *old(self),
            addr == SIO_MODE ==> *final(self) == (SerialIO { mode: data & SIO_MODE_BITS, ..*old(self) }),
            addr == SIO_CTRL ==> *final(self) == (SerialIO { control: data & SIO_CONTROL_BITS, ..*old(self) }),
            addr == SIO_BAUD + 2 ==> *final(self) == (SerialIO { baud_reload: data, ..*old(self) }),
    {
        if addr == SIO_DATA {
            self.send_data(data as u8)
        } else if addr == SIO_MODE {
            self.set_mode(data)
        } else if addr == SIO_CTRL {
            self.set_control(data)
        } else {
            self.set_baudrate(data)
        }
    }

    fn read_byte(&mut self, addr: u32) -> (r: u8)
        ensures
            r == 0,
            *final(self) == *old(self),
    {
        self.receive_data() as u8
    }

    fn write_byte(&mut self, addr: u32, data: u8)
        ensures
            *final(self) == *old(self),
    {
        self.send_data(data)
    }
}

} // verus!
