use vstd::prelude::*;

verus! {

/// The bits of the status register that exist.
pub const STATUS_MASK: u32 = 0xF27F_FF3F;
/// The bits of the cause register that exist.
pub const CAUSE_MASK: u32 = 0xB000_FF7C;
/// Boot exception vectors: bit 22 of the status register.
pub const STATUS_BOOT_EXC_VECTORS: u32 = 0x0040_0000;
/// Interrupts enabled: bit 0 of the status register.
pub const STATUS_INT_ENABLE: u32 = 0x0000_0001;
/// The interrupt mask of the status register, and the pending
/// interrupts of the cause register: bits 8 to 15.
pub const INTERRUPT_BITS: u32 = 0x0000_FF00;
/// The software interrupt bits of the cause register, the only ones
/// software can write: bits 8 and 9.
pub const CAUSE_WRITABLE: u32 = 0x0000_0300;
/// The hardware interrupt bits of the cause register: bits 10 to 15.
pub const CAUSE_HARDWARE_INT: u32 = 0x0000_FC00;
/// The exception code field of the cause register: bits 2 to 6.
pub const CAUSE_EXCODE: u32 = 0x0000_007C;
/// The exception happened in a branch delay slot: bit 31 of the cause register.
pub const CAUSE_BRANCH_DELAY: u32 = 0x8000_0000;
/// Processor ID.
pub const PRID: u32 = 0x0000_0001;

/// The kind of an exception.
#[derive(Clone, Copy, PartialEq, Eq, Structural, Debug)]
pub enum ExceptionCode {
    Interrupt,
    TLBModified,
    TLBLoad,
    TLBStore,
    AddrErrorLoad,
    AddrErrorStore,
    BusErrorInstr,
    BusErrorData,
    Syscall,
    Breakpoint,
    ReservedInstr,
    CoprocUnusable,
    ArithmeticOverflow,
}

/// The number of an exception kind, as the cause register holds it.
pub open spec fn code_number(code: ExceptionCode) -> u32 {
    match code {
        ExceptionCode::Interrupt => 0,
        ExceptionCode::TLBModified => 1,
        ExceptionCode::TLBLoad => 2,
        ExceptionCode::TLBStore => 3,
        ExceptionCode::AddrErrorLoad => 4,
        ExceptionCode::AddrErrorStore => 5,
        ExceptionCode::BusErrorInstr => 6,
        ExceptionCode::BusErrorData => 7,
        ExceptionCode::Syscall => 8,
        ExceptionCode::Breakpoint => 9,
        ExceptionCode::ReservedInstr => 10,
        ExceptionCode::CoprocUnusable => 11,
        ExceptionCode::ArithmeticOverflow => 12,
    }
}

impl ExceptionCode {
    pub fn number(&self) -> (r: u32)
        ensures
            r == code_number(*self),
            r <= 12,
    {
        match self {
            ExceptionCode::Interrupt => 0,
            ExceptionCode::TLBModified => 1,
            ExceptionCode::TLBLoad => 2,
            ExceptionCode::TLBStore => 3,
            ExceptionCode::AddrErrorLoad => 4,
            ExceptionCode::AddrErrorStore => 5,
            ExceptionCode::BusErrorInstr => 6,
            ExceptionCode::BusErrorData => 7,
            ExceptionCode::Syscall => 8,
            ExceptionCode::Breakpoint => 9,
            ExceptionCode::ReservedInstr => 10,
            ExceptionCode::CoprocUnusable => 11,
            ExceptionCode::ArithmeticOverflow => 12,
        }
    }
}

/// An exception raised by the processor.
#[derive(Clone, Copy, PartialEq, Eq, Structural, Debug)]
pub struct Exception {
    pub code: ExceptionCode,
    pub bad_virtual_addr: u32,
    pub ret_addr: u32,
    pub branch_delay: bool,
}

/// The status register after an exception: the interrupt-enable and mode
/// bits (0 to 3) move up by two, and the current ones become 0 (kernel
/// mode, interrupts disabled).
pub open spec fn pushed_status(status: u32) -> u32 {
    (status & !0x3F) | ((status & 0xF) << 2)
}

/// The status register after a return from exception: bits 2 to 5 move
/// down by two; bits 4 and 5 keep their values.
pub open spec fn popped_status(status: u32) -> u32 {
    (status & !0xF) | ((status & 0x3C) >> 2)
}

/// An interrupt is taken: interrupts are enabled and a pending line is unmasked.
pub open spec fn interrupt_taken(status: u32, cause: u32) -> bool {
    status & STATUS_INT_ENABLE != 0 && (status & INTERRUPT_BITS) & (cause & INTERRUPT_BITS) != 0
}

/// The system control coprocessor (COP0): status and cause of exceptions.
pub struct SystemCoproc {
    system_status: u32,
    exception_cause: u32,
    exception_ret_addr: u32,
    bad_virtual_addr: u32,
}

impl SystemCoproc {
    /// The status register (12).
    pub closed spec fn status(&self) -> u32 {
        self.system_status
    }

    /// The cause register (13).
    pub closed spec fn cause(&self) -> u32 {
        self.exception_cause
    }

    /// The exception return address (14).
    pub closed spec fn epc(&self) -> u32 {
        self.exception_ret_addr
    }

    /// The bad virtual address (8).
    pub closed spec fn bad_vaddr(&self) -> u32 {
        self.bad_virtual_addr
    }

    pub fn new() -> (r: Self)
        ensures
            r.status() == STATUS_BOOT_EXC_VECTORS,
            r.cause() == 0,
            r.epc() == 0,
            r.bad_vaddr() == 0,
    {
        Self {
            system_status: STATUS_BOOT_EXC_VECTORS,
            exception_cause: 0,
            exception_ret_addr: 0,
            bad_virtual_addr: 0,
        }
    }

    /// Check if an interrupt has triggered.
    pub fn check_interrupt(&self) -> (r: bool)
        ensures
            r == interrupt_taken(self.status(), self.cause()),
    {
        if self.system_status & STATUS_INT_ENABLE != 0 {
            let mask = self.system_status & INTERRUPT_BITS;
            let irq = self.exception_cause & INTERRUPT_BITS;
            mask & irq != 0
        } else {
            false
        }
    }

    /// Read register `reg`.
    pub fn move_from_reg(&mut self, reg: u8) -> (r: u32)
        requires
            reg == 8 || reg == 12 || reg == 13 || reg == 14 || reg == 15,
        ensures
            *final(self) == *old(self),
            reg == 8 ==> r == old(self).bad_vaddr(),
            reg == 12 ==> r == old(self).status(),
            reg == 13 ==> r == old(self).cause(),
            reg == 14 ==> r == old(self).epc(),
            reg == 15 ==> r == PRID,
    {
        match reg {
            8 => self.bad_virtual_addr,
            12 => self.system_status,
            13 => self.exception_cause,
            14 => self.exception_ret_addr,
            _ => PRID,
        }
    }

    /// Write register `reg`: register 12 takes the writable bits of the
    /// cause, register 13 the status.
    pub fn move_to_reg(&mut self, reg: u8, data: u32)
        requires
            reg == 12 || reg == 13,
        ensures
            reg == 12 ==> final(self).cause() == (old(self).cause() & !CAUSE_WRITABLE) | (data & CAUSE_WRITABLE)
                && final(self).status() == old(self).status(),
            reg == 13 ==> final(self).status() == data & STATUS_MASK
                && final(self).cause() == old(self).cause(),
            final(self).epc() == old(self).epc(),
            final(self).bad_vaddr() == old(self).bad_vaddr(),
    {
        if reg == 12 {
            self.set_cause(data)
        } else {
            self.set_status(data)
        }
    }

    /// Execute a coprocessor operation: only a return from exception
    /// (0x10) changes anything.
    pub fn operation(&mut self, op: u32)
        ensures
            op & 0x1F == 0x10 ==> final(self).status() == popped_status(old(self).status()),
            op & 0x1F != 0x10 ==> final(self).status() == old(self).status(),
            final(self).cause() == old(self).cause(),
            final(self).epc() == old(self).epc(),
            final(self).bad_vaddr() == old(self).bad_vaddr(),
    {
        let f = op & 0x1F;
        if f == 0x1 || f == 0x2 || f == 0x6 || f == 0x8 {
            self.reserved()
        } else if f == 0x10 {
            self.rfe()
        }
    }

    /// The address execution starts from.
    pub fn reset(&mut self) -> (r: u32)
        ensures
            r == 0xBFC0_0000,
            *final(self) == *old(self),
    {
        0xBFC0_0000
    }

    /// Take an exception: record it in the cause, save the return address
    /// (and the bad address of an address error), push the interrupt stack,
    /// and give the address of the exception handler.
    pub fn trigger_exception(&mut self, exception: &Exception) -> (r: u32)
        ensures
            final(self).bad_vaddr() == (if exception.code == ExceptionCode::AddrErrorLoad
                || exception.code == ExceptionCode::AddrErrorStore {
                exception.bad_virtual_addr
            } else {
                old(self).bad_vaddr()
            }),
            final(self).epc() == exception.ret_addr,
            final(self).cause() == (if exception.branch_delay {
                ((old(self).cause() & !CAUSE_EXCODE) | (code_number(exception.code) << 2)) | CAUSE_BRANCH_DELAY
            } else {
                ((old(self).cause() & !CAUSE_EXCODE) | (code_number(exception.code) << 2)) & !CAUSE_BRANCH_DELAY
            }),
            final(self).status() == pushed_status(old(self).status()),
            r == (if old(self).status() & STATUS_BOOT_EXC_VECTORS != 0 { 0xBFC0_0180u32 } else { 0x8000_0080u32 }),
    {
        if exception.code == ExceptionCode::AddrErrorLoad || exception.code == ExceptionCode::AddrErrorStore {
            self.bad_virtual_addr = exception.bad_virtual_addr;
        }
        self.exception_ret_addr = exception.ret_addr;
        let code = exception.code.number();
        let cause = (self.exception_cause & !CAUSE_EXCODE) | (code << 2);
        self.exception_cause = if exception.branch_delay {
            cause | CAUSE_BRANCH_DELAY
        } else {
            cause & !CAUSE_BRANCH_DELAY
        };
        let boot = self.system_status & STATUS_BOOT_EXC_VECTORS != 0;
        self.push_int_stack();
        if boot {
            0xBFC0_0180
        } else {
            0x8000_0080
        }
    }

    /// Latch the external interrupt lines `mask` into the cause register
    /// (bits 8 to 15) and check for an interrupt.
    pub fn external_interrupt(&mut self, mask: u8) -> (r: bool)
        ensures
            final(self).cause() == (old(self).cause() & !CAUSE_HARDWARE_INT) | ((mask as u32) << 8),
            final(self).status() == old(self).status(),
            final(self).epc() == old(self).epc(),
            final(self).bad_vaddr() == old(self).bad_vaddr(),
            r == interrupt_taken(final(self).status(), final(self).cause()),
    {
        let external_pending = (mask as u32) << 8;
        self.exception_cause = (self.exception_cause & !CAUSE_HARDWARE_INT) | external_pending;
        self.check_interrupt()
    }

    /// Return from exception.
    fn rfe(&mut self)
        ensures
            final(self).status() == popped_status(old(self).status()),
            final(self).cause() == old(self).cause(),
            final(self).epc() == old(self).epc(),
            final(self).bad_vaddr() == old(self).bad_vaddr(),
    {
        self.pop_int_stack();
    }

    /// A reserved operation (the TLB ones): there is no TLB.
    fn reserved(&mut self)
        ensures
            *final(self) == *old(self),
    {
    }

    fn set_cause(&mut self, data: u32)
        ensures
            final(self).cause() == (old(self).cause() & !CAUSE_WRITABLE) | (data & CAUSE_WRITABLE),
            final(self).status() == old(self).status(),
            final(self).epc() == old(self).epc(),
            final(self).bad_vaddr() == old(self).bad_vaddr(),
    {
        self.exception_cause = (self.exception_cause & !CAUSE_WRITABLE) | (data & CAUSE_WRITABLE);
    }

    fn set_status(&mut self, data: u32)
        ensures
            final(self).status() == data & STATUS_MASK,
            final(self).cause() == old(self).cause(),
            final(self).epc() == old(self).epc(),
            final(self).bad_vaddr() == old(self).bad_vaddr(),
    {
        self.system_status = data & STATUS_MASK;
    }

    fn push_int_stack(&mut self)
        ensures
            final(self).status() == pushed_status(old(self).status()),
            final(self).cause() == old(self).cause(),
            final(self).epc() == old(self).epc(),
            final(self).bad_vaddr() == old(self).bad_vaddr(),
    {
        let stack = self.system_status & 0xF;
        self.system_status = (self.system_status & !0x3F) | (stack << 2);
    }

    fn pop_int_stack(&mut self)
        ensures
            final(self).status() == popped_status(old(self).status()),
            final(self).cause() == old(self).cause(),
            final(self).epc() == old(self).epc(),
            final(self).bad_vaddr() == old(self).bad_vaddr(),
    {
        let stack = self.system_status & 0x3C;
        self.system_status = (self.system_status & !0xF) | (stack >> 2);
    }
}

/// Taking an exception and then returning from it restores the current
/// and previous interrupt-enable and mode bits (0 to 3) and every bit
/// from 6 up; the old bits (4, 5) are then a copy of bits 2 and 3.
pub proof fn lemma_exception_return(status: u32)
    by (bit_vector)
    ensures
        popped_status(pushed_status(status)) & 0xF == status & 0xF,
        popped_status(pushed_status(status)) & !0x3F == status & !0x3F,
        (popped_status(pushed_status(status)) >> 4) & 3 == (status >> 2) & 3,
        pushed_status(status) & 3 == 0,
{
}

} // verus!
