//! The serial port of the controllers and memory cards: a byte goes out
//! each baud period, and the selected device answers with a byte.

use vstd::prelude::*;
use std::collections::VecDeque;

use crate::Port;
use crate::interrupt::IRQ_PERIPHERAL;
use crate::peripheral::controller::{ControllerState, controller_binary};
use crate::peripheral::memcard::{MEM_CARD_SIZE, MemCardView, MemoryCard, card_ok, card_step, transfer_ok};

verus! {

/// Status: an interrupt was raised.
pub const JOY_STAT_IRQ: u16 = 0x200;
/// Status: the device acknowledged the last byte.
pub const JOY_STAT_ACK_LEVEL: u16 = 0x80;
pub const JOY_STAT_PARITY_ERROR: u16 = 0x08;
/// Status: the transfer has finished.
pub const JOY_STAT_TX_READY2: u16 = 0x04;
pub const JOY_STAT_RX_NOT_EMPTY: u16 = 0x02;
/// Status: a byte can be sent.
pub const JOY_STAT_TX_READY1: u16 = 0x01;

/// The bits of the mode register.
pub const JOY_MODE_BITS: u16 = 0x013F;
/// Mode: the factor of the baud rate reload value.
pub const JOY_MODE_RELOAD_FACTOR: u16 = 0x0003;

/// The bits of the control register.
pub const JOY_CTRL_BITS: u16 = 0x3F57;
/// The bits of the control register that keep their value.
pub const JOY_CTRL_WRITABLE: u16 = 0x3F05;
/// Control: the second port is selected.
pub const JOY_CTRL_SLOT_SELECT: u16 = 0x2000;
pub const JOY_CTRL_ACK_INT_ENABLE: u16 = 0x1000;
pub const JOY_CTRL_RX_INT_ENABLE: u16 = 0x0800;
pub const JOY_CTRL_TX_INT_ENABLE: u16 = 0x0400;
/// Control: how many received bytes raise the receive interrupt (1, 2, 4, 8).
pub const JOY_CTRL_RX_INT_MODE: u16 = 0x0300;
pub const JOY_CTRL_RESET: u16 = 0x0040;
/// Control: acknowledge the interrupt.
pub const JOY_CTRL_ACK: u16 = 0x0010;
pub const JOY_CTRL_JOYN_OUTPUT: u16 = 0x0002;
pub const JOY_CTRL_TX_ENABLE: u16 = 0x0001;

/// The registers of the port.
pub const JOY_DATA_ADDR: u32 = 0x1F80_1040;
pub const JOY_STAT_ADDR: u32 = 0x1F80_1044;
pub const JOY_STAT_HI_ADDR: u32 = 0x1F80_1046;
pub const JOY_MODE_ADDR: u32 = 0x1F80_1048;
pub const JOY_CTRL_ADDR: u32 = 0x1F80_104A;
pub const JOY_BAUD_WORD_ADDR: u32 = 0x1F80_104C;
pub const JOY_BAUD_ADDR: u32 = 0x1F80_104E;

/// The device a transfer talks to, and how far it has got.
#[derive(Clone, Copy, PartialEq, Eq, Structural, Debug)]
pub enum TransferMode {
    Idle,
    Controller(u8),
    Multitap(u8),
    MemCard,
}

/// A controller as the port sees it.
pub struct CtrlView {
    pub output: Seq<u16>,
    pub config_mode: bool,
    pub config_command: u8,
    pub config_data: Seq<u16>,
    pub config_pending: bool,
}

/// The state of a controller slot: what the controller sends, and its
/// configuration mode.
pub struct ControllerData {
    output_data: [u16; 4],
    config_mode: bool,
    config_command: u8,
    config_data: [u16; 3],
    config_pending: bool,
}

impl View for ControllerData {
    type V = CtrlView;

    closed spec fn view(&self) -> CtrlView {
        CtrlView {
            output: self.output_data@,
            config_mode: self.config_mode,
            config_command: self.config_command,
            config_data: self.config_data@,
            config_pending: self.config_pending,
        }
    }
}

/// The state of the port, its queues as sequences.
pub struct PortView {
    pub status: u16,
    pub mode: u16,
    pub control: u16,
    pub baudrate_reload: u32,
    pub baudrate_timer: u32,
    pub slot_select: u8,
    pub in_fifo: Seq<u8>,
    pub out_fifo: Seq<u8>,
    pub transfer_mode: TransferMode,
    pub transfer_active: bool,
    pub irq_latch: bool,
    pub multitap_mem_card: bool,
    pub ctrl1: CtrlView,
    pub ctrl2: CtrlView,
    pub card1: Option<MemCardView>,
    pub card2: Option<MemCardView>,
}

/// Handles the controllers and memory cards.
pub struct PeripheralPort {
    status: u16,
    mode: u16,
    control: u16,
    baudrate_reload: u32,
    baudrate_timer: u32,

    slot_select: u8,
    in_fifo: VecDeque<u8>,
    out_fifo: VecDeque<u8>,
    transfer_mode: TransferMode,
    transfer_active: bool,
    irq_latch: bool,
    multitap_mem_card: bool,

    port_1_controller: ControllerData,
    port_2_controller: ControllerData,

    port_1_mem_card: Option<MemoryCard>,
    port_2_mem_card: Option<MemoryCard>,
}

pub open spec fn card_view(c: Option<MemoryCard>) -> Option<MemCardView> {
    match c {
        Some(card) => Some(card@),
        None => None,
    }
}

impl View for PeripheralPort {
    type V = PortView;

    closed spec fn view(&self) -> PortView {
        PortView {
            status: self.status,
            mode: self.mode,
            control: self.control,
            baudrate_reload: self.baudrate_reload,
            baudrate_timer: self.baudrate_timer,
            slot_select: self.slot_select,
            in_fifo: self.in_fifo@,
            out_fifo: self.out_fifo@,
            transfer_mode: self.transfer_mode,
            transfer_active: self.transfer_active,
            irq_latch: self.irq_latch,
            multitap_mem_card: self.multitap_mem_card,
            ctrl1: self.port_1_controller@,
            ctrl2: self.port_2_controller@,
            card1: card_view(self.port_1_mem_card),
            card2: card_view(self.port_2_mem_card),
        }
    }
}

/// A controller slot is consistent: four halfwords out, three of
/// configuration.
pub open spec fn ctrl_ok(c: CtrlView) -> bool {
    c.output.len() == 4 && c.config_data.len() == 3
}

pub open spec fn slot_card_ok(c: Option<MemCardView>) -> bool {
    c matches Some(card) ==> card_ok(card)
}

/// The port is consistent: a transfer in progress has a byte to send, the
/// device counters stay in their ranges, and the cards hold their 128 KiB.
pub open spec fn port_ok(s: PortView) -> bool {
    &&& s.transfer_active ==> s.in_fifo.len() > 0
    &&& s.transfer_mode matches TransferMode::Controller(n) ==> n <= 7
    &&& s.transfer_mode matches TransferMode::Multitap(n) ==> n <= 31
    &&& s.baudrate_reload <= 0xFFFF
    &&& ctrl_ok(s.ctrl1) && ctrl_ok(s.ctrl2)
    &&& slot_card_ok(s.card1) && slot_card_ok(s.card2)
}

/// The low and high bytes of a halfword.
pub open spec fn lo(x: u16) -> u8 {
    x as u8
}

pub open spec fn hi(x: u16) -> u8 {
    (x >> 8) as u8
}

/// The second port is selected.
pub open spec fn second_slot(s: PortView) -> bool {
    s.control & JOY_CTRL_SLOT_SELECT != 0
}

pub open spec fn chosen_ctrl(s: PortView) -> CtrlView {
    if second_slot(s) { s.ctrl2 } else { s.ctrl1 }
}

pub open spec fn with_chosen_ctrl(s: PortView, c: CtrlView) -> PortView {
    if second_slot(s) { PortView { ctrl2: c, ..s } } else { PortView { ctrl1: c, ..s } }
}

/// The card a memory card transfer talks to: none behind a multitap.
pub open spec fn chosen_card(s: PortView) -> Option<MemCardView> {
    if s.multitap_mem_card { None } else if second_slot(s) { s.card2 } else { s.card1 }
}

pub open spec fn with_chosen_card(s: PortView, c: MemCardView) -> PortView {
    if second_slot(s) { PortView { card2: Some(c), ..s } } else { PortView { card1: Some(c), ..s } }
}

/// Raise the interrupt.
pub open spec fn irq_raised(s: PortView) -> PortView {
    PortView { irq_latch: true, status: s.status | JOY_STAT_IRQ, ..s }
}

/// How many received bytes raise the receive interrupt.
pub open spec fn rx_threshold(control: u16) -> int {
    let m = (control & JOY_CTRL_RX_INT_MODE) >> 8;
    if m == 0 { 1 } else if m == 1 { 2 } else if m == 2 { 4 } else { 8 }
}

/// A byte is received from the device.
pub open spec fn pushed(s: PortView, b: u8) -> PortView {
    let s1 = PortView { out_fifo: s.out_fifo.push(b), ..s };
    if s.control & JOY_CTRL_RX_INT_ENABLE != 0 && s1.out_fifo.len() == rx_threshold(s.control) {
        irq_raised(s1)
    } else {
        s1
    }
}

/// The baud period, in cycles: 8 bits at the reload value times its factor.
pub open spec fn baud_period(s: PortView) -> int {
    let f = s.mode & JOY_MODE_RELOAD_FACTOR;
    if f == 2 {
        s.baudrate_reload * 16 * 8
    } else if f == 3 {
        s.baudrate_reload * 32 * 8
    } else {
        s.baudrate_reload * 8
    }
}

/// The timer restarts, less `offset` cycles already run (wrapping below 0).
pub open spec fn reloaded(s: PortView, offset: u32) -> PortView {
    let reload = baud_period(s);
    PortView {
        baudrate_timer: (if reload >= offset { reload - offset } else { reload - offset + 0x1_0000_0000 }) as u32,
        ..s
    }
}

/// The state after the configuration bytes of the halfwords are set.
pub open spec fn with_config(c: CtrlView, d0: u16, d1: u16, d2: u16) -> CtrlView {
    CtrlView { config_data: seq![d0, d1, d2], ..c }
}

/// The configuration commands a controller knows.
pub open spec fn config_command_known(d: u8) -> bool {
    d == 0x42 || d == 0x43 || d == 0x44 || d == 0x45 || d == 0x46 || d == 0x47 || d == 0x4C || d == 0x4D
}

/// The first byte of a configuration command: what the controller will
/// answer.
pub open spec fn config_started(c: CtrlView, d: u8) -> CtrlView {
    let c = CtrlView { config_command: d, ..c };
    let cd = c.config_data;
    if d == 0x42 {
        with_config(c, c.output[1], c.output[2], c.output[3])
    } else if d == 0x43 || d == 0x44 || d == 0x4C {
        with_config(c, 0, 0, 0)
    } else if d == 0x45 {
        with_config(c, 0x0201, 0x0200, 0x0001)
    } else if d == 0x46 {
        with_config(c, 0x0000, cd[1], cd[2])
    } else if d == 0x47 {
        with_config(c, 0x0000, 0x0002, 0x0001)
    } else {
        with_config(c, 0xFFFF, 0xFFFF, 0xFFFF)
    }
}

/// The argument byte of a configuration command.
pub open spec fn config_argument(c: CtrlView, d: u8) -> CtrlView {
    let cd = c.config_data;
    let cmd = c.config_command;
    if cmd == 0x43 {
        CtrlView { config_pending: d == 0x01, ..c }
    } else if cmd == 0x46 {
        if d == 0x00 {
            with_config(c, cd[0], 0x0201, 0x0A00)
        } else if d == 0x01 {
            with_config(c, cd[0], 0x0101, 0x1401)
        } else {
            with_config(c, cd[0], 0x0000, 0x0000)
        }
    } else if cmd == 0x4C {
        with_config(c, cd[0], if d == 0x00 { 0x0400 } else if d == 0x01 { 0x0700 } else { 0x0000 }, cd[2])
    } else {
        c
    }
}

/// A controller can take byte `d` as byte `n` of its transfer.
pub open spec fn ctrl_step_ok(c: CtrlView, d: u8, n: u8) -> bool {
    if c.config_mode {
        &&& n <= 7
        &&& n == 0 ==> config_command_known(d)
        &&& n == 2 ==> config_command_known(c.config_command)
        &&& n == 2 && c.config_command == 0x43 ==> d <= 1
    } else {
        &&& n <= 3
        &&& n == 0 ==> d == 0x42 || d == 0x43
        &&& n == 2 && c.config_pending ==> d <= 1
    }
}

/// A controller takes byte `d` as byte `n` of its transfer: its state after,
/// the next stage of the transfer, and its answer.
pub open spec fn ctrl_step(c: CtrlView, d: u8, n: u8) -> (CtrlView, TransferMode, u8) {
    if c.config_mode {
        if n == 0 {
            (config_started(c, d), TransferMode::Controller(1), 0xF3)
        } else if n == 1 {
            (c, TransferMode::Controller(2), 0x5A)
        } else if n == 2 {
            let c1 = config_argument(c, d);
            (c1, TransferMode::Controller(3), lo(c1.config_data[0]))
        } else if n == 3 {
            (c, TransferMode::Controller(4), hi(c.config_data[0]))
        } else if n == 4 {
            (c, TransferMode::Controller(5), lo(c.config_data[1]))
        } else if n == 5 {
            (c, TransferMode::Controller(6), hi(c.config_data[1]))
        } else if n == 6 {
            (c, TransferMode::Controller(7), lo(c.config_data[2]))
        } else {
            (if !c.config_pending { CtrlView { config_mode: false, ..c } } else { c },
                TransferMode::Idle, hi(c.config_data[2]))
        }
    } else {
        if n == 0 {
            (if d == 0x43 { CtrlView { config_pending: true, ..c } } else { c },
                TransferMode::Controller(1), lo(c.output[0]))
        } else if n == 1 {
            let data = hi(c.output[0]);
            if data == 0xFF {
                (c, TransferMode::Idle, 0xFF)
            } else {
                (c, TransferMode::Controller(2), data)
            }
        } else if n == 2 {
            (if c.config_pending { CtrlView { config_pending: d == 0x01, ..c } } else { c },
                TransferMode::Controller(3), lo(c.output[1]))
        } else {
            (if c.config_pending { CtrlView { config_mode: true, ..c } } else { c },
                TransferMode::Idle, hi(c.output[1]))
        }
    }
}

/// The multitap stage `n`: only one controller is passed on.
pub open spec fn multitap_step(c: CtrlView, n: u8) -> (TransferMode, u8) {
    if n == 0 {
        (TransferMode::Multitap(1), lo(c.output[0]))
    } else if n == 1 {
        (TransferMode::Multitap(2), hi(c.output[0]))
    } else if n == 2 {
        (TransferMode::Multitap(3), lo(c.output[1]))
    } else if n == 3 {
        (TransferMode::Multitap(4), hi(c.output[1]))
    } else if n <= 30 {
        (TransferMode::Multitap((n + 1) as u8), 0xFF)
    } else {
        (TransferMode::Idle, 0xFF)
    }
}

/// The first byte of a transfer picks the device.
pub open spec fn device_byte_ok(d: u8) -> bool {
    d == 0x01 || d == 0x81 || d & 0xF0 == 0x80 || d == 0x00
}

/// The transfer can take the byte at the front of the send queue.
pub open spec fn process_ok(s: PortView) -> bool {
    let d = s.in_fifo[0];
    match s.transfer_mode {
        TransferMode::Idle => device_byte_ok(d),
        TransferMode::Controller(n) => ctrl_step_ok(chosen_ctrl(s), d, n),
        TransferMode::Multitap(_) => true,
        TransferMode::MemCard => chosen_card(s) matches Some(card) ==> transfer_ok(card, d),
    }
}

/// The device's part of a transfer of byte `d`.
pub open spec fn device_step(s: PortView, d: u8) -> PortView {
    match s.transfer_mode {
        TransferMode::Idle => {
            let s = PortView { multitap_mem_card: false, ..s };
            if d == 0x01 {
                pushed(PortView { transfer_mode: TransferMode::Controller(0), ..s }, 0xFF)
            } else if d == 0x81 {
                pushed(PortView { transfer_mode: TransferMode::MemCard, ..s }, 0xFF)
            } else if d & 0xF0 == 0x80 {
                pushed(PortView { multitap_mem_card: true, transfer_mode: TransferMode::MemCard, ..s }, 0xFF)
            } else {
                pushed(s, 0xFF)
            }
        },
        TransferMode::Controller(n) => {
            let (c, mode, out) = ctrl_step(chosen_ctrl(s), d, n);
            pushed(PortView { transfer_mode: mode, ..with_chosen_ctrl(s, c) }, out)
        },
        TransferMode::Multitap(n) => {
            let (mode, out) = multitap_step(chosen_ctrl(s), n);
            pushed(PortView { transfer_mode: mode, ..s }, out)
        },
        TransferMode::MemCard => match chosen_card(s) {
            Some(card) => {
                let (card1, out) = card_step(card, d);
                let s1 = with_chosen_card(s, card1);
                let s1 = if card1.mode is None { PortView { transfer_mode: TransferMode::Idle, ..s1 } } else { s1 };
                pushed(s1, out)
            },
            None => pushed(s, 0xFF),
        },
    }
}

/// A baud period has passed: the byte at the front of the send queue goes
/// to the device, and its answer is received.
#[verifier::opaque]
pub open spec fn processed(s: PortView) -> PortView {
    let d = s.in_fifo[0];
    let s0 = PortView {
        status: s.status & !JOY_STAT_TX_READY1,
        in_fifo: s.in_fifo.drop_first(),
        transfer_active: s.in_fifo.len() > 1,
        ..s
    };
    let s1 = device_step(s0, d);
    let s2 = if s1.transfer_mode == TransferMode::Idle {
        PortView { status: s1.status | JOY_STAT_TX_READY2, ..s1 }
    } else {
        s1
    };
    let s3 = PortView { status: s2.status | JOY_STAT_ACK_LEVEL, ..s2 };
    if s3.control & JOY_CTRL_ACK_INT_ENABLE != 0 { irq_raised(s3) } else { s3 }
}

/// The timer after `cycles`, and the transfer when a period ran out.
pub open spec fn ticked(s: PortView, cycles: usize) -> PortView {
    let clocks = cycles as u32;
    if s.baudrate_timer <= clocks {
        let s1 = reloaded(s, (clocks - s.baudrate_timer) as u32);
        if s1.transfer_active { processed(s1) } else { s1 }
    } else {
        PortView { baudrate_timer: (s.baudrate_timer - clocks) as u32, ..s }
    }
}

/// The transfer due within `cycles`, if any, can go on.
pub open spec fn clock_ok(s: PortView, cycles: usize) -> bool {
    let clocks = cycles as u32;
    s.baudrate_timer <= clocks && s.transfer_active
        ==> process_ok(reloaded(s, (clocks - s.baudrate_timer) as u32))
}

/// A byte is queued to send.
pub open spec fn data_sent(s: PortView, d: u8) -> PortView {
    let s1 = reloaded(PortView { in_fifo: s.in_fifo.push(d), transfer_active: true, ..s }, 0);
    PortView { status: (s1.status | JOY_STAT_TX_READY1) & !JOY_STAT_TX_READY2, ..s1 }
}

/// The four bytes at the front of the receive queue (0xFF past its end),
/// the first of them taken.
pub open spec fn data_received(s: PortView) -> (PortView, u32) {
    let q = s.out_fifo;
    let b = |i: int| if i < q.len() { q[i] as u32 } else { 0xFFu32 };
    (PortView { out_fifo: if q.len() > 0 { q.drop_first() } else { q }, ..s },
        b(0) | (b(1) << 8) | (b(2) << 16) | (b(3) << 24))
}

/// The status word, with the timer in its top bits; reading it clears the
/// acknowledge level.
pub open spec fn status_read(s: PortView) -> (PortView, u32) {
    let st = if s.out_fifo.len() > 0 { s.status | JOY_STAT_RX_NOT_EMPTY } else { s.status };
    (PortView { status: s.status & !JOY_STAT_ACK_LEVEL, ..s }, (st as u32) | ((s.baudrate_timer / 8) << 11))
}

/// A write of the control register.
pub open spec fn control_written(s: PortView, data: u16) -> PortView {
    let control = data & JOY_CTRL_BITS;
    let s1 = if control & JOY_CTRL_ACK != 0 {
        PortView { status: s.status & !(JOY_STAT_IRQ | JOY_STAT_PARITY_ERROR), ..s }
    } else {
        s
    };
    let s2 = if control & JOY_CTRL_RESET != 0 { PortView { transfer_mode: TransferMode::Idle, ..s1 } } else { s1 };
    let s3 = PortView { control: control & JOY_CTRL_WRITABLE, ..s2 };
    let s4 = if control & JOY_CTRL_JOYN_OUTPUT != 0 {
        PortView { slot_select: if control & JOY_CTRL_SLOT_SELECT != 0 { 1 } else { 0 }, ..s3 }
    } else {
        s3
    };
    if control & JOY_CTRL_TX_ENABLE != 0 {
        let s5 = PortView { status: s4.status | JOY_STAT_TX_READY1, ..s4 };
        if control & JOY_CTRL_TX_INT_ENABLE != 0 { irq_raised(s5) } else { s5 }
    } else {
        PortView {
            transfer_active: false,
            status: s4.status & !JOY_STAT_TX_READY1,
            transfer_mode: TransferMode::Idle,
            in_fifo: Seq::empty(),
            out_fifo: Seq::empty(),
            card1: match s4.card1 { Some(c) => Some(MemCardView { mode: None, ..c }), None => None },
            card2: match s4.card2 { Some(c) => Some(MemCardView { mode: None, ..c }), None => None },
            ..s4
        }
    }
}

/// The mode and control registers as a word.
pub open spec fn mode_control(s: PortView) -> u32 {
    (s.mode as u32) | ((s.control as u32) << 16)
}

impl ControllerData {
    fn new() -> (r: Self)
        ensures
            ctrl_ok(r@),
            r@.output == seq![0xFFFFu16, 0xFFFF, 0x0000, 0x0000],
            !r@.config_mode && r@.config_command == 0 && !r@.config_pending,
            r@.config_data == seq![0u16, 0, 0],
    {
        let r = ControllerData {
            output_data: [0xFFFF, 0xFFFF, 0x0000, 0x0000],
            config_mode: false,
            config_command: 0,
            config_data: [0; 3],
            config_pending: false,
        };
        assert(r.output_data@ =~= seq![0xFFFFu16, 0xFFFF, 0x0000, 0x0000]);
        assert(r.config_data@ =~= seq![0u16, 0, 0]);
        r
    }

    fn set_config(&mut self, d0: u16, d1: u16, d2: u16)
        ensures
            final(self)@ == with_config(old(self)@, d0, d1, d2),
    {
        self.config_data[0] = d0;
        self.config_data[1] = d1;
        self.config_data[2] = d2;
        assert(self.config_data@ =~= seq![d0, d1, d2]);
    }

    /// Take byte `data_in` as byte `n` of a transfer; answer with a byte.
    fn transfer(&mut self, data_in: u8, n: u8) -> (r: (TransferMode, u8))
        requires
            ctrl_ok(old(self)@),
            ctrl_step_ok(old(self)@, data_in, n),
        ensures
            ctrl_ok(final(self)@),
            (final(self)@, r.0, r.1) == ctrl_step(old(self)@, data_in, n),
    {
        if self.config_mode {
            if n == 0 {
                self.config_command = data_in;
                if data_in == 0x42 {
                    // Buttons: leave alone.
                    let (a, b, c) = (self.output_data[1], self.output_data[2], self.output_data[3]);
                    self.set_config(a, b, c);
                } else if data_in == 0x43 || data_in == 0x44 || data_in == 0x4C {
                    self.set_config(0, 0, 0);
                } else if data_in == 0x45 {
                    // Get LED state.
                    self.set_config(0x0201, 0x0200, 0x0001);
                } else if data_in == 0x46 {
                    // Pad info.
                    let (b, c) = (self.config_data[1], self.config_data[2]);
                    self.set_config(0x0000, b, c);
                } else if data_in == 0x47 {
                    self.set_config(0x0000, 0x0002, 0x0001);
                } else {
                    // Get/set rumble protocol.
                    self.set_config(0xFFFF, 0xFFFF, 0xFFFF);
                }
                (TransferMode::Controller(1), 0xF3)
            } else if n == 1 {
                (TransferMode::Controller(2), 0x5A)
            } else if n == 2 {
                let cmd = self.config_command;
                let a = self.config_data[0];
                if cmd == 0x43 {
                    // Exit (0) or stay in (1) config mode.
                    self.config_pending = data_in == 0x01;
                } else if cmd == 0x46 {
                    if data_in == 0x00 {
                        self.set_config(a, 0x0201, 0x0A00);
                    } else if data_in == 0x01 {
                        self.set_config(a, 0x0101, 0x1401);
                    } else {
                        self.set_config(a, 0x0000, 0x0000);
                    }
                } else if cmd == 0x4C {
                    let c = self.config_data[2];
                    let b: u16 = if data_in == 0x00 { 0x0400 } else if data_in == 0x01 { 0x0700 } else { 0x0000 };
                    self.set_config(a, b, c);
                }
                (TransferMode::Controller(3), self.config_data[0] as u8)
            } else if n == 3 {
                (TransferMode::Controller(4), (self.config_data[0] >> 8) as u8)
            } else if n == 4 {
                (TransferMode::Controller(5), self.config_data[1] as u8)
            } else if n == 5 {
                (TransferMode::Controller(6), (self.config_data[1] >> 8) as u8)
            } else if n == 6 {
                (TransferMode::Controller(7), self.config_data[2] as u8)
            } else {
                if !self.config_pending {
                    self.config_mode = false;
                }
                (TransferMode::Idle, (self.config_data[2] >> 8) as u8)
            }
        } else {
            if n == 0 {
                if data_in == 0x43 {
                    self.config_pending = true;
                }
                (TransferMode::Controller(1), self.output_data[0] as u8)
            } else if n == 1 {
                let data = (self.output_data[0] >> 8) as u8;
                if data == 0xFF {
                    (TransferMode::Idle, 0xFF)
                } else {
                    (TransferMode::Controller(2), data)
                }
            } else if n == 2 {
                if self.config_pending {
                    self.config_pending = data_in == 0x01;
                }
                (TransferMode::Controller(3), self.output_data[1] as u8)
            } else {
                if self.config_pending {
                    self.config_mode = true;
                }
                (TransferMode::Idle, (self.output_data[1] >> 8) as u8)
            }
        }
    }
}

/// The port after a controller is connected (or its state changes).
pub open spec fn controller_set(s: PortView, port: Port, state: ControllerState) -> PortView {
    match port {
        Port::One => PortView { ctrl1: CtrlView { output: controller_binary(state), ..s.ctrl1 }, ..s },
        Port::Two => PortView { ctrl2: CtrlView { output: controller_binary(state), ..s.ctrl2 }, ..s },
    }
}

/// A word register of the port.
pub open spec fn word_addr(addr: u32) -> bool {
    addr == JOY_DATA_ADDR || addr == JOY_STAT_ADDR || addr == JOY_MODE_ADDR || addr == JOY_BAUD_WORD_ADDR
}

/// A halfword register of the port, for reading.
pub open spec fn half_read_addr(addr: u32) -> bool {
    addr == JOY_DATA_ADDR || addr == JOY_STAT_ADDR || addr == JOY_STAT_HI_ADDR || addr == JOY_MODE_ADDR
        || addr == JOY_CTRL_ADDR || addr == JOY_BAUD_ADDR
}

/// A halfword register of the port, for writing.
pub open spec fn half_write_addr(addr: u32) -> bool {
    addr == JOY_DATA_ADDR || addr == JOY_MODE_ADDR || addr == JOY_CTRL_ADDR || addr == JOY_BAUD_ADDR
}

/// A word read: the received data, the status, mode and control, or the
/// baud rate reload value in the top half.
pub open spec fn word_read(s: PortView, addr: u32) -> (PortView, u32) {
    if addr == JOY_DATA_ADDR {
        data_received(s)
    } else if addr == JOY_STAT_ADDR {
        status_read(s)
    } else if addr == JOY_MODE_ADDR {
        (s, mode_control(s))
    } else {
        (s, s.baudrate_reload << 16)
    }
}

/// A word write: send a byte, set mode and control, or set the reload value.
pub open spec fn word_written(s: PortView, addr: u32, data: u32) -> PortView {
    if addr == JOY_DATA_ADDR {
        data_sent(s, data as u8)
    } else if addr == JOY_STAT_ADDR {
        s
    } else if addr == JOY_MODE_ADDR {
        control_written(PortView { mode: (data as u16) & JOY_MODE_BITS, ..s }, (data >> 16) as u16)
    } else {
        reloaded(PortView { baudrate_reload: ((data >> 16) as u16) as u32, ..s }, 0)
    }
}

/// A halfword read.
pub open spec fn half_read(s: PortView, addr: u32) -> (PortView, u16) {
    if addr == JOY_DATA_ADDR {
        (data_received(s).0, data_received(s).1 as u16)
    } else if addr == JOY_STAT_ADDR {
        (status_read(s).0, status_read(s).1 as u16)
    } else if addr == JOY_STAT_HI_ADDR {
        (status_read(s).0, (status_read(s).1 >> 16) as u16)
    } else if addr == JOY_MODE_ADDR {
        (s, s.mode)
    } else if addr == JOY_CTRL_ADDR {
        (s, s.control)
    } else {
        (s, s.baudrate_reload as u16)
    }
}

/// A halfword write.
pub open spec fn half_written(s: PortView, addr: u32, data: u16) -> PortView {
    if addr == JOY_DATA_ADDR {
        data_sent(s, data as u8)
    } else if addr == JOY_MODE_ADDR {
        PortView { mode: data & JOY_MODE_BITS, ..s }
    } else if addr == JOY_CTRL_ADDR {
        control_written(s, data)
    } else {
        reloaded(PortView { baudrate_reload: data as u32, ..s }, 0)
    }
}

impl PeripheralPort {
    pub open spec fn wf(&self) -> bool {
        port_ok(self@)
    }

    pub fn new() -> (r: Self)
        ensures
            r.wf(),
            r@.status == 0 && r@.mode == 0 && r@.control == 0,
            r@.baudrate_reload == 0 && r@.baudrate_timer == 0,
            r@.slot_select == 0,
            r@.in_fifo.len() == 0 && r@.out_fifo.len() == 0,
            r@.transfer_mode == TransferMode::Idle,
            !r@.transfer_active && !r@.irq_latch && !r@.multitap_mem_card,
            r@.ctrl1.output == seq![0xFFFFu16, 0xFFFF, 0x0000, 0x0000] && !r@.ctrl1.config_mode,
            r@.ctrl2.output == seq![0xFFFFu16, 0xFFFF, 0x0000, 0x0000] && !r@.ctrl2.config_mode,
            r@.card1 is None && r@.card2 is None,
    {
        PeripheralPort {
            status: 0,
            mode: 0,
            control: 0,
            baudrate_reload: 0,
            baudrate_timer: 0,
            slot_select: 0,
            in_fifo: VecDeque::new(),
            out_fifo: VecDeque::new(),
            transfer_mode: TransferMode::Idle,
            transfer_active: false,
            irq_latch: false,
            multitap_mem_card: false,
            port_1_controller: ControllerData::new(),
            port_2_controller: ControllerData::new(),
            port_1_mem_card: None,
            port_2_mem_card: None,
        }
    }

    /// Clock the port. Returns the interrupt, if one was raised.
    pub fn clock(&mut self, cycles: usize) -> (r: u32)
        requires
            old(self).wf(),
            clock_ok(old(self)@, cycles),
        ensures
            final(self).wf(),
            ({
                let t = ticked(old(self)@, cycles);
                &&& r == (if t.irq_latch { IRQ_PERIPHERAL } else { 0 })
                &&& final(self)@ == PortView { irq_latch: false, ..t }
            }),
    {
        let clocks = cycles as u32;
        if self.baudrate_timer <= clocks {
            self.reload_baudrate(clocks - self.baudrate_timer);
            if self.transfer_active {
                self.process_data();
            }
        } else {
            self.baudrate_timer = self.baudrate_timer - clocks;
        }
        if self.irq_latch {
            self.irq_latch = false;
            IRQ_PERIPHERAL
        } else {
            0
        }
    }

    /// The transfer due within `cycles`, if any, can go on.
    pub fn can_clock(&self, cycles: usize) -> (r: bool)
        requires
            self.wf(),
        ensures
            r == clock_ok(self@, cycles),
    {
        let clocks = cycles as u32;
        if self.baudrate_timer <= clocks && self.transfer_active {
            let d = self.in_fifo[0];
            match self.transfer_mode {
                TransferMode::Idle => d == 0x01 || d == 0x81 || d & 0xF0 == 0x80 || d == 0x00,
                TransferMode::Controller(n) => {
                    let c = if self.control & JOY_CTRL_SLOT_SELECT != 0 {
                        &self.port_2_controller
                    } else {
                        &self.port_1_controller
                    };
                    if c.config_mode {
                        n <= 7 && (n != 0 || (d == 0x42 || d == 0x43 || d == 0x44 || d == 0x45 || d == 0x46
                            || d == 0x47 || d == 0x4C || d == 0x4D)) && (n != 2 || {
                            let cmd = c.config_command;
                            (cmd == 0x42 || cmd == 0x43 || cmd == 0x44 || cmd == 0x45 || cmd == 0x46
                                || cmd == 0x47 || cmd == 0x4C || cmd == 0x4D) && (cmd != 0x43 || d <= 1)
                        })
                    } else {
                        n <= 3 && (n != 0 || d == 0x42 || d == 0x43) && (n != 2 || !c.config_pending || d <= 1)
                    }
                },
                TransferMode::Multitap(_) => true,
                TransferMode::MemCard => {
                    let card = if self.multitap_mem_card {
                        None
                    } else if self.control & JOY_CTRL_SLOT_SELECT != 0 {
                        self.port_2_mem_card.as_ref()
                    } else {
                        self.port_1_mem_card.as_ref()
                    };
                    match card {
                        Some(card) => card.can_transfer(d),
                        None => true,
                    }
                },
            }
        } else {
            true
        }
    }

    /// Connect a controller, or change its state.
    pub fn set_controller_state(&mut self, port: Port, state: ControllerState)
        requires
            old(self).wf(),
        ensures
            final(self).wf(),
            final(self)@ == controller_set(old(self)@, port, state),
    {
        match port {
            Port::One => state.get_binary(&mut self.port_1_controller.output_data),
            Port::Two => state.get_binary(&mut self.port_2_controller.output_data),
        }
    }

    /// Disconnect a controller: its slot reads as all ones. (Either port
    /// clears the first slot.)
    pub fn clear_controller_state(&mut self, port: Port)
        requires
            old(self).wf(),
        ensures
            final(self).wf(),
            final(self)@ == (PortView {
                ctrl1: CtrlView { output: seq![0xFFFFu16, 0xFFFF, 0xFFFF, 0xFFFF], ..old(self)@.ctrl1 },
                ..old(self)@
            }),
    {
        match port {
            Port::One => self.fill_port_1(),
            Port::Two => self.fill_port_1(),
        }
    }

    fn fill_port_1(&mut self)
        ensures
            final(self)@ == (PortView {
                ctrl1: CtrlView { output: seq![0xFFFFu16, 0xFFFF, 0xFFFF, 0xFFFF], ..old(self)@.ctrl1 },
                ..old(self)@
            }),
    {
        self.port_1_controller.output_data[0] = 0xFFFF;
        self.port_1_controller.output_data[1] = 0xFFFF;
        self.port_1_controller.output_data[2] = 0xFFFF;
        self.port_1_controller.output_data[3] = 0xFFFF;
        assert(self.port_1_controller.output_data@ =~= seq![0xFFFFu16, 0xFFFF, 0xFFFF, 0xFFFF]);
    }

    /// Insert a memory card with the given contents (a blank card when
    /// there are none).
    pub fn insert_mem_card(&mut self, port: Port, contents: Option<Vec<u8>>)
        requires
            old(self).wf(),
            contents matches Some(c) ==> c@.len() == MEM_CARD_SIZE,
        ensures
            final(self).wf(),
            match port {
                Port::One => final(self)@.card2 == old(self)@.card2 && final(self)@.card1 is Some,
                Port::Two => final(self)@.card1 == old(self)@.card1 && final(self)@.card2 is Some,
            },
            ({
                let card = match port {
                    Port::One => final(self)@.card1->0,
                    Port::Two => final(self)@.card2->0,
                };
                &&& card.mode is None
                &&& match contents {
                    Some(c) => card.buffer == c@ && !card.dirty,
                    None => card.buffer == Seq::new(MEM_CARD_SIZE as nat, |i: int| 0u8) && card.dirty,
                }
            }),
            final(self)@ == (PortView { card1: final(self)@.card1, card2: final(self)@.card2, ..old(self)@ }),
    {
        let card = MemoryCard::new(contents);
        match port {
            Port::One => self.port_1_mem_card = Some(card),
            Port::Two => self.port_2_mem_card = Some(card),
        }
    }

    pub fn remove_mem_card(&mut self, port: Port)
        requires
            old(self).wf(),
        ensures
            final(self).wf(),
            final(self)@ == match port {
                Port::One => PortView { card1: None, ..old(self)@ },
                Port::Two => PortView { card2: None, ..old(self)@ },
            },
    {
        match port {
            Port::One => self.port_1_mem_card = None,
            Port::Two => self.port_2_mem_card = None,
        }
    }

    /// The contents of each card to write back to its file, where they
    /// changed; the cards are then clean.
    pub fn flush_mem_cards(&mut self) -> (r: (Option<Vec<u8>>, Option<Vec<u8>>))
        requires
            old(self).wf(),
        ensures
            final(self).wf(),
            match old(self)@.card1 {
                Some(c) => final(self)@.card1 == Some(MemCardView { dirty: false, ..c })
                    && (c.dirty ==> (r.0 matches Some(b) && b@ == c.buffer)) && (!c.dirty ==> r.0 is None),
                None => final(self)@.card1 is None && r.0 is None,
            },
            match old(self)@.card2 {
                Some(c) => final(self)@.card2 == Some(MemCardView { dirty: false, ..c })
                    && (c.dirty ==> (r.1 matches Some(b) && b@ == c.buffer)) && (!c.dirty ==> r.1 is None),
                None => final(self)@.card2 is None && r.1 is None,
            },
            final(self)@ == (PortView { card1: final(self)@.card1, card2: final(self)@.card2, ..old(self)@ }),
    {
        let first = match self.port_1_mem_card.as_mut() {
            Some(card) => card.flush(),
            None => None,
        };
        let second = match self.port_2_mem_card.as_mut() {
            Some(card) => card.flush(),
            None => None,
        };
        (first, second)
    }

    fn baud_period(&self) -> (r: u32)
        requires
            self.wf(),
        ensures
            r == baud_period(self@),
    {
        let factor = self.mode & JOY_MODE_RELOAD_FACTOR;
        // Eight bits are sent each period.
        if factor == 2 {
            self.baudrate_reload * 16 * 8
        } else if factor == 3 {
            self.baudrate_reload * 32 * 8
        } else {
            self.baudrate_reload * 8
        }
    }

    fn reload_baudrate(&mut self, offset: u32)
        requires
            old(self).wf(),
        ensures
            final(self)@ == reloaded(old(self)@, offset),
    {
        let reload = self.baud_period();
        self.baudrate_timer = reload.wrapping_sub(offset);
    }

    fn trigger_irq(&mut self)
        ensures
            final(self)@ == irq_raised(old(self)@),
    {
        self.irq_latch = true;
        self.status = self.status | JOY_STAT_IRQ;
    }

    fn push_data(&mut self, data: u8)
        ensures
            final(self)@ == pushed(old(self)@, data),
    {
        self.out_fifo.push_back(data);
        if self.control & JOY_CTRL_RX_INT_ENABLE != 0 {
            let rx_int_mode = (self.control & JOY_CTRL_RX_INT_MODE) >> 8;
            let out_fifo_len: usize = if rx_int_mode == 0 {
                1
            } else if rx_int_mode == 1 {
                2
            } else if rx_int_mode == 2 {
                4
            } else {
                8
            };
            if self.out_fifo.len() == out_fifo_len {
                self.trigger_irq();
            }
        }
    }

    fn send_data(&mut self, data: u8)
        requires
            old(self).wf(),
        ensures
            final(self).wf(),
            final(self)@ == data_sent(old(self)@, data),
    {
        self.in_fifo.push_back(data);
        self.transfer_active = true;
        self.reload_baudrate(0);
        self.status = (self.status | JOY_STAT_TX_READY1) & !JOY_STAT_TX_READY2;
    }

    fn receive_data(&mut self) -> (r: u32)
        ensures
            (final(self)@, r) == data_received(old(self)@),
    {
        let b0: u32 = match self.out_fifo.pop_front() {
            Some(b) => b as u32,
            None => 0xFF,
        };
        let len = self.out_fifo.len();
        let b1: u32 = if len > 0 { self.out_fifo[0] as u32 } else { 0xFF };
        let b2: u32 = if len > 1 { self.out_fifo[1] as u32 } else { 0xFF };
        let b3: u32 = if len > 2 { self.out_fifo[2] as u32 } else { 0xFF };
        b0 | (b1 << 8) | (b2 << 16) | (b3 << 24)
    }

    fn read_status(&mut self) -> (r: u32)
        ensures
            (final(self)@, r) == status_read(old(self)@),
    {
        let mut status = self.status;
        self.status = self.status & !JOY_STAT_ACK_LEVEL;
        if self.out_fifo.len() > 0 {
            status = status | JOY_STAT_RX_NOT_EMPTY;
        }
        let current_timer = self.baudrate_timer / 8;
        (status as u32) | (current_timer << 11)
    }

    fn set_mode(&mut self, data: u16)
        ensures
            final(self)@ == (PortView { mode: data & JOY_MODE_BITS, ..old(self)@ }),
    {
        self.mode = data & JOY_MODE_BITS;
    }

    fn set_control(&mut self, data: u16)
        requires
            old(self).wf(),
        ensures
            final(self).wf(),
            final(self)@ == control_written(old(self)@, data),
    {
        let control = data & JOY_CTRL_BITS;
        if control & JOY_CTRL_ACK != 0 {
            self.status = self.status & !(JOY_STAT_IRQ | JOY_STAT_PARITY_ERROR);
        }
        if control & JOY_CTRL_RESET != 0 {
            self.transfer_mode = TransferMode::Idle;
        }
        self.control = control & JOY_CTRL_WRITABLE;
        if control & JOY_CTRL_JOYN_OUTPUT != 0 {
            self.slot_select = if control & JOY_CTRL_SLOT_SELECT != 0 { 1 } else { 0 };
        }
        if control & JOY_CTRL_TX_ENABLE != 0 {
            self.status = self.status | JOY_STAT_TX_READY1;
            if control & JOY_CTRL_TX_INT_ENABLE != 0 {
                self.trigger_irq();
            }
        } else {
            // Cancel the transfer.
            self.transfer_active = false;
            self.status = self.status & !JOY_STAT_TX_READY1;
            self.transfer_mode = TransferMode::Idle;
            self.in_fifo.clear();
            self.out_fifo.clear();
            if let Some(card) = self.port_1_mem_card.as_mut() {
                card.cancel_transfer();
            }
            if let Some(card) = self.port_2_mem_card.as_mut() {
                card.cancel_transfer();
            }
        }
    }

    fn get_mode_control(&self) -> (r: u32)
        ensures
            r == mode_control(self@),
    {
        (self.mode as u32) | ((self.control as u32) << 16)
    }

    fn set_baudrate_reload(&mut self, data: u16)
        requires
            old(self).wf(),
        ensures
            final(self).wf(),
            final(self)@ == reloaded(PortView { baudrate_reload: data as u32, ..old(self)@ }, 0),
    {
        self.baudrate_reload = data as u32;
        self.reload_baudrate(0);
    }
    /// A baud period has passed: send the byte at the front of the queue to
    /// the device, and receive its answer.
    fn process_data(&mut self)
        requires
            old(self).wf(),
            old(self)@.transfer_active,
            process_ok(old(self)@),
        ensures
            final(self).wf(),
            final(self)@ == processed(old(self)@),
    {
        reveal(processed);
        self.status = self.status & !JOY_STAT_TX_READY1;
        let data_in = match self.in_fifo.pop_front() {
            Some(d) => d,
            None => {
                assert(false);
                0
            },
        };
        self.transfer_active = self.in_fifo.len() > 0;
        match self.transfer_mode {
            TransferMode::Idle => {
                self.multitap_mem_card = false;
                if data_in == 0x01 {
                    self.transfer_mode = TransferMode::Controller(0);
                    self.push_data(0xFF);
                } else if data_in == 0x81 {
                    self.transfer_mode = TransferMode::MemCard;
                    self.push_data(0xFF);
                } else if data_in & 0xF0 == 0x80 {
                    self.multitap_mem_card = true;
                    self.transfer_mode = TransferMode::MemCard;
                    self.push_data(0xFF);
                } else {
                    self.push_data(0xFF);
                }
            },
            TransferMode::Controller(n) => self.process_controller_mode(data_in, n),
            TransferMode::Multitap(n) => self.process_multitap_mode(n),
            TransferMode::MemCard => self.process_memcard_mode(data_in),
        }
        if self.transfer_mode == TransferMode::Idle {
            self.status = self.status | JOY_STAT_TX_READY2;
        }
        self.status = self.status | JOY_STAT_ACK_LEVEL;
        if self.control & JOY_CTRL_ACK_INT_ENABLE != 0 {
            self.trigger_irq();
        }
    }

    fn process_controller_mode(&mut self, data_in: u8, n: u8)
        requires
            old(self).wf(),
            old(self)@.transfer_mode == TransferMode::Controller(n),
            ctrl_step_ok(chosen_ctrl(old(self)@), data_in, n),
        ensures
            final(self).wf(),
            final(self)@ == device_step(old(self)@, data_in),
    {
        let (transfer_mode, data) = if self.control & JOY_CTRL_SLOT_SELECT != 0 {
            self.port_2_controller.transfer(data_in, n)
        } else {
            self.port_1_controller.transfer(data_in, n)
        };
        self.transfer_mode = transfer_mode;
        self.push_data(data);
    }

    /// Only one controller is passed on through a multitap.
    fn process_multitap_mode(&mut self, n: u8)
        requires
            old(self).wf(),
            old(self)@.transfer_mode == TransferMode::Multitap(n),
        ensures
            final(self).wf(),
            final(self)@ == device_step(old(self)@, 0),
    {
        let controller = if self.control & JOY_CTRL_SLOT_SELECT != 0 {
            &self.port_2_controller
        } else {
            &self.port_1_controller
        };
        let (transfer_mode, data) = if n == 0 {
            (TransferMode::Multitap(1), controller.output_data[0] as u8)
        } else if n == 1 {
            (TransferMode::Multitap(2), (controller.output_data[0] >> 8) as u8)
        } else if n == 2 {
            (TransferMode::Multitap(3), controller.output_data[1] as u8)
        } else if n == 3 {
            (TransferMode::Multitap(4), (controller.output_data[1] >> 8) as u8)
        } else if n <= 30 {
            (TransferMode::Multitap(n + 1), 0xFF)
        } else {
            (TransferMode::Idle, 0xFF)
        };
        self.transfer_mode = transfer_mode;
        self.push_data(data);
    }

    fn process_memcard_mode(&mut self, data_in: u8)
        requires
            old(self).wf(),
            old(self)@.transfer_mode == TransferMode::MemCard,
            chosen_card(old(self)@) matches Some(card) ==> transfer_ok(card, data_in),
        ensures
            final(self).wf(),
            final(self)@ == device_step(old(self)@, data_in),
    {
        let data = if self.multitap_mem_card {
            // Eventually the system should cancel the transfer.
            0xFF
        } else if self.control & JOY_CTRL_SLOT_SELECT != 0 {
            match self.port_2_mem_card.as_mut() {
                Some(card) => {
                    let data = card.transfer_data(data_in);
                    if card.transfer_complete() {
                        self.transfer_mode = TransferMode::Idle;
                    }
                    data
                },
                None => 0xFF,
            }
        } else {
            match self.port_1_mem_card.as_mut() {
                Some(card) => {
                    let data = card.transfer_data(data_in);
                    if card.transfer_complete() {
                        self.transfer_mode = TransferMode::Idle;
                    }
                    data
                },
                None => 0xFF,
            }
        };
        self.push_data(data);
    }
    pub fn read_word(&mut self, addr: u32) -> (r: u32)
        requires
            old(self).wf(),
            word_addr(addr),
        ensures
            final(self).wf(),
            (final(self)@, r) == word_read(old(self)@, addr),
    {
        if addr == JOY_DATA_ADDR {
            self.receive_data()
        } else if addr == JOY_STAT_ADDR {
            self.read_status()
        } else if addr == JOY_MODE_ADDR {
            self.get_mode_control()
        } else {
            self.baudrate_reload << 16
        }
    }

    pub fn write_word(&mut self, addr: u32, data: u32)
        requires
            old(self).wf(),
            word_addr(addr),
        ensures
            final(self).wf(),
            final(self)@ == word_written(old(self)@, addr, data),
    {
        if addr == JOY_DATA_ADDR {
            self.send_data(data as u8);
        } else if addr == JOY_MODE_ADDR {
            self.set_mode(data as u16);
            self.set_control((data >> 16) as u16);
        } else if addr == JOY_BAUD_WORD_ADDR {
            self.set_baudrate_reload((data >> 16) as u16);
        }
    }

    pub fn read_halfword(&mut self, addr: u32) -> (r: u16)
        requires
            old(self).wf(),
            half_read_addr(addr),
        ensures
            final(self).wf(),
            (final(self)@, r) == half_read(old(self)@, addr),
    {
        if addr == JOY_DATA_ADDR {
            self.receive_data() as u16
        } else if addr == JOY_STAT_ADDR {
            self.read_status() as u16
        } else if addr == JOY_STAT_HI_ADDR {
            (self.read_status() >> 16) as u16
        } else if addr == JOY_MODE_ADDR {
            self.mode
        } else if addr == JOY_CTRL_ADDR {
            self.control
        } else {
            self.baudrate_reload as u16
        }
    }

    pub fn write_halfword(&mut self, addr: u32, data: u16)
        requires
            old(self).wf(),
            half_write_addr(addr),
        ensures
            final(self).wf(),
            final(self)@ == half_written(old(self)@, addr, data),
    {
        if addr == JOY_DATA_ADDR {
            self.send_data(data as u8);
        } else if addr == JOY_MODE_ADDR {
            self.set_mode(data);
        } else if addr == JOY_CTRL_ADDR {
            self.set_control(data);
        } else {
            self.set_baudrate_reload(data);
        }
    }

    /// Only the data register can be read by byte.
    pub fn read_byte(&mut self, addr: u32) -> (r: u8)
        requires
            old(self).wf(),
            addr == JOY_DATA_ADDR,
        ensures
            final(self).wf(),
            final(self)@ == data_received(old(self)@).0,
            r == data_received(old(self)@).1 as u8,
    {
        self.receive_data() as u8
    }

    /// Only the data register can be written by byte.
    pub fn write_byte(&mut self, addr: u32, data: u8)
        requires
            old(self).wf(),
            addr == JOY_DATA_ADDR,
        ensures
            final(self).wf(),
            final(self)@ == data_sent(old(self)@, data),
    {
        self.send_data(data);
    }
}


/// A stage of a poll of a controller that is not in configuration mode.
proof fn lemma_poll_stage(s: PortView, n: u8)
    requires
        ctrl_ok(chosen_ctrl(s)),
        s.transfer_mode == TransferMode::Controller(n),
        n <= 3,
        s.in_fifo.len() > 0,
        !chosen_ctrl(s).config_mode,
        !chosen_ctrl(s).config_pending,
        n == 0 ==> s.in_fifo[0] == 0x42,
        n == 1 ==> hi(chosen_ctrl(s).output[0]) != 0xFF,
    ensures
        ({
            let o = chosen_ctrl(s).output;
            let t = processed(s);
            &&& process_ok(s)
            &&& t.in_fifo == s.in_fifo.drop_first()
            &&& t.out_fifo == s.out_fifo.push(
                if n == 0 { lo(o[0]) } else if n == 1 { hi(o[0]) } else if n == 2 { lo(o[1]) } else { hi(o[1]) })
            &&& t.transfer_mode == (if n < 3 { TransferMode::Controller((n + 1) as u8) } else { TransferMode::Idle })
            &&& chosen_ctrl(t) == chosen_ctrl(s)
            &&& t.control == s.control
            &&& t.transfer_active == (s.in_fifo.len() > 1)
        }),
{
    reveal(processed);
}

/// The first byte of a poll selects the controller.
proof fn lemma_poll_select(s: PortView)
    requires
        s.transfer_mode == TransferMode::Idle,
        s.in_fifo.len() > 0,
        s.in_fifo[0] == 0x01,
    ensures
        ({
            let t = processed(s);
            &&& process_ok(s)
            &&& t.in_fifo == s.in_fifo.drop_first()
            &&& t.out_fifo == s.out_fifo.push(0xFF)
            &&& t.transfer_mode == TransferMode::Controller(0)
            &&& chosen_ctrl(t) == chosen_ctrl(s)
            &&& t.control == s.control
            &&& t.transfer_active == (s.in_fifo.len() > 1)
        }),
{
    reveal(processed);
}

/// Polling a controller that is not in configuration mode: the bytes 0x01,
/// 0x42, 0, 0, 0, sent one each baud period, are answered with 0xFF, then
/// the controller's ID halfword and its button halfword, low bytes first;
/// the transfer then ends, and the controller's state is unchanged.
pub proof fn lemma_controller_poll(s: PortView)
    requires
        port_ok(s),
        s.transfer_mode == TransferMode::Idle,
        s.in_fifo == seq![0x01u8, 0x42u8, 0x00u8, 0x00u8, 0x00u8],
        !chosen_ctrl(s).config_mode,
        !chosen_ctrl(s).config_pending,
        hi(chosen_ctrl(s).output[0]) != 0xFF,
    ensures
        ({
            let o = chosen_ctrl(s).output;
            let s1 = processed(s);
            let s2 = processed(s1);
            let s3 = processed(s2);
            let s4 = processed(s3);
            let s5 = processed(s4);
            &&& process_ok(s) && process_ok(s1) && process_ok(s2) && process_ok(s3) && process_ok(s4)
            &&& s1.transfer_active && s2.transfer_active && s3.transfer_active && s4.transfer_active
            &&& s5.out_fifo == s.out_fifo + seq![0xFFu8, lo(o[0]), hi(o[0]), lo(o[1]), hi(o[1])]
            &&& s5.transfer_mode == TransferMode::Idle && !s5.transfer_active
            &&& chosen_ctrl(s5) == chosen_ctrl(s)
        }),
{
    let o = chosen_ctrl(s).output;
    lemma_poll_select(s);
    let s1 = processed(s);
    assert(s1.in_fifo =~= seq![0x42u8, 0x00u8, 0x00u8, 0x00u8]);
    lemma_poll_stage(s1, 0);
    let s2 = processed(s1);
    assert(s2.in_fifo =~= seq![0x00u8, 0x00u8, 0x00u8]);
    lemma_poll_stage(s2, 1);
    let s3 = processed(s2);
    assert(s3.in_fifo =~= seq![0x00u8, 0x00u8]);
    lemma_poll_stage(s3, 2);
    let s4 = processed(s3);
    assert(s4.in_fifo =~= seq![0x00u8]);
    lemma_poll_stage(s4, 3);
    let s5 = processed(s4);
    assert(s5.out_fifo =~= s.out_fifo + seq![0xFFu8, lo(o[0]), hi(o[0]), lo(o[1]), hi(o[1])]);
}

} // verus!
