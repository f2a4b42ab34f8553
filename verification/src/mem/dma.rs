use vstd::prelude::*;
use crate::interrupt::IRQ_DMA;
use crate::utils::bits::lemma_masked_fields;
use crate::utils::interface::{MemInterface, word_access, lemma_word_access_aligned};

verus! {

// Channel control register bits.
pub const CH_START_TRIGGER: u32 = 0x1000_0000;
pub const CH_START_BUSY: u32 = 0x0100_0000;
pub const CH_SYNC_MODE: u32 = 0x0000_0600;
pub const CH_DEC_ADDR: u32 = 0x0000_0002;
pub const CH_TRANSFER_DIR: u32 = 0x0000_0001;
/// All defined channel control bits.
pub const CH_CONTROL_BITS: u32 = 0x1177_0703;

/// All defined bits of the DMA control register (enable and priority per channel).
pub const DMA_CONTROL_BITS: u32 = 0x0FFF_FFFF;

// Interrupt register bits.
pub const DICR_IRQ_REQ: u32 = 0x8000_0000;
pub const DICR_IRQ_FLAGS: u32 = 0x7F00_0000;
pub const DICR_ENABLE_IRQ: u32 = 0x0080_0000;
pub const DICR_FORCE_IRQ: u32 = 0x0000_8000;
pub const DICR_WRITABLE: u32 = 0x00FF_8000;
/// All defined bits of the interrupt register.
pub const DICR_BITS: u32 = 0xFFFF_8000;

/// Address of the DMA control register.
pub const DPCR_ADDR: u32 = 0x1F80_10F0;
/// Address of the DMA interrupt register.
pub const DICR_ADDR: u32 = 0x1F80_10F4;

/// A word read from a device over DMA, with the cycles it took.
#[derive(Clone, Copy)]
pub struct DmaWord {
    pub data: u32,
    pub cycles: usize,
}

/// Represents a single word transfer via DMA.
///
/// The external memory bus just needs to transfer between RAM and the device.
pub struct DMATransfer {
    pub addr: u32,
    pub from_ram: bool,
    pub device: usize,
}

/// A single channel for DMA.
/// There are 7 in total.
#[derive(Clone, Copy)]
pub struct DMAChannel {
    // Registers
    pub base_addr: u32,
    pub block_control: u32,
    pub control: u32,
    // Transfer state
    pub current_addr: u32,
    pub current_word_count: u32,
    pub current_block_count: u32,
}

/// A 32-bit counter decremented with wrap-around.
pub open spec fn wrap_dec(x: u32) -> u32 {
    if x == 0 { 0xFFFF_FFFF } else { (x - 1) as u32 }
}

/// An address moved back by a word, with wrap-around.
pub open spec fn wrap_sub4(x: u32) -> u32 {
    if x < 4 { (x + 0x1_0000_0000 - 4) as u32 } else { (x - 4) as u32 }
}

/// An address moved on by a word, with wrap-around.
pub open spec fn wrap_add4(x: u32) -> u32 {
    if x >= 0xFFFF_FFFC { (x + 4 - 0x1_0000_0000) as u32 } else { (x + 4) as u32 }
}

/// The channel after a start request for sync mode `mode`: it only starts
/// when its configured sync mode matches.
pub open spec fn started(ch: DMAChannel, mode: u32) -> DMAChannel {
    if mode == (ch.control & CH_SYNC_MODE) >> 9 {
        DMAChannel {
            control: ch.control | CH_START_BUSY,
            current_addr: ch.base_addr,
            current_word_count: ch.block_control & 0xFFFF,
            current_block_count: (ch.block_control >> 16) & 0xFFFF,
            ..ch
        }
    } else {
        ch
    }
}

/// The channel after a write to its control register.
pub open spec fn with_control(ch: DMAChannel, data: u32) -> DMAChannel {
    let ch1 = DMAChannel { control: data & CH_CONTROL_BITS, ..ch };
    if ch1.control & CH_START_TRIGGER != 0 { started(ch1, 0) } else { ch1 }
}

impl DMAChannel {
    pub fn new() -> (r: Self)
        ensures
            r == (DMAChannel { base_addr: 0, block_control: 0, control: 0, current_addr: 0, current_word_count: 0, current_block_count: 0 }),
    {
        Self { base_addr: 0, block_control: 0, control: 0, current_addr: 0, current_word_count: 0, current_block_count: 0 }
    }

    fn set_addr(&mut self, data: u32)
        ensures
            *final(self) == (DMAChannel { base_addr: data & 0x00FF_FFFF, ..*old(self) }),
    {
        self.base_addr = data & 0x00FF_FFFF;
    }

    fn set_control(&mut self, data: u32)
        ensures
            *final(self) == with_control(*old(self), data),
    {
        self.control = data & CH_CONTROL_BITS;
        if self.control & CH_START_TRIGGER != 0 {
            self.start_sync_mode(0);
        }
    }

    fn start_sync_mode(&mut self, mode: u32)
        ensures
            *final(self) == started(*old(self), mode),
    {
        let current_mode = (self.control & CH_SYNC_MODE) >> 9;
        if mode == current_mode {
            self.control = self.control | CH_START_BUSY;
            self.current_addr = self.base_addr;
            self.current_word_count = self.block_control & 0xFFFF;
            self.current_block_count = (self.block_control >> 16) & 0xFFFF;
        }
    }

    /// Decrement the block by 1.
    /// Returns true if the block is complete.
    fn dec_word_count(&mut self) -> (r: bool)
        ensures
            *final(self) == (DMAChannel { current_word_count: wrap_dec(old(self).current_word_count), ..*old(self) }),
            r == (final(self).current_word_count == 0),
    {
        self.current_word_count = self.current_word_count.wrapping_sub(1);
        self.current_word_count == 0
    }

    /// Finish a transfer block.
    /// Returns true if the entire transfer is complete.
    fn finish_block(&mut self) -> (r: bool)
        ensures
            r == (old(self).current_block_count == 0),
            r ==> *final(self) == (DMAChannel { control: old(self).control & !CH_START_BUSY, ..*old(self) }),
            !r ==> *final(self) == (DMAChannel { current_block_count: (old(self).current_block_count - 1) as u32, ..*old(self) }),
    {
        if self.current_block_count == 0 {
            self.control = self.control & !CH_START_BUSY;
            true
        } else {
            self.current_block_count = self.current_block_count - 1;
            false
        }
    }
}

/// Reverse ordering table generator.
/// Used by DMA channel 6 to initialize in RAM.
pub struct OrderingTableGen {
    pub write_addr: u32,
    pub count: u32,
}

impl OrderingTableGen {
    fn new() -> (r: Self)
        ensures
            r.write_addr == 0 && r.count == 0,
    {
        Self { write_addr: 0, count: 0 }
    }

    fn init(&mut self, addr: u32, count: u32)
        ensures
            final(self).write_addr == addr && final(self).count == count,
    {
        self.write_addr = addr;
        self.count = count;
    }

    /// The next ordering table entry: a link to the previous word, or the
    /// end marker 0xFFFFFF for the last entry.
    pub fn dma_read_word(&mut self) -> (r: DmaWord)
        requires
            old(self).count > 0,
            old(self).count > 1 ==> old(self).write_addr >= 4,
        ensures
            final(self).count == old(self).count - 1,
            old(self).count == 1 ==> r.data == 0x00FF_FFFF && final(self).write_addr == old(self).write_addr,
            old(self).count > 1 ==> r.data == old(self).write_addr - 4 && final(self).write_addr == old(self).write_addr - 4,
            r.cycles == 1,
    {
        self.count = self.count - 1;
        let data = if self.count == 0 {
            0x00FF_FFFF
        } else {
            self.write_addr = self.write_addr - 4;
            self.write_addr
        };
        DmaWord { data, cycles: 1 }
    }
}

/// The enable bit and priority of channel `n` in the control register.
pub open spec fn chan_field(control: u32, n: int) -> u32 {
    control >> ((n * 4) as u32)
}

/// Channel `n` takes part in arbitration: enabled in the control register and busy.
pub open spec fn eligible(control: u32, chans: Seq<DMAChannel>, n: int) -> bool {
    chan_field(control, n) & 0x8 == 0x8 && chans[n].control & CH_START_BUSY != 0
}

/// The priority of a candidate (lower wins); no candidate has priority 8.
pub open spec fn prio_of(control: u32, c: Option<int>) -> u32 {
    match c {
        Some(n) => chan_field(control, n) & 0x7,
        None => 8,
    }
}

/// The channel chosen among channels `k..=6`, scanning from 6 down to `k`:
/// a channel replaces the current choice only with a strictly lower priority value.
pub open spec fn chosen_from(control: u32, chans: Seq<DMAChannel>, k: int) -> Option<int>
    decreases 7 - k,
{
    if k >= 7 || k < 0 {
        None
    } else {
        let prev = chosen_from(control, chans, k + 1);
        if eligible(control, chans, k) && chan_field(control, k) & 0x7 < prio_of(control, prev) {
            Some(k)
        } else {
            prev
        }
    }
}

/// A chosen channel is eligible, and no eligible channel has a lower priority value.
pub proof fn lemma_chosen_is_best(control: u32, chans: Seq<DMAChannel>, k: int, n: int)
    requires
        0 <= k <= 7,
        k <= n < 7,
    ensures
        chosen_from(control, chans, k) matches Some(c) ==> k <= c < 7 && eligible(control, chans, c),
        eligible(control, chans, n) ==> prio_of(control, chosen_from(control, chans, k)) <= chan_field(control, n) & 0x7,
    decreases 7 - k,
{
    if k < 7 {
        if n > k {
            lemma_chosen_is_best(control, chans, k + 1, n);
        } else if k + 1 < 7 {
            lemma_chosen_is_best(control, chans, k + 1, k + 1);
        }
        lemma_masked_fields(chan_field(control, n));
    }
}

/// No channel is chosen exactly when no channel is eligible (enabled and busy).
pub proof fn lemma_chosen_none_iff(control: u32, chans: Seq<DMAChannel>, k: int)
    requires
        0 <= k <= 7,
    ensures
        chosen_from(control, chans, k) is None <==> forall|n: int| k <= n < 7 ==> !#[trigger] eligible(control, chans, n),
    decreases 7 - k,
{
    if k < 7 {
        lemma_chosen_none_iff(control, chans, k + 1);
        lemma_masked_fields(chan_field(control, k));
    }
}

/// The interrupt request bit (bit 31 of the interrupt register) rises.
pub open spec fn irq_req_rose(before: u32, after: u32) -> bool {
    before & DICR_IRQ_REQ == 0 && after & DICR_IRQ_REQ != 0
}

/// A write of the interrupt register raises an interrupt exactly when the
/// request bit rises.
pub proof fn lemma_written_raises_iff_rose(interrupt: u32, data: u32)
    ensures
        written_interrupt(interrupt, data).1 == irq_req_rose(interrupt, written_interrupt(interrupt, data).0),
{
    lemma_irq_req_bits(interrupt, data, 0);
}

/// A completed transfer raises an interrupt exactly when the request bit rises.
pub proof fn lemma_completed_raises_iff_rose(interrupt: u32, channel: u32)
    requires
        channel < 7,
    ensures
        completed_interrupt(interrupt, channel as int).1 == irq_req_rose(interrupt, completed_interrupt(interrupt, channel as int).0),
{
    lemma_irq_req_bits(interrupt, 0, channel);
}

/// Where the request bit of the interrupt register can change.
proof fn lemma_irq_req_bits(interrupt: u32, data: u32, channel: u32)
    by (bit_vector)
    requires
        channel < 7,
    ensures
        ((((data & DICR_BITS) & DICR_WRITABLE) | (interrupt & DICR_IRQ_FLAGS)) & !((data & DICR_BITS) & DICR_IRQ_FLAGS))
            & DICR_IRQ_REQ == 0,
        (interrupt | (1u32 << (channel + 24))) & DICR_IRQ_REQ == interrupt & DICR_IRQ_REQ,
        forall|x: u32| #[trigger] (x | DICR_IRQ_REQ) & DICR_IRQ_REQ != 0,
{
}

/// An event that bears on the DMA interrupt: a write of the interrupt
/// register, a channel's transfer completing, or a check for the interrupt.
pub enum DicrEvent {
    Write(u32),
    Complete(u32),
    Check,
}

/// The interrupt register and the pending flag after `events`, from the
/// register `interrupt` with nothing pending (as at power on or just after
/// a check).
pub open spec fn dicr_run(interrupt: u32, events: Seq<DicrEvent>) -> (u32, bool)
    decreases events.len(),
{
    if events.len() == 0 {
        (interrupt, false)
    } else {
        let (i, pending) = dicr_run(interrupt, events.drop_last());
        match events.last() {
            DicrEvent::Write(d) => (written_interrupt(i, d).0, pending || written_interrupt(i, d).1),
            DicrEvent::Complete(c) => (completed_interrupt(i, c as int).0, pending || completed_interrupt(i, c as int).1),
            DicrEvent::Check => (i, false),
        }
    }
}

/// Event `k` of `events` raised the request bit.
pub open spec fn rose_at(interrupt: u32, events: Seq<DicrEvent>, k: int) -> bool {
    &&& 0 <= k < events.len()
    &&& !(events[k] is Check)
    &&& irq_req_rose(dicr_run(interrupt, events.take(k)).0, dicr_run(interrupt, events.take(k + 1)).0)
}

/// The request bit rose at event `k`, and no check came after it.
pub open spec fn unreported_rise(interrupt: u32, events: Seq<DicrEvent>, k: int) -> bool {
    &&& rose_at(interrupt, events, k)
    &&& forall|j: int| k < j < events.len() ==> !(#[trigger] events[j] is Check)
}

/// A check reports the DMA interrupt exactly when the request bit (bit 31
/// of the interrupt register) rose, by a write or a completed transfer,
/// since the previous check; so a check right after another reports
/// nothing.
pub proof fn lemma_check_reports_rises(interrupt: u32, events: Seq<DicrEvent>)
    requires
        forall|i: int| 0 <= i < events.len() ==> (#[trigger] events[i] matches DicrEvent::Complete(c) ==> c < 7),
    ensures
        dicr_run(interrupt, events).1 <==> exists|k: int| #[trigger] unreported_rise(interrupt, events, k),
    decreases events.len(),
{
    if events.len() > 0 {
        let prefix = events.drop_last();
        let n = events.len() - 1;
        assert forall|i: int| 0 <= i < prefix.len() implies (#[trigger] prefix[i] matches DicrEvent::Complete(c) ==> c < 7) by {
            assert(prefix[i] == events[i]);
        }
        lemma_check_reports_rises(interrupt, prefix);
        assert(events.take(n) =~= prefix);
        assert(events.take(n + 1) =~= events);
        assert forall|k: int| #![trigger events.take(k)] 0 <= k <= n implies events.take(k) == prefix.take(k) by {
            assert(events.take(k) =~= prefix.take(k));
        }
        let (i, pending) = dicr_run(interrupt, prefix);
        match events.last() {
            DicrEvent::Write(d) => {
                lemma_written_raises_iff_rose(i, d);
            },
            DicrEvent::Complete(c) => {
                assert(events[n] matches DicrEvent::Complete(c) ==> c < 7);
                lemma_completed_raises_iff_rose(i, c);
            },
            DicrEvent::Check => {},
        }
        if events[n] is Check {
            assert forall|k: int| !#[trigger] unreported_rise(interrupt, events, k) by {
                if 0 <= k < n {
                    assert(events[n] is Check);
                }
            }
        } else {
            assert forall|k: int| #![trigger unreported_rise(interrupt, events, k)] #![trigger unreported_rise(interrupt, prefix, k)]
                0 <= k < n implies (unreported_rise(interrupt, events, k) <==> unreported_rise(interrupt, prefix, k)) by {
                assert(events[k] == prefix[k]);
                assert(events.take(k) == prefix.take(k));
                assert(events.take(k + 1) == prefix.take(k + 1));
                assert forall|j: int| k < j < n implies events[j] == prefix[j] by {}
            }
            if dicr_run(interrupt, events).1 {
                if !pending {
                    assert(unreported_rise(interrupt, events, n));
                }
            }
        }
    }
}

/// Clearing some bits leaves a disjoint bit as it was.
proof fn lemma_clear_keeps(x: u32, clear: u32, bit: u32)
    by (bit_vector)
    requires
        clear & bit == 0,
    ensures
        ((x & !clear) & bit != 0) == (x & bit != 0),
{
}

/// The start trigger of a channel's control word is a bit of its own.
proof fn lemma_trigger_bit_disjoint()
    by (bit_vector)
    ensures
        CH_START_TRIGGER & CH_TRANSFER_DIR == 0,
        CH_START_TRIGGER & CH_DEC_ADDR == 0,
{
}

/// Direct memory access controller.
pub struct DMA {
    channels: [DMAChannel; 7],
    control: u32,
    interrupt: u32,
    irq_pending: bool,
    table_generator: OrderingTableGen,
}

/// DMA interrupt register after a channel's transfer completes, and whether a
/// new interrupt request was raised.
pub open spec fn completed_interrupt(interrupt: u32, channel: int) -> (u32, bool) {
    let mask_bit = (1u32 << ((channel + 16) as u32)) as u32;
    if interrupt & mask_bit == mask_bit {
        let i1 = interrupt | ((1u32 << ((channel + 24) as u32)) as u32);
        if i1 & DICR_ENABLE_IRQ != 0 && i1 & DICR_IRQ_REQ == 0 {
            (i1 | DICR_IRQ_REQ, true)
        } else {
            (i1, false)
        }
    } else {
        (interrupt, false)
    }
}

/// DMA interrupt register after a write of `data`, and whether a new
/// interrupt request was raised.
pub open spec fn written_interrupt(interrupt: u32, data: u32) -> (u32, bool) {
    let input = data & DICR_BITS;
    let i1 = ((input & DICR_WRITABLE) | (interrupt & DICR_IRQ_FLAGS)) & !(input & DICR_IRQ_FLAGS);
    if i1 & DICR_FORCE_IRQ != 0 || (i1 & DICR_ENABLE_IRQ != 0 && i1 & DICR_IRQ_FLAGS != 0) {
        (i1 | DICR_IRQ_REQ, interrupt & DICR_IRQ_REQ == 0)
    } else {
        (i1, false)
    }
}

impl DMA {
    /// The seven channels.
    pub closed spec fn chans(&self) -> Seq<DMAChannel> {
        self.channels@
    }

    /// The control (priority) register.
    pub closed spec fn control_reg(&self) -> u32 {
        self.control
    }

    /// The interrupt register.
    pub closed spec fn interrupt_reg(&self) -> u32 {
        self.interrupt
    }

    /// Whether an interrupt has been raised and not yet collected.
    pub closed spec fn pending(&self) -> bool {
        self.irq_pending
    }

    /// The ordering table generator.
    pub closed spec fn table_gen(&self) -> OrderingTableGen {
        self.table_generator
    }

    pub proof fn lemma_len(&self)
        ensures
            self.chans().len() == 7,
    {
    }

    pub fn new() -> (r: Self)
        ensures
            forall|i: int| 0 <= i < 7 ==> #[trigger] r.chans()[i] == (DMAChannel {
                base_addr: 0, block_control: 0, control: 0, current_addr: 0, current_word_count: 0, current_block_count: 0 }),
            r.control_reg() == 0,
            r.interrupt_reg() == 0,
            !r.pending(),
            r.table_gen().write_addr == 0 && r.table_gen().count == 0,
    {
        Self {
            channels: [DMAChannel::new(), DMAChannel::new(), DMAChannel::new(), DMAChannel::new(), DMAChannel::new(),
                DMAChannel::new(), DMAChannel::new()],
            control: 0,
            interrupt: 0,
            irq_pending: false,
            table_generator: OrderingTableGen::new(),
        }
    }

    /// Check if an IRQ is pending.
    ///
    /// This will reset the pending value to false.
    pub fn check_irq(&mut self) -> (r: u32)
        ensures
            r == (if old(self).pending() { IRQ_DMA } else { 0 }),
            !final(self).pending(),
            final(self).chans() == old(self).chans(),
            final(self).control_reg() == old(self).control_reg(),
            final(self).interrupt_reg() == old(self).interrupt_reg(),
            final(self).table_gen() == old(self).table_gen(),
    {
        let pending = self.irq_pending;
        self.irq_pending = false;
        if pending { IRQ_DMA } else { 0 }
    }

    fn start_channel(&mut self, n: usize, mode: u32)
        requires
            n < 7,
        ensures
            final(self).chans() == old(self).chans().update(n as int, started(old(self).chans()[n as int], mode)),
            final(self).control_reg() == old(self).control_reg(),
            final(self).interrupt_reg() == old(self).interrupt_reg(),
            final(self).pending() == old(self).pending(),
            final(self).table_gen() == old(self).table_gen(),
    {
        let mut ch = self.channels[n];
        ch.start_sync_mode(mode);
        self.channels[n] = ch;
        assert(self.chans() =~= old(self).chans().update(n as int, started(old(self).chans()[n as int], mode)));
    }

    /// The motion decoder requests data in and out (channels 0 and 1, sync mode 1).
    pub fn mdec_req(&mut self)
        ensures
            final(self).chans() == old(self).chans().update(0, started(old(self).chans()[0], 1))
                .update(1, started(old(self).chans()[1], 1)),
            final(self).control_reg() == old(self).control_reg(),
            final(self).interrupt_reg() == old(self).interrupt_reg(),
            final(self).pending() == old(self).pending(),
            final(self).table_gen() == old(self).table_gen(),
    {
        self.start_channel(0, 1);
        self.start_channel(1, 1);
    }

    /// The sound unit requests a transfer (channel 4, sync mode 1).
    pub fn spu_req(&mut self)
        ensures
            final(self).chans() == old(self).chans().update(4, started(old(self).chans()[4], 1)),
            final(self).control_reg() == old(self).control_reg(),
            final(self).interrupt_reg() == old(self).interrupt_reg(),
            final(self).pending() == old(self).pending(),
            final(self).table_gen() == old(self).table_gen(),
    {
        self.start_channel(4, 1);
    }

    /// The GPU requests data (channel 2, sync mode 1).
    pub fn gpu_data_req(&mut self)
        ensures
            final(self).chans() == old(self).chans().update(2, started(old(self).chans()[2], 1)),
            final(self).control_reg() == old(self).control_reg(),
            final(self).interrupt_reg() == old(self).interrupt_reg(),
            final(self).pending() == old(self).pending(),
            final(self).table_gen() == old(self).table_gen(),
    {
        self.start_channel(2, 1);
    }

    /// The GPU requests a command list (channel 2, sync mode 2).
    pub fn gpu_command_req(&mut self)
        ensures
            final(self).chans() == old(self).chans().update(2, started(old(self).chans()[2], 2)),
            final(self).control_reg() == old(self).control_reg(),
            final(self).interrupt_reg() == old(self).interrupt_reg(),
            final(self).pending() == old(self).pending(),
            final(self).table_gen() == old(self).table_gen(),
    {
        self.start_channel(2, 2);
    }

    /// Mutable access to the ordering table generator.
    pub fn mut_table_gen(&mut self) -> (r: &mut OrderingTableGen)
        ensures
            *r == old(self).table_gen(),
            final(self).table_gen() == *final(r),
            final(self).chans() == old(self).chans(),
            final(self).control_reg() == old(self).control_reg(),
            final(self).interrupt_reg() == old(self).interrupt_reg(),
            final(self).pending() == old(self).pending(),
    {
        &mut self.table_generator
    }

    /// Choose the active channel and carry out one word of its transfer.
    ///
    /// If None, then no transfers are necessary.
    pub fn get_transfer(&mut self) -> (r: Option<DMATransfer>)
        ensures
            chosen_from(old(self).control_reg(), old(self).chans(), 0) is None ==> r is None && *final(self) == *old(self),
            chosen_from(old(self).control_reg(), old(self).chans(), 0) matches Some(c) ==> {
                let ch = old(self).chans()[c];
                let ctl = ch.control & !CH_START_TRIGGER;
                let addr = if ch.control & CH_DEC_ADDR != 0 { wrap_sub4(ch.current_addr) } else { wrap_add4(ch.current_addr) };
                let words = wrap_dec(ch.current_word_count);
                let block_done = words == 0;
                let all_done = block_done && ch.current_block_count == 0;
                let new_ch = DMAChannel {
                    control: if all_done { ctl & !CH_START_BUSY } else { ctl },
                    current_addr: addr,
                    current_word_count: words,
                    current_block_count: if block_done && !all_done { (ch.current_block_count - 1) as u32 } else { ch.current_block_count },
                    ..ch
                };
                let (intr, raised) = if all_done { completed_interrupt(old(self).interrupt_reg(), c) } else { (old(self).interrupt_reg(), false) };
                &&& r matches Some(t) && t.addr == ch.current_addr && t.device == c
                    && t.from_ram == (ch.control & CH_TRANSFER_DIR != 0)
                &&& final(self).chans() == old(self).chans().update(c, new_ch)
                &&& final(self).interrupt_reg() == intr
                &&& final(self).pending() == (old(self).pending() || raised)
                &&& final(self).control_reg() == old(self).control_reg()
                &&& final(self).table_gen() == old(self).table_gen()
            },
    {
        let ghost chans = self.chans();
        // Get active DMA channel.
        let mut current: Option<usize> = None;
        let mut current_prio: u32 = 8;
        let mut n: usize = 7;
        while n > 0
            invariant
                n <= 7,
                chans == self.chans(),
                chans.len() == 7,
                current_prio == prio_of(self.control, match current { Some(c) => Some(c as int), None => None }),
                (match current { Some(c) => Some(c as int), None => None }) == chosen_from(self.control, chans, n as int),
            decreases n,
        {
            n = n - 1;
            let channel = self.control >> ((n * 4) as u32);
            let active = channel & 0x8 == 0x8;
            let prio = channel & 0x7;
            if active && prio < current_prio && self.channels[n].control & CH_START_BUSY != 0 {
                current_prio = prio;
                current = Some(n);
            }
            assert(chan_field(self.control, n as int) == channel);
        }
        proof {
            lemma_chosen_is_best(self.control, chans, 0, 0);
            lemma_trigger_bit_disjoint();
        }
        match current {
            Some(chan_idx) => {
                let mut channel = self.channels[chan_idx];
                channel.control = channel.control & !CH_START_TRIGGER;
                let transfer = Some(DMATransfer {
                    addr: channel.current_addr,
                    from_ram: channel.control & CH_TRANSFER_DIR != 0,
                    device: chan_idx,
                });
                proof {
                    lemma_clear_keeps(chans[chan_idx as int].control, CH_START_TRIGGER, CH_TRANSFER_DIR);
                    lemma_clear_keeps(chans[chan_idx as int].control, CH_START_TRIGGER, CH_DEC_ADDR);
                }
                if channel.control & CH_DEC_ADDR != 0 {
                    channel.current_addr = channel.current_addr.wrapping_sub(4);
                } else {
                    channel.current_addr = channel.current_addr.wrapping_add(4);
                }
                let mut complete = false;
                if channel.dec_word_count() {
                    if channel.finish_block() {
                        complete = true;
                    }
                }
                self.channels[chan_idx] = channel;
                if complete {
                    self.transfer_complete(chan_idx);
                }
                transfer
            },
            None => None,
        }
    }

    fn set_control(&mut self, data: u32)
        ensures
            final(self).control_reg() == data & DMA_CONTROL_BITS,
            final(self).chans() == old(self).chans(),
            final(self).interrupt_reg() == old(self).interrupt_reg(),
            final(self).pending() == old(self).pending(),
            final(self).table_gen() == old(self).table_gen(),
    {
        self.control = data & DMA_CONTROL_BITS;
    }

    fn set_interrupt(&mut self, data: u32)
        ensures
            final(self).interrupt_reg() == written_interrupt(old(self).interrupt_reg(), data).0,
            final(self).pending() == (old(self).pending() || written_interrupt(old(self).interrupt_reg(), data).1),
            final(self).chans() == old(self).chans(),
            final(self).control_reg() == old(self).control_reg(),
            final(self).table_gen() == old(self).table_gen(),
    {
        let input = data & DICR_BITS;
        let irq = self.interrupt & DICR_IRQ_REQ != 0;
        let flags = self.interrupt & DICR_IRQ_FLAGS;
        self.interrupt = input & DICR_WRITABLE;
        self.interrupt = self.interrupt | flags;
        self.interrupt = self.interrupt & !(input & DICR_IRQ_FLAGS); // Acknowledge IRQs.
        if self.interrupt & DICR_FORCE_IRQ != 0
            || (self.interrupt & DICR_ENABLE_IRQ != 0 && self.interrupt & DICR_IRQ_FLAGS != 0) {
            self.interrupt = self.interrupt | DICR_IRQ_REQ;
            if !irq {
                // Mark pending IRQ if request bit changes 0 => 1.
                self.irq_pending = true;
            }
        }
    }

    /// Set IRQ bit and trigger IRQ if necessary.
    fn transfer_complete(&mut self, channel: usize)
        requires
            channel < 7,
        ensures
            final(self).interrupt_reg() == completed_interrupt(old(self).interrupt_reg(), channel as int).0,
            final(self).pending() == (old(self).pending() || completed_interrupt(old(self).interrupt_reg(), channel as int).1),
            final(self).chans() == old(self).chans(),
            final(self).control_reg() == old(self).control_reg(),
            final(self).table_gen() == old(self).table_gen(),
    {
        let mask_bit: u32 = 1u32 << ((channel + 16) as u32);
        if self.interrupt & mask_bit == mask_bit {
            let irq_bit: u32 = 1u32 << ((channel + 24) as u32);
            self.interrupt = self.interrupt | irq_bit;
            if self.interrupt & DICR_ENABLE_IRQ != 0 {
                // Mark pending IRQ if request bit changes 0 => 1.
                if self.interrupt & DICR_IRQ_REQ == 0 {
                    self.interrupt = self.interrupt | DICR_IRQ_REQ;
                    self.irq_pending = true;
                }
            }
        }
    }
}

/// The channel whose registers live at `addr`, if any (0x1F801080 + 16 n).
pub open spec fn channel_of(addr: u32) -> int {
    ((addr - 0x1F80_1080) / 16) as int
}

/// The register addresses of the DMA controller.
pub open spec fn is_dma_reg(addr: u32) -> bool {
    (0x1F80_1080 <= addr < 0x1F80_10F0 && (addr - 0x1F80_1080) % 16 < 12 && addr % 4 == 0)
        || addr == DPCR_ADDR || addr == DICR_ADDR
}

impl MemInterface for DMA {
    open spec fn readable(addr: u32, width: u32) -> bool {
        word_access(addr & 0xFFFF_FFFC, addr, width) && is_dma_reg(addr & 0xFFFF_FFFC)
    }

    open spec fn writable(addr: u32, width: u32) -> bool {
        Self::readable(addr, width)
    }

    open spec fn word_read(before: DMA, after: DMA, addr: u32, r: u32) -> bool {
        &&& (addr == DPCR_ADDR ==> r == before.control_reg())
        &&& (addr == DICR_ADDR ==> r == before.interrupt_reg())
        &&& (addr < DPCR_ADDR ==> {
                let ch = before.chans()[channel_of(addr)];
                let reg = (addr - 0x1F80_1080) % 16;
                &&& reg == 0 ==> r == ch.base_addr
                &&& reg == 4 ==> r == ch.block_control
                &&& reg == 8 ==> r == ch.control
            })
        &&& after == before
    }

    open spec fn word_written(before: DMA, after: DMA, addr: u32, data: u32) -> bool {
        &&& (addr == DPCR_ADDR ==> after.control_reg() == data & DMA_CONTROL_BITS
                && after.chans() == before.chans() && after.interrupt_reg() == before.interrupt_reg()
                && after.pending() == before.pending() && after.table_gen() == before.table_gen())
        &&& (addr == DICR_ADDR ==> after.interrupt_reg() == written_interrupt(before.interrupt_reg(), data).0
                && after.pending() == (before.pending() || written_interrupt(before.interrupt_reg(), data).1)
                && after.chans() == before.chans() && after.control_reg() == before.control_reg()
                && after.table_gen() == before.table_gen())
        &&& (addr < DPCR_ADDR ==> {
                let n = channel_of(addr);
                let ch = before.chans()[n];
                let reg = (addr - 0x1F80_1080) % 16;
                let new_ch = if reg == 0 {
                    DMAChannel { base_addr: data & 0x00FF_FFFF, ..ch }
                } else if reg == 4 {
                    DMAChannel { block_control: data, ..ch }
                } else {
                    with_control(ch, data)
                };
                &&& after.chans() == before.chans().update(n, new_ch)
                &&& after.control_reg() == before.control_reg()
                &&& after.interrupt_reg() == before.interrupt_reg()
                &&& after.pending() == before.pending()
                &&& after.table_gen() == if n == 6 && reg == 8 && new_ch.control & CH_START_TRIGGER != 0 {
                    OrderingTableGen { write_addr: new_ch.base_addr, count: new_ch.current_word_count }
                } else {
                    before.table_gen()
                }
            })
    }

    proof fn lemma_read_byte(addr: u32) {
        lemma_word_access_aligned(addr);
    }

    proof fn lemma_write_byte(addr: u32) {
        lemma_word_access_aligned(addr);
    }

    proof fn lemma_read_halfword(addr: u32) {
        lemma_word_access_aligned(addr);
    }

    proof fn lemma_write_halfword(addr: u32) {
        lemma_word_access_aligned(addr);
    }

    fn read_word(&mut self, addr: u32) -> (r: u32)
        ensures
            addr == DPCR_ADDR ==> r == old(self).control_reg(),
            addr == DICR_ADDR ==> r == old(self).interrupt_reg(),
            addr < DPCR_ADDR ==> {
                let ch = old(self).chans()[channel_of(addr)];
                let reg = (addr - 0x1F80_1080) % 16;
                &&& reg == 0 ==> r == ch.base_addr
                &&& reg == 4 ==> r == ch.block_control
                &&& reg == 8 ==> r == ch.control
            },
            *final(self) == *old(self),
    {
        if addr == DPCR_ADDR {
            self.control
        } else if addr == DICR_ADDR {
            self.interrupt
        } else {
            let n = ((addr - 0x1F80_1080) / 16) as usize;
            let reg = (addr - 0x1F80_1080) % 16;
            let ch = self.channels[n];
            if reg == 0 {
                ch.base_addr
            } else if reg == 4 {
                ch.block_control
            } else {
                ch.control
            }
        }
    }

    fn write_word(&mut self, addr: u32, data: u32)
        ensures
            addr == DPCR_ADDR ==> final(self).control_reg() == data & DMA_CONTROL_BITS
                && final(self).chans() == old(self).chans() && final(self).interrupt_reg() == old(self).interrupt_reg()
                && final(self).pending() == old(self).pending() && final(self).table_gen() == old(self).table_gen(),
            addr == DICR_ADDR ==> final(self).interrupt_reg() == written_interrupt(old(self).interrupt_reg(), data).0
                && final(self).pending() == (old(self).pending() || written_interrupt(old(self).interrupt_reg(), data).1)
                && final(self).chans() == old(self).chans() && final(self).control_reg() == old(self).control_reg()
                && final(self).table_gen() == old(self).table_gen(),
            addr < DPCR_ADDR ==> {
                let n = channel_of(addr);
                let ch = old(self).chans()[n];
                let reg = (addr - 0x1F80_1080) % 16;
                let new_ch = if reg == 0 {
                    DMAChannel { base_addr: data & 0x00FF_FFFF, ..ch }
                } else if reg == 4 {
                    DMAChannel { block_control: data, ..ch }
                } else {
                    with_control(ch, data)
                };
                &&& final(self).chans() == old(self).chans().update(n, new_ch)
                &&& final(self).control_reg() == old(self).control_reg()
                &&& final(self).interrupt_reg() == old(self).interrupt_reg()
                &&& final(self).pending() == old(self).pending()
                &&& final(self).table_gen() == if n == 6 && reg == 8 && new_ch.control & CH_START_TRIGGER != 0 {
                    OrderingTableGen { write_addr: new_ch.base_addr, count: new_ch.current_word_count }
                } else {
                    old(self).table_gen()
                }
            },
    {
        if addr == DPCR_ADDR {
            self.set_control(data)
        } else if addr == DICR_ADDR {
            self.set_interrupt(data)
        } else {
            let n = ((addr - 0x1F80_1080) / 16) as usize;
            let reg = (addr - 0x1F80_1080) % 16;
            let mut ch = self.channels[n];
            if reg == 0 {
                ch.set_addr(data);
            } else if reg == 4 {
                ch.block_control = data;
            } else {
                ch.set_control(data);
            }
            self.channels[n] = ch;
            if n == 6 && reg == 8 && ch.control & CH_START_TRIGGER != 0 {
                self.table_generator.init(ch.base_addr, ch.current_word_count);
            }
            assert(self.chans() =~= old(self).chans().update(n as int, ch));
        }
    }
}

} // verus!
