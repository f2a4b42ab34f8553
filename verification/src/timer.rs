use vstd::prelude::*;
use crate::gpu::videostate::GPUClockRes;
use crate::interrupt::{IRQ_TIMER0, IRQ_TIMER1, IRQ_TIMER2};
use crate::utils::interface::{MemInterface, lemma_word_access_aligned};

verus! {

// Timer mode register bits.
pub const TM_REACHED_MAX: u16 = 0x1000;
pub const TM_REACHED_TARGET: u16 = 0x0800;
pub const TM_IRQ: u16 = 0x0400;
pub const TM_CLOCK_SRC: u16 = 0x0300;
pub const TM_TOGGLE_IRQ: u16 = 0x0080;
pub const TM_REPEAT_IRQ: u16 = 0x0040;
pub const TM_MAX_IRQ: u16 = 0x0020;
pub const TM_TARGET_IRQ: u16 = 0x0010;
pub const TM_RESET: u16 = 0x0008;
pub const TM_SYNC_MODE: u16 = 0x0006;
pub const TM_SYNC_ENABLE: u16 = 0x0001;
/// The bits software can write.
pub const TM_WRITABLE: u16 = 0x03FF;
/// All defined bits.
pub const TM_BITS: u16 = 0x1FFF;

/// A single timer.
#[derive(Clone, Copy)]
pub struct Timer {
    pub counter: u16,
    pub mode: u16,
    pub target: u16,
    pub irq_latch: bool,
    pub pulse_latch: bool,
    pub in_blank: bool,
    pub pause: bool,
    pub blank_timer: bool,
}

/// The synchronisation mode field (0..=3).
pub open spec fn sync_mode(mode: u16) -> u16 {
    (mode & TM_SYNC_MODE) >> 1
}

/// The timer after its interrupt condition is met: in repeat mode the IRQ
/// bit toggles or pulses low; in one-shot mode this happens only once.
#[verifier::opaque]
pub open spec fn triggered(t: Timer) -> Timer {
    if t.mode & TM_REPEAT_IRQ != 0 {
        if t.mode & TM_TOGGLE_IRQ != 0 {
            Timer { mode: t.mode ^ TM_IRQ, ..t }
        } else {
            Timer { mode: t.mode & !TM_IRQ, pulse_latch: true, ..t }
        }
    } else if !t.irq_latch {
        if t.mode & TM_TOGGLE_IRQ != 0 {
            Timer { mode: t.mode ^ TM_IRQ, irq_latch: true, ..t }
        } else {
            Timer { mode: t.mode & !TM_IRQ, irq_latch: true, ..t }
        }
    } else {
        t
    }
}

/// The timer after its counter reached `n` ticks and the 0xFFFF limit was checked.
#[verifier::opaque]
pub open spec fn after_max(t1: Timer, n: int) -> Timer {
    if n >= 0xFFFF {
        let ta = if t1.mode & TM_MAX_IRQ != 0 { triggered(t1) } else { t1 };
        if ta.mode & TM_RESET == 0 { Timer { counter: (n - 0xFFFF) as u16, ..ta } } else { ta }
    } else {
        t1
    }
}

/// The timer after its counter reached `n` ticks and the target was checked.
#[verifier::opaque]
pub open spec fn after_target(t2: Timer, n: int) -> Timer {
    if n >= t2.target {
        let tb = if t2.mode & TM_TARGET_IRQ != 0 { triggered(t2) } else { t2 };
        if tb.mode & TM_RESET != 0 { Timer { counter: (n - tb.target) as u16, ..tb } } else { tb }
    } else {
        t2
    }
}

/// The timer after counting `cycles` ticks, and whether its IRQ line fell
/// (the interrupt is signalled on the falling edge).
#[verifier::opaque]
pub open spec fn clocked(t: Timer, cycles: int) -> (Timer, bool) {
    let t0 = if t.pulse_latch { Timer { mode: t.mode | TM_IRQ, pulse_latch: false, ..t } } else { t };
    if t0.pause {
        (t0, false)
    } else {
        let n = t0.counter + cycles;
        let t3 = after_target(after_max(Timer { counter: n as u16, ..t0 }, n), n);
        (t3, t0.mode & TM_IRQ != 0 && t3.mode & TM_IRQ == 0)
    }
}

/// The timer after a write to its mode register.
pub open spec fn mode_written(t: Timer, data: u16) -> Timer {
    let w = data & TM_BITS;
    let mode = ((t.mode & !TM_WRITABLE) | (w & TM_WRITABLE)) | TM_IRQ;
    let sm = sync_mode(mode);
    let pause = if w & TM_SYNC_ENABLE != 0 {
        if t.blank_timer {
            if sm == 0 { t.in_blank } else if sm == 1 { false } else if sm == 2 { !t.in_blank } else { true }
        } else {
            sm == 0 || sm == 3
        }
    } else {
        false
    };
    Timer {
        mode,
        irq_latch: if w & TM_IRQ != 0 { false } else { t.irq_latch },
        pause,
        counter: 0,
        ..t
    }
}

/// The timer when a blanking period begins.
pub open spec fn blank_began(t: Timer) -> Timer {
    let t1 = Timer { in_blank: true, ..t };
    if t.mode & TM_SYNC_ENABLE != 0 {
        let sm = sync_mode(t.mode);
        if sm == 0 {
            Timer { pause: true, ..t1 }
        } else if sm == 1 {
            Timer { counter: 0, ..t1 }
        } else if sm == 2 {
            Timer { counter: 0, pause: false, ..t1 }
        } else {
            Timer { pause: false, ..t1 }
        }
    } else {
        t1
    }
}

/// The timer when a blanking period ends.
pub open spec fn blank_ended(t: Timer) -> Timer {
    let t1 = Timer { in_blank: false, ..t };
    if t.mode & TM_SYNC_ENABLE != 0 {
        let sm = sync_mode(t.mode);
        if sm == 0 {
            Timer { pause: false, ..t1 }
        } else if sm == 2 {
            Timer { pause: true, ..t1 }
        } else {
            t1
        }
    } else {
        t1
    }
}

/// Whether the timer counts system clock cycles (rather than its alternative source).
pub open spec fn uses_sys_clock(t: Timer) -> bool {
    let src = (t.mode & TM_CLOCK_SRC) >> 8;
    if t.blank_timer { src & 1 == 0 } else { src & 2 == 0 }
}

impl Timer {
    pub fn new(blank_timer: bool) -> (r: Self)
        ensures
            r == (Timer { counter: 0, mode: TM_IRQ, target: 0, irq_latch: false, pulse_latch: false, in_blank: false,
                pause: false, blank_timer }),
    {
        Self { counter: 0, mode: TM_IRQ, target: 0, irq_latch: false, pulse_latch: false, in_blank: false, pause: false, blank_timer }
    }

    fn write_mode(&mut self, mode: u16)
        ensures
            *final(self) == mode_written(*old(self), mode),
    {
        let mode_write = mode & TM_BITS;
        self.mode = self.mode & !TM_WRITABLE;
        self.mode = self.mode | (mode_write & TM_WRITABLE);
        if mode_write & TM_IRQ != 0 {
            self.irq_latch = false;
        }
        self.mode = self.mode | TM_IRQ;
        if mode_write & TM_SYNC_ENABLE != 0 {
            let sm = (self.mode & TM_SYNC_MODE) >> 1;
            if self.blank_timer {
                if sm == 0 {
                    self.pause = self.in_blank;
                } else if sm == 1 {
                    self.pause = false;
                } else if sm == 2 {
                    self.pause = !self.in_blank;
                } else {
                    self.pause = true;
                }
            } else {
                self.pause = sm == 0 || sm == 3;
            }
        } else {
            self.pause = false;
        }
        self.counter = 0;
    }

    fn read_mode(&mut self) -> (r: u16)
        ensures
            r == old(self).mode,
            *final(self) == (Timer { mode: old(self).mode & !(TM_REACHED_MAX | TM_REACHED_TARGET), ..*old(self) }),
    {
        let mode = self.mode;
        self.mode = self.mode & !(TM_REACHED_MAX | TM_REACHED_TARGET);
        mode
    }

    fn blank_begin(&mut self)
        ensures
            *final(self) == blank_began(*old(self)),
    {
        self.in_blank = true;
        if self.mode & TM_SYNC_ENABLE != 0 {
            let sm = (self.mode & TM_SYNC_MODE) >> 1;
            if sm == 0 {
                self.pause = true;
            } else if sm == 1 {
                self.counter = 0;
            } else if sm == 2 {
                self.counter = 0;
                self.pause = false;
            } else {
                self.pause = false;
            }
        }
    }

    fn blank_end(&mut self)
        ensures
            *final(self) == blank_ended(*old(self)),
    {
        self.in_blank = false;
        if self.mode & TM_SYNC_ENABLE != 0 {
            let sm = (self.mode & TM_SYNC_MODE) >> 1;
            if sm == 0 {
                self.pause = false;
            } else if sm == 2 {
                self.pause = true;
            }
        }
    }

    fn use_sys_clock(&self) -> (r: bool)
        ensures
            r == uses_sys_clock(*self),
    {
        let src = (self.mode & TM_CLOCK_SRC) >> 8;
        if self.blank_timer {
            src & 1 == 0
        } else {
            src & 2 == 0
        }
    }

    fn clock(&mut self, cycles: usize) -> (r: bool)
        requires
            cycles <= usize::MAX - 0x10000,
        ensures
            (*final(self), r) == clocked(*old(self), cycles as int),
    {
        reveal(clocked);
        if self.pulse_latch {
            self.mode = self.mode | TM_IRQ;
            self.pulse_latch = false;
        }
        if self.pause {
            return false;
        }
        let prev_irq_req = self.mode & TM_IRQ != 0;
        let new_counter = (self.counter as usize) + cycles;
        self.counter = new_counter as u16;
        self.check_max(new_counter);
        self.check_target(new_counter);
        prev_irq_req && self.mode & TM_IRQ == 0
    }

    fn check_max(&mut self, new_counter: usize)
        ensures
            *final(self) == after_max(*old(self), new_counter as int),
    {
        reveal(after_max);
        if new_counter >= 0xFFFF {
            if self.mode & TM_MAX_IRQ != 0 {
                self.trigger_interrupt();
            }
            if self.mode & TM_RESET == 0 {
                self.counter = (new_counter - 0xFFFF) as u16;
            }
        }
    }

    fn check_target(&mut self, new_counter: usize)
        ensures
            *final(self) == after_target(*old(self), new_counter as int),
    {
        reveal(after_target);
        if new_counter >= (self.target as usize) {
            if self.mode & TM_TARGET_IRQ != 0 {
                self.trigger_interrupt();
            }
            if self.mode & TM_RESET != 0 {
                self.counter = (new_counter - (self.target as usize)) as u16;
            }
        }
    }

    fn trigger_interrupt(&mut self)
        ensures
            *final(self) == triggered(*old(self)),
            final(self).target == old(self).target,
            final(self).counter == old(self).counter,
    {
        reveal(triggered);
        if self.mode & TM_REPEAT_IRQ != 0 {
            if self.mode & TM_TOGGLE_IRQ != 0 {
                self.mode = self.mode ^ TM_IRQ;
            } else {
                self.mode = self.mode & !TM_IRQ;
                self.pulse_latch = true;
            }
        } else {
            if !self.irq_latch {
                self.irq_latch = true;
                if self.mode & TM_TOGGLE_IRQ != 0 {
                    self.mode = self.mode ^ TM_IRQ;
                } else {
                    self.mode = self.mode & !TM_IRQ;
                }
            }
        }
    }
}

/// The three root counters of the PlayStation.
pub struct Timers {
    timers: [Timer; 3],
    in_h_blank: bool,
    in_v_blank: bool,
    clock_div: usize,
}

/// The register addresses of the timers: counter, mode and target of each.
pub open spec fn is_timer_reg(addr: u32) -> bool {
    0x1F80_1100 <= addr < 0x1F80_1130 && (addr - 0x1F80_1100) % 16 < 12 && addr % 4 == 0
}

impl Timers {
    #[verifier::type_invariant]
    spec fn inv(self) -> bool {
        self.clock_div < 8
    }

    /// The three timers.
    pub closed spec fn timer(&self) -> Seq<Timer> {
        self.timers@
    }

    /// Whether the video output was in horizontal / vertical blanking at the last clock.
    pub closed spec fn blanks(&self) -> (bool, bool) {
        (self.in_h_blank, self.in_v_blank)
    }

    /// System cycles not yet counted by the divided clock of timer 2.
    pub closed spec fn divider(&self) -> usize {
        self.clock_div
    }

    pub fn new() -> (r: Self)
        ensures
            r.timer() == seq![Timer::new_spec(true), Timer::new_spec(true), Timer::new_spec(false)],
            r.blanks() == (false, false),
            r.divider() == 0,
    {
        let r = Self { timers: [Timer::new(true), Timer::new(true), Timer::new(false)], in_h_blank: false, in_v_blank: false, clock_div: 0 };
        assert(r.timer() =~= seq![Timer::new_spec(true), Timer::new_spec(true), Timer::new_spec(false)]);
        r
    }

    /// Count `cycles` system cycles (and the dots and lines the GPU reports).
    ///
    /// Returns the timer interrupts raised.
    pub fn clock(&mut self, cycles: usize, gpu: &GPUClockRes) -> (r: u32)
        requires
            cycles <= usize::MAX - 0x10000,
            gpu.dots <= usize::MAX - 0x10000,
        ensures
            ({
                let (h0, v0) = old(self).blanks();
                let entered_h = !h0 && gpu.in_h_blank;
                let t0 = if entered_h { blank_began(old(self).timer()[0]) } else if h0 && !gpu.in_h_blank { blank_ended(old(self).timer()[0]) } else { old(self).timer()[0] };
                let t1 = if !v0 && gpu.in_v_blank { blank_began(old(self).timer()[1]) } else if v0 && !gpu.in_v_blank { blank_ended(old(self).timer()[1]) } else { old(self).timer()[1] };
                let t2 = old(self).timer()[2];
                let (n0, i0) = if uses_sys_clock(t0) { clocked(t0, cycles as int) } else { clocked(t0, gpu.dots as int) };
                let (n1, i1) = if uses_sys_clock(t1) { clocked(t1, cycles as int) } else if entered_h { clocked(t1, 1) } else { (t1, false) };
                let div = old(self).divider() + cycles;
                let (n2, i2) = if uses_sys_clock(t2) { clocked(t2, cycles as int) } else if div >= 8 { clocked(t2, div / 8) } else { (t2, false) };
                &&& final(self).timer() == seq![n0, n1, n2]
                &&& final(self).blanks() == (gpu.in_h_blank, gpu.in_v_blank)
                &&& final(self).divider() == if uses_sys_clock(t2) { old(self).divider() as int } else { div % 8 }
                &&& r == (if i0 { IRQ_TIMER0 } else { 0 }) | (if i1 { IRQ_TIMER1 } else { 0 }) | (if i2 { IRQ_TIMER2 } else { 0 })
            }),
    {
        proof { use_type_invariant(&*self); }
        let entered_h_blank = self.set_blanks(gpu.in_h_blank, gpu.in_v_blank);
        let mut t = self.timers[0];
        let fired = if t.use_sys_clock() { t.clock(cycles) } else { t.clock(gpu.dots) };
        let i0: u32 = if fired { IRQ_TIMER0 } else { 0 };
        self.timers[0] = t;
        let mut t = self.timers[1];
        let fired = if t.use_sys_clock() { t.clock(cycles) } else if entered_h_blank { t.clock(1) } else { false };
        let i1: u32 = if fired { IRQ_TIMER1 } else { 0 };
        self.timers[1] = t;
        let mut t = self.timers[2];
        let fired = if t.use_sys_clock() {
            t.clock(cycles)
        } else {
            let div = self.clock_div + cycles;
            if div >= 8 {
                let f = t.clock(div / 8);
                self.clock_div = div % 8;
                f
            } else {
                self.clock_div = div;
                false
            }
        };
        let i2: u32 = if fired { IRQ_TIMER2 } else { 0 };
        self.timers[2] = t;
        assert(self.timer() =~= seq![self.timers[0], self.timers[1], self.timers[2]]);
        i0 | i1 | i2
    }

    /// Update current h- and v-blank status.
    ///
    /// Returns true if h-blank has been entered.
    fn set_blanks(&mut self, in_h_blank: bool, in_v_blank: bool) -> (r: bool)
        ensures
            r == (!old(self).blanks().0 && in_h_blank),
            final(self).timer() == seq![
                if r { blank_began(old(self).timer()[0]) } else if old(self).blanks().0 && !in_h_blank { blank_ended(old(self).timer()[0]) } else { old(self).timer()[0] },
                if !old(self).blanks().1 && in_v_blank { blank_began(old(self).timer()[1]) } else if old(self).blanks().1 && !in_v_blank { blank_ended(old(self).timer()[1]) } else { old(self).timer()[1] },
                old(self).timer()[2],
            ],
            final(self).blanks() == (in_h_blank, in_v_blank),
            final(self).divider() == old(self).divider(),
    {
        proof { use_type_invariant(&*self); }
        let entered_h_blank = !self.in_h_blank && in_h_blank;
        if entered_h_blank {
            let mut t = self.timers[0];
            t.blank_begin();
            self.timers[0] = t;
        }
        if self.in_h_blank && !in_h_blank {
            let mut t = self.timers[0];
            t.blank_end();
            self.timers[0] = t;
        }
        if !self.in_v_blank && in_v_blank {
            let mut t = self.timers[1];
            t.blank_begin();
            self.timers[1] = t;
        }
        if self.in_v_blank && !in_v_blank {
            let mut t = self.timers[1];
            t.blank_end();
            self.timers[1] = t;
        }
        self.in_h_blank = in_h_blank;
        self.in_v_blank = in_v_blank;
        assert(self.timer() =~= seq![self.timers[0], self.timers[1], self.timers[2]]);
        entered_h_blank
    }
}

impl Timer {
    /// A fresh timer.
    pub open spec fn new_spec(blank_timer: bool) -> Timer {
        Timer { counter: 0, mode: TM_IRQ, target: 0, irq_latch: false, pulse_latch: false, in_blank: false, pause: false, blank_timer }
    }
}

/// A halfword read of a timer register: the counter, the mode (which
/// clears the reached flags) or the target.
pub open spec fn timer_half_read(before: Timers, after: Timers, addr: u32, r: u16) -> bool {
    let n = ((addr - 0x1F80_1100) / 16) as int;
    let reg = (addr - 0x1F80_1100) % 16;
    let t = before.timer()[n];
    &&& reg == 0 ==> r == t.counter && after.timer() == before.timer()
    &&& reg == 4 ==> r == t.mode && after.timer() == before.timer().update(n,
        Timer { mode: t.mode & !(TM_REACHED_MAX | TM_REACHED_TARGET), ..t })
    &&& reg == 8 ==> r == t.target && after.timer() == before.timer()
    &&& after.blanks() == before.blanks()
    &&& after.divider() == before.divider()
}

/// A halfword write of a timer register: the counter is reset, or the mode
/// or target set.
pub open spec fn timer_half_written(before: Timers, after: Timers, addr: u32, data: u16) -> bool {
    let n = ((addr - 0x1F80_1100) / 16) as int;
    let reg = (addr - 0x1F80_1100) % 16;
    let t = before.timer()[n];
    &&& after.timer() == before.timer().update(n,
        if reg == 0 { Timer { counter: 0, ..t } } else if reg == 4 { mode_written(t, data) } else { Timer { target: data, ..t } })
    &&& after.blanks() == before.blanks()
    &&& after.divider() == before.divider()
}

impl MemInterface for Timers {
    open spec fn word_read(before: Timers, after: Timers, addr: u32, r: u32) -> bool {
        r < 0x1_0000 && timer_half_read(before, after, addr, r as u16)
    }

    open spec fn word_written(before: Timers, after: Timers, addr: u32, data: u32) -> bool {
        timer_half_written(before, after, addr, data as u16)
    }

    open spec fn readable(addr: u32, width: u32) -> bool {
        ((width == 4 || width == 2) && is_timer_reg(addr)) || (width == 1 && is_timer_reg(addr & 0xFFFF_FFFC))
    }

    open spec fn writable(addr: u32, width: u32) -> bool {
        Self::readable(addr, width)
    }

    proof fn lemma_read_byte(addr: u32) {
        lemma_word_access_aligned(addr);
    }

    proof fn lemma_write_byte(addr: u32) {
        lemma_word_access_aligned(addr);
    }

    proof fn lemma_read_halfword(addr: u32) {
        lemma_word_access_aligned(addr);
    }

    proof fn lemma_write_halfword(addr: u32) {
        lemma_word_access_aligned(addr);
    }

    fn read_word(&mut self, addr: u32) -> (r: u32) {
        self.read_halfword(addr) as u32
    }

    fn write_word(&mut self, addr: u32, data: u32) {
        self.write_halfword(addr, data as u16);
    }

    fn read_halfword(&mut self, addr: u32) -> (r: u16)
        ensures
            timer_half_read(*old(self), *final(self), addr, r),
    {
        proof { use_type_invariant(&*self); }
        let n = ((addr - 0x1F80_1100) / 16) as usize;
        let reg = (addr - 0x1F80_1100) % 16;
        let mut t = self.timers[n];
        let data = if reg == 0 {
            t.counter
        } else if reg == 4 {
            t.read_mode()
        } else {
            t.target
        };
        self.timers[n] = t;
        assert(reg != 4 ==> self.timer() =~= old(self).timer());
        assert(reg == 4 ==> self.timer() =~= old(self).timer().update(n as int, t));
        data
    }

    fn write_halfword(&mut self, addr: u32, data: u16)
        ensures
            timer_half_written(*old(self), *final(self), addr, data),
    {
        proof { use_type_invariant(&*self); }
        let n = ((addr - 0x1F80_1100) / 16) as usize;
        let reg = (addr - 0x1F80_1100) % 16;
        let mut t = self.timers[n];
        if reg == 0 {
            t.counter = 0;
        } else if reg == 4 {
            t.write_mode(data);
        } else {
            t.target = data;
        }
        self.timers[n] = t;
        assert(self.timer() =~= old(self).timer().update(n as int, t));
    }
}

} // verus!
