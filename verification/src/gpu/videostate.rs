use vstd::prelude::*;
use crate::interrupt::IRQ_VBLANK;
use super::status::InterlaceState;

verus! {

/// Lines to draw per frame.
pub const DRAWLINES: usize = 240;

/// NTSC timings.
pub const NTSC_SCANLINES: usize = 263;
pub const NTSC_H_CYCLES: usize = 3413;
pub const NTSC_DOT_COUNT_256: usize = 10;
pub const NTSC_DOT_COUNT_320: usize = 8;
pub const NTSC_DOT_COUNT_368: usize = 7;
pub const NTSC_DOT_COUNT_512: usize = 5;
pub const NTSC_DOT_COUNT_640: usize = 4;

/// Returned when clocking the GPU.
///
/// Indicates state of interrupt / blanking.
#[derive(Clone, Copy)]
pub struct GPUClockRes {
    pub irq: u32,
    pub in_v_blank: bool,
    pub in_h_blank: bool,
    pub dots: usize,
    pub new_frame: bool,
}

impl GPUClockRes {
    pub fn dots(dots: usize) -> (r: Self)
        ensures
            r == (GPUClockRes { irq: 0, in_v_blank: false, in_h_blank: false, dots, new_frame: false }),
    {
        Self { irq: 0, in_v_blank: false, in_h_blank: false, dots, new_frame: false }
    }

    pub fn enter_v_blank(dots: usize) -> (r: Self)
        ensures
            r == (GPUClockRes { irq: IRQ_VBLANK, in_v_blank: true, in_h_blank: false, dots, new_frame: false }),
    {
        Self { irq: IRQ_VBLANK, in_v_blank: true, in_h_blank: false, dots, new_frame: false }
    }

    pub fn v_blank(dots: usize) -> (r: Self)
        ensures
            r == (GPUClockRes { irq: 0, in_v_blank: true, in_h_blank: false, dots, new_frame: false }),
    {
        Self { irq: 0, in_v_blank: true, in_h_blank: false, dots, new_frame: false }
    }

    pub fn h_blank(dots: usize) -> (r: Self)
        ensures
            r == (GPUClockRes { irq: 0, in_v_blank: false, in_h_blank: true, dots, new_frame: false }),
    {
        Self { irq: 0, in_v_blank: false, in_h_blank: true, dots, new_frame: false }
    }

    pub fn vh_blank(dots: usize) -> (r: Self)
        ensures
            r == (GPUClockRes { irq: 0, in_v_blank: true, in_h_blank: true, dots, new_frame: false }),
    {
        Self { irq: 0, in_v_blank: true, in_h_blank: true, dots, new_frame: false }
    }

    pub fn exit_v_blank(dots: usize) -> (r: Self)
        ensures
            r == (GPUClockRes { irq: 0, in_v_blank: false, in_h_blank: false, dots, new_frame: true }),
    {
        Self { irq: 0, in_v_blank: false, in_h_blank: false, dots, new_frame: true }
    }
}

/// State of the screen drawing process.
#[derive(Clone, Copy, PartialEq, Eq, Structural)]
pub enum VideoState {
    /// Drawing a line.
    Drawing,
    /// Horizontal blanking period.
    HBlank,
    /// Vertical blanking period.
    VBlank,
    /// Horizontal blanking period during v-blank.
    VHBlank,
}

/// The NTSC cycles per dot for a horizontal resolution.
pub open spec fn ntsc_cycles_per_dot(h_res: usize) -> usize {
    if h_res == 256 {
        NTSC_DOT_COUNT_256
    } else if h_res == 320 {
        NTSC_DOT_COUNT_320
    } else if h_res == 368 {
        NTSC_DOT_COUNT_368
    } else if h_res == 512 {
        NTSC_DOT_COUNT_512
    } else {
        NTSC_DOT_COUNT_640
    }
}

/// The horizontal resolutions the video timing supports.
pub open spec fn valid_h_res(h_res: usize) -> bool {
    h_res == 256 || h_res == 320 || h_res == 368 || h_res == 512 || h_res == 640
}

/// The abstract state of the video timing machine.
pub struct VideoTiming {
    pub state: VideoState,
    pub h_cycle_count: int,
    pub h_dot: int,
    pub v_count: int,
    pub h_res: int,
    pub cycles_per_dot: int,
    pub interlace: InterlaceState,
}

/// A clock report.
pub open spec fn report(irq: u32, in_v_blank: bool, in_h_blank: bool, dots: usize, new_frame: bool) -> GPUClockRes {
    GPUClockRes { irq, in_v_blank, in_h_blank, dots, new_frame }
}

/// One clock step of the video timing machine: the next state and the report.
pub open spec fn clock_step(t: VideoTiming, cycles: int) -> (VideoTiming, GPUClockRes) {
    let h = t.h_cycle_count + cycles;
    let new_dot = h / t.cycles_per_dot;
    let dots = (new_dot - t.h_dot) as usize;
    let draw = t.cycles_per_dot * t.h_res;
    let t1 = VideoTiming { h_cycle_count: h, h_dot: new_dot, ..t };
    match t.state {
        VideoState::Drawing => if h >= draw {
            (VideoTiming { state: VideoState::HBlank, ..t1 }, report(0, false, true, dots, false))
        } else {
            (t1, report(0, false, false, dots, false))
        },
        VideoState::VBlank => if h >= draw {
            (VideoTiming { state: VideoState::VHBlank, ..t1 }, report(0, true, true, dots, false))
        } else {
            (t1, report(0, true, false, dots, false))
        },
        VideoState::HBlank => if h >= NTSC_H_CYCLES {
            let h2 = h - NTSC_H_CYCLES;
            let t2 = VideoTiming { h_cycle_count: h2, h_dot: h2 / t.cycles_per_dot, v_count: t.v_count + 1, ..t1 };
            if t.v_count + 1 < DRAWLINES {
                (VideoTiming { state: VideoState::Drawing, ..t2 }, report(0, false, false, dots, false))
            } else {
                (VideoTiming { state: VideoState::VBlank, ..t2 }, report(IRQ_VBLANK, true, false, dots, false))
            }
        } else {
            (t1, report(0, false, true, dots, false))
        },
        VideoState::VHBlank => if h >= NTSC_H_CYCLES {
            let h2 = h - NTSC_H_CYCLES;
            let t2 = VideoTiming { h_cycle_count: h2, h_dot: h2 / t.cycles_per_dot, v_count: t.v_count + 1, ..t1 };
            if t.v_count + 1 < NTSC_SCANLINES {
                (VideoTiming { state: VideoState::VBlank, ..t2 }, report(0, true, false, dots, false))
            } else {
                (VideoTiming { state: VideoState::Drawing, v_count: 0, interlace: t.interlace.toggled(), ..t2 },
                    report(0, false, false, dots, true))
            }
        } else {
            (t1, report(0, true, true, dots, false))
        },
    }
}

/// The timing at power on: drawing the first line at 256 dots, not interlaced.
pub open spec fn initial_timing() -> VideoTiming {
    VideoTiming {
        state: VideoState::Drawing,
        h_cycle_count: 0,
        h_dot: 0,
        v_count: 0,
        h_res: 256,
        cycles_per_dot: NTSC_DOT_COUNT_256 as int,
        interlace: InterlaceState::Off,
    }
}

/// What every timing state reached from power on satisfies: a supported
/// resolution with its NTSC dot length, a line within the frame, and a
/// drawn line while drawing or in horizontal blanking.
pub open spec fn valid_timing(t: VideoTiming) -> bool {
    &&& t.h_res == 256 || t.h_res == 320 || t.h_res == 368 || t.h_res == 512 || t.h_res == 640
    &&& t.cycles_per_dot == ntsc_cycles_per_dot(t.h_res as usize)
    &&& 0 <= t.h_cycle_count && 0 <= t.h_dot
    &&& 0 <= t.v_count < NTSC_SCANLINES
    &&& (t.state == VideoState::Drawing || t.state == VideoState::HBlank) ==> t.v_count < DRAWLINES
}

/// The odd-field bit: the field when interlacing, else whether the current
/// line is odd.
pub open spec fn interlace_bit(t: VideoTiming) -> bool {
    t.v_count < NTSC_SCANLINES && match t.interlace {
        InterlaceState::Off => t.v_count % 2 == 1,
        InterlaceState::Even => false,
        InterlaceState::Odd => true,
    }
}

/// Tracks cycle count and current state of the LCD drawing process.
pub struct StateMachine {
    state: VideoState,
    h_cycle_count: usize,
    h_dot: usize,
    v_count: usize,
    // Timing constants:
    v_res: usize,
    h_res: usize,
    cycles_per_dot: usize,
    h_draw_cycles: usize,
    h_total_cycles: usize,
    interlace: InterlaceState,
}

impl StateMachine {
    #[verifier::type_invariant]
    spec fn inv(self) -> bool {
        &&& valid_h_res(self.h_res)
        &&& self.cycles_per_dot == ntsc_cycles_per_dot(self.h_res)
        &&& self.h_draw_cycles == self.cycles_per_dot * self.h_res
        &&& self.v_res == NTSC_SCANLINES
        &&& self.h_total_cycles == NTSC_H_CYCLES
        &&& (self.state == VideoState::Drawing || self.state == VideoState::HBlank) ==> self.v_count < DRAWLINES
        &&& self.v_count < NTSC_SCANLINES
    }

    /// The abstract timing state.
    pub closed spec fn timing(&self) -> VideoTiming {
        VideoTiming {
            state: self.state,
            h_cycle_count: self.h_cycle_count as int,
            h_dot: self.h_dot as int,
            v_count: self.v_count as int,
            h_res: self.h_res as int,
            cycles_per_dot: self.cycles_per_dot as int,
            interlace: self.interlace,
        }
    }

    /// Whether `cycles` more cycles can be counted: the cycle count must not
    /// overflow, and the dot count must not fall below the dots already
    /// reported (which happens after the resolution changes mid-line).
    pub open spec fn can_clock(&self, cycles: usize) -> bool {
        &&& self.timing().h_cycle_count + cycles <= usize::MAX
        &&& self.timing().h_dot <= (self.timing().h_cycle_count + cycles) / self.timing().cycles_per_dot
    }

    pub fn new() -> (r: Self)
        ensures
            r.timing() == initial_timing(),
            valid_timing(r.timing()),
    {
        let machine = Self {
            state: VideoState::Drawing,
            h_cycle_count: 0,
            h_dot: 0,
            v_count: 0,
            v_res: NTSC_SCANLINES,
            h_res: 256,
            cycles_per_dot: NTSC_DOT_COUNT_256,
            h_draw_cycles: NTSC_DOT_COUNT_256 * 256,
            h_total_cycles: NTSC_H_CYCLES,
            interlace: InterlaceState::Off,
        };
        machine
    }

    /// Set new horizontal resolution using NTSC timings.
    pub fn set_h_res_ntsc(&mut self, h_res: usize)
        requires
            valid_h_res(h_res),
        ensures
            final(self).timing() == (VideoTiming {
                h_res: h_res as int,
                cycles_per_dot: ntsc_cycles_per_dot(h_res) as int,
                ..old(self).timing()
            }),
            valid_timing(final(self).timing()),
    {
        proof { use_type_invariant(&*self); }
        let cycles_per_dot = if h_res == 256 {
            NTSC_DOT_COUNT_256
        } else if h_res == 320 {
            NTSC_DOT_COUNT_320
        } else if h_res == 368 {
            NTSC_DOT_COUNT_368
        } else if h_res == 512 {
            NTSC_DOT_COUNT_512
        } else {
            NTSC_DOT_COUNT_640
        };
        let new = Self {
            state: self.state,
            h_cycle_count: self.h_cycle_count,
            h_dot: self.h_dot,
            v_count: self.v_count,
            v_res: NTSC_SCANLINES,
            h_res,
            cycles_per_dot,
            h_draw_cycles: cycles_per_dot * h_res,
            h_total_cycles: NTSC_H_CYCLES,
            interlace: self.interlace,
        };
        *self = new;
    }

    /// Set or unset interlace mode.
    pub fn set_interlace(&mut self, interlace: bool)
        ensures
            final(self).timing() == (VideoTiming {
                interlace: if interlace {
                    if old(self).timing().interlace == InterlaceState::Off { InterlaceState::Odd } else { old(self).timing().interlace }
                } else {
                    InterlaceState::Off
                },
                ..old(self).timing()
            }),
            valid_timing(final(self).timing()),
    {
        proof { use_type_invariant(&*self); }
        if interlace {
            if self.interlace == InterlaceState::Off {
                self.interlace = InterlaceState::Odd;
            }
        } else {
            self.interlace = InterlaceState::Off;
        }
    }

    /// Advance the state machine.
    pub fn clock(&mut self, cycles: usize) -> (r: GPUClockRes)
        requires
            old(self).can_clock(cycles),
        ensures
            (final(self).timing(), r) == clock_step(old(self).timing(), cycles as int),
            valid_timing(old(self).timing()),
            valid_timing(final(self).timing()),
    {
        proof { use_type_invariant(&*self); }
        let ghost t = self.timing();
        self.h_cycle_count = self.h_cycle_count + cycles;
        let new_dot_count = self.h_cycle_count / self.cycles_per_dot;
        let dots = new_dot_count - self.h_dot;
        self.h_dot = new_dot_count;
        match self.state {
            VideoState::Drawing => {
                if self.h_cycle_count >= self.h_draw_cycles {
                    self.state = VideoState::HBlank;
                    GPUClockRes::h_blank(dots)
                } else {
                    GPUClockRes::dots(dots)
                }
            },
            VideoState::VBlank => {
                if self.h_cycle_count >= self.h_draw_cycles {
                    self.state = VideoState::VHBlank;
                    GPUClockRes::vh_blank(dots)
                } else {
                    GPUClockRes::v_blank(dots)
                }
            },
            VideoState::HBlank => {
                if self.h_cycle_count >= self.h_total_cycles {
                    self.h_cycle_count = self.h_cycle_count - self.h_total_cycles;
                    self.h_dot = self.h_cycle_count / self.cycles_per_dot;
                    if self.v_count + 1 < DRAWLINES {
                        self.v_count = self.v_count + 1;
                        self.state = VideoState::Drawing;
                        GPUClockRes::dots(dots)
                    } else {
                        self.state = VideoState::VBlank;
                        self.v_count = self.v_count + 1;
                        GPUClockRes::enter_v_blank(dots)
                    }
                } else {
                    GPUClockRes::h_blank(dots)
                }
            },
            VideoState::VHBlank => {
                if self.h_cycle_count >= self.h_total_cycles {
                    self.h_cycle_count = self.h_cycle_count - self.h_total_cycles;
                    self.h_dot = self.h_cycle_count / self.cycles_per_dot;
                    if self.v_count + 1 < self.v_res {
                        self.v_count = self.v_count + 1;
                        self.state = VideoState::VBlank;
                        GPUClockRes::v_blank(dots)
                    } else {
                        // Exit vblank
                        self.v_count = 0;
                        self.state = VideoState::Drawing;
                        self.toggle_interlace();
                        GPUClockRes::exit_v_blank(dots)
                    }
                } else {
                    GPUClockRes::vh_blank(dots)
                }
            },
        }
    }

    /// Get the interlace bit status.
    pub fn get_interlace_bit(&self) -> (r: bool)
        ensures
            valid_timing(self.timing()),
            r == interlace_bit(self.timing()),
    {
        proof { use_type_invariant(self); }
        if self.v_count >= self.v_res {
            return false;
        }
        match self.interlace {
            InterlaceState::Off => self.v_count % 2 == 1,
            InterlaceState::Even => false,
            InterlaceState::Odd => true,
        }
    }

    pub fn get_interlace_state(&self) -> (r: InterlaceState)
        ensures
            valid_timing(self.timing()),
            r == self.timing().interlace,
    {
        proof { use_type_invariant(self); }
        self.interlace
    }

    fn toggle_interlace(&mut self)
        ensures
            final(self).timing() == (VideoTiming { interlace: old(self).timing().interlace.toggled(), ..old(self).timing() }),
    {
        proof { use_type_invariant(&*self); }
        self.interlace = self.interlace.toggle();
    }
}

/// The vertical blanking part of the frame: blanking lines, with or without
/// horizontal blanking.
pub open spec fn in_v_blank_phase(t: VideoTiming) -> bool {
    t.state == VideoState::VBlank || t.state == VideoState::VHBlank
}

/// One clock step enters vertical blanking exactly when it reports the
/// v-blank interrupt, and leaves it exactly when it reports a new frame,
/// which also moves interlacing to the other field; the interrupt is the only
/// one it raises, and it comes while blanking vertically but not
/// horizontally.
pub proof fn lemma_clock_v_blank_phase(t: VideoTiming, cycles: int)
    ensures
        clock_step(t, cycles).1.irq == 0 || clock_step(t, cycles).1.irq == IRQ_VBLANK,
        clock_step(t, cycles).1.irq == IRQ_VBLANK ==> {
            &&& !in_v_blank_phase(t)
            &&& in_v_blank_phase(clock_step(t, cycles).0)
            &&& clock_step(t, cycles).1.in_v_blank
            &&& !clock_step(t, cycles).1.in_h_blank
            &&& !clock_step(t, cycles).1.new_frame
        },
        clock_step(t, cycles).1.new_frame ==> {
            &&& in_v_blank_phase(t)
            &&& !in_v_blank_phase(clock_step(t, cycles).0)
            &&& clock_step(t, cycles).0.interlace == t.interlace.toggled()
        },
        clock_step(t, cycles).1.irq != IRQ_VBLANK && !clock_step(t, cycles).1.new_frame ==> {
            &&& in_v_blank_phase(clock_step(t, cycles).0) == in_v_blank_phase(t)
            &&& clock_step(t, cycles).0.interlace == t.interlace
        },
{
}

/// The timing after clocking by each of `cycles` in turn, and the reports.
pub open spec fn clock_run(t: VideoTiming, cycles: Seq<int>) -> (VideoTiming, Seq<GPUClockRes>)
    decreases cycles.len(),
{
    if cycles.len() == 0 {
        (t, Seq::empty())
    } else {
        let prev = clock_run(t, cycles.drop_last());
        let step = clock_step(prev.0, cycles.last());
        (step.0, prev.1.push(step.1))
    }
}

/// Whether the last of the v-blank interrupts and new frames among `reports`
/// is an interrupt; `start` where there is none.
pub open spec fn last_event_is_v_blank(reports: Seq<GPUClockRes>, start: bool) -> bool
    decreases reports.len(),
{
    if reports.len() == 0 {
        start
    } else if reports.last().irq == IRQ_VBLANK {
        true
    } else if reports.last().new_frame {
        false
    } else {
        last_event_is_v_blank(reports.drop_last(), start)
    }
}

/// Over any run of clock steps, the v-blank interrupts and the new-frame
/// reports alternate: an interrupt comes only when the last event was a new
/// frame (or, before any, outside vertical blanking, as at power on), and a
/// new frame only when the last event was an interrupt.
pub proof fn lemma_v_blank_new_frame_alternate(t: VideoTiming, cycles: Seq<int>)
    ensures
        clock_run(t, cycles).1.len() == cycles.len(),
        in_v_blank_phase(clock_run(t, cycles).0)
            == last_event_is_v_blank(clock_run(t, cycles).1, in_v_blank_phase(t)),
        forall|i: int| 0 <= i < cycles.len() && (#[trigger] clock_run(t, cycles).1[i]).irq == IRQ_VBLANK
            ==> !last_event_is_v_blank(clock_run(t, cycles).1.take(i), in_v_blank_phase(t)),
        forall|i: int| 0 <= i < cycles.len() && (#[trigger] clock_run(t, cycles).1[i]).new_frame
            ==> last_event_is_v_blank(clock_run(t, cycles).1.take(i), in_v_blank_phase(t)),
    decreases cycles.len(),
{
    if cycles.len() > 0 {
        let prefix = cycles.drop_last();
        lemma_v_blank_new_frame_alternate(t, prefix);
        let prev = clock_run(t, prefix);
        let step = clock_step(prev.0, cycles.last());
        lemma_clock_v_blank_phase(prev.0, cycles.last());
        let rs = clock_run(t, cycles).1;
        assert(rs == prev.1.push(step.1));
        assert(rs.drop_last() =~= prev.1);
        assert forall|i: int| 0 <= i < cycles.len() && (#[trigger] rs[i]).irq == IRQ_VBLANK
            implies !last_event_is_v_blank(rs.take(i), in_v_blank_phase(t)) by {
            if i < prefix.len() {
                assert(rs.take(i) =~= prev.1.take(i));
                assert(rs[i] == prev.1[i]);
            } else {
                assert(rs.take(i) =~= prev.1);
            }
        }
        assert forall|i: int| 0 <= i < cycles.len() && (#[trigger] rs[i]).new_frame
            implies last_event_is_v_blank(rs.take(i), in_v_blank_phase(t)) by {
            if i < prefix.len() {
                assert(rs.take(i) =~= prev.1.take(i));
                assert(rs[i] == prev.1[i]);
            } else {
                assert(rs.take(i) =~= prev.1);
            }
        }
    }
}

} // verus!
