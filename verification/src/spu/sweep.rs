use vstd::prelude::*;
use crate::utils::bits::lemma_shr_is_div_i32;
use super::{StereoVolume, clamp_i16, step_scale, rate_cycles, rate_step_scale, rate_cycle_count};

verus! {

/// The volume sweeps: bit 15 of the settings.
pub open spec fn sweep_on(s: u16) -> bool {
    s & 0x8000 != 0
}

/// The sweep is exponential: bit 14.
pub open spec fn sweep_exp(s: u16) -> bool {
    s & 0x4000 != 0
}

/// The sweep decreases: bit 13.
pub open spec fn sweep_decrease(s: u16) -> bool {
    s & 0x2000 != 0
}

/// The output is inverted: bit 12.
pub open spec fn sweep_phase(s: u16) -> bool {
    s & 0x1000 != 0
}

/// The rate shift of the sweep: bits 2 to 6.
pub open spec fn sweep_shift(s: u16) -> int {
    ((s >> 2) & 0x1F) as int
}

/// The base step, from bits 0 and 1: `-8 + n` when decreasing, `7 - n` otherwise.
pub open spec fn sweep_base_step(s: u16) -> int {
    let n = (s & 3) as int;
    if sweep_decrease(s) { -8 + n } else { 7 - n }
}

/// The fields of the settings are within their widths.
proof fn lemma_sweep_fields(s: u16)
    by (bit_vector)
    ensures
        (s >> 2) & 0x1F <= 31,
        s & 3 <= 3,
        0u16 & 0x8000 == 0,
{
}

/// One side of a volume register pair, as a fixed volume or a sweep.
pub struct Sweep {
    settings: u16,
    current: i16,
    step: i16,
    counter: usize,
    mod_count: usize,
}

impl Sweep {
    #[verifier::type_invariant]
    spec fn inv(self) -> bool {
        &&& -0x4000 <= self.step <= 0x3800
        &&& sweep_on(self.settings) ==> 0 <= self.current && 1 <= self.mod_count && self.counter < self.mod_count
    }

    /// The register value last written.
    pub closed spec fn settings(&self) -> u16 {
        self.settings
    }

    /// The current volume.
    pub closed spec fn current(&self) -> i16 {
        self.current
    }

    /// The step added at each sweep step.
    pub closed spec fn step(&self) -> int {
        self.step as int
    }

    /// Ticks counted since the last sweep step.
    pub closed spec fn counter(&self) -> int {
        self.counter as int
    }

    /// Ticks between two sweep steps.
    pub closed spec fn mod_count(&self) -> int {
        self.mod_count as int
    }

    /// The count of ticks between steps may still grow fourfold.
    pub open spec fn can_tick(&self) -> bool {
        self.mod_count() * 4 <= usize::MAX
    }

    pub fn new() -> (r: Self)
        ensures
            r.settings() == 0,
            r.current() == 0,
            r.step() == 0,
            r.counter() == 0,
            r.mod_count() == 0,
    {
        proof {
            lemma_sweep_fields(0);
        }
        Sweep { settings: 0, current: 0, step: 0, counter: 0, mod_count: 0 }
    }

    /// Write the register: a fixed volume, or the settings of a sweep.
    pub fn set(&mut self, data: u16)
        ensures
            set_result(*old(self), data, *final(self)),
            final(self).mod_count() <= 0x10_0000 || final(self).mod_count() == old(self).mod_count(),
    {
        proof {
            use_type_invariant(&*self);
            lemma_sweep_fields(data);
        }
        if data & 0x8000 != 0 {
            let shift = ((data >> 2) & 0x1F) as u32;
            let n = (data & 3) as i32;
            let base = if data & 0x2000 != 0 { -8 + n } else { 7 - n };
            let scale = rate_step_scale(shift);
            proof {
                assert(-0x4000 <= base * scale <= 0x3800) by (nonlinear_arith)
                    requires -8 <= base <= 7, 1 <= scale <= 2048;
            }
            let count = rate_cycle_count(shift);
            *self = Sweep {
                settings: data,
                current: if data & 0x2000 != 0 { 0x7FFF } else { 0 },
                step: (base * scale) as i16,
                counter: 0,
                mod_count: count,
            };
        } else {
            *self = Sweep { settings: data, current: data as i16, step: self.step, counter: self.counter, mod_count: self.mod_count };
        }
    }

    /// The volume for the next sample, stepping a sweep.
    pub fn get_vol(&mut self) -> (out: i16)
        requires
            old(self).can_tick(),
        ensures
            out == tick_out(*old(self)),
            tick_result(*old(self), *final(self)),
    {
        proof {
            use_type_invariant(&*self);
        }
        let s = self.settings;
        if s & 0x8000 != 0 {
            let out = if s & 0x1000 != 0 { -self.current } else { self.current };
            let counter = self.counter + 1;
            if counter >= self.mod_count {
                let mut mod_count = self.mod_count;
                let mut step = self.step;
                if s & 0x4000 != 0 {
                    if s & 0x2000 == 0 && self.current > 0x6000 {
                        mod_count = mod_count * 4;
                    }
                    if s & 0x2000 != 0 {
                        proof {
                            let c = self.current;
                            assert(-0x4000 * 0x7FFF <= step * c <= 0x3800 * 0x7FFF) by (nonlinear_arith)
                                requires -0x4000 <= step <= 0x3800, 0 <= c <= 0x7FFF;
                        }
                        let p = (step as i32) * (self.current as i32);
                        proof {
                            lemma_shr_is_div_i32(p);
                        }
                        step = (p >> 15) as i16;
                    }
                }
                let sum = (self.current as i32) + (step as i32);
                let sat = if sum > 0x7FFF { 0x7FFF } else if sum < -0x8000 { -0x8000 } else { sum as i16 };
                let current = if sat < 0 { 0 } else { sat };
                *self = Sweep { settings: s, current, step, counter: 0, mod_count };
            } else {
                self.counter = counter;
            }
            out
        } else {
            ((self.current as i32) * 2) as i16
        }
    }
}

/// `new` is `old` after its register is written with `data`.
pub open spec fn set_result(old: Sweep, data: u16, new: Sweep) -> bool {
    &&& new.settings() == data
    &&& sweep_on(data) ==> new.current() == (if sweep_decrease(data) { 0x7FFFi16 } else { 0i16 })
        && new.mod_count() == rate_cycles(sweep_shift(data))
        && new.step() == sweep_base_step(data) * step_scale(sweep_shift(data))
        && new.counter() == 0
    &&& !sweep_on(data) ==> new.current() == data as i16
        && new.step() == old.step()
        && new.counter() == old.counter()
        && new.mod_count() == old.mod_count()
}

/// The volume that `s` gives for the next sample: twice a fixed volume
/// (wrapping), or the current volume of a sweep, negated when the phase bit
/// is set.
pub open spec fn tick_out(s: Sweep) -> i16 {
    let cur = s.current() as int;
    if !sweep_on(s.settings()) {
        (cur * 2) as i16
    } else if sweep_phase(s.settings()) {
        (-cur) as i16
    } else {
        cur as i16
    }
}

/// `new` is `old` after one sample.
///
/// A fixed volume stays. A sweep counts a tick; once the ticks reach the
/// count, the step is added (saturating, and not below zero) and the count
/// restarts. An exponential decrease scales the step by the volume first;
/// an exponential increase above 0x6000 makes the steps four times slower
/// from then on.
pub open spec fn tick_result(old: Sweep, new: Sweep) -> bool {
    let s = old.settings();
    let cur = old.current() as int;
    let fires = old.counter() + 1 >= old.mod_count();
    let step = if sweep_exp(s) && sweep_decrease(s) { (old.step() * cur) / 32768 } else { old.step() };
    let next = clamp_i16(cur + step) as int;
    &&& new.settings() == s
    &&& !sweep_on(s) ==> new == old
    &&& sweep_on(s) ==> {
        &&& fires ==> new.counter() == 0
            && new.step() == step
            && new.current() == (if next < 0 { 0 } else { next })
            && new.mod_count() == (if sweep_exp(s) && !sweep_decrease(s) && cur > 0x6000 {
                4 * old.mod_count()
            } else {
                old.mod_count()
            })
        &&& !fires ==> new.counter() == old.counter() + 1
            && new.step() == old.step()
            && new.current() == old.current()
            && new.mod_count() == old.mod_count()
    }
}

/// A pair of volumes, each fixed or sweeping.
pub struct SweepVolume {
    left: Sweep,
    right: Sweep,
}

impl SweepVolume {
    /// The left side.
    pub closed spec fn left(&self) -> Sweep {
        self.left
    }

    /// The right side.
    pub closed spec fn right(&self) -> Sweep {
        self.right
    }

    pub fn new() -> (r: Self)
        ensures
            r.left().settings() == 0 && r.left().current() == 0 && r.left().step() == 0
                && r.left().counter() == 0 && r.left().mod_count() == 0,
            r.right() == r.left(),
    {
        SweepVolume { left: Sweep::new(), right: Sweep::new() }
    }

    pub fn set_left(&mut self, data: u16)
        ensures
            set_result(old(self).left(), data, final(self).left()),
            final(self).right() == old(self).right(),
    {
        self.left.set(data);
    }

    pub fn set_right(&mut self, data: u16)
        ensures
            set_result(old(self).right(), data, final(self).right()),
            final(self).left() == old(self).left(),
    {
        self.right.set(data);
    }

    /// The current left volume, as a register value.
    pub fn get_left(&self) -> (r: u16)
        ensures
            r == self.left().current() as u16,
    {
        self.left.current as u16
    }

    /// The current right volume, as a register value.
    pub fn get_right(&self) -> (r: u16)
        ensures
            r == self.right().current() as u16,
    {
        self.right.current as u16
    }

    /// The volumes of both sides for the next sample, as register values.
    pub fn get_vol(&mut self) -> (r: StereoVolume)
        requires
            old(self).left().can_tick(),
            old(self).right().can_tick(),
        ensures
            tick_result(old(self).left(), final(self).left()),
            tick_result(old(self).right(), final(self).right()),
            r.left == tick_out(old(self).left()) as u16,
            r.right == tick_out(old(self).right()) as u16,
    {
        let left = self.left.get_vol();
        let right = self.right.get_vol();
        StereoVolume { left: left as u16, right: right as u16 }
    }
}

} // verus!
