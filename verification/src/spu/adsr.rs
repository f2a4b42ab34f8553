use vstd::prelude::*;
use crate::utils::bits::lemma_shr_is_div_i32;
use super::{clamp_i16, step_scale, rate_cycles, rate_step_scale, rate_cycle_count};

verus! {

/// The phase of a volume envelope.
#[derive(Clone, Copy, PartialEq, Eq, Structural, Debug)]
pub enum State {
    Off,
    Attack,
    Decay,
    Sustain,
    Release,
}

/// The bits of the envelope settings that are defined (bit 29 is not).
pub const ADSR_MASK: u32 = 0xDFFF_FFFF;

/// Rate shift of the attack phase: bits 10 to 14.
pub open spec fn attack_shift(f: u32) -> int {
    ((f >> 10) & 0x1F) as int
}

/// Step of the attack phase: `7 - (bits 8, 9)`, scaled by the rate.
pub open spec fn attack_step(f: u32) -> int {
    (7 - ((f >> 8) & 3)) * step_scale(attack_shift(f))
}

/// The attack is exponential: bit 15.
pub open spec fn attack_exp(f: u32) -> bool {
    f & 0x8000 != 0
}

/// Rate shift of the decay phase: bits 4 to 7.
pub open spec fn decay_shift(f: u32) -> int {
    ((f >> 4) & 0xF) as int
}

/// Step of the decay phase: -8, scaled by the rate.
pub open spec fn decay_step(f: u32) -> int {
    -8 * step_scale(decay_shift(f))
}

/// Level at which the decay gives way to the sustain: `(bits 0 to 3) + 1`
/// in units of 0x800, at most 0x7FFF.
pub open spec fn sustain_level(f: u32) -> int {
    let level = ((f & 0xF) + 1) * 0x800;
    if level > 0x7FFF { 0x7FFF } else { level }
}

/// Rate shift of the sustain phase: bits 24 to 28.
pub open spec fn sustain_shift(f: u32) -> int {
    ((f >> 24) & 0x1F) as int
}

/// The sustain decreases the level: bit 30.
pub open spec fn sustain_decrease(f: u32) -> bool {
    f & 0x4000_0000 != 0
}

/// The sustain is exponential: bit 31.
pub open spec fn sustain_exp(f: u32) -> bool {
    f & 0x8000_0000 != 0
}

/// Step of the sustain phase, from bits 22 and 23: `-8 + n` when
/// decreasing, `7 - n` otherwise, scaled by the rate.
pub open spec fn sustain_step(f: u32) -> int {
    let base = ((f >> 22) & 3) as int;
    (if sustain_decrease(f) { -8 + base } else { 7 - base }) * step_scale(sustain_shift(f))
}

/// Rate shift of the release phase: bits 16 to 20.
pub open spec fn release_shift(f: u32) -> int {
    ((f >> 16) & 0x1F) as int
}

/// Step of the release phase: -8, scaled by the rate.
pub open spec fn release_step(f: u32) -> int {
    -8 * step_scale(release_shift(f))
}

/// The release is exponential: bit 21.
pub open spec fn release_exp(f: u32) -> bool {
    f & 0x20_0000 != 0
}

/// `level + step`, saturated, and not below zero.
pub open spec fn add_level(level: int, step: int) -> int {
    let l = clamp_i16(level + step) as int;
    if l < 0 { 0 } else { l }
}

/// An exponential step: the base step scaled by the level, in 32768ths,
/// rounded down.
pub open spec fn exp_step(base: int, level: int) -> int {
    (base * level) / 32768
}

/// One tick of the envelope: the phase, level and tick counter after it.
pub open spec fn envelope_tick(state: State, level: int, counter: int, f: u32) -> (State, int, int) {
    match state {
        State::Off => (State::Off, level, counter),
        State::Attack => {
            let c = counter + 1;
            let cycles = if attack_exp(f) && level > 0x6000 {
                4 * rate_cycles(attack_shift(f))
            } else {
                rate_cycles(attack_shift(f))
            };
            if c >= cycles {
                let l = clamp_i16(level + attack_step(f)) as int;
                (if l == 0x7FFF { State::Decay } else { State::Attack }, l, 0)
            } else {
                (State::Attack, level, c)
            }
        },
        State::Decay => {
            let c = counter + 1;
            if c >= rate_cycles(decay_shift(f)) {
                let l = add_level(level, decay_step(f));
                if l <= sustain_level(f) {
                    (State::Sustain, sustain_level(f), 0)
                } else {
                    (State::Decay, l, 0)
                }
            } else {
                (State::Decay, level, c)
            }
        },
        State::Sustain => {
            let c = counter + 1;
            let cycles = if sustain_exp(f) && !sustain_decrease(f) && level > 0x6000 {
                4 * rate_cycles(sustain_shift(f))
            } else {
                rate_cycles(sustain_shift(f))
            };
            if c >= cycles {
                let step = if sustain_exp(f) && sustain_decrease(f) {
                    exp_step(sustain_step(f), level)
                } else {
                    sustain_step(f)
                };
                (State::Sustain, add_level(level, step), 0)
            } else {
                (State::Sustain, level, c)
            }
        },
        State::Release => {
            let c = counter + 1;
            if c >= rate_cycles(release_shift(f)) {
                let step = if release_exp(f) { exp_step(release_step(f), level) } else { release_step(f) };
                (State::Release, add_level(level, step), 0)
            } else {
                (State::Release, level, c)
            }
        },
    }
}

/// The fields of the envelope settings are within their widths.
proof fn lemma_adsr_fields(f: u32)
    by (bit_vector)
    ensures
        (f >> 10) & 0x1F <= 31,
        (f >> 8) & 3 <= 3,
        (f >> 4) & 0xF <= 15,
        f & 0xF <= 15,
        (f >> 24) & 0x1F <= 31,
        (f >> 22) & 3 <= 3,
        (f >> 16) & 0x1F <= 31,
{
}

fn adsr_attack_step(f: u32) -> (r: i16)
    ensures
        r == attack_step(f),
        4 <= r <= 7 * 2048,
{
    proof {
        lemma_adsr_fields(f);
    }
    let step = 7 - ((f >> 8) & 3) as i32;
    let scale = rate_step_scale((f >> 10) & 0x1F);
    proof {
        assert(4 <= step * scale <= 7 * 2048) by (nonlinear_arith)
            requires 4 <= step <= 7, 1 <= scale <= 2048;
    }
    (step * scale) as i16
}

fn adsr_decay_step(f: u32) -> (r: i16)
    ensures
        r == decay_step(f),
        -8 * 2048 <= r <= -8,
{
    proof {
        lemma_adsr_fields(f);
    }
    let scale = rate_step_scale((f >> 4) & 0xF);
    (-8 * scale) as i16
}

fn adsr_sustain_step(f: u32) -> (r: i16)
    ensures
        r == sustain_step(f),
        -8 * 2048 <= r <= 7 * 2048,
        sustain_decrease(f) ==> r < 0,
{
    proof {
        lemma_adsr_fields(f);
    }
    let base = ((f >> 22) & 3) as i32;
    let step = if f & 0x4000_0000 != 0 { -8 + base } else { 7 - base };
    let scale = rate_step_scale((f >> 24) & 0x1F);
    proof {
        assert(-8 * 2048 <= step * scale <= 7 * 2048) by (nonlinear_arith)
            requires -8 <= step <= 7, 1 <= scale <= 2048;
        assert(step < 0 ==> step * scale < 0) by (nonlinear_arith)
            requires 1 <= scale;
    }
    (step * scale) as i16
}

fn adsr_release_step(f: u32) -> (r: i16)
    ensures
        r == release_step(f),
        -8 * 2048 <= r <= -8,
{
    proof {
        lemma_adsr_fields(f);
    }
    let scale = rate_step_scale((f >> 16) & 0x1F);
    (-8 * scale) as i16
}

fn adsr_sustain_level(f: u32) -> (r: i16)
    ensures
        r == sustain_level(f),
        0x800 <= r <= 0x7FFF,
{
    proof {
        lemma_adsr_fields(f);
    }
    let level = ((f & 0xF) + 1) * 0x800;
    if level > 0x7FFF { 0x7FFF } else { level as i16 }
}

/// `level + step`, saturated to a halfword, and not below zero.
fn add_level_exec(level: i16, step: i16) -> (r: i16)
    ensures
        r == add_level(level as int, step as int),
        r >= 0,
{
    let sum = (level as i32) + (step as i32);
    let l = if sum < -0x8000 { -0x8000 } else if sum > 0x7FFF { 0x7FFF } else { sum };
    if l < 0 { 0 } else { l as i16 }
}

/// An exponential step from a negative base step and a level.
fn exp_step_exec(base: i16, level: i16) -> (r: i16)
    requires
        -8 * 2048 <= base < 0,
        0 <= level <= 0x7FFF,
    ensures
        r == exp_step(base as int, level as int),
        r <= 0,
{
    proof {
        assert(-8 * 2048 * 0x7FFF <= base * level <= 0) by (nonlinear_arith)
            requires -8 * 2048 <= base < 0, 0 <= level <= 0x7FFF;
    }
    let p = (base as i32) * (level as i32);
    proof {
        lemma_shr_is_div_i32(p);
    }
    (p >> 15) as i16
}

/// Generates a volume envelope using ADSR:
/// Attack, Decay, Sustain, Release.
pub struct ADSRGenerator {
    current_state: State,
    current_level: i16,
    counter: usize,
    flags: u32,
}

impl ADSRGenerator {
    #[verifier::type_invariant]
    spec fn inv(self) -> bool {
        &&& 0 <= self.current_level <= 0x7FFF
        &&& self.counter < 0x40_0000
    }

    /// The phase of the envelope.
    pub closed spec fn state(&self) -> State {
        self.current_state
    }

    /// The current volume level, between 0 and 0x7FFF.
    pub closed spec fn level(&self) -> int {
        self.current_level as int
    }

    /// Ticks counted since the last step.
    pub closed spec fn counter(&self) -> int {
        self.counter as int
    }

    /// The envelope settings (the two ADSR registers).
    pub closed spec fn flags(&self) -> u32 {
        self.flags
    }

    pub fn read_adsr_lo(&self) -> (r: u16)
        ensures
            r == self.flags() as u16,
    {
        self.flags as u16
    }

    pub fn read_adsr_hi(&self) -> (r: u16)
        ensures
            r == (self.flags() >> 16) as u16,
    {
        (self.flags >> 16) as u16
    }

    pub fn write_adsr_lo(&mut self, data: u16)
        ensures
            final(self).flags() == ((old(self).flags() & 0xFFFF_0000) | data as u32) & ADSR_MASK,
            final(self).state() == old(self).state(),
            final(self).level() == old(self).level(),
            final(self).counter() == old(self).counter(),
    {
        proof {
            use_type_invariant(&*self);
        }
        self.flags = ((self.flags & 0xFFFF_0000) | (data as u32)) & ADSR_MASK;
    }

    pub fn write_adsr_hi(&mut self, data: u16)
        ensures
            final(self).flags() == ((old(self).flags() & 0x0000_FFFF) | ((data as u32) << 16)) & ADSR_MASK,
            final(self).state() == old(self).state(),
            final(self).level() == old(self).level(),
            final(self).counter() == old(self).counter(),
    {
        proof {
            use_type_invariant(&*self);
        }
        self.flags = ((self.flags & 0x0000_FFFF) | ((data as u32) << 16)) & ADSR_MASK;
    }

    /// Init the volume into attack.
    pub fn init(&mut self)
        ensures
            final(self).state() == State::Attack,
            final(self).level() == 0,
            final(self).counter() == 0,
            final(self).flags() == old(self).flags(),
    {
        proof {
            use_type_invariant(&*self);
        }
        self.current_state = State::Attack;
        self.current_level = 0;
        self.counter = 0;
    }

    /// Step the envelope and get the volume before the step.
    pub fn step(&mut self) -> (vol: i16)
        ensures
            vol == old(self).level(),
            0 <= vol <= 0x7FFF,
            0 <= final(self).level() <= 0x7FFF,
            (final(self).state(), final(self).level(), final(self).counter())
                == envelope_tick(old(self).state(), old(self).level(), old(self).counter(), old(self).flags()),
            final(self).flags() == old(self).flags(),
    {
        proof {
            use_type_invariant(&*self);
            lemma_adsr_fields(self.flags);
        }
        let vol = self.current_level;
        let f = self.flags;
        match self.current_state {
            State::Off => {},
            State::Attack => {
                let c = self.counter + 1;
                let base_cycles = rate_cycle_count((f >> 10) & 0x1F);
                let attack_cycles = if f & 0x8000 != 0 && self.current_level > 0x6000 {
                    base_cycles * 4
                } else {
                    base_cycles
                };
                if c >= attack_cycles {
                    let step = adsr_attack_step(f);
                    let sum = (self.current_level as i32) + (step as i32);
                    let level = if sum > 0x7FFF { 0x7FFF } else { sum as i16 };
                    self.current_level = level;
                    if level == 0x7FFF {
                        self.current_state = State::Decay;
                    }
                    self.counter = 0;
                } else {
                    self.counter = c;
                }
            },
            State::Decay => {
                let c = self.counter + 1;
                if c >= rate_cycle_count((f >> 4) & 0xF) {
                    let level = add_level_exec(self.current_level, adsr_decay_step(f));
                    let sustain = adsr_sustain_level(f);
                    if level <= sustain {
                        self.current_state = State::Sustain;
                        self.current_level = sustain;
                    } else {
                        self.current_level = level;
                    }
                    self.counter = 0;
                } else {
                    self.counter = c;
                }
            },
            State::Sustain => {
                let c = self.counter + 1;
                let base_cycles = rate_cycle_count((f >> 24) & 0x1F);
                let exponential = f & 0x8000_0000 != 0;
                let decrease = f & 0x4000_0000 != 0;
                let sustain_cycles = if exponential && !decrease && self.current_level > 0x6000 {
                    base_cycles * 4
                } else {
                    base_cycles
                };
                if c >= sustain_cycles {
                    let base_step = adsr_sustain_step(f);
                    let step = if exponential && decrease {
                        exp_step_exec(base_step, self.current_level)
                    } else {
                        base_step
                    };
                    self.current_level = add_level_exec(self.current_level, step);
                    self.counter = 0;
                } else {
                    self.counter = c;
                }
            },
            State::Release => {
                let c = self.counter + 1;
                if c >= rate_cycle_count((f >> 16) & 0x1F) {
                    let base_step = adsr_release_step(f);
                    let step = if f & 0x20_0000 != 0 {
                        exp_step_exec(base_step, self.current_level)
                    } else {
                        base_step
                    };
                    self.current_level = add_level_exec(self.current_level, step);
                    self.counter = 0;
                } else {
                    self.counter = c;
                }
            },
        }
        vol
    }

    /// Force into release mode.
    pub fn release(&mut self)
        ensures
            final(self).state() == State::Release,
            final(self).counter() == 0,
            final(self).level() == old(self).level(),
            final(self).flags() == old(self).flags(),
    {
        proof {
            use_type_invariant(&*self);
        }
        self.counter = 0;
        self.current_state = State::Release;
    }

    /// Release and force the envelope to 0.
    pub fn end(&mut self)
        ensures
            final(self).state() == State::Release,
            final(self).counter() == 0,
            final(self).level() == 0,
            final(self).flags() == old(self).flags(),
    {
        self.release();
        self.current_level = 0;
    }
}

/// An envelope tick keeps the level between 0 and 0x7FFF; the attack never
/// lowers the level and the release never raises it.
pub proof fn lemma_envelope_tick_level(state: State, level: int, counter: int, f: u32)
    requires
        0 <= level <= 0x7FFF,
    ensures
        0 <= envelope_tick(state, level, counter, f).1 <= 0x7FFF,
        state == State::Attack ==> envelope_tick(state, level, counter, f).1 >= level,
        state == State::Attack ==> envelope_tick(state, level, counter, f).0 == State::Attack
            || (envelope_tick(state, level, counter, f).0 == State::Decay && envelope_tick(state, level, counter, f).1 == 0x7FFF),
        state == State::Release ==> envelope_tick(state, level, counter, f).1 <= level,
        state == State::Release ==> envelope_tick(state, level, counter, f).0 == State::Release,
        state == State::Off ==> envelope_tick(state, level, counter, f) == (state, level, counter),
{
    lemma_adsr_fields(f);
    lemma_step_scale_pos(attack_shift(f));
    lemma_step_scale_pos(release_shift(f));
    lemma_step_scale_pos(sustain_shift(f));
    let rs = release_step(f);
    assert(rs * level / 32768 <= 0) by (nonlinear_arith)
        requires rs <= 0, level >= 0;
    let ss = sustain_step(f);
    let base = ((f >> 22) & 3) as int;
    let sc = step_scale(sustain_shift(f));
    assert((-8 + base) * sc <= 0) by (nonlinear_arith)
        requires base <= 3, sc >= 1;
    assert(sustain_decrease(f) ==> ss * level / 32768 <= 0) by (nonlinear_arith)
        requires sustain_decrease(f) ==> ss <= 0, level >= 0;
}

/// The envelope after `n` ticks from the given phase, level and counter.
pub open spec fn envelope_run(state: State, level: int, counter: int, f: u32, n: nat) -> (State, int, int)
    decreases n,
{
    if n == 0 {
        (state, level, counter)
    } else {
        let p = envelope_run(state, level, counter, f, (n - 1) as nat);
        envelope_tick(p.0, p.1, p.2, f)
    }
}

/// Over any number of ticks the level stays between 0 and 0x7FFF. During
/// the attack each tick keeps or raises the level, and the attack ends only
/// at 0x7FFF. Once released, the envelope stays in release and no tick
/// raises its level; released at level 0 (as `end` leaves it) it stays at 0.
/// An envelope that is off stays as it is.
pub proof fn lemma_envelope_run(state: State, level: int, counter: int, f: u32, n: nat)
    requires
        0 <= level <= 0x7FFF,
    ensures
        0 <= envelope_run(state, level, counter, f, n).1 <= 0x7FFF,
        envelope_run(state, level, counter, f, n).0 == State::Attack ==> {
            &&& envelope_run(state, level, counter, f, n + 1).1 >= envelope_run(state, level, counter, f, n).1
            &&& envelope_run(state, level, counter, f, n + 1).0 == State::Attack
                || envelope_run(state, level, counter, f, n + 1).1 == 0x7FFF
        },
        state == State::Release ==> {
            &&& envelope_run(state, level, counter, f, n).0 == State::Release
            &&& envelope_run(state, level, counter, f, n + 1).1 <= envelope_run(state, level, counter, f, n).1
            &&& envelope_run(state, level, counter, f, n).1 <= level
        },
        state == State::Release && level == 0 ==> envelope_run(state, level, counter, f, n).1 == 0,
        state == State::Off ==> envelope_run(state, level, counter, f, n) == (state, level, counter),
    decreases n,
{
    if n > 0 {
        lemma_envelope_run(state, level, counter, f, (n - 1) as nat);
        let p = envelope_run(state, level, counter, f, (n - 1) as nat);
        lemma_envelope_tick_level(p.0, p.1, p.2, f);
    }
    let q = envelope_run(state, level, counter, f, n);
    lemma_envelope_tick_level(q.0, q.1, q.2, f);
}

/// Each rate's step scale is at least 1.
proof fn lemma_step_scale_pos(shift: int)
    ensures
        step_scale(shift) >= 1,
{
    if shift < 11 {
        vstd::arithmetic::power2::lemma_pow2_pos((11 - shift) as nat);
    }
}

impl Default for ADSRGenerator {
    fn default() -> (r: Self)
        ensures
            r.state() == State::Off,
            r.level() == 0,
            r.counter() == 0,
            r.flags() == 0,
    {
        Self { current_state: State::Off, current_level: 0, counter: 0, flags: 0 }
    }
}

} // verus!
