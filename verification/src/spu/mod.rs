//! Sound processing unit: sample decoding, envelopes, volume sweeps and reverb.

pub mod adpcm;
pub mod adsr;
pub mod sweep;
pub mod reverb;
pub mod voice;
pub mod unit;

pub use unit::SPU;

use vstd::prelude::*;
use vstd::arithmetic::power2::{pow2, lemma2_to64, lemma_pow2_strictly_increases, lemma_pow2_pos};
use vstd::bits::{lemma_u32_shl_is_mul, lemma_u32_pow2_no_overflow};

verus! {

/// A pair of volume registers, one per side.
pub struct StereoVolume {
    pub left: u16,
    pub right: u16,
}

/// `x` saturated to the range of `i16`.
pub open spec fn clamp_i16(x: int) -> i16 {
    if x < -0x8000 {
        -0x8000i16
    } else if x > 0x7FFF {
        0x7FFFi16
    } else {
        x as i16
    }
}

/// The factor `2^max(11 - shift, 0)` by which the step of an envelope or
/// sweep with rate `shift` is scaled.
pub open spec fn step_scale(shift: int) -> int {
    if shift < 11 {
        pow2((11 - shift) as nat) as int
    } else {
        1
    }
}

/// The number `2^max(shift - 11, 0)` of ticks between two steps of an
/// envelope or sweep with rate `shift`.
pub open spec fn rate_cycles(shift: int) -> int {
    if shift > 11 {
        pow2((shift - 11) as nat) as int
    } else {
        1
    }
}

/// `2^k`, for a small `k`.
fn pow2_small(k: u32) -> (r: u32)
    requires
        k <= 20,
    ensures
        r == pow2(k as nat),
        1 <= r <= 0x10_0000,
{
    proof {
        lemma_u32_pow2_no_overflow(k as nat);
        lemma_u32_shl_is_mul(1, k);
        lemma2_to64();
        lemma_pow2_pos(k as nat);
        if k < 20 {
            lemma_pow2_strictly_increases(k as nat, 20);
        }
    }
    1u32 << k
}

/// The step scale for a rate shift below 32.
pub fn rate_step_scale(shift: u32) -> (r: i32)
    requires
        shift < 32,
    ensures
        r == step_scale(shift as int),
        1 <= r <= 2048,
{
    if shift < 11 {
        proof {
            lemma2_to64();
            if 11 - shift < 11 {
                lemma_pow2_strictly_increases((11 - shift) as nat, 11);
            }
        }
        pow2_small(11 - shift) as i32
    } else {
        1
    }
}

/// The number of ticks between steps for a rate shift below 32.
pub fn rate_cycle_count(shift: u32) -> (r: usize)
    requires
        shift < 32,
    ensures
        r == rate_cycles(shift as int),
        1 <= r <= 0x10_0000,
{
    if shift > 11 {
        pow2_small(shift - 11) as usize
    } else {
        1
    }
}

} // verus!
