use vstd::prelude::*;
use crate::utils::bits::{lemma_shr_is_div_i32, lemma_masked_fields};
use super::StereoVolume;

verus! {

/// An address `offset` bytes past the buffer position `addr`, wrapped back
/// into a reverb buffer of `size` bytes that ends at the top of sound RAM.
pub open spec fn buffer_offset(addr: int, size: int, offset: int) -> int {
    let a = addr + offset;
    if a > 0x7FFFF { a - size } else { a }
}

/// A sample register value times a volume register value, both signed,
/// in 32768ths and rounded down.
pub open spec fn scaled(sample: u16, vol: u16) -> int {
    ((sample as i16) as int * (vol as i16) as int) / 32768
}

/// `x` saturated to the range of a signed halfword.
pub open spec fn clamp_sample(x: int) -> int {
    if x < -0x8000 { -0x8000 } else if x > 0x7FFF { 0x7FFF } else { x }
}

/// The position in the reverb work area of sound RAM, and the size of that area.
pub struct ReverbBuffer {
    addr: u32,
    size: u32,
}

impl ReverbBuffer {
    #[verifier::type_invariant]
    spec fn inv(self) -> bool {
        self.addr <= 0x7FFFF && self.size <= 0x80000
    }

    /// The position, in bytes.
    pub closed spec fn addr(&self) -> int {
        self.addr as int
    }

    /// The size of the area, in bytes.
    pub closed spec fn size(&self) -> int {
        self.size as int
    }
}

/// A signed halfword times a signed halfword, in 32768ths, rounded down.
fn scale_sample(sample: u16, vol: u16) -> (r: i32)
    ensures
        r == scaled(sample, vol),
        -0x8000 <= r <= 0x8000,
{
    let s = sample as i16 as i32;
    let v = vol as i16 as i32;
    proof {
        assert(-0x8000 * 0x7FFF <= s * v <= 0x8000 * 0x8000) by (nonlinear_arith)
            requires -0x8000 <= s <= 0x7FFF, -0x8000 <= v <= 0x7FFF;
    }
    let p = s * v;
    proof {
        lemma_shr_is_div_i32(p);
    }
    p >> 15
}

/// SPU reverb registers.
pub struct ReverbUnit {
    pub output_vol: StereoVolume,
    pub base_addr: u16,
    pub apf_offset: [u16; 2],
    pub apf_vol: [u16; 2],
    pub apf_addr_left: [u16; 2],
    pub apf_addr_right: [u16; 2],
    pub impulse_response: u16,
    pub wall_response: u16,
    pub comb_vol: [u16; 4],
    pub comb_addr_left: [u16; 4],
    pub comb_addr_right: [u16; 4],
    pub same_side_reflect_addr_left: [u16; 2],
    pub same_side_reflect_addr_right: [u16; 2],
    pub diff_side_reflect_addr_left: [u16; 2],
    pub diff_side_reflect_addr_right: [u16; 2],
    pub input_vol: StereoVolume,
    pub buffer: ReverbBuffer,
}

impl ReverbUnit {
    /// Every register of `self` but the work area's start (`base_addr`)
    /// holds what it holds in `other`.
    pub open spec fn same_registers(self, other: Self) -> bool {
        &&& self.output_vol == other.output_vol
        &&& self.apf_offset == other.apf_offset
        &&& self.apf_vol == other.apf_vol
        &&& self.apf_addr_left == other.apf_addr_left
        &&& self.apf_addr_right == other.apf_addr_right
        &&& self.impulse_response == other.impulse_response
        &&& self.wall_response == other.wall_response
        &&& self.comb_vol == other.comb_vol
        &&& self.comb_addr_left == other.comb_addr_left
        &&& self.comb_addr_right == other.comb_addr_right
        &&& self.same_side_reflect_addr_left == other.same_side_reflect_addr_left
        &&& self.same_side_reflect_addr_right == other.same_side_reflect_addr_right
        &&& self.diff_side_reflect_addr_left == other.diff_side_reflect_addr_left
        &&& self.diff_side_reflect_addr_right == other.diff_side_reflect_addr_right
        &&& self.input_vol == other.input_vol
    }

    /// The current position in the work area, in bytes.
    pub open spec fn buffer_addr(&self) -> int {
        self.buffer.addr()
    }

    /// The size of the work area, in bytes.
    pub open spec fn buffer_size(&self) -> int {
        self.buffer.size()
    }

    /// The position of register value `reg` (in units of 8 bytes) from the
    /// current position, wrapped into the work area.
    pub open spec fn offset_of(&self, reg: u16) -> int {
        buffer_offset(self.buffer_addr(), self.buffer_size(), reg * 8)
    }

    /// The halfword before the position of register value `reg`.
    pub open spec fn prev_offset_of(&self, reg: u16) -> int {
        buffer_offset(self.buffer_addr(), self.buffer_size(), reg * 8 - 2)
    }

    /// The position of `reg` is at least a halfword into sound RAM, so the
    /// halfword before it exists.
    pub open spec fn has_prev(&self, reg: u16) -> bool {
        self.buffer_addr() + reg * 8 >= 2
    }

    fn offset_addr(&self, addr: u16) -> (r: u32)
        ensures
            r == self.offset_of(addr),
    {
        proof {
            use_type_invariant(&self.buffer);
        }
        let a = self.buffer.addr + (addr as u32) * 8;
        if a > 0x7FFFF {
            a - self.buffer.size
        } else {
            a
        }
    }

    fn offset_prev_addr(&self, addr: u16) -> (r: u32)
        requires
            self.has_prev(addr),
        ensures
            r == self.prev_offset_of(addr),
    {
        proof {
            use_type_invariant(&self.buffer);
        }
        let a = self.buffer.addr + (addr as u32) * 8 - 2;
        if a > 0x7FFFF {
            a - self.buffer.size
        } else {
            a
        }
    }

    /// Set the start of the work area, which then reaches to the end of
    /// sound RAM, and move to its start.
    pub fn set_base_addr(&mut self, addr: u16)
        ensures
            final(self).base_addr == addr,
            final(self).same_registers(*old(self)),
            final(self).buffer_size() == 0x80000 - addr * 8,
            final(self).buffer_addr() == addr * 8,
    {
        self.base_addr = addr;
        self.buffer = ReverbBuffer { addr: (addr as u32) * 8, size: 0x80000 - (addr as u32) * 8 };
    }

    /// Move to the start of the work area.
    pub fn reset_buffer_addr(&mut self)
        ensures
            final(self).base_addr == old(self).base_addr,
            final(self).same_registers(*old(self)),
            final(self).buffer_size() == old(self).buffer_size(),
            final(self).buffer_addr() == old(self).base_addr * 8,
    {
        proof {
            use_type_invariant(&self.buffer);
        }
        self.buffer = ReverbBuffer { addr: (self.base_addr as u32) * 8, size: self.buffer.size };
    }

    /// Move a halfword on, wrapping from the end of sound RAM to the start
    /// of the work area.
    pub fn inc_buffer_addr(&mut self)
        ensures
            final(self).base_addr == old(self).base_addr,
            final(self).same_registers(*old(self)),
            final(self).buffer_size() == old(self).buffer_size(),
            final(self).buffer_addr() == (if (old(self).buffer_addr() + 2) % 0x80000 < old(self).base_addr * 8 {
                old(self).base_addr * 8
            } else {
                (old(self).buffer_addr() + 2) % 0x80000
            }),
    {
        proof {
            use_type_invariant(&self.buffer);
        }
        let start_addr = (self.base_addr as u32) * 8;
        let sum = self.buffer.addr + 2;
        proof {
            lemma_masked_fields(sum);
        }
        let next = sum & 0x7FFFF;
        let addr = if next < start_addr { start_addr } else { next };
        self.buffer = ReverbBuffer { addr, size: self.buffer.size };
    }

    /// Left-side same-side reflection addresses (m, d, m); the final m is written back to.
    pub fn same_side_addr_left(&self) -> (r: (u32, u32, u32))
        requires
            self.has_prev(self.same_side_reflect_addr_left[0]),
        ensures
            r == (self.prev_offset_of(self.same_side_reflect_addr_left[0]) as u32,
                self.offset_of(self.same_side_reflect_addr_left[1]) as u32,
                self.offset_of(self.same_side_reflect_addr_left[0]) as u32),
    {
        (self.offset_prev_addr(self.same_side_reflect_addr_left[0]),
            self.offset_addr(self.same_side_reflect_addr_left[1]),
            self.offset_addr(self.same_side_reflect_addr_left[0]))
    }

    /// Right-side same-side reflection addresses (m, d, m); the final m is written back to.
    pub fn same_side_addr_right(&self) -> (r: (u32, u32, u32))
        requires
            self.has_prev(self.same_side_reflect_addr_right[0]),
        ensures
            r == (self.prev_offset_of(self.same_side_reflect_addr_right[0]) as u32,
                self.offset_of(self.same_side_reflect_addr_right[1]) as u32,
                self.offset_of(self.same_side_reflect_addr_right[0]) as u32),
    {
        (self.offset_prev_addr(self.same_side_reflect_addr_right[0]),
            self.offset_addr(self.same_side_reflect_addr_right[1]),
            self.offset_addr(self.same_side_reflect_addr_right[0]))
    }

    /// Left-side different-side reflection addresses (m, d, m); the final m is written back to.
    pub fn diff_side_addr_left(&self) -> (r: (u32, u32, u32))
        requires
            self.has_prev(self.diff_side_reflect_addr_left[0]),
        ensures
            r == (self.prev_offset_of(self.diff_side_reflect_addr_left[0]) as u32,
                self.offset_of(self.diff_side_reflect_addr_left[1]) as u32,
                self.offset_of(self.diff_side_reflect_addr_left[0]) as u32),
    {
        (self.offset_prev_addr(self.diff_side_reflect_addr_left[0]),
            self.offset_addr(self.diff_side_reflect_addr_left[1]),
            self.offset_addr(self.diff_side_reflect_addr_left[0]))
    }

    /// Right-side different-side reflection addresses (m, d, m); the final m is written back to.
    pub fn diff_side_addr_right(&self) -> (r: (u32, u32, u32))
        requires
            self.has_prev(self.diff_side_reflect_addr_right[0]),
        ensures
            r == (self.prev_offset_of(self.diff_side_reflect_addr_right[0]) as u32,
                self.offset_of(self.diff_side_reflect_addr_right[1]) as u32,
                self.offset_of(self.diff_side_reflect_addr_right[0]) as u32),
    {
        (self.offset_prev_addr(self.diff_side_reflect_addr_right[0]),
            self.offset_addr(self.diff_side_reflect_addr_right[1]),
            self.offset_addr(self.diff_side_reflect_addr_right[0]))
    }

    /// The reflection written back: the input plus the wall-filtered `d`,
    /// less `m`, filtered by the impulse response and added to `m`,
    /// saturated to a signed halfword.
    pub open spec fn reverb_input(&self, input: int, d_val: u16, m_val: u16) -> int {
        let m = (m_val as i16) as int;
        let inner = input + scaled(d_val, self.wall_response) - m;
        clamp_sample((inner * (self.impulse_response as i16) as int) / 32768 + m)
    }

    pub fn apply_reverb_input(&self, input: i32, d_val: u16, m_val: u16) -> (r: u16)
        requires
            i32::MIN <= input + scaled(d_val, self.wall_response) - (m_val as i16) as int <= i32::MAX,
            i32::MIN <= (input + scaled(d_val, self.wall_response) - (m_val as i16) as int)
                * (self.impulse_response as i16) as int <= i32::MAX,
        ensures
            r == self.reverb_input(input as int, d_val, m_val) as u16,
    {
        let impulse_response = self.impulse_response as i16 as i32;
        let m = m_val as i16 as i32;
        let d = scale_sample(d_val, self.wall_response);
        let inner = input + (d - m);
        let p = inner * impulse_response;
        proof {
            lemma_shr_is_div_i32(p);
        }
        let q = p >> 15;
        let out = q + m;
        let c = if out < -0x8000 { -0x8000 } else if out > 0x7FFF { 0x7FFF } else { out };
        c as u16
    }

    /// Comb filter addresses of the left side.
    pub fn comb_filter_addr_left(&self) -> (r: [u32; 4])
        ensures
            forall|n: int| 0 <= n < 4 ==> r@[n] == self.offset_of(self.comb_addr_left[n]),
    {
        [self.offset_addr(self.comb_addr_left[0]), self.offset_addr(self.comb_addr_left[1]),
            self.offset_addr(self.comb_addr_left[2]), self.offset_addr(self.comb_addr_left[3])]
    }

    /// Comb filter addresses of the right side.
    pub fn comb_filter_addr_right(&self) -> (r: [u32; 4])
        ensures
            forall|n: int| 0 <= n < 4 ==> r@[n] == self.offset_of(self.comb_addr_right[n]),
    {
        [self.offset_addr(self.comb_addr_right[0]), self.offset_addr(self.comb_addr_right[1]),
            self.offset_addr(self.comb_addr_right[2]), self.offset_addr(self.comb_addr_right[3])]
    }

    /// The comb filter: the four values scaled by their volumes and summed,
    /// saturated to a signed halfword.
    pub open spec fn comb_filter(&self, vals: Seq<u16>) -> int {
        clamp_sample(scaled(vals[0], self.comb_vol[0]) + scaled(vals[1], self.comb_vol[1])
            + scaled(vals[2], self.comb_vol[2]) + scaled(vals[3], self.comb_vol[3]))
    }

    pub fn apply_comb_filter(&self, comb_val: &[u16]) -> (r: i32)
        requires
            comb_val@.len() >= 4,
        ensures
            r == self.comb_filter(comb_val@),
    {
        let acc = scale_sample(comb_val[0], self.comb_vol[0]) + scale_sample(comb_val[1], self.comb_vol[1])
            + scale_sample(comb_val[2], self.comb_vol[2]) + scale_sample(comb_val[3], self.comb_vol[3]);
        if acc < -0x8000 { -0x8000 } else if acc > 0x7FFF { 0x7FFF } else { acc }
    }

    /// All-pass filter source address `n` of the left side.
    pub fn apf_src_addr_left(&self, n: usize) -> (r: u32)
        requires
            n < 2,
            self.apf_addr_left[n as int] >= self.apf_offset[n as int],
        ensures
            r == self.offset_of((self.apf_addr_left[n as int] - self.apf_offset[n as int]) as u16),
    {
        self.offset_addr(self.apf_addr_left[n] - self.apf_offset[n])
    }

    /// All-pass filter source address `n` of the right side.
    pub fn apf_src_addr_right(&self, n: usize) -> (r: u32)
        requires
            n < 2,
            self.apf_addr_right[n as int] >= self.apf_offset[n as int],
        ensures
            r == self.offset_of((self.apf_addr_right[n as int] - self.apf_offset[n as int]) as u16),
    {
        self.offset_addr(self.apf_addr_right[n] - self.apf_offset[n])
    }

    /// All-pass filter destination address `n` of the left side.
    pub fn apf_dst_addr_left(&self, n: usize) -> (r: u32)
        requires
            n < 2,
        ensures
            r == self.offset_of(self.apf_addr_left[n as int]),
    {
        self.offset_addr(self.apf_addr_left[n])
    }

    /// All-pass filter destination address `n` of the right side.
    pub fn apf_dst_addr_right(&self, n: usize) -> (r: u32)
        requires
            n < 2,
        ensures
            r == self.offset_of(self.apf_addr_right[n as int]),
    {
        self.offset_addr(self.apf_addr_right[n])
    }

    /// All-pass filter `n`: `data` scaled by its signed volume, in 32768ths,
    /// rounded down.
    pub fn apply_apf(&self, data: i32, n: usize) -> (r: i32)
        requires
            n < 2,
            i32::MIN <= data * (self.apf_vol[n as int] as i16) as int <= i32::MAX,
        ensures
            r == (data * (self.apf_vol[n as int] as i16) as int) / 32768,
    {
        let vol = self.apf_vol[n] as i16 as i32;
        let p = data * vol;
        proof {
            lemma_shr_is_div_i32(p);
        }
        p >> 15
    }
}

impl Default for ReverbUnit {
    fn default() -> (r: Self)
        ensures
            r.output_vol == (StereoVolume { left: 0, right: 0 }),
            r.base_addr == 0,
            r.apf_offset@ == seq![0u16, 0],
            r.apf_vol@ == seq![0u16, 0],
            r.apf_addr_left@ == seq![0u16, 0],
            r.apf_addr_right@ == seq![0u16, 0],
            r.impulse_response == 0,
            r.wall_response == 0,
            r.comb_vol@ == seq![0u16, 0, 0, 0],
            r.comb_addr_left@ == seq![0u16, 0, 0, 0],
            r.comb_addr_right@ == seq![0u16, 0, 0, 0],
            r.same_side_reflect_addr_left@ == seq![0u16, 0],
            r.same_side_reflect_addr_right@ == seq![0u16, 0],
            r.diff_side_reflect_addr_left@ == seq![0u16, 0],
            r.diff_side_reflect_addr_right@ == seq![0u16, 0],
            r.input_vol == (StereoVolume { left: 0, right: 0 }),
            r.buffer_addr() == 0,
            r.buffer_size() == 0,
    {
        ReverbUnit {
            output_vol: StereoVolume { left: 0, right: 0 },
            base_addr: 0,
            apf_offset: [0; 2],
            apf_vol: [0; 2],
            apf_addr_left: [0; 2],
            apf_addr_right: [0; 2],
            impulse_response: 0,
            wall_response: 0,
            comb_vol: [0; 4],
            comb_addr_left: [0; 4],
            comb_addr_right: [0; 4],
            same_side_reflect_addr_left: [0; 2],
            same_side_reflect_addr_right: [0; 2],
            diff_side_reflect_addr_left: [0; 2],
            diff_side_reflect_addr_right: [0; 2],
            input_vol: StereoVolume { left: 0, right: 0 },
            buffer: ReverbBuffer { addr: 0, size: 0 },
        }
    }
}

} // verus!
