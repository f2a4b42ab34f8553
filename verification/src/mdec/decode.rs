//! Decoding of one 8x8 block of a macroblock: run-length coefficients,
//! dequantisation in zig-zag order, and the inverse transform; and the
//! conversion of decoded blocks to pixels.

use vstd::prelude::*;
use crate::spu::adpcm::div_toward_zero;

verus! {

/// The padding word between blocks.
pub const PADDING: u16 = 0xFE00;

/// The position in zig-zag order of each coefficient.
pub open spec fn zagzig(i: int) -> int {
    seq![0, 1, 8, 16, 9, 2, 3, 10, 17, 24, 32, 25, 18, 11, 4, 5, 12, 19, 26, 33, 40, 48, 41, 34, 27, 20, 13, 6, 7, 14, 21, 28, 35, 42, 49, 56, 57, 50, 43, 36, 29, 22, 15, 23, 30, 37, 44, 51, 58, 59, 52, 45, 38, 31, 39, 46, 53, 60, 61, 54, 47, 55, 62, 63][i]
}

fn zagzig_exec(i: usize) -> (r: usize)
    requires
        i < 64,
    ensures
        r == zagzig(i as int),
        r < 64,
{
    let t: [usize; 64] = [0, 1, 8, 16, 9, 2, 3, 10, 17, 24, 32, 25, 18, 11, 4, 5, 12, 19, 26, 33, 40, 48, 41, 34, 27, 20, 13, 6, 7, 14, 21, 28, 35, 42, 49, 56, 57, 50, 43, 36, 29, 22, 15, 23, 30, 37, 44, 51, 58, 59, 52, 45, 38, 31, 39, 46, 53, 60, 61, 54, 47, 55, 62, 63];
    assert(t@ =~= seq![0, 1, 8, 16, 9, 2, 3, 10, 17, 24, 32, 25, 18, 11, 4, 5, 12, 19, 26, 33, 40, 48, 41, 34, 27, 20, 13, 6, 7, 14, 21, 28, 35, 42, 49, 56, 57, 50, 43, 36, 29, 22, 15, 23, 30, 37, 44, 51, 58, 59, 52, 45, 38, 31, 39, 46, 53, 60, 61, 54, 47, 55, 62, 63]);
    t[i]
}

/// The low 10 bits of `v`, as a signed number.
pub open spec fn sext10(v: u16) -> int {
    let x = (v & 0x3FF) as int;
    if x >= 512 { x - 1024 } else { x }
}

/// Sign-extend the low 10 bits.
pub fn sign_extend_10(val: u16) -> (r: i16)
    ensures
        r == sext10(val),
        -512 <= r <= 511,
{
    proof {
        crate::utils::bits::lemma_u16_low_bits(val);
    }
    let x = (val & 0x3FF) as i16;
    if x >= 512 { x - 1024 } else { x }
}

/// `v` clamped to `-0x400..=0x3FF`.
pub open spec fn clamp11(v: i16) -> i16 {
    if v < -0x400 { -0x400i16 } else if v > 0x3FF { 0x3FFi16 } else { v }
}

/// The first word at or after `p` that is not padding.
pub open spec fn skip_padding(f: Seq<u16>, p: int) -> int
    decreases f.len() - p,
{
    if 0 <= p < f.len() && f[p] == PADDING { skip_padding(f, p + 1) } else { p }
}

/// An AC coefficient, dequantised.
pub open spec fn ac_value(rel: int, q: u8, qf: int) -> i16 {
    clamp11(div_toward_zero(rel * q * qf + 4, 8) as i16)
}

/// The run-length coefficients from word `p` on, the last one at index
/// `idx`: the fifo position after the block, and the coefficients.
pub open spec fn coeff_run(f: Seq<u16>, p: int, idx: int, blk: Seq<i16>, qt: Seq<u8>, qf: int) -> (int, Seq<i16>)
    decreases f.len() - p,
{
    if p < 0 || p >= f.len() {
        (p, blk)
    } else {
        let d = f[p];
        let oi = idx + (d >> 10) + 1;
        if oi > 63 {
            (p + 1, blk)
        } else {
            let rel = sext10(d);
            let b = if qf == 0 {
                blk.update(oi, (rel * 2) as i16)
            } else {
                blk.update(zagzig(oi), ac_value(rel, qt[oi], qf))
            };
            coeff_run(f, p + 1, oi, b, qt, qf)
        }
    }
}

/// The block's DC coefficient cannot be dequantised: it overflows a halfword.
pub open spec fn dc_overflows(f: Seq<u16>, qt: Seq<u8>) -> bool {
    let p = skip_padding(f, 0);
    p < f.len() && f[p] >> 10 != 0 && !(-0x8000 <= sext10(f[p]) * qt[0] <= 0x7FFF)
}

/// The coefficients of the block at the front of `f` (before the inverse
/// transform), and where the block ends; `None` if no block is left.
pub open spec fn block_coeffs(f: Seq<u16>, qt: Seq<u8>) -> Option<(int, Seq<i16>)> {
    let p = skip_padding(f, 0);
    if p >= f.len() {
        None
    } else {
        let first = f[p];
        let qf = (first >> 10) as int;
        let dc = sext10(first);
        let zero = Seq::new(64, |i: int| 0i16);
        let b1 = if qf == 0 {
            zero.update(0, (dc * 2) as i16)
        } else {
            zero.update(0, clamp11((dc * qt[0]) as i16))
        };
        Some(coeff_run(f, p + 1, 0, b1, qt, qf))
    }
}

/// One term of the transform sum.
pub open spec fn idct_term(src: Seq<i16>, st: Seq<i16>, y: int, x: int, k: int) -> int {
    src[8 * k + y] * div_toward_zero(st[8 * k + x] as int, 8)
}

/// The first `k` terms of the transform sum for output `(x, y)`.
pub open spec fn idct_sum(src: Seq<i16>, st: Seq<i16>, y: int, x: int, k: int) -> int
    decreases k,
{
    if k <= 0 { 0 } else { idct_sum(src, st, y, x, k - 1) + idct_term(src, st, y, x, k - 1) }
}

/// One pass of the inverse transform: output `(x, y)` is the rounded sum
/// over `k` of input `(y, k)` times the scale entry `(x, k)` / 8.
pub open spec fn idct_pass(src: Seq<i16>, st: Seq<i16>) -> Seq<i16> {
    Seq::new(64, |i: int| (div_toward_zero(idct_sum(src, st, i / 8, i % 8, 8) + 0xFFF, 0x2000)) as i16)
}

/// The inverse transform: two passes.
pub open spec fn idct(blk: Seq<i16>, st: Seq<i16>) -> Seq<i16> {
    idct_pass(idct_pass(blk, st), st)
}

/// The first `k` terms stay within a range that an `i32` holds.
proof fn lemma_idct_sum_bound(src: Seq<i16>, st: Seq<i16>, y: int, x: int, k: int)
    requires
        0 <= k <= 8,
        0 <= y < 8,
        0 <= x < 8,
        src.len() == 64,
        st.len() == 64,
    ensures
        -k * 0x800_0000 <= idct_sum(src, st, y, x, k) <= k * 0x800_0000,
    decreases k,
{
    if k > 0 {
        lemma_idct_sum_bound(src, st, y, x, k - 1);
        let a = src[8 * (k - 1) + y] as int;
        let b = div_toward_zero(st[8 * (k - 1) + x] as int, 8);
        assert(-0x1000 <= b <= 0x1000);
        assert(-0x800_0000 <= a * b <= 0x800_0000) by (nonlinear_arith)
            requires -0x8000 <= a <= 0x7FFF, -0x1000 <= b <= 0x1000;
    }
}

/// One pass of the inverse transform.
fn idct_pass_exec(src: &[i16; 64], st: &[i16; 64], dst: &mut [i16; 64])
    ensures
        final(dst)@ == idct_pass(src@, st@),
{
    let mut i: usize = 0;
    while i < 64
        invariant
            0 <= i <= 64,
            dst@.len() == 64,
            forall|j: int| 0 <= j < i ==> #[trigger] dst@[j] == idct_pass(src@, st@)[j],
        decreases 64 - i,
    {
        let y = i / 8;
        let x = i % 8;
        let mut sum: i32 = 0;
        let mut k: usize = 0;
        while k < 8
            invariant
                0 <= k <= 8,
                y < 8,
                x < 8,
                sum == idct_sum(src@, st@, y as int, x as int, k as int),
            decreases 8 - k,
        {
            proof {
                lemma_idct_sum_bound(src@, st@, y as int, x as int, k as int);
                lemma_idct_sum_bound(src@, st@, y as int, x as int, k + 1);
            }
            let n = (src[8 * k + y] as i32) * (st[8 * k + x] as i32 / 8);
            sum = sum + n;
            k = k + 1;
        }
        proof {
            lemma_idct_sum_bound(src@, st@, y as int, x as int, 8);
        }
        dst[i] = ((sum + 0xFFF) / 0x2000) as i16;
        i = i + 1;
    }
    assert(dst@ =~= idct_pass(src@, st@));
}

/// Decode the block at the front of the fifo into `block_out`, consuming
/// its words and any padding before it; false when no block is left (the
/// padding is consumed all the same).
pub fn decode_block(data_in: &mut std::collections::VecDeque<u16>, quant_table: &[u8; 64], scale_table: &[i16; 64],
    block_out: &mut [i16; 64]) -> (r: bool)
    requires
        !dc_overflows(old(data_in)@, quant_table@),
    ensures
        match block_coeffs(old(data_in)@, quant_table@) {
            None => !r && final(data_in)@.len() == 0 && final(block_out)@ == old(block_out)@,
            Some((end, coeffs)) => r && final(data_in)@ == old(data_in)@.subrange(end, old(data_in)@.len() as int)
                && final(block_out)@ == idct(coeffs, scale_table@),
        },
{
    let ghost f = data_in@;
    let ghost mut p: int = 0;
    while data_in.len() > 0 && data_in[0] == PADDING
        invariant
            0 <= p <= f.len(),
            data_in@ == f.subrange(p, f.len() as int),
            skip_padding(f, 0) == skip_padding(f, p),
        decreases data_in@.len(),
    {
        let _ = data_in.pop_front();
        proof {
            p = p + 1;
        }
    }
    assert(skip_padding(f, p) == p);
    let first_data = match data_in.pop_front() {
        None => return false,
        Some(d) => d,
    };
    assert(first_data == f[p]);
    assert(data_in@ =~= f.subrange(p + 1, f.len() as int));
    let quant_factor = (first_data >> 10) as i32;
    let mut blk: [i16; 64] = [0; 64];
    assert(blk@ =~= Seq::new(64, |i: int| 0i16));
    let direct_current = sign_extend_10(first_data);
    if quant_factor == 0 {
        blk[0] = direct_current * 2;
    } else {
        let val = direct_current * quant_table[0] as i16;
        blk[0] = if val < -0x400 { -0x400 } else if val > 0x3FF { 0x3FF } else { val };
    }
    let ghost qf = quant_factor as int;
    proof {
        crate::utils::bits::lemma_u16_shr10(first_data);
    }
    let mut out_idx: usize = 0;
    let ghost mut q: int = p + 1;
    let mut done = false;
    while !done && data_in.len() > 0
        invariant
            0 <= p < q <= f.len(),
            skip_padding(f, 0) == p,
            data_in@ == f.subrange(q, f.len() as int),
            out_idx <= 63,
            0 <= qf < 64,
            quant_factor == qf,
            done ==> coeff_run(f, p + 1, 0, (if qf == 0 {
                Seq::new(64, |i: int| 0i16).update(0, (sext10(f[p]) * 2) as i16)
            } else {
                Seq::new(64, |i: int| 0i16).update(0, clamp11((sext10(f[p]) * quant_table@[0]) as i16))
            }), quant_table@, qf) == (q, blk@),
            !done ==> coeff_run(f, p + 1, 0, (if qf == 0 {
                Seq::new(64, |i: int| 0i16).update(0, (sext10(f[p]) * 2) as i16)
            } else {
                Seq::new(64, |i: int| 0i16).update(0, clamp11((sext10(f[p]) * quant_table@[0]) as i16))
            }), quant_table@, qf) == coeff_run(f, q, out_idx as int, blk@, quant_table@, qf),
        decreases data_in@.len(),
    {
        let data = data_in.pop_front().unwrap();
        proof {
            assert(data == f[q]);
            q = q + 1;
            assert(data_in@ =~= f.subrange(q, f.len() as int));
            crate::utils::bits::lemma_u16_shr10(data);
        }
        let skip = (data >> 10) as usize;
        let next = out_idx + skip + 1;
        if next > 63 {
            done = true;
        } else {
            out_idx = next;
            let relative = sign_extend_10(data);
            if quant_factor == 0 {
                blk[out_idx] = relative * 2;
            } else {
                proof {
                    let rq = relative * quant_table@[out_idx as int];
                    assert(-512 * 255 <= rq <= 511 * 255) by (nonlinear_arith)
                        requires -512 <= relative <= 511, 0 <= quant_table@[out_idx as int] <= 255, rq == relative * quant_table@[out_idx as int];
                    assert(-512 * 255 * 63 <= rq * quant_factor <= 511 * 255 * 63) by (nonlinear_arith)
                        requires -512 * 255 <= rq <= 511 * 255, 0 <= quant_factor < 64;
                }
                let val = ((relative as i32 * quant_table[out_idx] as i32 * quant_factor + 4) / 8) as i16;
                let z = zagzig_exec(out_idx);
                blk[z] = if val < -0x400 { -0x400 } else if val > 0x3FF { 0x3FF } else { val };
            }
        }
    }
    proof {
        if !done {
            assert(q == f.len());
        }
    }
    let mut temp: [i16; 64] = [0; 64];
    idct_pass_exec(&blk, scale_table, &mut temp);
    idct_pass_exec(&temp, scale_table, block_out);
    true
}

/// The low 9 bits of a halfword, as a signed number.
pub open spec fn sext9(v: i16) -> int {
    let x = ((v as u16) & 0x1FF) as int;
    if x >= 256 { x - 512 } else { x }
}

/// `c` saturated to a signed byte.
pub open spec fn clamp8(c: int) -> int {
    if c < -0x80 { -0x80 } else if c > 0x7F { 0x7F } else { c }
}

/// A signed byte, as the bits of an unsigned one; flipped to unsigned
/// (offset by 0x80) when `unsigned`.
pub open spec fn out_byte(c: int, unsigned: bool) -> u8 {
    let b = if c < 0 { (c + 256) as u8 } else { c as u8 };
    if unsigned { b ^ 0x80 } else { b }
}

/// A monochrome pixel from a luminance value: its low 9 bits, saturated.
pub open spec fn mono_pixel(v: i16, unsigned: bool) -> u8 {
    out_byte(clamp8(sext9(v)), unsigned)
}

fn out_byte_exec(c: i16, unsigned: bool) -> (r: u8)
    requires
        -0x80 <= c <= 0x7F,
    ensures
        r == out_byte(c as int, unsigned),
{
    let b = if c < 0 { (c + 256) as u8 } else { c as u8 };
    if unsigned { b ^ 0x80 } else { b }
}

/// Output a block of luminance as monochrome pixels.
pub fn y_to_mono(block: &[i16; 64], unsigned: bool) -> (out: [u8; 64])
    ensures
        forall|i: int| 0 <= i < 64 ==> #[trigger] out@[i] == mono_pixel(block@[i], unsigned),
{
    let mut out: [u8; 64] = [0; 64];
    let mut i: usize = 0;
    while i < 64
        invariant
            0 <= i <= 64,
            out@.len() == 64,
            forall|j: int| 0 <= j < i ==> #[trigger] out@[j] == mono_pixel(block@[j], unsigned),
        decreases 64 - i,
    {
        let v = block[i];
        proof {
            crate::utils::bits::lemma_u16_low_bits(v as u16);
        }
        let x = ((v as u16) & 0x1FF) as i16;
        let y = if x >= 256 { x - 512 } else { x };
        let c = if y < -0x80 { -0x80 } else if y > 0x7F { 0x7F } else { y };
        out[i] = out_byte_exec(c, unsigned);
        i = i + 1;
    }
    out
}

/// The index in the chrominance blocks of pixel `(x, y)` of the quarter at
/// `(x_offset, y_offset)`.
pub open spec fn chroma_index(x: int, y: int, x_offset: int, y_offset: int) -> int {
    ((y + y_offset) / 2) * 8 + (x + x_offset) / 2
}

/// The red, green and blue offsets of a pair of chrominance values.
pub open spec fn chroma_rgb(cr: int, cb: int) -> (int, int, int) {
    ((cr * 0x166E) / 4096, (cb * -0x57F + cr * -0xB6D) / 4096, (cb * 0x1C5A) / 4096)
}

/// A colour channel: the offset, cut to a halfword, plus the luminance.
pub open spec fn channel_sum(offset: int, lum: i16) -> int {
    (offset as i16) + lum
}

/// The colour channels of pixel `i` of a block.
pub open spec fn pixel_sums(lum: Seq<i16>, cr: Seq<i16>, cb: Seq<i16>, x_offset: int, y_offset: int, i: int) -> (int, int, int) {
    let c = chroma_index(i % 8, i / 8, x_offset, y_offset);
    let (r, g, b) = chroma_rgb(cr[c] as int, cb[c] as int);
    (channel_sum(r, lum[i]), channel_sum(g, lum[i]), channel_sum(b, lum[i]))
}

/// A sum that fits a halfword.
pub open spec fn fits16(v: int) -> bool {
    -0x8000 <= v <= 0x7FFF
}

/// No colour channel of the block overflows a halfword.
pub open spec fn rgb_fits(lum: Seq<i16>, cr: Seq<i16>, cb: Seq<i16>, x_offset: int, y_offset: int) -> bool {
    forall|i: int| 0 <= i < 64 ==> {
        let (r, g, b) = #[trigger] pixel_sums(lum, cr, cb, x_offset, y_offset, i);
        fits16(r) && fits16(g) && fits16(b)
    }
}

/// Byte `k` (of 192) of the colour output of a block.
pub open spec fn rgb_byte(lum: Seq<i16>, cr: Seq<i16>, cb: Seq<i16>, unsigned: bool, x_offset: int, y_offset: int, k: int) -> u8 {
    let (r, g, b) = pixel_sums(lum, cr, cb, x_offset, y_offset, k / 3);
    let c = if k % 3 == 0 { r } else if k % 3 == 1 { g } else { b };
    out_byte(clamp8(c), unsigned)
}

/// Combine luminance and chrominance blocks to form 8-bit RGB output;
/// `None` where a channel overflows a halfword.
pub fn yuv_to_rgb(lum: &[i16; 64], cr: &[i16; 64], cb: &[i16; 64], unsigned: bool, x_offset: usize, y_offset: usize)
    -> (r: Option<[u8; 192]>)
    requires
        x_offset <= 8,
        y_offset <= 8,
    ensures
        r is None <==> !rgb_fits(lum@, cr@, cb@, x_offset as int, y_offset as int),
        r matches Some(out) ==> forall|k: int| 0 <= k < 192 ==> #[trigger] out@[k] == rgb_byte(lum@, cr@, cb@,
            unsigned, x_offset as int, y_offset as int, k),
{
    let mut out: [u8; 192] = [0; 192];
    let mut i: usize = 0;
    while i < 64
        invariant
            0 <= i <= 64,
            x_offset <= 8,
            y_offset <= 8,
            out@.len() == 192,
            forall|j: int| 0 <= j < i ==> {
                let (r, g, b) = #[trigger] pixel_sums(lum@, cr@, cb@, x_offset as int, y_offset as int, j);
                fits16(r) && fits16(g) && fits16(b)
            },
            forall|k: int| 0 <= k < 3 * i ==> #[trigger] out@[k] == rgb_byte(lum@, cr@, cb@, unsigned,
                x_offset as int, y_offset as int, k),
        decreases 64 - i,
    {
        let x = i % 8;
        let y = i / 8;
        let yy = y + y_offset;
        let xx = x + x_offset;
        proof {
            crate::utils::bits::lemma_usize_shr1(yy);
            crate::utils::bits::lemma_usize_shr1(xx);
        }
        let c = (yy >> 1) * 8 + (xx >> 1);
        proof {
            assert(i as int == 8 * y + x);
        }
        let cr_val = cr[c] as i32;
        let cb_val = cb[c] as i32;
        let pr = cr_val * 0x166E;
        let pg = -(cb_val * 0x57F) - cr_val * 0xB6D;
        let pb = cb_val * 0x1C5A;
        proof {
            crate::utils::bits::lemma_shr_is_div_i32(pr);
            crate::utils::bits::lemma_shr_is_div_i32(pg);
            crate::utils::bits::lemma_shr_is_div_i32(pb);
        }
        let r = pr >> 12;
        let g = pg >> 12;
        let b = pb >> 12;
        let y_val = lum[i] as i32;
        let rs = (r as i16) as i32 + y_val;
        let gs = (g as i16) as i32 + y_val;
        let bs = (b as i16) as i32 + y_val;
        if rs < -0x8000 || rs > 0x7FFF || gs < -0x8000 || gs > 0x7FFF || bs < -0x8000 || bs > 0x7FFF {
            proof {
                assert(!fits16(pixel_sums(lum@, cr@, cb@, x_offset as int, y_offset as int, i as int).0)
                    || !fits16(pixel_sums(lum@, cr@, cb@, x_offset as int, y_offset as int, i as int).1)
                    || !fits16(pixel_sums(lum@, cr@, cb@, x_offset as int, y_offset as int, i as int).2));
            }
            return None;
        }
        let rc = if rs < -0x80 { -0x80 } else if rs > 0x7F { 0x7F } else { rs };
        let gc = if gs < -0x80 { -0x80 } else if gs > 0x7F { 0x7F } else { gs };
        let bc = if bs < -0x80 { -0x80 } else if bs > 0x7F { 0x7F } else { bs };
        let out_idx = i * 3;
        out[out_idx] = out_byte_exec(rc as i16, unsigned);
        out[out_idx + 1] = out_byte_exec(gc as i16, unsigned);
        out[out_idx + 2] = out_byte_exec(bc as i16, unsigned);
        proof {
            assert forall|k: int| 3 * i <= k < 3 * i + 3 implies #[trigger] out@[k] == rgb_byte(lum@, cr@, cb@, unsigned,
                x_offset as int, y_offset as int, k) by {
                assert(k / 3 == i as int);
            }
        }
        i = i + 1;
    }
    Some(out)
}

/// The colour offsets of a pair of chrominance values leave the luminance
/// Y = 0.299 R + 0.587 G + 0.114 B unchanged, but for the rounding: in
/// thousandths, the weighted sum of the three offsets is zero up to 117/4096
/// of Cr and 1503/4096 of Cb (the rounding of the four constants) and less
/// than one for the rounding down of each offset. Red depends on Cr alone
/// and blue on Cb alone.
pub proof fn lemma_chroma_keeps_luminance(cr: int, cb: int, cr2: int, cb2: int)
    ensures
        -4096000 < 4096 * (299 * chroma_rgb(cr, cb).0 + 587 * chroma_rgb(cr, cb).1 + 114 * chroma_rgb(cr, cb).2)
            + 117 * cr - 1503 * cb <= 0,
        chroma_rgb(cr, cb).0 == chroma_rgb(cr, cb2).0,
        chroma_rgb(cr, cb).2 == chroma_rgb(cr2, cb).2,
{
}

/// The same of each pixel of a colour block: where its chrominance values
/// lie within 0x4000 of zero, the three colour channels less the
/// luminance weigh to nothing in the luminance, up to the same rounding.
pub proof fn lemma_pixel_keeps_luminance(
    lum: Seq<i16>, cr: Seq<i16>, cb: Seq<i16>, x_offset: int, y_offset: int, i: int,
)
    requires
        0 <= i < 64,
        -0x4000 <= cr[chroma_index(i % 8, i / 8, x_offset, y_offset)] <= 0x4000,
        -0x4000 <= cb[chroma_index(i % 8, i / 8, x_offset, y_offset)] <= 0x4000,
    ensures
        ({
            let c = chroma_index(i % 8, i / 8, x_offset, y_offset);
            let (r, g, b) = pixel_sums(lum, cr, cb, x_offset, y_offset, i);
            let y = lum[i] as int;
            -4096000 < 4096 * (299 * (r - y) + 587 * (g - y) + 114 * (b - y)) + 117 * cr[c] - 1503 * cb[c] <= 0
        }),
{
    let c = chroma_index(i % 8, i / 8, x_offset, y_offset);
    lemma_chroma_keeps_luminance(cr[c] as int, cb[c] as int, 0, 0);
}

/// Padding is skipped within the input.
pub proof fn lemma_skip_padding(f: Seq<u16>, p: int)
    requires
        0 <= p,
    ensures
        p <= f.len() ==> p <= skip_padding(f, p) <= f.len(),
    decreases f.len() - p,
{
    if 0 <= p < f.len() && f[p] == PADDING {
        lemma_skip_padding(f, p + 1);
    }
}

/// A run of coefficients ends within the input, after where it starts.
pub proof fn lemma_coeff_run(f: Seq<u16>, p: int, idx: int, blk: Seq<i16>, qt: Seq<u8>, qf: int)
    requires
        0 <= p <= f.len(),
    ensures
        p <= coeff_run(f, p, idx, blk, qt, qf).0 <= f.len(),
    decreases f.len() - p,
{
    if p < f.len() {
        let d = f[p];
        let oi = idx + (d >> 10) + 1;
        if oi <= 63 {
            let rel = sext10(d);
            let b = if qf == 0 {
                blk.update(oi, (rel * 2) as i16)
            } else {
                blk.update(zagzig(oi), ac_value(rel, qt[oi], qf))
            };
            lemma_coeff_run(f, p + 1, oi, b, qt, qf);
        }
    }
}

} // verus!
