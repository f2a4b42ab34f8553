use vstd::prelude::*;
use vstd::std_specs::bits::{u32_leading_ones, u32_leading_zeros};
use crate::utils::bits::{lemma_shr_is_div, lemma_masked_fields};

verus! {

// Data register indices.
pub const VXY0: usize = 0;
pub const VZ0: usize = 1;
pub const VXY1: usize = 2;
pub const VZ1: usize = 3;
pub const VXY2: usize = 4;
pub const VZ2: usize = 5;
pub const RGBC: usize = 6;
pub const OTZ: usize = 7;
pub const IR0: usize = 8;
pub const IR1: usize = 9;
pub const IR2: usize = 10;
pub const IR3: usize = 11;
pub const SXY0: usize = 12;
pub const SXY1: usize = 13;
pub const SXY2: usize = 14;
pub const SXYP: usize = 15;
pub const SZ0: usize = 16;
pub const SZ1: usize = 17;
pub const SZ2: usize = 18;
pub const SZ3: usize = 19;
pub const RGB0: usize = 20;
pub const RGB1: usize = 21;
pub const RGB2: usize = 22;
pub const RES1: usize = 23;
pub const MAC0: usize = 24;
pub const MAC1: usize = 25;
pub const MAC2: usize = 26;
pub const MAC3: usize = 27;
pub const IRGB: usize = 28;
pub const ORGB: usize = 29;
pub const LZCS: usize = 30;
pub const LZCR: usize = 31;

// Control register indices.
pub const RT11_12: usize = 0;
pub const RT13_21: usize = 1;
pub const RT22_23: usize = 2;
pub const RT31_32: usize = 3;
pub const RT33: usize = 4;
pub const TRX: usize = 5;
pub const TRY: usize = 6;
pub const TRZ: usize = 7;
pub const L11_12: usize = 8;
pub const L13_21: usize = 9;
pub const L22_23: usize = 10;
pub const L31_32: usize = 11;
pub const L33: usize = 12;
pub const RBK: usize = 13;
pub const GBK: usize = 14;
pub const BBK: usize = 15;
pub const LR1R2: usize = 16;
pub const LR3G1: usize = 17;
pub const LG2G3: usize = 18;
pub const LB1B2: usize = 19;
pub const LB3: usize = 20;
pub const RFC: usize = 21;
pub const GFC: usize = 22;
pub const BFC: usize = 23;
pub const OFX: usize = 24;
pub const OFY: usize = 25;
pub const H: usize = 26;
pub const DQA: usize = 27;
pub const DQB: usize = 28;
pub const ZSF3: usize = 29;
pub const ZSF4: usize = 30;
pub const FLAG: usize = 31;

// Bits of the FLAG register.
pub const FLAG_CHECKSUM: u32 = 0x8000_0000;
pub const FLAG_MAC1_POS: u32 = 0x4000_0000;
pub const FLAG_MAC2_POS: u32 = 0x2000_0000;
pub const FLAG_MAC3_POS: u32 = 0x1000_0000;
pub const FLAG_MAC1_NEG: u32 = 0x0800_0000;
pub const FLAG_MAC2_NEG: u32 = 0x0400_0000;
pub const FLAG_MAC3_NEG: u32 = 0x0200_0000;
pub const FLAG_IR1_SAT: u32 = 0x0100_0000;
pub const FLAG_IR2_SAT: u32 = 0x0080_0000;
pub const FLAG_IR3_SAT: u32 = 0x0040_0000;
pub const FLAG_COL_R_SAT: u32 = 0x0020_0000;
pub const FLAG_COL_G_SAT: u32 = 0x0010_0000;
pub const FLAG_COL_B_SAT: u32 = 0x0008_0000;
pub const FLAG_SZ3_SAT: u32 = 0x0004_0000;
pub const FLAG_DIV_OVF: u32 = 0x0002_0000;
pub const FLAG_MAC0_POS: u32 = 0x0001_0000;
pub const FLAG_MAC0_NEG: u32 = 0x0000_8000;
pub const FLAG_SX_SAT: u32 = 0x0000_4000;
pub const FLAG_SY_SAT: u32 = 0x0000_2000;
pub const FLAG_IR0_SAT: u32 = 0x0000_1000;
/// The error bits whose presence sets the checksum bit.
pub const FLAG_CHECKSUM_TEST: u32 = 0x7FC7_F000;

/// Signed low halfword of a register.
pub open spec fn lo_s16(w: u32) -> int {
    (w as i16) as int
}

/// Signed high halfword of a register.
pub open spec fn hi_s16(w: u32) -> int {
    ((w >> 16) as i16) as int
}

/// Unsigned low halfword of a register.
pub open spec fn lo_u16(w: u32) -> int {
    (w as u16) as int
}

/// A register read as a signed word.
pub open spec fn as_s32(w: u32) -> int {
    (w as i32) as int
}

/// The FLAG register after raising `bit` when `cond` holds:
/// any error bit also raises the checksum bit.
pub open spec fn flag_after(f: u32, bit: u32, cond: bool) -> u32 {
    if cond {
        if (f | bit) & FLAG_CHECKSUM_TEST != 0 {
            f | bit | FLAG_CHECKSUM
        } else {
            f | bit
        }
    } else {
        f
    }
}

/// The overflow bits of MAC1..MAC3 for accumulator `n`.
pub open spec fn mac_pos_bit(n: int) -> u32 {
    if n == 1 { FLAG_MAC1_POS } else if n == 2 { FLAG_MAC2_POS } else { FLAG_MAC3_POS }
}

pub open spec fn mac_neg_bit(n: int) -> u32 {
    if n == 1 { FLAG_MAC1_NEG } else if n == 2 { FLAG_MAC2_NEG } else { FLAG_MAC3_NEG }
}

pub open spec fn ir_sat_bit(n: int) -> u32 {
    if n == 1 { FLAG_IR1_SAT } else if n == 2 { FLAG_IR2_SAT } else { FLAG_IR3_SAT }
}

/// FLAG after checking a 44-bit accumulator value for overflow.
pub open spec fn mac_flags(f: u32, data: i64, n: int) -> u32 {
    flag_after(
        flag_after(f, mac_pos_bit(n), data > 0x7FF_FFFF_FFFF),
        mac_neg_bit(n),
        data < -0x800_0000_0000,
    )
}

/// An accumulator value after the fractional shift.
pub open spec fn shifted(data: i64, shift: u8) -> i32 {
    (data >> shift) as i32
}

/// Saturation of an accumulator into a 16-bit IR register.
pub open spec fn sat_ir(v: i32) -> i16 {
    if v > 0x7FFF {
        0x7FFF
    } else if v < -0x8000 {
        -0x8000i16
    } else {
        v as i16
    }
}

/// When saturation into an IR register is reported.
pub open spec fn ir_sat_cond(v: i32, lm: bool) -> bool {
    v > 0x7FFF || v < -0x8000 || (lm && v < 0)
}

/// Registers after storing accumulator `n` (1..3).
pub open spec fn set_mac_spec(d: Seq<u32>, c: Seq<u32>, n: int, data: i64) -> (Seq<u32>, Seq<u32>) {
    (d.update(MAC0 + n, data as u32), c.update(FLAG as int, mac_flags(c[FLAG as int], data, n)))
}

/// Registers after storing a saturated value in IR`n` (1..3).
pub open spec fn set_ir_spec(d: Seq<u32>, c: Seq<u32>, n: int, v: i32, lm: bool) -> (Seq<u32>, Seq<u32>) {
    (
        d.update(IR0 + n, (sat_ir(v) as i32) as u32),
        c.update(FLAG as int, flag_after(c[FLAG as int], ir_sat_bit(n), ir_sat_cond(v, lm))),
    )
}

/// Registers after storing MAC0.
pub open spec fn set_mac0_spec(d: Seq<u32>, c: Seq<u32>, data: i64) -> (Seq<u32>, Seq<u32>) {
    (
        d.update(MAC0 as int, (data as i32) as u32),
        c.update(
            FLAG as int,
            flag_after(
                flag_after(c[FLAG as int], FLAG_MAC0_POS, data > 0x7FFF_FFFF),
                FLAG_MAC0_NEG,
                data < -0x8000_0000,
            ),
        ),
    )
}

/// Clamp `v` into `lo..=hi`.
pub open spec fn clamp(v: int, lo: int, hi: int) -> int {
    if v < lo { lo } else if v > hi { hi } else { v }
}

/// Row `row` (1..3) of the rotation matrix applied to a vector, plus the
/// translation vector in 20.12 fixed point.
///
/// Within each packed control register the first-named element sits in the
/// low halfword (RT11 in the low half of RT11_12, and so on).
pub open spec fn rt_row(c: Seq<u32>, row: int, vx: int, vy: int, vz: int) -> int {
    if row == 1 {
        as_s32(c[TRX as int]) * 4096 + lo_s16(c[RT11_12 as int]) * vx + hi_s16(c[RT11_12 as int]) * vy
            + lo_s16(c[RT13_21 as int]) * vz
    } else if row == 2 {
        as_s32(c[TRY as int]) * 4096 + hi_s16(c[RT13_21 as int]) * vx + lo_s16(c[RT22_23 as int]) * vy
            + hi_s16(c[RT22_23 as int]) * vz
    } else {
        as_s32(c[TRZ as int]) * 4096 + lo_s16(c[RT31_32 as int]) * vx + hi_s16(c[RT31_32 as int]) * vy
            + lo_s16(c[RT33 as int]) * vz
    }
}

/// The perspective divisor H / SZ3 in 1.16 fixed point, saturated to 0x1FFFF.
pub open spec fn perspective_div(h: int, sz3: int) -> int {
    if sz3 == 0 {
        0x1FFFF
    } else if ((h * 131072) / sz3 + 1) / 2 > 0x1FFFF {
        0x1FFFF
    } else {
        ((h * 131072) / sz3 + 1) / 2
    }
}

/// When the perspective division overflows.
pub open spec fn div_overflow(h: int, sz3: int) -> bool {
    sz3 == 0 || ((h * 131072) / sz3 + 1) / 2 > 0x1FFFF
}

/// A screen coordinate from its accumulator, saturated to -0x400..=0x3FF.
pub open spec fn screen_coord(m: int) -> int {
    clamp(m / 65536, -0x400, 0x3FF)
}

/// When a screen coordinate saturates.
pub open spec fn screen_sat(m: int) -> bool {
    m / 65536 > 0x3FF || m / 65536 < -0x400
}

/// FLAG after raising `bit` under `cond`.
pub open spec fn raise_spec(c: Seq<u32>, bit: u32, cond: bool) -> Seq<u32> {
    c.update(FLAG as int, flag_after(c[FLAG as int], bit, cond))
}

/// Registers after one rotate-translate-project step on vector (vx, vy, vz),
/// with the divisor it produced.
pub open spec fn rtp_spec(d: Seq<u32>, c: Seq<u32>, shift: u8, lm: bool, vx: int, vy: int, vz: int) -> (Seq<u32>, Seq<u32>, int) {
    let d0 = d.update(SZ0 as int, d[SZ1 as int]).update(SZ1 as int, d[SZ2 as int]).update(SZ2 as int, d[SZ3 as int])
        .update(SXY0 as int, d[SXY1 as int]).update(SXY1 as int, d[SXY2 as int]);
    let m1 = rt_row(c, 1, vx, vy, vz) as i64;
    let (d1, c1) = set_mac_spec(d0, c, 1, m1);
    let (d2, c2) = set_ir_spec(d1, c1, 1, shifted(m1, shift), lm);
    let ir1 = sat_ir(shifted(m1, shift)) as int;
    let m2 = rt_row(c, 2, vx, vy, vz) as i64;
    let (d3, c3) = set_mac_spec(d2, c2, 2, m2);
    let (d4, c4) = set_ir_spec(d3, c3, 2, shifted(m2, shift), lm);
    let ir2 = sat_ir(shifted(m2, shift)) as int;
    let m3 = rt_row(c, 3, vx, vy, vz) as i64;
    let mac3 = shifted(m3, shift);
    let (d5, c5) = set_mac_spec(d4, c4, 3, m3);
    let (d6, c6) = set_ir_spec(d5, c5, 3, mac3, lm);
    let sz3 = clamp(mac3 as int, 0, 0xFFFF);
    let d7 = d6.update(SZ3 as int, sz3 as u32);
    let c7 = raise_spec(c6, FLAG_SZ3_SAT, (mac3 as u32) > 0xFFFF);
    let h = lo_u16(c[H as int]);
    let div = perspective_div(h, sz3);
    let c8 = raise_spec(c7, FLAG_DIV_OVF, div_overflow(h, sz3));
    let mx = div * ir1 + as_s32(c[OFX as int]);
    let (d9, c9) = set_mac0_spec(d7, c8, mx as i64);
    let c10 = raise_spec(c9, FLAG_SX_SAT, screen_sat(mx));
    let my = div * ir2 + as_s32(c[OFY as int]);
    let (d11, c11) = set_mac0_spec(d9, c10, my as i64);
    let c12 = raise_spec(c11, FLAG_SY_SAT, screen_sat(my));
    let sx = screen_coord(mx);
    let sy = screen_coord(my);
    let d12 = d11.update(SXY2 as int, ((sx as i16) as u32) | (((sy as i16) as u32) << 16));
    (d12, c12, div)
}

/// Registers after depth cueing with divisor `div`.
pub open spec fn depth_queue_spec(d: Seq<u32>, c: Seq<u32>, div: int) -> (Seq<u32>, Seq<u32>) {
    let m = div * lo_s16(c[DQA as int]) + as_s32(c[DQB as int]);
    let (d1, c1) = set_mac0_spec(d, c, m as i64);
    let ir0 = ((m as i32) as int) / 4096;
    let c2 = raise_spec(c1, FLAG_IR0_SAT, ir0 > 0x1000 || ir0 < 0);
    (d1.update(IR0 as int, clamp(ir0, 0, 0x1000) as u32), c2)
}

/// Registers after rotate-translate-project of vector 0 and depth cueing.
pub open spec fn rtps_spec(d: Seq<u32>, c: Seq<u32>, shift: u8, lm: bool) -> (Seq<u32>, Seq<u32>) {
    let (d1, c1, div) = rtp_spec(d, c, shift, lm, lo_s16(d[VXY0 as int]), hi_s16(d[VXY0 as int]), lo_s16(d[VZ0 as int]));
    depth_queue_spec(d1, c1, div)
}

/// Registers after rotate-translate-project of vectors 0, 1 and 2 and depth cueing.
pub open spec fn rtpt_spec(d: Seq<u32>, c: Seq<u32>, shift: u8, lm: bool) -> (Seq<u32>, Seq<u32>) {
    let (d1, c1, div1) = rtp_spec(d, c, shift, lm, lo_s16(d[VXY0 as int]), hi_s16(d[VXY0 as int]), lo_s16(d[VZ0 as int]));
    let (d2, c2, div2) = rtp_spec(d1, c1, shift, lm, lo_s16(d[VXY1 as int]), hi_s16(d[VXY1 as int]), lo_s16(d[VZ1 as int]));
    let (d3, c3, div3) = rtp_spec(d2, c2, shift, lm, lo_s16(d[VXY2 as int]), hi_s16(d[VXY2 as int]), lo_s16(d[VZ2 as int]));
    depth_queue_spec(d3, c3, div3)
}

/// The normal clipping value: twice the signed area of the screen triangle.
pub open spec fn nclip_value(d: Seq<u32>) -> int {
    let sx0 = lo_s16(d[SXY0 as int]);
    let sy0 = hi_s16(d[SXY0 as int]);
    let sx1 = lo_s16(d[SXY1 as int]);
    let sy1 = hi_s16(d[SXY1 as int]);
    let sx2 = lo_s16(d[SXY2 as int]);
    let sy2 = hi_s16(d[SXY2 as int]);
    sx0 * sy1 + sx1 * sy2 + sx2 * sy0 - sx0 * sy2 - sx1 * sy0 - sx2 * sy1
}

/// Registers after storing three accumulators and their saturated IR values.
pub open spec fn mac_ir_spec(d: Seq<u32>, c: Seq<u32>, shift: u8, lm: bool, m1: int, m2: int, m3: int) -> (Seq<u32>, Seq<u32>) {
    let (d1, c1) = set_mac_spec(d, c, 1, m1 as i64);
    let (d2, c2) = set_ir_spec(d1, c1, 1, shifted(m1 as i64, shift), lm);
    let (d3, c3) = set_mac_spec(d2, c2, 2, m2 as i64);
    let (d4, c4) = set_ir_spec(d3, c3, 2, shifted(m2 as i64, shift), lm);
    let (d5, c5) = set_mac_spec(d4, c4, 3, m3 as i64);
    set_ir_spec(d5, c5, 3, shifted(m3 as i64, shift), lm)
}

/// The outer product of IR with the rotation matrix diagonal.
pub open spec fn op_spec(d: Seq<u32>, c: Seq<u32>, shift: u8, lm: bool) -> (Seq<u32>, Seq<u32>) {
    let ir1 = lo_s16(d[IR1 as int]);
    let ir2 = lo_s16(d[IR2 as int]);
    let ir3 = lo_s16(d[IR3 as int]);
    let d1 = lo_s16(c[RT11_12 as int]);
    let d2 = lo_s16(c[RT22_23 as int]);
    let d3 = lo_s16(c[RT33 as int]);
    mac_ir_spec(d, c, shift, lm, d2 * ir3 - d3 * ir2, d3 * ir1 - d1 * ir3, d1 * ir2 - d2 * ir1)
}

/// The square of each IR component.
pub open spec fn sqr_spec(d: Seq<u32>, c: Seq<u32>, shift: u8, lm: bool) -> (Seq<u32>, Seq<u32>) {
    let ir1 = lo_s16(d[IR1 as int]);
    let ir2 = lo_s16(d[IR2 as int]);
    let ir3 = lo_s16(d[IR3 as int]);
    mac_ir_spec(d, c, shift, lm, ir1 * ir1, ir2 * ir2, ir3 * ir3)
}

/// Registers after averaging Z values with scale factor `zsf` and sum `sum`.
pub open spec fn avsz_spec(d: Seq<u32>, c: Seq<u32>, zsf: int, sum: int) -> (Seq<u32>, Seq<u32>) {
    let mac0 = zsf * sum;
    let (d1, c1) = set_mac0_spec(d, c, mac0 as i64);
    let otz = mac0 / 4096;
    (d1.update(OTZ as int, clamp(otz, 0, 0xFFFF) as u32), raise_spec(c1, FLAG_SZ3_SAT, (otz as u32) > 0xFFFF))
}

/// Registers after the multiply-vector-by-matrix-and-add command: MAC`i`
/// is row `i` of the selected matrix dotted with the selected vector, plus
/// element `i` of the translation vector in 20.12 fixed point.
pub open spec fn mvmva_spec(d: Seq<u32>, c: Seq<u32>, shift: u8, lm: bool, mul_mat: u8, mul_vec: u8, trans_vec: u8) -> (Seq<u32>, Seq<u32>) {
    let v = mvmva_vector(d, mul_vec);
    let m = mvmva_matrix(c, mul_mat);
    let t = mvmva_translation(c, trans_vec);
    mac_ir_spec(
        d,
        c,
        shift,
        lm,
        m[0] * v[0] + m[1] * v[1] + m[2] * v[2] + t[0] * 4096,
        m[3] * v[0] + m[4] * v[1] + m[5] * v[2] + t[1] * 4096,
        m[6] * v[0] + m[7] * v[1] + m[8] * v[2] + t[2] * 4096,
    )
}

/// The vector selected by the `mul_vec` field of an MVMVA command.
pub open spec fn mvmva_vector(d: Seq<u32>, mul_vec: u8) -> Seq<int> {
    if mul_vec == 0 {
        seq![lo_s16(d[VXY0 as int]), hi_s16(d[VXY0 as int]), lo_s16(d[VZ0 as int])]
    } else if mul_vec == 1 {
        seq![lo_s16(d[VXY1 as int]), hi_s16(d[VXY1 as int]), lo_s16(d[VZ1 as int])]
    } else if mul_vec == 2 {
        seq![lo_s16(d[VXY2 as int]), hi_s16(d[VXY2 as int]), lo_s16(d[VZ2 as int])]
    } else {
        seq![lo_s16(d[IR1 as int]), hi_s16(d[IR2 as int]), lo_s16(d[IR3 as int])]
    }
}

/// The nine elements, row by row, of the matrix starting at control register `base`.
pub open spec fn matrix_at(c: Seq<u32>, base: int) -> Seq<int> {
    seq![
        lo_s16(c[base]), hi_s16(c[base]), lo_s16(c[base + 1]),
        hi_s16(c[base + 1]), lo_s16(c[base + 2]), hi_s16(c[base + 2]),
        lo_s16(c[base + 3]), hi_s16(c[base + 3]), lo_s16(c[base + 4]),
    ]
}

/// The matrix selected by the `mul_mat` field of an MVMVA command (0..=2).
pub open spec fn mvmva_matrix(c: Seq<u32>, mul_mat: u8) -> Seq<int> {
    if mul_mat == 0 {
        matrix_at(c, RT11_12 as int)
    } else if mul_mat == 1 {
        matrix_at(c, L11_12 as int)
    } else {
        matrix_at(c, LR1R2 as int)
    }
}

/// The translation vector selected by the `trans_vec` field of an MVMVA command.
pub open spec fn mvmva_translation(c: Seq<u32>, trans_vec: u8) -> Seq<int> {
    if trans_vec == 0 {
        seq![as_s32(c[TRX as int]), as_s32(c[TRY as int]), as_s32(c[TRZ as int])]
    } else if trans_vec == 1 {
        seq![as_s32(c[RBK as int]), as_s32(c[GBK as int]), as_s32(c[BBK as int])]
    } else {
        seq![0, 0, 0]
    }
}


/// Row `row` (1..3) of the light matrix applied to a normal.
pub open spec fn light_row(c: Seq<u32>, row: int, nx: int, ny: int, nz: int) -> int {
    if row == 1 {
        lo_s16(c[L11_12 as int]) * nx + hi_s16(c[L11_12 as int]) * ny + lo_s16(c[L13_21 as int]) * nz
    } else if row == 2 {
        hi_s16(c[L13_21 as int]) * nx + lo_s16(c[L22_23 as int]) * ny + hi_s16(c[L22_23 as int]) * nz
    } else {
        lo_s16(c[L31_32 as int]) * nx + hi_s16(c[L31_32 as int]) * ny + lo_s16(c[L33 as int]) * nz
    }
}

/// Row `row` (1..3) of the light color matrix applied to a light vector,
/// plus the background color in 20.12 fixed point.
pub open spec fn color_row(c: Seq<u32>, row: int, i1: int, i2: int, i3: int) -> int {
    if row == 1 {
        lo_s16(c[LR1R2 as int]) * i1 + hi_s16(c[LR1R2 as int]) * i2 + lo_s16(c[LR3G1 as int]) * i3
            + as_s32(c[RBK as int]) * 4096
    } else if row == 2 {
        hi_s16(c[LR3G1 as int]) * i1 + lo_s16(c[LG2G3 as int]) * i2 + hi_s16(c[LG2G3 as int]) * i3
            + as_s32(c[GBK as int]) * 4096
    } else {
        lo_s16(c[LB1B2 as int]) * i1 + hi_s16(c[LB1B2 as int]) * i2 + lo_s16(c[LB3 as int]) * i3
            + as_s32(c[BBK as int]) * 4096
    }
}

/// Registers after multiplying a normal by the light matrix and then the
/// light color matrix, with the three shifted color accumulators.
pub open spec fn ncm_spec(d: Seq<u32>, c: Seq<u32>, shift: u8, lm: bool, nx: int, ny: int, nz: int) -> (Seq<u32>, Seq<u32>, i32, i32, i32) {
    let l1 = light_row(c, 1, nx, ny, nz) as i64;
    let l2 = light_row(c, 2, nx, ny, nz) as i64;
    let l3 = light_row(c, 3, nx, ny, nz) as i64;
    let (d1, c1) = mac_ir_spec(d, c, shift, lm, l1 as int, l2 as int, l3 as int);
    let i1 = sat_ir(shifted(l1, shift)) as int;
    let i2 = sat_ir(shifted(l2, shift)) as int;
    let i3 = sat_ir(shifted(l3, shift)) as int;
    let k1 = color_row(c, 1, i1, i2, i3) as i64;
    let k2 = color_row(c, 2, i1, i2, i3) as i64;
    let k3 = color_row(c, 3, i1, i2, i3) as i64;
    let (d2, c2) = set_mac_spec(d1, c1, 1, k1);
    let (d3, c3) = set_mac_spec(d2, c2, 2, k2);
    let (d4, c4) = set_mac_spec(d3, c3, 3, k3);
    (d4, c4, shifted(k1, shift), shifted(k2, shift), shifted(k3, shift))
}

/// The color FIFO after pushing out its oldest entry.
pub open spec fn rgb_fifo_shift(d: Seq<u32>) -> Seq<u32> {
    d.update(RGB0 as int, d[RGB1 as int]).update(RGB1 as int, d[RGB2 as int])
}

/// The color saturation bit of channel `n` (1 = red .. 3 = blue).
pub open spec fn col_sat_bit(n: int) -> u32 {
    if n == 1 { FLAG_COL_R_SAT } else if n == 2 { FLAG_COL_G_SAT } else { FLAG_COL_B_SAT }
}

/// A color channel value saturated to a byte.
pub open spec fn color_byte(v: int) -> u32 {
    clamp(v, 0, 0xFF) as u32
}

/// The packed color: code byte kept, then red, green and blue.
pub open spec fn pack_rgb(code: u32, r: u32, g: u32, b: u32) -> u32 {
    code | (r << 16) | (g << 8) | b
}

/// One channel of the plain normal color calculation.
pub open spec fn nc_channel(d: Seq<u32>, c: Seq<u32>, n: int, mac: i32, lm: bool) -> (Seq<u32>, Seq<u32>, u32) {
    let (d1, c1) = set_ir_spec(d, c, n, mac, lm);
    let v = (mac as int) / 16;
    (d1, raise_spec(c1, col_sat_bit(n), v > 0xFF), color_byte(v))
}

/// Registers after the normal color calculation on one normal.
#[verifier::opaque]
pub open spec fn nc_spec(d: Seq<u32>, c: Seq<u32>, shift: u8, lm: bool, nx: int, ny: int, nz: int) -> (Seq<u32>, Seq<u32>) {
    let (d1, c1, m1, m2, m3) = ncm_spec(rgb_fifo_shift(d), c, shift, lm, nx, ny, nz);
    let (d2, c2, r) = nc_channel(d1, c1, 1, m1, lm);
    let (d3, c3, g) = nc_channel(d2, c2, 2, m2, lm);
    let (d4, c4, b) = nc_channel(d3, c3, 3, m3, lm);
    (d4.update(RGB2 as int, pack_rgb(d[RGBC as int] & 0xFF00_0000, r, g, b)), c4)
}

/// One channel of the normal color color calculation, with color component `col`.
pub open spec fn ncc_channel(d: Seq<u32>, c: Seq<u32>, n: int, mac: i32, lm: bool, shift: u8, col: int) -> (Seq<u32>, Seq<u32>, u32) {
    let (d1, c1) = set_ir_spec(d, c, n, mac, lm);
    let m = (sat_ir(mac) as int * col) as i64;
    let (d2, c2) = set_mac_spec(d1, c1, n, m);
    let v = (shifted(m, shift) as int) / 16;
    let (d3, c3) = set_ir_spec(d2, c2, n, v as i32, lm);
    (d3, raise_spec(c3, col_sat_bit(n), v > 0xFF), color_byte(v))
}

/// Registers after the normal color color calculation on one normal.
#[verifier::opaque]
pub open spec fn ncc_spec(d: Seq<u32>, c: Seq<u32>, shift: u8, lm: bool, nx: int, ny: int, nz: int) -> (Seq<u32>, Seq<u32>) {
    let rgbc = d[RGBC as int];
    let (d1, c1, m1, m2, m3) = ncm_spec(rgb_fifo_shift(d), c, shift, lm, nx, ny, nz);
    let (d2, c2, r) = ncc_channel(d1, c1, 1, m1, lm, shift, ((rgbc >> 16) & 0xFF) as int);
    let (d3, c3, g) = ncc_channel(d2, c2, 2, m2, lm, shift, ((rgbc >> 8) & 0xFF) as int);
    let (d4, c4, b) = ncc_channel(d3, c3, 3, m3, lm, shift, (rgbc & 0xFF) as int);
    (d4.update(RGB2 as int, pack_rgb(rgbc & 0xFF00_0000, r, g, b)), c4)
}

/// One channel of the normal color depth calculation, with color component
/// `col`, far color `fc` and interpolation factor `ir0`.
pub open spec fn ncd_channel(d: Seq<u32>, c: Seq<u32>, n: int, mac: i32, lm: bool, shift: u8, col: int, fc: int, ir0: int) -> (Seq<u32>, Seq<u32>, u32) {
    let (d1, c1) = set_ir_spec(d, c, n, mac, lm);
    let m = (sat_ir(mac) as int * col) as i64;
    let (d2, c2) = set_mac_spec(d1, c1, n, m);
    let base = (shifted(m, 0) as int) / 16;
    let t = shifted((fc * 4096 - base) as i64, shift);
    let (d3, c3) = set_ir_spec(d2, c2, n, t, false);
    let m2 = (sat_ir(t) as int * ir0 + base) as i64;
    let (d4, c4) = set_mac_spec(d3, c3, n, m2);
    let v = shifted(m2, shift);
    let (d5, c5) = set_ir_spec(d4, c4, n, v, lm);
    (d5, raise_spec(c5, col_sat_bit(n), v > 0xFF), color_byte(v as int))
}

/// Registers after the normal color depth calculation on one normal.
#[verifier::opaque]
pub open spec fn ncd_spec(d: Seq<u32>, c: Seq<u32>, shift: u8, lm: bool, nx: int, ny: int, nz: int) -> (Seq<u32>, Seq<u32>) {
    let rgbc = d[RGBC as int];
    let ir0 = lo_s16(d[IR0 as int]);
    let (d1, c1, m1, m2, m3) = ncm_spec(rgb_fifo_shift(d), c, shift, lm, nx, ny, nz);
    let (d2, c2, r) = ncd_channel(d1, c1, 1, m1, lm, shift, ((rgbc >> 16) & 0xFF) as int, as_s32(c[RFC as int]), ir0);
    let (d3, c3, g) = ncd_channel(d2, c2, 2, m2, lm, shift, ((rgbc >> 8) & 0xFF) as int, as_s32(c[GFC as int]), ir0);
    let (d4, c4, b) = ncd_channel(d3, c3, 3, m3, lm, shift, (rgbc & 0xFF) as int, as_s32(c[BFC as int]), ir0);
    (d4.update(RGB2 as int, pack_rgb(rgbc & 0xFF00_0000, r, g, b)), c4)
}

/// Vector `n` (0..=2) of the vector registers.
pub open spec fn vector(d: Seq<u32>, n: int) -> (int, int, int) {
    let xy = d[VXY0 + 2 * n];
    (lo_s16(xy), hi_s16(xy), lo_s16(d[VZ0 + 2 * n]))
}

/// Registers after the normal color calculation on vectors 0, 1 and 2.
pub open spec fn nct_spec(d: Seq<u32>, c: Seq<u32>, shift: u8, lm: bool) -> (Seq<u32>, Seq<u32>) {
    let (d1, c1) = nc_spec(d, c, shift, lm, vector(d, 0).0, vector(d, 0).1, vector(d, 0).2);
    let (d2, c2) = nc_spec(d1, c1, shift, lm, vector(d, 1).0, vector(d, 1).1, vector(d, 1).2);
    nc_spec(d2, c2, shift, lm, vector(d, 2).0, vector(d, 2).1, vector(d, 2).2)
}

/// Registers after the normal color color calculation on vectors 0, 1 and 2.
pub open spec fn ncct_spec(d: Seq<u32>, c: Seq<u32>, shift: u8, lm: bool) -> (Seq<u32>, Seq<u32>) {
    let (d1, c1) = ncc_spec(d, c, shift, lm, vector(d, 0).0, vector(d, 0).1, vector(d, 0).2);
    let (d2, c2) = ncc_spec(d1, c1, shift, lm, vector(d, 1).0, vector(d, 1).1, vector(d, 1).2);
    ncc_spec(d2, c2, shift, lm, vector(d, 2).0, vector(d, 2).1, vector(d, 2).2)
}

/// Registers after the normal color depth calculation on vectors 0, 1 and 2.
pub open spec fn ncdt_spec(d: Seq<u32>, c: Seq<u32>, shift: u8, lm: bool) -> (Seq<u32>, Seq<u32>) {
    let (d1, c1) = ncd_spec(d, c, shift, lm, vector(d, 0).0, vector(d, 0).1, vector(d, 0).2);
    let (d2, c2) = ncd_spec(d1, c1, shift, lm, vector(d, 1).0, vector(d, 1).1, vector(d, 1).2);
    ncd_spec(d2, c2, shift, lm, vector(d, 2).0, vector(d, 2).1, vector(d, 2).2)
}

/// The fraction shift selected by a command word: with bit 19 (sf) set, the
/// results are shifted right by 12.
pub open spec fn command_shift(instr: u32) -> u8 {
    if instr & 0x0008_0000 != 0 { 12 } else { 0 }
}

/// The "lm" flag of a command word: IR values are reported saturated when negative.
pub open spec fn command_lm(instr: u32) -> bool {
    (instr & 0x0000_0400) >> 10 == 1
}

/// MVMVA fields of a command word.
pub open spec fn command_mul_mat(instr: u32) -> u8 {
    ((instr & 0x0006_0000) >> 17) as u8
}

pub open spec fn command_mul_vec(instr: u32) -> u8 {
    ((instr & 0x0001_8000) >> 15) as u8
}

pub open spec fn command_trans_vec(instr: u32) -> u8 {
    ((instr & 0x0000_6000) >> 13) as u8
}

/// A command word that the engine can execute: an MVMVA must not use
/// matrix 3 or translation vector 2.
pub open spec fn command_supported(instr: u32) -> bool {
    (instr & 0x3F) == 0x12 ==> command_mul_mat(instr) != 3 && command_trans_vec(instr) != 2
}

/// Registers after executing command word `instr`. FLAG is cleared first.
pub open spec fn operation_spec(d: Seq<u32>, c: Seq<u32>, instr: u32) -> (Seq<u32>, Seq<u32>) {
    let c0 = c.update(FLAG as int, 0);
    let op = instr & 0x3F;
    let sh = command_shift(instr);
    let lm = command_lm(instr);
    if op == 0x01 {
        rtps_spec(d, c0, sh, lm)
    } else if op == 0x06 {
        set_mac0_spec(d, c0, nclip_value(d) as i64)
    } else if op == 0x0C {
        op_spec(d, c0, sh, lm)
    } else if op == 0x12 {
        mvmva_spec(d, c0, sh, lm, command_mul_mat(instr), command_mul_vec(instr), command_trans_vec(instr))
    } else if op == 0x13 {
        ncd_spec(d, c0, sh, lm, vector(d, 0).0, vector(d, 0).1, vector(d, 0).2)
    } else if op == 0x16 {
        ncdt_spec(d, c0, sh, lm)
    } else if op == 0x1B {
        ncc_spec(d, c0, sh, lm, vector(d, 0).0, vector(d, 0).1, vector(d, 0).2)
    } else if op == 0x1E {
        nc_spec(d, c0, sh, lm, vector(d, 0).0, vector(d, 0).1, vector(d, 0).2)
    } else if op == 0x20 {
        nct_spec(d, c0, sh, lm)
    } else if op == 0x28 {
        sqr_spec(d, c0, sh, lm)
    } else if op == 0x2D {
        avsz_spec(d, c0, lo_s16(c[ZSF3 as int]), lo_u16(d[SZ1 as int]) + lo_u16(d[SZ2 as int]) + lo_u16(d[SZ3 as int]))
    } else if op == 0x2E {
        avsz_spec(d, c0, lo_s16(c[ZSF4 as int]),
            lo_u16(d[SZ0 as int]) + lo_u16(d[SZ1 as int]) + lo_u16(d[SZ2 as int]) + lo_u16(d[SZ3 as int]))
    } else if op == 0x30 {
        rtpt_spec(d, c0, sh, lm)
    } else if op == 0x3F {
        ncct_spec(d, c0, sh, lm)
    } else {
        // DPCS, INTPL, CDP, CC, DCPL, DPCT, GPF, GPL and undefined opcodes.
        (d, c0)
    }
}

/// The count of leading equal bits reported through LZCR.
pub open spec fn lzcr_value(lzcs: u32) -> u32 {
    u32_leading_ones(lzcs) | u32_leading_zeros(lzcs)
}

/// Two register files agree on the vector registers.
pub open spec fn same_vectors(a: Seq<u32>, b: Seq<u32>) -> bool {
    a[0] == b[0] && a[1] == b[1] && a[2] == b[2] && a[3] == b[3] && a[4] == b[4] && a[5] == b[5]
}

/// A colour value saturated to a byte.
pub open spec fn byte_of(v: int) -> u32 {
    if v < 0 { 0 } else if v > 255 { 255 } else { v as u32 }
}

proof fn lemma_far_shift(x: i64, y: i64)
    by (bit_vector)
    requires
        -0x8000 <= x <= 0x7FFF,
        y == x * 4096,
    ensures
        (y >> 12u8) == x,
        (0i64 >> 0u8) == 0,
{
}

/// Depth cueing all the way to the far colour: an NCDS with the fraction
/// shift (sf), on a colour RGBC whose red, green and blue are zero and with
/// IR0 at 1.0 (0x1000), leaves in RGB2 the code byte of RGBC and, in each
/// channel, that channel's own far colour saturated to a byte: red from
/// RFC, green from GFC, blue from BFC. This holds whatever the normal and
/// the light and light colour matrices.
pub proof fn lemma_ncds_reaches_far_color(d: Seq<u32>, c: Seq<u32>, instr: u32)
    requires
        d.len() == 32,
        c.len() == 32,
        instr & 0x3F == 0x13,
        instr & 0x0008_0000 != 0,
        (d[RGBC as int] >> 16) & 0xFF == 0,
        (d[RGBC as int] >> 8) & 0xFF == 0,
        d[RGBC as int] & 0xFF == 0,
        lo_s16(d[IR0 as int]) == 0x1000,
        -0x8000 <= as_s32(c[RFC as int]) <= 0x7FFF,
        -0x8000 <= as_s32(c[GFC as int]) <= 0x7FFF,
        -0x8000 <= as_s32(c[BFC as int]) <= 0x7FFF,
    ensures
        operation_spec(d, c, instr).0[RGB2 as int] == (d[RGBC as int] & 0xFF00_0000)
            | (byte_of(as_s32(c[RFC as int])) << 16) | (byte_of(as_s32(c[GFC as int])) << 8)
            | byte_of(as_s32(c[BFC as int])),
{
    reveal(ncd_spec);
    let rfc = as_s32(c[RFC as int]);
    let gfc = as_s32(c[GFC as int]);
    let bfc = as_s32(c[BFC as int]);
    lemma_far_shift(rfc as i64, (rfc * 4096) as i64);
    lemma_far_shift(gfc as i64, (gfc * 4096) as i64);
    lemma_far_shift(bfc as i64, (bfc * 4096) as i64);
    assert(command_shift(instr) == 12);
}

/// With IR0 at zero there is no depth cueing: an NCDS then leaves the same
/// colour in RGB2 whatever the far colour registers hold.
pub proof fn lemma_ncds_without_depth_ignores_far_color(d: Seq<u32>, c: Seq<u32>, instr: u32, r: u32, g: u32, b: u32)
    requires
        d.len() == 32,
        c.len() == 32,
        instr & 0x3F == 0x13,
        lo_s16(d[IR0 as int]) == 0,
    ensures
        operation_spec(d, c, instr).0[RGB2 as int]
            == operation_spec(d, c.update(RFC as int, r).update(GFC as int, g).update(BFC as int, b), instr).0[RGB2 as int],
{
    reveal(ncd_spec);
}

/// The lighting calculations leave the vector registers as they were.
pub proof fn lemma_lighting_keeps_vectors(d: Seq<u32>, c: Seq<u32>, shift: u8, lm: bool, nx: int, ny: int, nz: int)
    requires
        d.len() == 32,
        c.len() == 32,
    ensures
        same_vectors(nc_spec(d, c, shift, lm, nx, ny, nz).0, d),
        same_vectors(ncc_spec(d, c, shift, lm, nx, ny, nz).0, d),
        same_vectors(ncd_spec(d, c, shift, lm, nx, ny, nz).0, d),
{
    reveal(nc_spec);
    reveal(ncc_spec);
    reveal(ncd_spec);
}

/// Geometry transformation engine (coprocessor 2).
pub struct GTE {
    regs: [u32; 32],
    control_regs: [u32; 32],
}

impl GTE {
    /// The data registers.
    pub closed spec fn data(&self) -> Seq<u32> {
        self.regs@
    }

    /// The control registers.
    pub closed spec fn ctrl(&self) -> Seq<u32> {
        self.control_regs@
    }

    pub proof fn lemma_len(&self)
        ensures
            self.data().len() == 32,
            self.ctrl().len() == 32,
    {
    }

    pub fn new() -> (r: Self)
        ensures
            r.data() == Seq::new(32, |i: int| 0u32),
            r.ctrl() == Seq::new(32, |i: int| 0u32),
    {
        let r = Self { regs: [0; 32], control_regs: [0; 32] };
        assert(r.data() =~= Seq::new(32, |i: int| 0u32));
        assert(r.ctrl() =~= Seq::new(32, |i: int| 0u32));
        r
    }
}

// Internal helper methods.
impl GTE {
    fn insert_flag(&mut self, flag: u32)
        ensures
            final(self).data() == old(self).data(),
            final(self).ctrl() == old(self).ctrl().update(FLAG as int, flag_after(old(self).ctrl()[FLAG as int], flag, true)),
    {
        self.control_regs[FLAG] = self.control_regs[FLAG] | flag;
        if self.control_regs[FLAG] & FLAG_CHECKSUM_TEST != 0 {
            self.control_regs[FLAG] = self.control_regs[FLAG] | FLAG_CHECKSUM;
        }
        assert(self.ctrl() =~= old(self).ctrl().update(FLAG as int, flag_after(old(self).ctrl()[FLAG as int], flag, true)));
    }

    fn set_flag(&mut self, flag: u32, cond: bool)
        ensures
            final(self).data() == old(self).data(),
            final(self).ctrl() == old(self).ctrl().update(FLAG as int, flag_after(old(self).ctrl()[FLAG as int], flag, cond)),
    {
        if cond {
            self.insert_flag(flag);
        } else {
            assert(self.ctrl() =~= old(self).ctrl().update(FLAG as int, flag_after(old(self).ctrl()[FLAG as int], flag, cond)));
        }
    }

    fn get_reg_u16_lo(&self, reg: usize) -> (r: i64)
        requires
            reg < 32,
        ensures
            r == lo_u16(self.data()[reg as int]),
    {
        (self.regs[reg] as u16) as i64
    }

    fn get_reg_i16_lo(&self, reg: usize) -> (r: i64)
        requires
            reg < 32,
        ensures
            r == lo_s16(self.data()[reg as int]),
    {
        (self.regs[reg] as i16) as i64
    }

    fn get_reg_i16_hi(&self, reg: usize) -> (r: i64)
        requires
            reg < 32,
        ensures
            r == hi_s16(self.data()[reg as int]),
    {
        ((self.regs[reg] >> 16) as i16) as i64
    }

    fn get_control_u16_lo(&self, reg: usize) -> (r: i64)
        requires
            reg < 32,
        ensures
            r == lo_u16(self.ctrl()[reg as int]),
    {
        (self.control_regs[reg] as u16) as i64
    }

    fn get_control_i16_lo(&self, reg: usize) -> (r: i64)
        requires
            reg < 32,
        ensures
            r == lo_s16(self.ctrl()[reg as int]),
    {
        (self.control_regs[reg] as i16) as i64
    }

    fn get_control_i16_hi(&self, reg: usize) -> (r: i64)
        requires
            reg < 32,
        ensures
            r == hi_s16(self.ctrl()[reg as int]),
    {
        ((self.control_regs[reg] >> 16) as i16) as i64
    }

    fn get_control_i32(&self, reg: usize) -> (r: i64)
        requires
            reg < 32,
        ensures
            r == as_s32(self.ctrl()[reg as int]),
    {
        (self.control_regs[reg] as i32) as i64
    }

    /// Set MAC1 and associated flags.
    ///
    /// Returns shifted MAC1 value.
    fn set_mac1(&mut self, data: i64, shift: u8) -> (r: i32)
        requires
            shift < 64,
        ensures
            (final(self).data(), final(self).ctrl()) == set_mac_spec(old(self).data(), old(self).ctrl(), 1, data),
            r == shifted(data, shift),
    {
        self.set_flag(FLAG_MAC1_POS, data > 0x7FF_FFFF_FFFF);
        self.set_flag(FLAG_MAC1_NEG, data < -0x800_0000_0000);
        let mac1 = (data >> shift) as i32;
        self.regs[MAC1] = data as u32;
        assert(self.data() =~= old(self).data().update(MAC1 as int, data as u32));
        mac1
    }

    /// Set MAC2 and associated flags.
    ///
    /// Returns shifted MAC2 value.
    fn set_mac2(&mut self, data: i64, shift: u8) -> (r: i32)
        requires
            shift < 64,
        ensures
            (final(self).data(), final(self).ctrl()) == set_mac_spec(old(self).data(), old(self).ctrl(), 2, data),
            r == shifted(data, shift),
    {
        self.set_flag(FLAG_MAC2_POS, data > 0x7FF_FFFF_FFFF);
        self.set_flag(FLAG_MAC2_NEG, data < -0x800_0000_0000);
        let mac2 = (data >> shift) as i32;
        self.regs[MAC2] = data as u32;
        assert(self.data() =~= old(self).data().update(MAC2 as int, data as u32));
        mac2
    }

    /// Set MAC3 and associated flags.
    ///
    /// Returns shifted MAC3 value.
    fn set_mac3(&mut self, data: i64, shift: u8) -> (r: i32)
        requires
            shift < 64,
        ensures
            (final(self).data(), final(self).ctrl()) == set_mac_spec(old(self).data(), old(self).ctrl(), 3, data),
            r == shifted(data, shift),
    {
        self.set_flag(FLAG_MAC3_POS, data > 0x7FF_FFFF_FFFF);
        self.set_flag(FLAG_MAC3_NEG, data < -0x800_0000_0000);
        let mac3 = (data >> shift) as i32;
        self.regs[MAC3] = data as u32;
        assert(self.data() =~= old(self).data().update(MAC3 as int, data as u32));
        mac3
    }

    /// Set IR1 and associated flag; the value is clamped.
    ///
    /// Returns final IR1 value.
    fn set_ir1(&mut self, mac1: i32, ir_unsigned: bool) -> (r: i64)
        ensures
            (final(self).data(), final(self).ctrl()) == set_ir_spec(old(self).data(), old(self).ctrl(), 1, mac1, ir_unsigned),
            r == sat_ir(mac1),
    {
        let ir1 = if mac1 > 0x7FFF {
            self.insert_flag(FLAG_IR1_SAT);
            0x7FFF_i16
        } else if mac1 < -0x8000 {
            self.set_flag(FLAG_IR1_SAT, if ir_unsigned { mac1 < 0 } else { true });
            -0x8000_i16
        } else {
            self.set_flag(FLAG_IR1_SAT, ir_unsigned && mac1 < 0);
            mac1 as i16
        };
        self.regs[IR1] = ir1 as u32;
        assert(self.data() =~= old(self).data().update(IR1 as int, (sat_ir(mac1) as i32) as u32));
        ir1 as i64
    }

    /// Set IR2 and associated flag; the value is clamped.
    ///
    /// Returns final IR2 value.
    fn set_ir2(&mut self, mac2: i32, ir_unsigned: bool) -> (r: i64)
        ensures
            (final(self).data(), final(self).ctrl()) == set_ir_spec(old(self).data(), old(self).ctrl(), 2, mac2, ir_unsigned),
            r == sat_ir(mac2),
    {
        let ir2 = if mac2 > 0x7FFF {
            self.insert_flag(FLAG_IR2_SAT);
            0x7FFF_i16
        } else if mac2 < -0x8000 {
            self.set_flag(FLAG_IR2_SAT, if ir_unsigned { mac2 < 0 } else { true });
            -0x8000_i16
        } else {
            self.set_flag(FLAG_IR2_SAT, ir_unsigned && mac2 < 0);
            mac2 as i16
        };
        self.regs[IR2] = ir2 as u32;
        assert(self.data() =~= old(self).data().update(IR2 as int, (sat_ir(mac2) as i32) as u32));
        ir2 as i64
    }

    /// Set IR3 and associated flag; the value is clamped.
    ///
    /// Returns final IR3 value.
    fn set_ir3(&mut self, mac3: i32, ir_unsigned: bool) -> (r: i64)
        ensures
            (final(self).data(), final(self).ctrl()) == set_ir_spec(old(self).data(), old(self).ctrl(), 3, mac3, ir_unsigned),
            r == sat_ir(mac3),
    {
        let ir3 = if mac3 > 0x7FFF {
            self.insert_flag(FLAG_IR3_SAT);
            0x7FFF_i16
        } else if mac3 < -0x8000 {
            self.set_flag(FLAG_IR3_SAT, if ir_unsigned { mac3 < 0 } else { true });
            -0x8000_i16
        } else {
            self.set_flag(FLAG_IR3_SAT, ir_unsigned && mac3 < 0);
            mac3 as i16
        };
        self.regs[IR3] = ir3 as u32;
        assert(self.data() =~= old(self).data().update(IR3 as int, (sat_ir(mac3) as i32) as u32));
        ir3 as i64
    }

    fn set_mac0(&mut self, data: i64)
        ensures
            (final(self).data(), final(self).ctrl()) == set_mac0_spec(old(self).data(), old(self).ctrl(), data),
    {
        self.regs[MAC0] = data as i32 as u32;
        self.set_flag(FLAG_MAC0_POS, data > 0x7FFF_FFFF);
        self.set_flag(FLAG_MAC0_NEG, data < -0x8000_0000);
        assert(self.data() =~= old(self).data().update(MAC0 as int, (data as i32) as u32));
    }
}

// Geometry pipeline.
impl GTE {
    /// Rotate, translate, project for 1 vertex.
    ///
    /// Returns divide value for use in depth queueing.
    fn rtp(&mut self, shift: u8, ir_unsigned: bool, vx: i64, vy: i64, vz: i64) -> (r: i64)
        requires
            shift < 64,
            -0x8000 <= vx <= 0x7FFF,
            -0x8000 <= vy <= 0x7FFF,
            -0x8000 <= vz <= 0x7FFF,
        ensures
            (final(self).data(), final(self).ctrl(), r as int)
                == rtp_spec(old(self).data(), old(self).ctrl(), shift, ir_unsigned, vx as int, vy as int, vz as int),
            0 <= r <= 0x1FFFF,
    {
        let ghost d = self.data();
        let ghost c = self.ctrl();
        // Shift stack.
        self.regs[SZ0] = self.regs[SZ1];
        self.regs[SZ1] = self.regs[SZ2];
        self.regs[SZ2] = self.regs[SZ3];
        self.regs[SXY0] = self.regs[SXY1];
        self.regs[SXY1] = self.regs[SXY2];
        assert(self.data() =~= d.update(SZ0 as int, d[SZ1 as int]).update(SZ1 as int, d[SZ2 as int]).update(SZ2 as int, d[SZ3 as int])
            .update(SXY0 as int, d[SXY1 as int]).update(SXY1 as int, d[SXY2 as int]));
        let ir1 = {
            let rt11 = self.get_control_i16_lo(RT11_12);
            let rt12 = self.get_control_i16_hi(RT11_12);
            let rt13 = self.get_control_i16_lo(RT13_21);
            let trx = self.get_control_i32(TRX);
            assert(-0x8000 <= rt11 <= 0x7FFF && -0x8000 <= rt12 <= 0x7FFF && -0x8000 <= rt13 <= 0x7FFF);
            proof { bound_products(rt11, rt12, rt13, vx, vy, vz); }
            let mac1 = trx * 4096 + rt11 * vx + rt12 * vy + rt13 * vz;
            let mac1 = self.set_mac1(mac1, shift);
            self.set_ir1(mac1, ir_unsigned)
        };
        let ir2 = {
            let rt21 = self.get_control_i16_hi(RT13_21);
            let rt22 = self.get_control_i16_lo(RT22_23);
            let rt23 = self.get_control_i16_hi(RT22_23);
            let try_ = self.get_control_i32(TRY);
            proof { bound_products(rt21, rt22, rt23, vx, vy, vz); }
            let mac2 = try_ * 4096 + rt21 * vx + rt22 * vy + rt23 * vz;
            let mac2 = self.set_mac2(mac2, shift);
            self.set_ir2(mac2, ir_unsigned)
        };
        let sz3 = {
            let rt31 = self.get_control_i16_lo(RT31_32);
            let rt32 = self.get_control_i16_hi(RT31_32);
            let rt33 = self.get_control_i16_lo(RT33);
            let trz = self.get_control_i32(TRZ);
            proof { bound_products(rt31, rt32, rt33, vx, vy, vz); }
            let mac3 = trz * 4096 + rt31 * vx + rt32 * vy + rt33 * vz;
            let mac3 = self.set_mac3(mac3, shift);
            self.set_ir3(mac3, ir_unsigned);
            let sz3: i64 = if mac3 < 0 { 0 } else if mac3 > 0xFFFF { 0xFFFF } else { mac3 as i64 };
            self.regs[SZ3] = sz3 as u32;
            self.set_flag(FLAG_SZ3_SAT, (mac3 as u32) > 0xFFFF);
            sz3
        };
        let h = self.get_control_u16_lo(H);
        // Unsigned divide
        let (div, overflow) = if sz3 == 0 {
            (0x1_FFFF_i64, true)
        } else {
            let div = ((h * 131072) / sz3 + 1) / 2;
            if div > 0x1_FFFF {
                (0x1_FFFF_i64, true)
            } else {
                (div, false)
            }
        };
        self.set_flag(FLAG_DIV_OVF, overflow);
        let screen_x = {
            let x_offset = self.get_control_i32(OFX);
            proof { bound_scaled(div, ir1); }
            let mac0 = div * ir1 + x_offset;
            self.set_mac0(mac0);
            let screen_x = mac0 >> 16;
            proof { lemma_shr_is_div(mac0 as i64); }
            let sat = screen_x > 0x3FF || screen_x < -0x400;
            self.set_flag(FLAG_SX_SAT, sat);
            if screen_x > 0x3FF {
                0x3FF_i16
            } else if screen_x < -0x400 {
                -0x400_i16
            } else {
                screen_x as i16
            }
        };
        let screen_y = {
            let y_offset = self.get_control_i32(OFY);
            proof { bound_scaled(div, ir2); }
            let mac0 = div * ir2 + y_offset;
            self.set_mac0(mac0);
            let screen_y = mac0 >> 16;
            proof { lemma_shr_is_div(mac0 as i64); }
            let sat = screen_y > 0x3FF || screen_y < -0x400;
            self.set_flag(FLAG_SY_SAT, sat);
            if screen_y > 0x3FF {
                0x3FF_i16
            } else if screen_y < -0x400 {
                -0x400_i16
            } else {
                screen_y as i16
            }
        };
        self.regs[SXY2] = (screen_x as u32) | ((screen_y as u32) << 16);
        proof {
            let rs = rtp_spec(d, c, shift, ir_unsigned, vx as int, vy as int, vz as int);
            assert(self.data() =~= rs.0);
            assert(self.ctrl() =~= rs.1);
        }
        div
    }

    fn depth_queue(&mut self, div: i64)
        requires
            0 <= div <= 0x1FFFF,
        ensures
            (final(self).data(), final(self).ctrl()) == depth_queue_spec(old(self).data(), old(self).ctrl(), div as int),
    {
        let ghost d = self.data();
        let ghost c = self.ctrl();
        let mac0 = {
            let depth_queue_a = self.get_control_i16_lo(DQA);
            let depth_queue_b = self.get_control_i32(DQB);
            proof { bound_scaled(div, depth_queue_a); }
            let mac0 = div * depth_queue_a + depth_queue_b;
            self.set_mac0(mac0);
            mac0 as i32
        };
        self.regs[MAC0] = mac0 as u32;
        let ir0 = {
            let ir0 = mac0 >> 12;
            proof { lemma_shr_is_div(mac0 as i64); }
            self.set_flag(FLAG_IR0_SAT, ir0 > 0x1000 || ir0 < 0);
            if ir0 > 0x1000 {
                0x1000_i16
            } else if ir0 < 0 {
                0_i16
            } else {
                ir0 as i16
            }
        };
        self.regs[IR0] = ir0 as u32;
        proof {
            let rs = depth_queue_spec(d, c, div as int);
            assert(self.data() =~= rs.0);
            assert(self.ctrl() =~= rs.1);
        }
    }
}

/// A divisor of at most 17 bits times a 16-bit value stays small.
proof fn bound_scaled(div: i64, v: i64)
    requires
        0 <= div <= 0x1FFFF,
        -0x8000 <= v <= 0x7FFF,
    ensures
        -0x1_0000_0000 <= div * v <= 0x1_0000_0000,
{
    assert(-0x1_0000_0000 <= div * v <= 0x1_0000_0000) by (nonlinear_arith)
        requires 0 <= div <= 0x1FFFF, -0x8000 <= v <= 0x7FFF;
}

/// Products of 16-bit matrix elements with a 16-bit vector stay small.
proof fn bound_products(a: i64, b: i64, c: i64, x: i64, y: i64, z: i64)
    requires
        -0x8000 <= a <= 0x7FFF,
        -0x8000 <= b <= 0x7FFF,
        -0x8000 <= c <= 0x7FFF,
        -0x8000 <= x <= 0x7FFF,
        -0x8000 <= y <= 0x7FFF,
        -0x8000 <= z <= 0x7FFF,
    ensures
        -0x4000_0000 <= a * x <= 0x4000_0000,
        -0x4000_0000 <= b * y <= 0x4000_0000,
        -0x4000_0000 <= c * z <= 0x4000_0000,
        a * x == x * a,
        b * y == y * b,
        c * z == z * c,
{
    assert(a * x == x * a && b * y == y * b && c * z == z * c) by (nonlinear_arith);
    assert(-0x4000_0000 <= a * x <= 0x4000_0000) by (nonlinear_arith)
        requires -0x8000 <= a <= 0x7FFF, -0x8000 <= x <= 0x7FFF;
    assert(-0x4000_0000 <= b * y <= 0x4000_0000) by (nonlinear_arith)
        requires -0x8000 <= b <= 0x7FFF, -0x8000 <= y <= 0x7FFF;
    assert(-0x4000_0000 <= c * z <= 0x4000_0000) by (nonlinear_arith)
        requires -0x8000 <= c <= 0x7FFF, -0x8000 <= z <= 0x7FFF;
}

// Commands.
impl GTE {
    /// Rotate, translate, perspective transformation (single).
    pub fn rtps(&mut self, shift: u8, ir_unsigned: bool)
        requires
            shift < 64,
        ensures
            (final(self).data(), final(self).ctrl()) == rtps_spec(old(self).data(), old(self).ctrl(), shift, ir_unsigned),
    {
        let vx0 = self.get_reg_i16_lo(VXY0);
        let vy0 = self.get_reg_i16_hi(VXY0);
        let vz0 = self.get_reg_i16_lo(VZ0);
        let div = self.rtp(shift, ir_unsigned, vx0, vy0, vz0);
        self.depth_queue(div);
    }

    /// Rotate, translate, perspective transformation (triple).
    pub fn rtpt(&mut self, shift: u8, ir_unsigned: bool)
        requires
            shift < 64,
        ensures
            (final(self).data(), final(self).ctrl()) == rtpt_spec(old(self).data(), old(self).ctrl(), shift, ir_unsigned),
    {
        let ghost d = self.data();
        let vx0 = self.get_reg_i16_lo(VXY0);
        let vy0 = self.get_reg_i16_hi(VXY0);
        let vz0 = self.get_reg_i16_lo(VZ0);
        self.rtp(shift, ir_unsigned, vx0, vy0, vz0);
        assert(self.data()[VXY1 as int] == d[VXY1 as int] && self.data()[VZ1 as int] == d[VZ1 as int]);
        let vx1 = self.get_reg_i16_lo(VXY1);
        let vy1 = self.get_reg_i16_hi(VXY1);
        let vz1 = self.get_reg_i16_lo(VZ1);
        self.rtp(shift, ir_unsigned, vx1, vy1, vz1);
        assert(self.data()[VXY2 as int] == d[VXY2 as int] && self.data()[VZ2 as int] == d[VZ2 as int]);
        let vx2 = self.get_reg_i16_lo(VXY2);
        let vy2 = self.get_reg_i16_hi(VXY2);
        let vz2 = self.get_reg_i16_lo(VZ2);
        let div = self.rtp(shift, ir_unsigned, vx2, vy2, vz2);
        self.depth_queue(div);
    }

    /// Normal clipping.
    pub fn nclip(&mut self)
        ensures
            (final(self).data(), final(self).ctrl()) == set_mac0_spec(old(self).data(), old(self).ctrl(), nclip_value(old(self).data()) as i64),
    {
        let sx0 = self.get_reg_i16_lo(SXY0);
        let sy0 = self.get_reg_i16_hi(SXY0);
        let sx1 = self.get_reg_i16_lo(SXY1);
        let sy1 = self.get_reg_i16_hi(SXY1);
        let sx2 = self.get_reg_i16_lo(SXY2);
        let sy2 = self.get_reg_i16_hi(SXY2);
        proof {
            bound_products(sx0, sx1, sx2, sy1, sy2, sy0);
            bound_products(sx0, sx1, sx2, sy2, sy0, sy1);
        }
        let mac0 = sx0 * sy1 + sx1 * sy2 + sx2 * sy0 - sx0 * sy2 - sx1 * sy0 - sx2 * sy1;
        self.set_mac0(mac0);
    }

    /// Outer product.
    pub fn op(&mut self, shift: u8, ir_unsigned: bool)
        requires
            shift < 64,
        ensures
            (final(self).data(), final(self).ctrl()) == op_spec(old(self).data(), old(self).ctrl(), shift, ir_unsigned),
    {
        let ir1 = self.get_reg_i16_lo(IR1);
        let ir2 = self.get_reg_i16_lo(IR2);
        let ir3 = self.get_reg_i16_lo(IR3);
        let d1 = self.get_control_i16_lo(RT11_12);
        let d2 = self.get_control_i16_lo(RT22_23);
        let d3 = self.get_control_i16_lo(RT33);
        proof {
            bound_products(d2, d3, d1, ir3, ir2, ir1);
            bound_products(d3, d1, d2, ir1, ir3, ir2);
            bound_products(d1, d2, d3, ir2, ir1, ir3);
        }
        let mac1 = self.set_mac1(d2 * ir3 - d3 * ir2, shift);
        self.set_ir1(mac1, ir_unsigned);
        let mac2 = self.set_mac2(d3 * ir1 - d1 * ir3, shift);
        self.set_ir2(mac2, ir_unsigned);
        let mac3 = self.set_mac3(d1 * ir2 - d2 * ir1, shift);
        self.set_ir3(mac3, ir_unsigned);
    }

    /// Depth queueing (single). Not implemented: leaves all registers unchanged.
    fn dpcs(&mut self)
        ensures
            *final(self) == *old(self),
    {
    }

    /// Depth queueing (triple). Not implemented: leaves all registers unchanged.
    fn dpct(&mut self)
        ensures
            *final(self) == *old(self),
    {
    }

    /// Interpolation. Not implemented: leaves all registers unchanged.
    fn intpl(&mut self)
        ensures
            *final(self) == *old(self),
    {
    }

    /// Multiply vector by matrix and add.
    ///
    /// Matrix 3 and translation vector 2 are not supported.
    pub fn mvmva(&mut self, shift: u8, ir_unsigned: bool, mul_mat: u8, mul_vec: u8, trans_vec: u8)
        requires
            shift < 64,
            mul_mat < 3,
            mul_vec < 4,
            trans_vec < 4,
            trans_vec != 2,
        ensures
            (final(self).data(), final(self).ctrl())
                == mvmva_spec(old(self).data(), old(self).ctrl(), shift, ir_unsigned, mul_mat, mul_vec, trans_vec),
    {
        let ghost d = self.data();
        let ghost c = self.ctrl();
        let m_vec: [i64; 3] = if mul_vec == 0 {
            [self.get_reg_i16_lo(VXY0), self.get_reg_i16_hi(VXY0), self.get_reg_i16_lo(VZ0)]
        } else if mul_vec == 1 {
            [self.get_reg_i16_lo(VXY1), self.get_reg_i16_hi(VXY1), self.get_reg_i16_lo(VZ1)]
        } else if mul_vec == 2 {
            [self.get_reg_i16_lo(VXY2), self.get_reg_i16_hi(VXY2), self.get_reg_i16_lo(VZ2)]
        } else {
            [self.get_reg_i16_lo(IR1), self.get_reg_i16_hi(IR2), self.get_reg_i16_lo(IR3)]
        };
        let base: usize = if mul_mat == 0 { RT11_12 } else if mul_mat == 1 { L11_12 } else { LR1R2 };
        let mat: [i64; 9] = [
            self.get_control_i16_lo(base),
            self.get_control_i16_hi(base),
            self.get_control_i16_lo(base + 1),
            self.get_control_i16_hi(base + 1),
            self.get_control_i16_lo(base + 2),
            self.get_control_i16_hi(base + 2),
            self.get_control_i16_lo(base + 3),
            self.get_control_i16_hi(base + 3),
            self.get_control_i16_lo(base + 4),
        ];
        let t_vec: [i64; 3] = if trans_vec == 0 {
            [self.get_control_i32(TRX), self.get_control_i32(TRY), self.get_control_i32(TRZ)]
        } else if trans_vec == 1 {
            [self.get_control_i32(RBK), self.get_control_i32(GBK), self.get_control_i32(BBK)]
        } else {
            [0, 0, 0]
        };
        let ghost v = mvmva_vector(d, mul_vec);
        let ghost m = mvmva_matrix(c, mul_mat);
        let ghost t = mvmva_translation(c, trans_vec);
        assert(m_vec[0] == v[0] && m_vec[1] == v[1] && m_vec[2] == v[2]);
        assert(mat[0] == m[0] && mat[1] == m[1] && mat[2] == m[2] && mat[3] == m[3] && mat[4] == m[4]
            && mat[5] == m[5] && mat[6] == m[6] && mat[7] == m[7] && mat[8] == m[8]);
        assert(t_vec[0] == t[0] && t_vec[1] == t[1] && t_vec[2] == t[2]);
        proof {
            bound_products(mat[0], mat[1], mat[2], m_vec[0], m_vec[1], m_vec[2]);
            bound_products(mat[3], mat[4], mat[5], m_vec[0], m_vec[1], m_vec[2]);
            bound_products(mat[6], mat[7], mat[8], m_vec[0], m_vec[1], m_vec[2]);
        }
        let mac1 = mat[0] * m_vec[0] + mat[1] * m_vec[1] + mat[2] * m_vec[2] + t_vec[0] * 4096;
        let mac1 = self.set_mac1(mac1, shift);
        self.set_ir1(mac1, ir_unsigned);
        let mac2 = mat[3] * m_vec[0] + mat[4] * m_vec[1] + mat[5] * m_vec[2] + t_vec[1] * 4096;
        let mac2 = self.set_mac2(mac2, shift);
        self.set_ir2(mac2, ir_unsigned);
        let mac3 = mat[6] * m_vec[0] + mat[7] * m_vec[1] + mat[8] * m_vec[2] + t_vec[2] * 4096;
        let mac3 = self.set_mac3(mac3, shift);
        self.set_ir3(mac3, ir_unsigned);
    }

    /// Color color. Not implemented: leaves all registers unchanged.
    fn cc(&mut self)
        ensures
            *final(self) == *old(self),
    {
    }

    /// Color depth queue. Not implemented: leaves all registers unchanged.
    fn cdp(&mut self)
        ensures
            *final(self) == *old(self),
    {
    }

    /// Square IR.
    pub fn sqr(&mut self, shift: u8, ir_unsigned: bool)
        requires
            shift < 64,
        ensures
            (final(self).data(), final(self).ctrl()) == sqr_spec(old(self).data(), old(self).ctrl(), shift, ir_unsigned),
    {
        let ir1 = self.get_reg_i16_lo(IR1);
        let ir2 = self.get_reg_i16_lo(IR2);
        let ir3 = self.get_reg_i16_lo(IR3);
        proof {
            bound_products(ir1, ir2, ir3, ir1, ir2, ir3);
        }
        let mac1 = self.set_mac1(ir1 * ir1, shift);
        self.set_ir1(mac1, ir_unsigned);
        let mac2 = self.set_mac2(ir2 * ir2, shift);
        self.set_ir2(mac2, ir_unsigned);
        let mac3 = self.set_mac3(ir3 * ir3, shift);
        self.set_ir3(mac3, ir_unsigned);
    }

    /// Depth cue color light. Not implemented: leaves all registers unchanged.
    fn dcpl(&mut self)
        ensures
            *final(self) == *old(self),
    {
    }

    /// Average 3 Z values.
    pub fn avsz3(&mut self)
        ensures
            (final(self).data(), final(self).ctrl()) == avsz_spec(
                old(self).data(),
                old(self).ctrl(),
                lo_s16(old(self).ctrl()[ZSF3 as int]),
                lo_u16(old(self).data()[SZ1 as int]) + lo_u16(old(self).data()[SZ2 as int]) + lo_u16(old(self).data()[SZ3 as int]),
            ),
    {
        let zsf3 = self.get_control_i16_lo(ZSF3);
        let sz1 = self.get_reg_u16_lo(SZ1);
        let sz2 = self.get_reg_u16_lo(SZ2);
        let sz3 = self.get_reg_u16_lo(SZ3);
        proof { bound_z_average(zsf3, sz1 + sz2 + sz3); }
        let mac0 = zsf3 * (sz1 + sz2 + sz3);
        self.finish_avsz(mac0);
    }

    /// Average 4 Z values.
    pub fn avsz4(&mut self)
        ensures
            (final(self).data(), final(self).ctrl()) == avsz_spec(
                old(self).data(),
                old(self).ctrl(),
                lo_s16(old(self).ctrl()[ZSF4 as int]),
                lo_u16(old(self).data()[SZ0 as int]) + lo_u16(old(self).data()[SZ1 as int]) + lo_u16(old(self).data()[SZ2 as int])
                    + lo_u16(old(self).data()[SZ3 as int]),
            ),
    {
        let zsf4 = self.get_control_i16_lo(ZSF4);
        let sz0 = self.get_reg_u16_lo(SZ0);
        let sz1 = self.get_reg_u16_lo(SZ1);
        let sz2 = self.get_reg_u16_lo(SZ2);
        let sz3 = self.get_reg_u16_lo(SZ3);
        proof { bound_z_average(zsf4, sz0 + sz1 + sz2 + sz3); }
        let mac0 = zsf4 * (sz0 + sz1 + sz2 + sz3);
        self.finish_avsz(mac0);
    }

    /// Store an averaged Z value into MAC0 and OTZ.
    fn finish_avsz(&mut self, mac0: i64)
        requires
            -0x1_0000_0000_0000 < mac0 < 0x1_0000_0000_0000,
        ensures
            (final(self).data(), final(self).ctrl()) == ({
                let (d1, c1) = set_mac0_spec(old(self).data(), old(self).ctrl(), mac0);
                let otz = mac0 / 4096;
                (d1.update(OTZ as int, clamp(otz as int, 0, 0xFFFF) as u32), raise_spec(c1, FLAG_SZ3_SAT, (otz as u32) > 0xFFFF))
            }),
    {
        let ghost d = self.data();
        let ghost c = self.ctrl();
        self.set_mac0(mac0);
        let otz = mac0 >> 12;
        proof { lemma_shr_is_div(mac0 as i64); }
        let clamped: i64 = if otz < 0 { 0 } else if otz > 0xFFFF { 0xFFFF } else { otz };
        self.regs[OTZ] = clamped as u32;
        self.set_flag(FLAG_SZ3_SAT, (otz as u32) > 0xFFFF);
        proof {
            let (d1, c1) = set_mac0_spec(d, c, mac0);
            assert(self.data() =~= d1.update(OTZ as int, clamp(otz as int, 0, 0xFFFF) as u32));
        }
    }

    /// General purpose interpolation. Not implemented: leaves all registers unchanged.
    fn gpf(&mut self)
        ensures
            *final(self) == *old(self),
    {
    }

    /// General purpose interpolation with base. Not implemented: leaves all registers unchanged.
    fn gpl(&mut self)
        ensures
            *final(self) == *old(self),
    {
    }
}

/// A Z scale factor times a sum of up to four Z values stays small.
proof fn bound_z_average(zsf: i64, sum: int)
    requires
        -0x8000 <= zsf <= 0x7FFF,
        0 <= sum <= 4 * 0xFFFF,
    ensures
        -0x10_0000_0000 < zsf * sum < 0x10_0000_0000,
{
    assert(-0x10_0000_0000 < zsf * sum < 0x10_0000_0000) by (nonlinear_arith)
        requires -0x8000 <= zsf <= 0x7FFF, 0 <= sum <= 4 * 0xFFFF;
}

// Lighting.
impl GTE {
    /// Multiply normal by light direction, then multiply the result by color matrix.
    ///
    /// Returns the shifted MAC1..MAC3 values.
    fn normal_color_mul(&mut self, shift: u8, ir_unsigned: bool, nx: i64, ny: i64, nz: i64) -> (r: [i32; 3])
        requires
            shift < 64,
            -0x8000 <= nx <= 0x7FFF,
            -0x8000 <= ny <= 0x7FFF,
            -0x8000 <= nz <= 0x7FFF,
        ensures
            ({
                let (d, c, m1, m2, m3) = ncm_spec(old(self).data(), old(self).ctrl(), shift, ir_unsigned, nx as int, ny as int, nz as int);
                final(self).data() == d && final(self).ctrl() == c && r[0] == m1 && r[1] == m2 && r[2] == m3
            }),
    {
        // Light direction calculation.
        let ir1 = {
            let l11 = self.get_control_i16_lo(L11_12);
            let l12 = self.get_control_i16_hi(L11_12);
            let l13 = self.get_control_i16_lo(L13_21);
            proof { bound_products(l11, l12, l13, nx, ny, nz); }
            let mac1 = self.set_mac1(l11 * nx + l12 * ny + l13 * nz, shift);
            self.set_ir1(mac1, ir_unsigned)
        };
        let ir2 = {
            let l21 = self.get_control_i16_hi(L13_21);
            let l22 = self.get_control_i16_lo(L22_23);
            let l23 = self.get_control_i16_hi(L22_23);
            proof { bound_products(l21, l22, l23, nx, ny, nz); }
            let mac2 = self.set_mac2(l21 * nx + l22 * ny + l23 * nz, shift);
            self.set_ir2(mac2, ir_unsigned)
        };
        let ir3 = {
            let l31 = self.get_control_i16_lo(L31_32);
            let l32 = self.get_control_i16_hi(L31_32);
            let l33 = self.get_control_i16_lo(L33);
            proof { bound_products(l31, l32, l33, nx, ny, nz); }
            let mac3 = self.set_mac3(l31 * nx + l32 * ny + l33 * nz, shift);
            self.set_ir3(mac3, ir_unsigned)
        };
        // Color matrix calculation.
        let mac1 = {
            let lr1 = self.get_control_i16_lo(LR1R2);
            let lr2 = self.get_control_i16_hi(LR1R2);
            let lr3 = self.get_control_i16_lo(LR3G1);
            let rbk = self.get_control_i32(RBK);
            proof { bound_products(lr1, lr2, lr3, ir1, ir2, ir3); }
            self.set_mac1(lr1 * ir1 + lr2 * ir2 + lr3 * ir3 + rbk * 4096, shift)
        };
        let mac2 = {
            let lg1 = self.get_control_i16_hi(LR3G1);
            let lg2 = self.get_control_i16_lo(LG2G3);
            let lg3 = self.get_control_i16_hi(LG2G3);
            let gbk = self.get_control_i32(GBK);
            proof { bound_products(lg1, lg2, lg3, ir1, ir2, ir3); }
            self.set_mac2(lg1 * ir1 + lg2 * ir2 + lg3 * ir3 + gbk * 4096, shift)
        };
        let mac3 = {
            let lb1 = self.get_control_i16_lo(LB1B2);
            let lb2 = self.get_control_i16_hi(LB1B2);
            let lb3 = self.get_control_i16_lo(LB3);
            let bbk = self.get_control_i32(BBK);
            proof { bound_products(lb1, lb2, lb3, ir1, ir2, ir3); }
            self.set_mac3(lb1 * ir1 + lb2 * ir2 + lb3 * ir3 + bbk * 4096, shift)
        };
        [mac1, mac2, mac3]
    }

    /// Shift the color FIFO.
    fn shift_rgb_fifo(&mut self)
        ensures
            final(self).data() == rgb_fifo_shift(old(self).data()),
            final(self).ctrl() == old(self).ctrl(),
    {
        self.regs[RGB0] = self.regs[RGB1];
        self.regs[RGB1] = self.regs[RGB2];
        assert(self.data() =~= rgb_fifo_shift(old(self).data()));
    }

    /// Normal * color calculation.
    /// Shifts color FIFO.
    fn normal_color(&mut self, shift: u8, ir_unsigned: bool, nx: i64, ny: i64, nz: i64)
        requires
            shift < 64,
            -0x8000 <= nx <= 0x7FFF,
            -0x8000 <= ny <= 0x7FFF,
            -0x8000 <= nz <= 0x7FFF,
        ensures
            (final(self).data(), final(self).ctrl())
                == nc_spec(old(self).data(), old(self).ctrl(), shift, ir_unsigned, nx as int, ny as int, nz as int),
    {
        let ghost d = self.data();
        self.shift_rgb_fifo();
        let macs = self.normal_color_mul(shift, ir_unsigned, nx, ny, nz);
        let mac1 = macs[0];
        let mac2 = macs[1];
        let mac3 = macs[2];
        let r = {
            self.set_ir1(mac1, ir_unsigned);
            let r = mac1 >> 4;
            proof { lemma_shr_is_div(mac1 as i64); }
            self.set_flag(FLAG_COL_R_SAT, r > 0xFF);
            if r < 0 { 0u32 } else if r > 0xFF { 0xFFu32 } else { r as u32 }
        };
        let g = {
            self.set_ir2(mac2, ir_unsigned);
            let g = mac2 >> 4;
            proof { lemma_shr_is_div(mac2 as i64); }
            self.set_flag(FLAG_COL_G_SAT, g > 0xFF);
            if g < 0 { 0u32 } else if g > 0xFF { 0xFFu32 } else { g as u32 }
        };
        let b = {
            self.set_ir3(mac3, ir_unsigned);
            let b = mac3 >> 4;
            proof { lemma_shr_is_div(mac3 as i64); }
            self.set_flag(FLAG_COL_B_SAT, b > 0xFF);
            if b < 0 { 0u32 } else if b > 0xFF { 0xFFu32 } else { b as u32 }
        };
        assert(self.data()[RGBC as int] == d[RGBC as int]);
        let code = self.regs[RGBC] & 0xFF00_0000;
        self.regs[RGB2] = code | (r << 16) | (g << 8) | b;
        proof {
            reveal(nc_spec);
            let rs = nc_spec(d, old(self).ctrl(), shift, ir_unsigned, nx as int, ny as int, nz as int);
            assert(self.data() =~= rs.0);
        }
    }

    /// Normal * color calculation, with color factor.
    /// Shifts color FIFO.
    fn normal_color_color(&mut self, shift: u8, ir_unsigned: bool, nx: i64, ny: i64, nz: i64)
        requires
            shift < 64,
            -0x8000 <= nx <= 0x7FFF,
            -0x8000 <= ny <= 0x7FFF,
            -0x8000 <= nz <= 0x7FFF,
        ensures
            (final(self).data(), final(self).ctrl())
                == ncc_spec(old(self).data(), old(self).ctrl(), shift, ir_unsigned, nx as int, ny as int, nz as int),
    {
        let ghost d = self.data();
        self.shift_rgb_fifo();
        let macs = self.normal_color_mul(shift, ir_unsigned, nx, ny, nz);
        let mac1 = macs[0];
        let mac2 = macs[1];
        let mac3 = macs[2];
        assert(self.data()[RGBC as int] == d[RGBC as int]);
        let rgbc = self.regs[RGBC];
        let r = {
            let r = ((rgbc >> 16) & 0xFF) as i64;
            proof { lemma_masked_fields(rgbc); }
            let ir1 = self.set_ir1(mac1, ir_unsigned);
            proof { bound_products(ir1, ir1, ir1, r, r, r); }
            let m = self.set_mac1(ir1 * r, shift);
            let v = m >> 4;
            proof { lemma_shr_is_div(m as i64); }
            self.set_ir1(v, ir_unsigned);
            self.set_flag(FLAG_COL_R_SAT, v > 0xFF);
            if v < 0 { 0u32 } else if v > 0xFF { 0xFFu32 } else { v as u32 }
        };
        let g = {
            let g = ((rgbc >> 8) & 0xFF) as i64;
            proof { lemma_masked_fields(rgbc); }
            let ir2 = self.set_ir2(mac2, ir_unsigned);
            proof { bound_products(ir2, ir2, ir2, g, g, g); }
            let m = self.set_mac2(ir2 * g, shift);
            let v = m >> 4;
            proof { lemma_shr_is_div(m as i64); }
            self.set_ir2(v, ir_unsigned);
            self.set_flag(FLAG_COL_G_SAT, v > 0xFF);
            if v < 0 { 0u32 } else if v > 0xFF { 0xFFu32 } else { v as u32 }
        };
        let b = {
            let b = (rgbc & 0xFF) as i64;
            proof { lemma_masked_fields(rgbc); }
            let ir3 = self.set_ir3(mac3, ir_unsigned);
            proof { bound_products(ir3, ir3, ir3, b, b, b); }
            let m = self.set_mac3(ir3 * b, shift);
            let v = m >> 4;
            proof { lemma_shr_is_div(m as i64); }
            self.set_ir3(v, ir_unsigned);
            self.set_flag(FLAG_COL_B_SAT, v > 0xFF);
            if v < 0 { 0u32 } else if v > 0xFF { 0xFFu32 } else { v as u32 }
        };
        let code = rgbc & 0xFF00_0000;
        self.regs[RGB2] = code | (r << 16) | (g << 8) | b;
        proof {
            reveal(ncc_spec);
            let rs = ncc_spec(d, old(self).ctrl(), shift, ir_unsigned, nx as int, ny as int, nz as int);
            assert(self.data() =~= rs.0);
        }
    }

    /// Normal * color calculation, with depth queue.
    /// Shifts color FIFO.
    #[verifier::spinoff_prover]
    #[verifier::rlimit(50)]
    fn normal_color_depth(&mut self, shift: u8, ir_unsigned: bool, nx: i64, ny: i64, nz: i64)
        requires
            shift < 64,
            -0x8000 <= nx <= 0x7FFF,
            -0x8000 <= ny <= 0x7FFF,
            -0x8000 <= nz <= 0x7FFF,
        ensures
            (final(self).data(), final(self).ctrl())
                == ncd_spec(old(self).data(), old(self).ctrl(), shift, ir_unsigned, nx as int, ny as int, nz as int),
    {
        let ghost d = self.data();
        self.shift_rgb_fifo();
        let macs = self.normal_color_mul(shift, ir_unsigned, nx, ny, nz);
        let mac1 = macs[0];
        let mac2 = macs[1];
        let mac3 = macs[2];
        assert(self.data()[RGBC as int] == d[RGBC as int] && self.data()[IR0 as int] == d[IR0 as int]);
        let rgbc = self.regs[RGBC];
        let ir0 = self.get_reg_i16_lo(IR0);
        let r = {
            let r = ((rgbc >> 16) & 0xFF) as i64;
            proof { lemma_masked_fields(rgbc); }
            let ir1 = self.set_ir1(mac1, ir_unsigned);
            proof { bound_products(ir1, ir1, ir1, r, r, r); }
            let m = self.set_mac1(ir1 * r, 0);
            let base = m >> 4;
            proof { lemma_shr_is_div(m as i64); }
            let base = base as i64;
            let rfc = self.get_control_i32(RFC);
            let ir1 = self.set_ir1(((rfc * 4096 - base) >> shift) as i32, false);
            proof { bound_products(ir1, ir1, ir1, ir0, ir0, ir0); }
            let mac = self.set_mac1(ir1 * ir0 + base, shift);
            self.set_ir1(mac, ir_unsigned);
            self.set_flag(FLAG_COL_R_SAT, mac > 0xFF);
            if mac < 0 { 0u32 } else if mac > 0xFF { 0xFFu32 } else { mac as u32 }
        };
        let g = {
            let g = ((rgbc >> 8) & 0xFF) as i64;
            proof { lemma_masked_fields(rgbc); }
            let ir2 = self.set_ir2(mac2, ir_unsigned);
            proof { bound_products(ir2, ir2, ir2, g, g, g); }
            let m = self.set_mac2(ir2 * g, 0);
            let base = m >> 4;
            proof { lemma_shr_is_div(m as i64); }
            let base = base as i64;
            let gfc = self.get_control_i32(GFC);
            let ir2 = self.set_ir2(((gfc * 4096 - base) >> shift) as i32, false);
            proof { bound_products(ir2, ir2, ir2, ir0, ir0, ir0); }
            let mac = self.set_mac2(ir2 * ir0 + base, shift);
            self.set_ir2(mac, ir_unsigned);
            self.set_flag(FLAG_COL_G_SAT, mac > 0xFF);
            if mac < 0 { 0u32 } else if mac > 0xFF { 0xFFu32 } else { mac as u32 }
        };
        let b = {
            let b = (rgbc & 0xFF) as i64;
            proof { lemma_masked_fields(rgbc); }
            let ir3 = self.set_ir3(mac3, ir_unsigned);
            proof { bound_products(ir3, ir3, ir3, b, b, b); }
            let m = self.set_mac3(ir3 * b, 0);
            let base = m >> 4;
            proof { lemma_shr_is_div(m as i64); }
            let base = base as i64;
            let bfc = self.get_control_i32(BFC);
            let ir3 = self.set_ir3(((bfc * 4096 - base) >> shift) as i32, false);
            proof { bound_products(ir3, ir3, ir3, ir0, ir0, ir0); }
            let mac = self.set_mac3(ir3 * ir0 + base, shift);
            self.set_ir3(mac, ir_unsigned);
            self.set_flag(FLAG_COL_B_SAT, mac > 0xFF);
            if mac < 0 { 0u32 } else if mac > 0xFF { 0xFFu32 } else { mac as u32 }
        };
        let code = rgbc & 0xFF00_0000;
        self.regs[RGB2] = code | (r << 16) | (g << 8) | b;
        proof {
            reveal(ncd_spec);
            let rs = ncd_spec(d, old(self).ctrl(), shift, ir_unsigned, nx as int, ny as int, nz as int);
            assert(self.data() =~= rs.0);
        }
    }
}

// Lighting commands.
impl GTE {
    /// Normal color (single).
    pub fn ncs(&mut self, shift: u8, ir_unsigned: bool)
        requires
            shift < 64,
        ensures
            (final(self).data(), final(self).ctrl()) == nc_spec(old(self).data(), old(self).ctrl(), shift, ir_unsigned,
                vector(old(self).data(), 0).0, vector(old(self).data(), 0).1, vector(old(self).data(), 0).2),
    {
        let vx0 = self.get_reg_i16_lo(VXY0);
        let vy0 = self.get_reg_i16_hi(VXY0);
        let vz0 = self.get_reg_i16_lo(VZ0);
        self.normal_color(shift, ir_unsigned, vx0, vy0, vz0);
    }

    /// Normal color (triple).
    pub fn nct(&mut self, shift: u8, ir_unsigned: bool)
        requires
            shift < 64,
        ensures
            (final(self).data(), final(self).ctrl()) == nct_spec(old(self).data(), old(self).ctrl(), shift, ir_unsigned),
    {
        let ghost d = self.data();
        let vx0 = self.get_reg_i16_lo(VXY0);
        let vy0 = self.get_reg_i16_hi(VXY0);
        let vz0 = self.get_reg_i16_lo(VZ0);
        proof { lemma_lighting_keeps_vectors(self.data(), self.ctrl(), shift, ir_unsigned, vx0 as int, vy0 as int, vz0 as int); self.lemma_len(); }
        self.normal_color(shift, ir_unsigned, vx0, vy0, vz0);
        assert(self.data()[VXY1 as int] == d[VXY1 as int] && self.data()[VZ1 as int] == d[VZ1 as int]);
        let vx1 = self.get_reg_i16_lo(VXY1);
        let vy1 = self.get_reg_i16_hi(VXY1);
        let vz1 = self.get_reg_i16_lo(VZ1);
        proof { lemma_lighting_keeps_vectors(self.data(), self.ctrl(), shift, ir_unsigned, vx1 as int, vy1 as int, vz1 as int); self.lemma_len(); }
        self.normal_color(shift, ir_unsigned, vx1, vy1, vz1);
        assert(self.data()[VXY2 as int] == d[VXY2 as int] && self.data()[VZ2 as int] == d[VZ2 as int]);
        let vx2 = self.get_reg_i16_lo(VXY2);
        let vy2 = self.get_reg_i16_hi(VXY2);
        let vz2 = self.get_reg_i16_lo(VZ2);
        self.normal_color(shift, ir_unsigned, vx2, vy2, vz2);
    }

    /// Normal color color (single).
    pub fn nccs(&mut self, shift: u8, ir_unsigned: bool)
        requires
            shift < 64,
        ensures
            (final(self).data(), final(self).ctrl()) == ncc_spec(old(self).data(), old(self).ctrl(), shift, ir_unsigned,
                vector(old(self).data(), 0).0, vector(old(self).data(), 0).1, vector(old(self).data(), 0).2),
    {
        let vx0 = self.get_reg_i16_lo(VXY0);
        let vy0 = self.get_reg_i16_hi(VXY0);
        let vz0 = self.get_reg_i16_lo(VZ0);
        self.normal_color_color(shift, ir_unsigned, vx0, vy0, vz0);
    }

    /// Normal color color (triple).
    pub fn ncct(&mut self, shift: u8, ir_unsigned: bool)
        requires
            shift < 64,
        ensures
            (final(self).data(), final(self).ctrl()) == ncct_spec(old(self).data(), old(self).ctrl(), shift, ir_unsigned),
    {
        let ghost d = self.data();
        let vx0 = self.get_reg_i16_lo(VXY0);
        let vy0 = self.get_reg_i16_hi(VXY0);
        let vz0 = self.get_reg_i16_lo(VZ0);
        proof { lemma_lighting_keeps_vectors(self.data(), self.ctrl(), shift, ir_unsigned, vx0 as int, vy0 as int, vz0 as int); self.lemma_len(); }
        self.normal_color_color(shift, ir_unsigned, vx0, vy0, vz0);
        assert(self.data()[VXY1 as int] == d[VXY1 as int] && self.data()[VZ1 as int] == d[VZ1 as int]);
        let vx1 = self.get_reg_i16_lo(VXY1);
        let vy1 = self.get_reg_i16_hi(VXY1);
        let vz1 = self.get_reg_i16_lo(VZ1);
        proof { lemma_lighting_keeps_vectors(self.data(), self.ctrl(), shift, ir_unsigned, vx1 as int, vy1 as int, vz1 as int); self.lemma_len(); }
        self.normal_color_color(shift, ir_unsigned, vx1, vy1, vz1);
        assert(self.data()[VXY2 as int] == d[VXY2 as int] && self.data()[VZ2 as int] == d[VZ2 as int]);
        let vx2 = self.get_reg_i16_lo(VXY2);
        let vy2 = self.get_reg_i16_hi(VXY2);
        let vz2 = self.get_reg_i16_lo(VZ2);
        self.normal_color_color(shift, ir_unsigned, vx2, vy2, vz2);
    }

    /// Normal color depth queue (single).
    pub fn ncds(&mut self, shift: u8, ir_unsigned: bool)
        requires
            shift < 64,
        ensures
            (final(self).data(), final(self).ctrl()) == ncd_spec(old(self).data(), old(self).ctrl(), shift, ir_unsigned,
                vector(old(self).data(), 0).0, vector(old(self).data(), 0).1, vector(old(self).data(), 0).2),
    {
        let vx0 = self.get_reg_i16_lo(VXY0);
        let vy0 = self.get_reg_i16_hi(VXY0);
        let vz0 = self.get_reg_i16_lo(VZ0);
        self.normal_color_depth(shift, ir_unsigned, vx0, vy0, vz0);
    }

    /// Normal color depth queue (triple).
    pub fn ncdt(&mut self, shift: u8, ir_unsigned: bool)
        requires
            shift < 64,
        ensures
            (final(self).data(), final(self).ctrl()) == ncdt_spec(old(self).data(), old(self).ctrl(), shift, ir_unsigned),
    {
        let ghost d = self.data();
        let vx0 = self.get_reg_i16_lo(VXY0);
        let vy0 = self.get_reg_i16_hi(VXY0);
        let vz0 = self.get_reg_i16_lo(VZ0);
        proof { lemma_lighting_keeps_vectors(self.data(), self.ctrl(), shift, ir_unsigned, vx0 as int, vy0 as int, vz0 as int); self.lemma_len(); }
        self.normal_color_depth(shift, ir_unsigned, vx0, vy0, vz0);
        assert(self.data()[VXY1 as int] == d[VXY1 as int] && self.data()[VZ1 as int] == d[VZ1 as int]);
        let vx1 = self.get_reg_i16_lo(VXY1);
        let vy1 = self.get_reg_i16_hi(VXY1);
        let vz1 = self.get_reg_i16_lo(VZ1);
        proof { lemma_lighting_keeps_vectors(self.data(), self.ctrl(), shift, ir_unsigned, vx1 as int, vy1 as int, vz1 as int); self.lemma_len(); }
        self.normal_color_depth(shift, ir_unsigned, vx1, vy1, vz1);
        assert(self.data()[VXY2 as int] == d[VXY2 as int] && self.data()[VZ2 as int] == d[VZ2 as int]);
        let vx2 = self.get_reg_i16_lo(VXY2);
        let vy2 = self.get_reg_i16_hi(VXY2);
        let vz2 = self.get_reg_i16_lo(VZ2);
        self.normal_color_depth(shift, ir_unsigned, vx2, vy2, vz2);
    }
}

// Coprocessor interface.
impl GTE {
    /// Load a data register from memory (LWC2).
    pub fn load_from_mem(&mut self, reg: usize, data: u32)
        requires
            reg < 32,
        ensures
            final(self).data() == old(self).data().update(reg as int, data),
            final(self).ctrl() == old(self).ctrl(),
    {
        self.move_to_reg(reg, data);
    }

    /// Store a data register to memory (SWC2).
    pub fn store_to_mem(&mut self, reg: usize) -> (r: u32)
        requires
            reg < 32,
        ensures
            r == (if reg == LZCR { lzcr_value(old(self).data()[LZCS as int]) } else { old(self).data()[reg as int] }),
            *final(self) == *old(self),
    {
        self.move_from_reg(reg)
    }

    /// Read a control register (CFC2).
    pub fn move_from_control(&mut self, reg: usize) -> (r: u32)
        requires
            reg < 32,
        ensures
            r == old(self).ctrl()[reg as int],
            *final(self) == *old(self),
    {
        self.control_regs[reg]
    }

    /// Write a control register (CTC2).
    pub fn move_to_control(&mut self, reg: usize, data: u32)
        requires
            reg < 32,
        ensures
            final(self).ctrl() == old(self).ctrl().update(reg as int, data),
            final(self).data() == old(self).data(),
    {
        self.control_regs[reg] = data;
        assert(self.ctrl() =~= old(self).ctrl().update(reg as int, data));
    }

    /// Read a data register (MFC2). LZCR reports the count of leading bits
    /// equal to the top bit of LZCS.
    pub fn move_from_reg(&mut self, reg: usize) -> (r: u32)
        requires
            reg < 32,
        ensures
            r == (if reg == LZCR { lzcr_value(old(self).data()[LZCS as int]) } else { old(self).data()[reg as int] }),
            *final(self) == *old(self),
    {
        if reg == LZCR {
            let lzcs = self.regs[LZCS];
            lzcs.leading_ones() | lzcs.leading_zeros()
        } else {
            self.regs[reg]
        }
    }

    /// Write a data register (MTC2).
    pub fn move_to_reg(&mut self, reg: usize, data: u32)
        requires
            reg < 32,
        ensures
            final(self).data() == old(self).data().update(reg as int, data),
            final(self).ctrl() == old(self).ctrl(),
    {
        self.regs[reg] = data;
        assert(self.data() =~= old(self).data().update(reg as int, data));
    }

    /// Execute a command word.
    pub fn operation(&mut self, instr: u32)
        requires
            command_supported(instr),
        ensures
            (final(self).data(), final(self).ctrl()) == operation_spec(old(self).data(), old(self).ctrl(), instr),
    {
        self.control_regs[FLAG] = 0;
        assert(self.ctrl() =~= old(self).ctrl().update(FLAG as int, 0));
        let op = instr & 0x3F;
        // If bit 19 is set, the results are shifted by 12.
        let shift: u8 = if instr & 0x0008_0000 != 0 { 12 } else { 0 };
        proof {
            lemma_command_fields(instr);
        }
        let ir_unsigned = ((instr & 0x0000_0400) >> 10) == 1;
        if op == 0x01 {
            self.rtps(shift, ir_unsigned)
        } else if op == 0x06 {
            self.nclip()
        } else if op == 0x0C {
            self.op(shift, ir_unsigned)
        } else if op == 0x10 {
            self.dpcs()
        } else if op == 0x11 {
            self.intpl()
        } else if op == 0x12 {
            let mul_mat = ((instr & 0x0006_0000) >> 17) as u8;
            let mul_vec = ((instr & 0x0001_8000) >> 15) as u8;
            let trans_vec = ((instr & 0x0000_6000) >> 13) as u8;
            self.mvmva(shift, ir_unsigned, mul_mat, mul_vec, trans_vec)
        } else if op == 0x13 {
            self.ncds(shift, ir_unsigned)
        } else if op == 0x14 {
            self.cdp()
        } else if op == 0x16 {
            self.ncdt(shift, ir_unsigned)
        } else if op == 0x1B {
            self.nccs(shift, ir_unsigned)
        } else if op == 0x1C {
            self.cc()
        } else if op == 0x1E {
            self.ncs(shift, ir_unsigned)
        } else if op == 0x20 {
            self.nct(shift, ir_unsigned)
        } else if op == 0x28 {
            self.sqr(shift, ir_unsigned)
        } else if op == 0x29 {
            self.dcpl()
        } else if op == 0x2A {
            self.dpct()
        } else if op == 0x2D {
            self.avsz3()
        } else if op == 0x2E {
            self.avsz4()
        } else if op == 0x30 {
            self.rtpt(shift, ir_unsigned)
        } else if op == 0x3D {
            self.gpf()
        } else if op == 0x3E {
            self.gpl()
        } else if op == 0x3F {
            self.ncct(shift, ir_unsigned)
        }
    }

    /// Raw read of a data register, without the LZCR calculation.
    pub fn read_data_reg(&self, reg: usize) -> (r: u32)
        requires
            reg < 32,
        ensures
            r == self.data()[reg as int],
    {
        self.regs[reg]
    }
}

/// The fields of a command word: the shift as the command reads it, and
/// the three selectors of the matrix-vector product, each below 4.
proof fn lemma_command_fields(instr: u32)
    by (bit_vector)
    ensures
        (((instr & 0x0006_0000) >> 17) as u8) < 4,
        (((instr & 0x0001_8000) >> 15) as u8) < 4,
        (((instr & 0x0000_6000) >> 13) as u8) < 4,
{
}

} // verus!
