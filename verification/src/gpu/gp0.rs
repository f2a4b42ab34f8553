use vstd::prelude::*;
use super::renderer::GP0Command;

verus! {

/// The word that ends a poly-line.
pub const POLY_LINE_TERM: u32 = 0x5555_5555;

/// The number of words in the packet of GP0 command `cmd`, the command word included.
pub open spec fn gp0_words(cmd: u8) -> int {
    if cmd == 0x01 || cmd == 0x1F {
        1
    } else if cmd == 0x02 {
        3
    } else if 0x20 <= cmd <= 0x23 {
        4
    } else if 0x24 <= cmd <= 0x27 {
        7
    } else if 0x28 <= cmd <= 0x2B {
        5
    } else if 0x2C <= cmd <= 0x2F {
        9
    } else if 0x30 <= cmd <= 0x33 {
        6
    } else if 0x34 <= cmd <= 0x37 {
        9
    } else if 0x38 <= cmd <= 0x3B {
        8
    } else if 0x3C <= cmd <= 0x3F {
        12
    } else if 0x40 <= cmd <= 0x4F {
        3
    } else if 0x50 <= cmd <= 0x5F {
        4
    } else if 0x60 <= cmd <= 0x63 {
        3
    } else if 0x64 <= cmd <= 0x67 {
        4
    } else if 0x68 <= cmd <= 0x6B || 0x70 <= cmd <= 0x73 || 0x78 <= cmd <= 0x7B {
        2
    } else if 0x6C <= cmd <= 0x6F || 0x74 <= cmd <= 0x77 || 0x7C <= cmd <= 0x7F {
        3
    } else if cmd == 0x80 {
        4
    } else if cmd == 0xA0 || cmd == 0xC0 {
        3
    } else if 0xE1 <= cmd <= 0xE6 {
        1
    } else {
        0
    }
}

/// The packet size of a command, as the decoder counts it.
pub fn gp0_command_words(cmd: u8) -> (r: usize)
    ensures
        r == gp0_words(cmd),
{
    match cmd {
        0x01 => 1,
        0x02 => 3,
        0x1F => 1,
        0x20..=0x23 => 4,
        0x24..=0x27 => 7,
        0x28..=0x2B => 5,
        0x2C..=0x2F => 9,
        0x30..=0x33 => 6,
        0x34..=0x37 => 9,
        0x38..=0x3B => 8,
        0x3C..=0x3F => 12,
        0x40..=0x4F => 3,
        0x50..=0x5F => 4,
        0x60..=0x63 => 3,
        0x64..=0x67 => 4,
        0x68..=0x6B => 2,
        0x6C..=0x6F => 3,
        0x70..=0x73 => 2,
        0x74..=0x77 => 3,
        0x78..=0x7B => 2,
        0x7C..=0x7F => 3,
        0x80 => 4,
        0xA0 => 3,
        0xC0 => 3,
        0xE1..=0xE6 => 1,
        _ => 0,
    }
}

/// A poly-line of one colour.
pub open spec fn is_poly_line(cmd: u8) -> bool {
    cmd == 0x48 || cmd == 0x4A || cmd == 0x4C
}

/// A shaded poly-line.
pub open spec fn is_shaded_poly_line(cmd: u8) -> bool {
    cmd == 0x58 || cmd == 0x5A || cmd == 0x5E
}

/// A command that only describes a drawing or a copy, and changes no state
/// of the GPU.
pub open spec fn is_plain(cmd: u8) -> bool {
    ||| cmd == 0x01 || cmd == 0x02
    ||| 0x20 <= cmd <= 0x3F
    ||| 0x40 <= cmd <= 0x42
    ||| 0x50 <= cmd <= 0x53
    ||| 0x60 <= cmd <= 0x68
    ||| cmd == 0x6A || 0x6C <= cmd <= 0x70
    ||| cmd == 0x72 || 0x74 <= cmd <= 0x78
    ||| cmd == 0x7A || 0x7C <= cmd <= 0x80
}

/// The GP0 commands the GPU knows.
pub open spec fn gp0_known(cmd: u8) -> bool {
    ||| cmd == 0x00
    ||| is_plain(cmd)
    ||| cmd == 0x1F
    ||| is_poly_line(cmd)
    ||| is_shaded_poly_line(cmd)
    ||| cmd == 0xA0 || cmd == 0xC0
    ||| 0xE1 <= cmd <= 0xE6
}

/// The command is drawn semi-transparent: bit 1 of the command.
pub open spec fn transparent_cmd(cmd: u8) -> bool {
    cmd & 2 != 0
}

/// The side of a fixed-size rectangle: 1, 8 or 16 pixels.
pub open spec fn fixed_size(cmd: u8) -> u16 {
    if cmd < 0x70 { 1 } else if cmd < 0x78 { 8 } else { 16 }
}

/// `c` is the command that a complete packet of plain command `cmd`, of
/// words `w`, describes.
pub open spec fn describes(cmd: u8, w: Seq<u32>, c: GP0Command) -> bool {
    match c {
        GP0Command::ClearCache => cmd == 0x01,
        GP0Command::FillRectangle(p) => cmd == 0x02 && p@ == w.subrange(0, 3),
        GP0Command::DrawTri { params, transparent } =>
            0x20 <= cmd <= 0x23 && params@ == w.subrange(0, 4) && transparent == transparent_cmd(cmd),
        GP0Command::DrawTexBlendTri { params, transparent } =>
            (cmd == 0x24 || cmd == 0x26) && params@ == w.subrange(0, 7) && transparent == transparent_cmd(cmd),
        GP0Command::DrawTexTri { params, transparent } =>
            (cmd == 0x25 || cmd == 0x27) && params@ == w.subrange(1, 7) && transparent == transparent_cmd(cmd),
        GP0Command::DrawQuad { params, transparent } =>
            0x28 <= cmd <= 0x2B && params@ == w.subrange(0, 5) && transparent == transparent_cmd(cmd),
        GP0Command::DrawTexBlendQuad { params, transparent } =>
            (cmd == 0x2C || cmd == 0x2E) && params@ == w.subrange(0, 9) && transparent == transparent_cmd(cmd),
        GP0Command::DrawTexQuad { params, transparent } =>
            (cmd == 0x2D || cmd == 0x2F) && params@ == w.subrange(1, 9) && transparent == transparent_cmd(cmd),
        GP0Command::DrawShadedTri { params, transparent } =>
            0x30 <= cmd <= 0x33 && params@ == w.subrange(0, 6) && transparent == transparent_cmd(cmd),
        GP0Command::DrawTexShadedTri { params, transparent } =>
            0x34 <= cmd <= 0x37 && params@ == w.subrange(0, 9) && transparent == transparent_cmd(cmd),
        GP0Command::DrawShadedQuad { params, transparent } =>
            0x38 <= cmd <= 0x3B && params@ == w.subrange(0, 8) && transparent == transparent_cmd(cmd),
        GP0Command::DrawTexShadedQuad { params, transparent } =>
            0x3C <= cmd <= 0x3F && params@ == w.subrange(0, 12) && transparent == transparent_cmd(cmd),
        GP0Command::DrawLine { params, transparent } =>
            0x40 <= cmd <= 0x42 && params@ == w.subrange(0, 3) && transparent == transparent_cmd(cmd),
        GP0Command::DrawShadedLine { params, transparent } =>
            0x50 <= cmd <= 0x53 && params@ == w.subrange(0, 4) && transparent == transparent_cmd(cmd),
        GP0Command::DrawRect { params, transparent } =>
            0x60 <= cmd <= 0x63 && params@ == w.subrange(0, 3) && transparent == transparent_cmd(cmd),
        GP0Command::DrawTexBlendedRect { params, transparent } =>
            (cmd == 0x64 || cmd == 0x66) && params@ == w.subrange(0, 4) && transparent == transparent_cmd(cmd),
        GP0Command::DrawTexRect { params, transparent } =>
            (cmd == 0x65 || cmd == 0x67) && params@ == w.subrange(1, 4) && transparent == transparent_cmd(cmd),
        GP0Command::DrawFixedRect { params, size, transparent } =>
            (cmd == 0x68 || cmd == 0x6A || cmd == 0x70 || cmd == 0x72 || cmd == 0x78 || cmd == 0x7A)
                && params@ == w.subrange(0, 2) && size == fixed_size(cmd) && transparent == transparent_cmd(cmd),
        GP0Command::DrawTexBlendedFixedRect { params, size, transparent } =>
            (cmd == 0x6C || cmd == 0x6E || cmd == 0x74 || cmd == 0x76 || cmd == 0x7C || cmd == 0x7E)
                && params@ == w.subrange(0, 3) && size == fixed_size(cmd) && transparent == transparent_cmd(cmd),
        GP0Command::DrawTexFixedRect { params, size, transparent } =>
            (cmd == 0x6D || cmd == 0x6F || cmd == 0x75 || cmd == 0x77 || cmd == 0x7D || cmd == 0x7F)
                && params@ == w.subrange(1, 3) && size == fixed_size(cmd) && transparent == transparent_cmd(cmd),
        GP0Command::BlitVRAMtoVRAM { params } => cmd == 0x80 && params@ == w.subrange(1, 4),
        GP0Command::BlitCPUtoVRAM { params } => cmd == 0xA0 && params@ == w.subrange(1, 3),
        GP0Command::BlitVRAMtoCPU { params } => cmd == 0xC0 && params@ == w.subrange(1, 3),
        _ => false,
    }
}

/// 2 words of `v` from `off` on.
fn words2(v: &Vec<u32>, off: usize) -> (r: [u32; 2])
    requires
        off <= 1,
        off + 2 <= v@.len(),
    ensures
        r@ == v@.subrange(off as int, off + 2),
{
    let r = [v[off], v[off + 1]];
    assert(r@ =~= v@.subrange(off as int, off + 2));
    r
}

/// 3 words of `v` from `off` on.
fn words3(v: &Vec<u32>, off: usize) -> (r: [u32; 3])
    requires
        off <= 1,
        off + 3 <= v@.len(),
    ensures
        r@ == v@.subrange(off as int, off + 3),
{
    let r = [v[off], v[off + 1], v[off + 2]];
    assert(r@ =~= v@.subrange(off as int, off + 3));
    r
}

/// 4 words of `v` from `off` on.
fn words4(v: &Vec<u32>, off: usize) -> (r: [u32; 4])
    requires
        off <= 1,
        off + 4 <= v@.len(),
    ensures
        r@ == v@.subrange(off as int, off + 4),
{
    let r = [v[off], v[off + 1], v[off + 2], v[off + 3]];
    assert(r@ =~= v@.subrange(off as int, off + 4));
    r
}

/// 5 words of `v` from `off` on.
fn words5(v: &Vec<u32>, off: usize) -> (r: [u32; 5])
    requires
        off <= 1,
        off + 5 <= v@.len(),
    ensures
        r@ == v@.subrange(off as int, off + 5),
{
    let r = [v[off], v[off + 1], v[off + 2], v[off + 3], v[off + 4]];
    assert(r@ =~= v@.subrange(off as int, off + 5));
    r
}

/// 6 words of `v` from `off` on.
fn words6(v: &Vec<u32>, off: usize) -> (r: [u32; 6])
    requires
        off <= 1,
        off + 6 <= v@.len(),
    ensures
        r@ == v@.subrange(off as int, off + 6),
{
    let r = [v[off], v[off + 1], v[off + 2], v[off + 3], v[off + 4], v[off + 5]];
    assert(r@ =~= v@.subrange(off as int, off + 6));
    r
}

/// 7 words of `v` from `off` on.
fn words7(v: &Vec<u32>, off: usize) -> (r: [u32; 7])
    requires
        off <= 1,
        off + 7 <= v@.len(),
    ensures
        r@ == v@.subrange(off as int, off + 7),
{
    let r = [v[off], v[off + 1], v[off + 2], v[off + 3], v[off + 4], v[off + 5], v[off + 6]];
    assert(r@ =~= v@.subrange(off as int, off + 7));
    r
}

/// 8 words of `v` from `off` on.
fn words8(v: &Vec<u32>, off: usize) -> (r: [u32; 8])
    requires
        off <= 1,
        off + 8 <= v@.len(),
    ensures
        r@ == v@.subrange(off as int, off + 8),
{
    let r = [v[off], v[off + 1], v[off + 2], v[off + 3], v[off + 4], v[off + 5], v[off + 6], v[off + 7]];
    assert(r@ =~= v@.subrange(off as int, off + 8));
    r
}

/// 9 words of `v` from `off` on.
fn words9(v: &Vec<u32>, off: usize) -> (r: [u32; 9])
    requires
        off <= 1,
        off + 9 <= v@.len(),
    ensures
        r@ == v@.subrange(off as int, off + 9),
{
    let r = [v[off], v[off + 1], v[off + 2], v[off + 3], v[off + 4], v[off + 5], v[off + 6], v[off + 7], v[off + 8]];
    assert(r@ =~= v@.subrange(off as int, off + 9));
    r
}

/// 12 words of `v` from `off` on.
fn words12(v: &Vec<u32>, off: usize) -> (r: [u32; 12])
    requires
        off <= 1,
        off + 12 <= v@.len(),
    ensures
        r@ == v@.subrange(off as int, off + 12),
{
    let r = [v[off], v[off + 1], v[off + 2], v[off + 3], v[off + 4], v[off + 5], v[off + 6], v[off + 7], v[off + 8], v[off + 9], v[off + 10], v[off + 11]];
    assert(r@ =~= v@.subrange(off as int, off + 12));
    r
}

/// The command that a complete packet of a plain command describes.
pub fn plain_command(cmd: u8, w: &Vec<u32>) -> (r: GP0Command)
    requires
        is_plain(cmd),
        w@.len() == gp0_words(cmd),
    ensures
        describes(cmd, w@, r),
{
    let transparent = cmd & 2 != 0;
    let size: u16 = if cmd < 0x70 { 1 } else if cmd < 0x78 { 8 } else { 16 };
    match cmd {
        0x01 => GP0Command::ClearCache,
        0x02 => GP0Command::FillRectangle(words3(w, 0)),
        0x20..=0x23 => GP0Command::DrawTri { params: words4(w, 0), transparent },
        0x24 | 0x26 => GP0Command::DrawTexBlendTri { params: words7(w, 0), transparent },
        0x25 | 0x27 => GP0Command::DrawTexTri { params: words6(w, 1), transparent },
        0x28..=0x2B => GP0Command::DrawQuad { params: words5(w, 0), transparent },
        0x2C | 0x2E => GP0Command::DrawTexBlendQuad { params: words9(w, 0), transparent },
        0x2D | 0x2F => GP0Command::DrawTexQuad { params: words8(w, 1), transparent },
        0x30..=0x33 => GP0Command::DrawShadedTri { params: words6(w, 0), transparent },
        0x34..=0x37 => GP0Command::DrawTexShadedTri { params: words9(w, 0), transparent },
        0x38..=0x3B => GP0Command::DrawShadedQuad { params: words8(w, 0), transparent },
        0x3C..=0x3F => GP0Command::DrawTexShadedQuad { params: words12(w, 0), transparent },
        0x40..=0x42 => GP0Command::DrawLine { params: words3(w, 0), transparent },
        0x50..=0x53 => GP0Command::DrawShadedLine { params: words4(w, 0), transparent },
        0x60..=0x63 => GP0Command::DrawRect { params: words3(w, 0), transparent },
        0x64 | 0x66 => GP0Command::DrawTexBlendedRect { params: words4(w, 0), transparent },
        0x65 | 0x67 => GP0Command::DrawTexRect { params: words3(w, 1), transparent },
        0x68 | 0x6A | 0x70 | 0x72 | 0x78 | 0x7A => GP0Command::DrawFixedRect { params: words2(w, 0), size, transparent },
        0x6C | 0x6E | 0x74 | 0x76 | 0x7C | 0x7E => GP0Command::DrawTexBlendedFixedRect { params: words3(w, 0), size, transparent },
        0x6D | 0x6F | 0x75 | 0x77 | 0x7D | 0x7F => GP0Command::DrawTexFixedRect { params: words2(w, 1), size, transparent },
        _ => GP0Command::BlitVRAMtoVRAM { params: words3(w, 1) },
    }
}

} // verus!
