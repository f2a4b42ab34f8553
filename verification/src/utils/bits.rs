use vstd::prelude::*;

verus! {

/// An arithmetic right shift of a signed value rounds towards minus
/// infinity, as the division by the matching power of two does.
pub proof fn lemma_shr_is_div(x: i64)
    by (bit_vector)
    ensures
        x >> 4 == x / 16,
        x >> 12 == x / 4096,
        x >> 16 == x / 65536,
{
}

/// The same for a signed word.
pub proof fn lemma_shr_is_div_i32(x: i32)
    by (bit_vector)
    ensures
        x >> 16 == x / 65536,
        x >> 15 == x / 32768,
        x >> 12 == x / 4096,
        x >> 7 == x / 128,
{
}

/// A field picked out of a word by a mask is no larger than the mask.
pub proof fn lemma_masked_fields(x: u32)
    by (bit_vector)
    ensures
        x & 0xFF <= 0xFF,
        (x >> 8) & 0xFF <= 0xFF,
        (x >> 16) & 0xFF <= 0xFF,
        (x >> 24) & 0xFF <= 0xFF,
        x & 7 <= 7,
        x & 3 <= 3,
        x & 1 <= 1,
        x & 0x7FFFF == x % 0x80000,
        x & 0x3FF <= 0x3FF,
        (x >> 10) & 0x1FF <= 0x1FF,
        x & 0x7FF <= 0x7FF,
        (x >> 11) & 0x7FF <= 0x7FF,
{
}

/// A field picked out of a byte by a mask is no larger than the mask.
pub proof fn lemma_masked_byte_fields(x: u8)
    by (bit_vector)
    ensures
        x & 0xF <= 0xF,
        (x >> 4) & 0x7 <= 7,
        x >> 4 <= 0xF,
        x >> 1 == x / 2,
        x >> 2 == x / 4,
        x >> 3 == x / 8,
        x & 3 <= 3,
        x & 1 <= 1,
{
}

/// The low bits of a halfword picked out by a mask.
pub proof fn lemma_u16_low_bits(x: u16)
    by (bit_vector)
    ensures
        x & 0x3FF <= 0x3FF,
        x & 0x1FF <= 0x1FF,
        x & 0xFF <= 0xFF,
        x & 0x1F <= 0x1F,
        x & 0xF <= 0xF,
{
}

/// A right shift by 7 of a halfword is a division by 128.
pub proof fn lemma_u16_shr7(x: u16)
    by (bit_vector)
    ensures
        x >> 7 == x / 128,
{
}

/// The low halfword of a word, and its bytes.
pub proof fn lemma_low_halfword(x: u32)
    by (bit_vector)
    ensures
        (x as u16 & 0xFF) as u8 == (x & 0xFF) as u8,
        ((x as u16 >> 8) & 0xFF) as u8 == ((x >> 8) & 0xFF) as u8,
{
}

/// The palette fields of the high halfword of a command word.
pub proof fn lemma_palette_fields(x: u32)
    by (bit_vector)
    ensures
        ((x >> 16) as usize & 0x3F) == ((x >> 16) & 0x3F) as usize,
        (((x >> 16) as usize >> 6) & 0x1FF) == (((x >> 16) >> 6) & 0x1FF) as usize,
        (x >> 16) & 0x3F <= 0x3F,
        ((x >> 16) >> 6) & 0x1FF <= 0x1FF,
{
}

/// The texture page fields of a draw mode.
pub proof fn lemma_draw_mode_fields(m: u16)
    by (bit_vector)
    ensures
        m & 0x0F <= 0x0F,
        m & 0x10 <= 0x10,
        (m >> 7) & 0x3 <= 3,
{
}

/// The top six bits of a halfword.
pub proof fn lemma_u16_shr10(x: u16)
    by (bit_vector)
    ensures
        x >> 10 <= 63,
{
}

/// Halving by a right shift.
pub proof fn lemma_usize_shr1(x: usize)
    by (bit_vector)
    ensures
        x >> 1 == x / 2,
{
}

/// A halfword is its two bytes put back together, low byte first.
pub proof fn lemma_u16_bytes(x: u16)
    by (bit_vector)
    ensures
        ((x as u8) as u16 | (((x >> 8) as u8) as u16) << 8) as u16 == x,
{
}

/// A word is its four bytes put back together, low byte first.
pub proof fn lemma_u32_bytes(x: u32)
    by (bit_vector)
    ensures
        ((x as u8) as u32 | (((x >> 8) as u8) as u32) << 8 | (((x >> 16) as u8) as u32) << 16
            | (((x >> 24) as u8) as u32) << 24) == x,
{
}

/// The fields of a VRAM position wrapped into VRAM.
pub proof fn lemma_i16_clip(x: i16)
    by (bit_vector)
    ensures
        0 <= x & 0x3FF <= 0x3FF,
        0 <= x & 0x1FF <= 0x1FF,
{
}

/// An 11-bit field moved to the top of a halfword and back down keeps its
/// sign.
pub proof fn lemma_i16_sext11(x: i16)
    by (bit_vector)
    requires
        0 <= x < 0x800,
    ensures
        x >= 0x400 ==> (x << 5) >> 5 == x - 0x800,
        x < 0x400 ==> (x << 5) >> 5 == x,
{
}

} // verus!
