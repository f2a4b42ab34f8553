use vstd::prelude::*;
use crate::utils::bits::lemma_u16_bytes;

verus! {

/// The byte lane `lane` (0 = least significant) of a little-endian word.
pub open spec fn lane_of(word: u32, lane: u32) -> u8 {
    ((word >> (lane * 8)) & 0xFF) as u8
}

/// A word with byte lane `lane` replaced by `data`.
pub open spec fn with_lane(word: u32, lane: u32, data: u8) -> u32 {
    (word & !((0xFFu32) << (lane * 8))) | ((data as u32) << (lane * 8))
}

/// The byte of `word` selected by the low two bits of `addr`.
pub fn byte_of_word(word: u32, addr: u32) -> (r: u8)
    ensures
        r == lane_of(word, addr & 3),
{
    let lane = addr & 3;
    proof {
        lemma_word_access_aligned(addr);
    }
    ((word >> (lane * 8)) & 0xFF) as u8
}

/// Replacing one byte lane of a word changes that lane and no other.
proof fn lemma_with_lane(word: u32, lane: u32, data: u8, l: u32)
    by (bit_vector)
    requires
        lane < 4,
        l < 4,
    ensures
        ((((word & !((0xFFu32) << (lane * 8))) | ((data as u32) << (lane * 8))) >> (l * 8)) & 0xFF) as u8
            == if l == lane { data } else { ((word >> (l * 8)) & 0xFF) as u8 },
{
}

/// `word` with the byte selected by the low two bits of `addr` replaced.
pub fn replace_byte_of_word(word: u32, addr: u32, data: u8) -> (r: u32)
    ensures
        r == with_lane(word, addr & 3, data),
        lane_of(r, addr & 3) == data,
        forall|l: u32| l < 4 && l != (addr & 3) ==> #[trigger] lane_of(r, l) == lane_of(word, l),
{
    let lane = addr & 3;
    proof {
        lemma_word_access_aligned(addr);
        lemma_with_lane(word, lane, data, lane);
    }
    let r = (word & !((0xFFu32) << (lane * 8))) | ((data as u32) << (lane * 8));
    assert forall|l: u32| l < 4 && l != lane implies #[trigger] lane_of(r, l) == lane_of(word, l) by {
        lemma_with_lane(word, lane, data, l);
    }
    r
}

/// The halfword at byte lane `lane` of a little-endian word (`lane` < 3).
pub open spec fn half_of(word: u32, lane: u32) -> u16 {
    ((lane_of(word, lane) as u16) | ((lane_of(word, (lane + 1) as u32) as u16) << 8)) as u16
}

/// The halfword of `word` that starts at the byte selected by `addr`.
///
/// The halfword must lie within the word.
pub fn halfword_of_word(word: u32, addr: u32) -> (r: u16)
    requires
        (addr & 3) < 3,
    ensures
        r == half_of(word, addr & 3),
{
    let lo = byte_of_word(word, addr);
    let hi = byte_of_word(word, (addr & 0xFFFF_FFFC) | ((addr & 3) + 1));
    proof {
        lemma_word_access_aligned(addr);
    }
    (lo as u16) | ((hi as u16) << 8)
}

/// `word` with the halfword starting at the byte selected by `addr` replaced.
///
/// The halfword must lie within the word.
pub fn replace_halfword_of_word(word: u32, addr: u32, data: u16) -> (r: u32)
    requires
        (addr & 3) < 3,
    ensures
        r == with_lane(with_lane(word, addr & 3, data as u8), ((addr & 3) + 1) as u32, (data >> 8) as u8),
        half_of(r, addr & 3) == data,
{
    let lane = addr & 3;
    let hi_addr = (addr & 0xFFFF_FFFC) | (lane + 1);
    proof {
        lemma_word_access_aligned(addr);
        lemma_u16_bytes(data);
    }
    let w1 = replace_byte_of_word(word, addr, data as u8);
    let w2 = replace_byte_of_word(w1, hi_addr, (data >> 8) as u8);
    assert(lane_of(w2, lane) == data as u8);
    w2
}

/// An access of `width` bytes at `addr` that stays within the word at
/// `base`, which is word aligned: a whole aligned word, a halfword that does
/// not cross the word boundary, or a byte.
pub open spec fn word_access(base: u32, addr: u32, width: u32) -> bool {
    base & 3 == 0 && base <= addr && (
        (width == 4 && addr == base)
        || (width == 2 && addr - base < 3)
        || (width == 1 && addr - base < 4)
    )
}

/// The word containing an access is found by clearing the two low address
/// bits, which give the offset of the access within that word.
pub proof fn lemma_word_access_aligned(addr: u32)
    by (bit_vector)
    ensures
        (addr & 0xFFFF_FFFC) & 3 == 0,
        (addr & 0xFFFF_FFFC) & 0xFFFF_FFFC == addr & 0xFFFF_FFFC,
        addr & 0xFFFF_FFFC == addr - addr % 4,
        addr & 3 == addr % 4,
        addr & 3 < 4,
        addr & 3 < 3 ==> ((addr & 0xFFFF_FFFC) | ((addr & 3) + 1) as u32) & 3 == ((addr & 3) + 1) as u32,
{
}

/// Memory interface with a 32-bit data bus.
///
/// Reading individual bytes or halfwords goes through the containing word,
/// which might lead to unusual behaviour on some devices.
pub trait MemInterface: Sized {
    /// The accesses of `width` bytes (1, 2 or 4) at `addr` that this device answers to when reading.
    spec fn readable(addr: u32, width: u32) -> bool;

    /// The accesses of `width` bytes (1, 2 or 4) at `addr` that this device answers to when writing.
    spec fn writable(addr: u32, width: u32) -> bool;

    /// The device went from `before` to `after` by a read of the word at
    /// `addr`, which answered `r`.
    spec fn word_read(before: Self, after: Self, addr: u32, r: u32) -> bool;

    /// The device went from `before` to `after` by a write of `data` to the
    /// word at `addr`.
    spec fn word_written(before: Self, after: Self, addr: u32, data: u32) -> bool;

    /// A readable byte lies within a readable word.
    proof fn lemma_read_byte(addr: u32)
        requires
            Self::readable(addr, 1),
        ensures
            Self::readable(addr & 0xFFFF_FFFC, 4),
    ;

    /// A writable byte lies within a word that can be read and written.
    proof fn lemma_write_byte(addr: u32)
        requires
            Self::writable(addr, 1),
        ensures
            Self::readable(addr & 0xFFFF_FFFC, 4),
            Self::writable(addr & 0xFFFF_FFFC, 4),
    ;

    /// A readable halfword lies within a readable word.
    proof fn lemma_read_halfword(addr: u32)
        requires
            Self::readable(addr, 2),
        ensures
            Self::readable(addr & 0xFFFF_FFFC, 4),
            (addr & 3) < 3,
    ;

    /// A writable halfword lies within a word that can be read and written.
    proof fn lemma_write_halfword(addr: u32)
        requires
            Self::writable(addr, 2),
        ensures
            Self::readable(addr & 0xFFFF_FFFC, 4),
            Self::writable(addr & 0xFFFF_FFFC, 4),
            (addr & 3) < 3,
    ;

    /// Read a byte: the byte lane of the word that holds it.
    fn read_byte(&mut self, addr: u32) -> (r: u8)
        requires
            Self::readable(addr, 1),
        default_ensures
            exists|w: u32| Self::word_read(*old(self), *final(self), addr & 0xFFFF_FFFC, w) && r == lane_of(w, addr & 3),
    {
        proof {
            Self::lemma_read_byte(addr);
        }
        let data = self.read_word(addr & 0xFFFF_FFFC);
        byte_of_word(data, addr)
    }

    /// Write a byte: the word that holds it is read, and written back with
    /// the byte's lane replaced.
    fn write_byte(&mut self, addr: u32, data: u8)
        requires
            Self::writable(addr, 1),
        default_ensures
            exists|mid: Self, w: u32| Self::word_read(*old(self), mid, addr & 0xFFFF_FFFC, w)
                && #[trigger] Self::word_written(mid, *final(self), addr & 0xFFFF_FFFC, with_lane(w, addr & 3, data)),
    {
        proof {
            Self::lemma_write_byte(addr);
        }
        let word_addr = addr & 0xFFFF_FFFC;
        let word_data = self.read_word(word_addr);
        let ghost mid = *self;
        let new_word = replace_byte_of_word(word_data, addr, data);
        self.write_word(word_addr, new_word);
        assert(Self::word_read(*old(self), mid, word_addr, word_data)
            && Self::word_written(mid, *self, word_addr, with_lane(word_data, addr & 3, data)));
    }

    /// Read a halfword: the two byte lanes of the word that holds it.
    fn read_halfword(&mut self, addr: u32) -> (r: u16)
        requires
            Self::readable(addr, 2),
        default_ensures
            exists|w: u32| Self::word_read(*old(self), *final(self), addr & 0xFFFF_FFFC, w) && r == half_of(w, addr & 3),
    {
        proof {
            Self::lemma_read_halfword(addr);
        }
        let data = self.read_word(addr & 0xFFFF_FFFC);
        halfword_of_word(data, addr)
    }

    /// Write a halfword: the word that holds it is read, and written back
    /// with the halfword's two lanes replaced.
    fn write_halfword(&mut self, addr: u32, data: u16)
        requires
            Self::writable(addr, 2),
        default_ensures
            exists|mid: Self, w: u32| Self::word_read(*old(self), mid, addr & 0xFFFF_FFFC, w)
                && #[trigger] Self::word_written(mid, *final(self), addr & 0xFFFF_FFFC,
                    with_lane(with_lane(w, addr & 3, data as u8), ((addr & 3) + 1) as u32, (data >> 8) as u8)),
    {
        proof {
            Self::lemma_write_halfword(addr);
        }
        let word_addr = addr & 0xFFFF_FFFC;
        let word_data = self.read_word(word_addr);
        let ghost mid = *self;
        let new_word = replace_halfword_of_word(word_data, addr, data);
        self.write_word(word_addr, new_word);
        assert(Self::word_read(*old(self), mid, word_addr, word_data)
            && Self::word_written(mid, *self, word_addr,
                with_lane(with_lane(word_data, addr & 3, data as u8), ((addr & 3) + 1) as u32, (data >> 8) as u8)));
    }

    fn read_word(&mut self, addr: u32) -> (r: u32)
        requires
            Self::readable(addr, 4),
        ensures
            Self::word_read(*old(self), *final(self), addr, r),
    ;

    fn write_word(&mut self, addr: u32, data: u32)
        requires
            Self::writable(addr, 4),
        ensures
            Self::word_written(*old(self), *final(self), addr, data),
    ;
}

} // verus!
