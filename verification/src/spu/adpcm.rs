use vstd::prelude::*;
use crate::utils::bits::lemma_masked_byte_fields;
use super::clamp_i16;

verus! {

/// Weight, in 64ths, of the last sample in each of the five prediction filters.
pub open spec fn pos_filter(filter: int) -> int {
    if filter == 1 {
        60
    } else if filter == 2 {
        115
    } else if filter == 3 {
        98
    } else if filter == 4 {
        122
    } else {
        0
    }
}

/// Weight, in 64ths, of the sample before the last in each of the five prediction filters.
pub open spec fn neg_filter(filter: int) -> int {
    if filter == 2 {
        -52
    } else if filter == 3 {
        -55
    } else if filter == 4 {
        -60
    } else {
        0
    }
}

fn pos_adpcm_filter(filter: u8) -> (r: i32)
    requires
        filter < 5,
    ensures
        r == pos_filter(filter as int),
{
    match filter {
        1 => 60,
        2 => 115,
        3 => 98,
        4 => 122,
        _ => 0,
    }
}

fn neg_adpcm_filter(filter: u8) -> (r: i32)
    requires
        filter < 5,
    ensures
        r == neg_filter(filter as int),
{
    match filter {
        2 => -52,
        3 => -55,
        4 => -60,
        _ => 0,
    }
}

/// Integer division that rounds towards zero.
pub open spec fn div_toward_zero(a: int, d: int) -> int {
    if a >= 0 {
        a / d
    } else {
        -((-a) / d)
    }
}

/// A nybble of `byte` (the upper one when `high`) placed in the top four
/// bits of a signed halfword.
pub open spec fn nybble_of(byte: u8, high: bool) -> i16 {
    if high {
        ((byte & 0xF0) as i16) << 8
    } else {
        (byte as i16) << 12
    }
}

/// One decoded sample: the nybble scaled down by `shift`, plus the
/// prediction from the two samples before it (`prev_1` the last one).
pub open spec fn adpcm_sample(nybble: i16, shift: u8, prev_0: int, prev_1: int, filter: int) -> i16 {
    clamp_i16(((nybble as i32) >> shift) + div_toward_zero(prev_1 * pos_filter(filter) + prev_0 * neg_filter(filter) + 32, 64))
}

/// The shift of a block: the low four bits of its header byte.
pub open spec fn block_shift(data: Seq<u8>) -> u8 {
    data[0] & 0xF
}

/// The prediction filter of a block: bits 4 to 6 of its header byte.
pub open spec fn block_filter(data: Seq<u8>) -> int {
    ((data[0] >> 4) & 0x7) as int
}

/// The nybble of sample `j` of a block: sample `2k` is the low nybble of
/// data byte `k + 2`, sample `2k + 1` its high nybble.
pub open spec fn block_nybble(data: Seq<u8>, j: int) -> i16 {
    nybble_of(data[2 + j / 2], j % 2 == 1)
}

/// The first `k` samples of a block, decoded after the samples `p0`, `p1`
/// (`p1` the last sample decoded before the block).
pub open spec fn decoded_samples(data: Seq<u8>, p0: int, p1: int, k: nat) -> Seq<i16>
    decreases k,
{
    if k == 0 {
        Seq::empty()
    } else {
        let prev = decoded_samples(data, p0, p1, (k - 1) as nat);
        let j = k - 1;
        let q1 = if j >= 1 { prev[j - 1] as int } else { p1 };
        let q0 = if j >= 2 { prev[j - 2] as int } else if j == 1 { p1 } else { p0 };
        prev.push(adpcm_sample(block_nybble(data, j), block_shift(data), q0, q1, block_filter(data)))
    }
}

proof fn lemma_decoded_len(data: Seq<u8>, p0: int, p1: int, k: nat)
    ensures
        decoded_samples(data, p0, p1, k).len() == k,
    decreases k,
{
    if k > 0 {
        lemma_decoded_len(data, p0, p1, (k - 1) as nat);
    }
}

/// Decoding more samples of a block leaves the ones decoded before.
proof fn lemma_decoded_prefix(data: Seq<u8>, p0: int, p1: int, k: nat, n: nat)
    requires
        k <= n,
    ensures
        forall|j: int| 0 <= j < k ==> #[trigger] decoded_samples(data, p0, p1, n)[j] == decoded_samples(data, p0, p1, k)[j],
    decreases n,
{
    if n > k {
        lemma_decoded_prefix(data, p0, p1, k, (n - 1) as nat);
        lemma_decoded_len(data, p0, p1, (n - 1) as nat);
    }
}

/// Every sample of a decoded block is its nybble scaled down by the block's
/// shift, plus the prediction of the block's filter from the two samples
/// before it, rounded toward zero and saturated to a halfword. The filters
/// weigh the last sample and the one before it, in 64ths: filter 0 not at
/// all, filter 1 by 60 and 0, filter 2 by 115 and -52, filter 3 by 98 and
/// -55, filter 4 by 122 and -60.
pub proof fn lemma_block_prediction(data: Seq<u8>, p0: int, p1: int, j: int)
    requires
        0 <= j < 28,
        block_filter(data) < 5,
    ensures
        ({
            let s = decoded_samples(data, p0, p1, 28);
            let f = block_filter(data);
            let last = if j >= 1 { s[j - 1] as int } else { p1 };
            let before = if j >= 2 { s[j - 2] as int } else if j == 1 { p1 } else { p0 };
            let w_last = seq![0int, 60, 115, 98, 122][f];
            let w_before = seq![0int, 0, -52, -55, -60][f];
            let x = ((block_nybble(data, j) as i32) >> block_shift(data))
                + div_toward_zero(last * w_last + before * w_before + 32, 64);
            s[j] as int == (if x < -0x8000 { -0x8000 } else if x > 0x7FFF { 0x7FFF } else { x })
        }),
{
    lemma_decoded_prefix(data, p0, p1, (j + 1) as nat, 28);
    lemma_decoded_len(data, p0, p1, j as nat);
    if j >= 1 {
        lemma_decoded_prefix(data, p0, p1, j as nat, 28);
    }
    let f = block_filter(data);
    assert(pos_filter(f) == seq![0int, 60, 115, 98, 122][f]);
    assert(neg_filter(f) == seq![0int, 0, -52, -55, -60][f]);
}

/// A nybble shifted down stays within a halfword.
proof fn lemma_shifted_nybble(x: i16, shift: u8)
    by (bit_vector)
    requires
        shift < 16,
    ensures
        -0x8000 <= (x as i32) >> shift <= 0x7FFF,
{
}

/// Decode a single ADPCM sample from a nybble already placed in the top
/// four bits; `prev_1` is the last sample, `prev_0` the one before it.
fn decode_adpcm_sample(nybble: i16, shift: u8, prev_0: i32, prev_1: i32, pos: i32, neg: i32, filter: u8) -> (r: i16)
    requires
        shift < 16,
        filter < 5,
        pos == pos_filter(filter as int),
        neg == neg_filter(filter as int),
        -0x8000 <= prev_0 <= 0x7FFF,
        -0x8000 <= prev_1 <= 0x7FFF,
    ensures
        r == adpcm_sample(nybble, shift, prev_0 as int, prev_1 as int, filter as int),
{
    proof {
        lemma_shifted_nybble(nybble, shift);
        assert(-0x8000 * 122 <= prev_1 * pos <= 0x8000 * 122) by (nonlinear_arith)
            requires -0x8000 <= prev_1 <= 0x7FFF, 0 <= pos <= 122;
        assert(-0x8000 * 60 <= prev_0 * neg <= 0x8000 * 60) by (nonlinear_arith)
            requires -0x8000 <= prev_0 <= 0x7FFF, -60 <= neg <= 0;
    }
    let shifted = (nybble as i32) >> shift;
    let sample = shifted + ((prev_1 * pos) + (prev_0 * neg) + 32) / 64;
    if sample < -0x8000 {
        -0x8000
    } else if sample > 0x7FFF {
        0x7FFF
    } else {
        sample as i16
    }
}

/// Generates sound samples from ADPCM data, in BRR format.
///
/// ADPCM is Adaptive Differential Pulse-Code Modulation.
///
/// BRR is bit-rate reduction.
pub struct ADPCMDecoder {
    samples: [i16; 28],
    // Does this decoder have a set of decoded samples?
    is_decoded: bool,
    // The last block decoded had the loop_end bit set.
    loop_end: bool,
    // The last block decoded forces release mode for ADSR envelope.
    release: bool,
}

impl ADPCMDecoder {
    /// The 28 samples of the last decoded block.
    pub closed spec fn samples(&self) -> Seq<i16> {
        self.samples@
    }

    /// Whether a block has been decoded since the last reset.
    pub closed spec fn decoded(&self) -> bool {
        self.is_decoded
    }

    /// Whether the last decoded block ended a loop.
    pub closed spec fn loop_ended(&self) -> bool {
        self.loop_end
    }

    /// Whether the envelope is to be released.
    pub closed spec fn releasing(&self) -> bool {
        self.release
    }

    pub fn reset(&mut self)
        ensures
            final(self).samples() == Seq::new(28, |i: int| 0i16),
            !final(self).decoded(),
            final(self).loop_ended() == old(self).loop_ended(),
            final(self).releasing() == old(self).releasing(),
    {
        self.is_decoded = false;
        self.samples = [0; 28];
        assert(self.samples@ =~= Seq::new(28, |i: int| 0i16));
    }

    /// Returns true if a new block needs to be decoded.
    pub fn needs_block(&self) -> (r: bool)
        ensures
            r == !self.decoded(),
    {
        !self.is_decoded
    }

    /// Decode a block of ADPCM samples from its 16 bytes: a header byte
    /// (shift and filter), a flags byte, and 14 bytes of two nybbles each.
    /// Returns true if this is the start of a loop.
    pub fn decode_block(&mut self, data: &[u8]) -> (loop_start: bool)
        requires
            data@.len() >= 16,
            block_filter(data@) < 5,
        ensures
            final(self).samples() == decoded_samples(data@, old(self).samples()[26] as int,
                old(self).samples()[27] as int, 28),
            final(self).decoded(),
            final(self).loop_ended() == (data@[1] & 1 != 0),
            final(self).releasing() == if data@[1] & 1 != 0 { data@[1] & 2 == 0 } else { old(self).releasing() },
            loop_start == (data@[1] & 4 != 0),
    {
        let ghost old_samples = self.samples@;
        let ghost p0 = old_samples[26] as int;
        let ghost p1 = old_samples[27] as int;
        let ghost old_release = self.release;
        let shift = data[0] & 0xF;
        let filter = (data[0] >> 4) & 0x7;
        proof {
            lemma_masked_byte_fields(data@[0]);
        }
        let pos = pos_adpcm_filter(filter);
        let neg = neg_adpcm_filter(filter);
        let mut prev_0 = self.samples[26] as i32;
        let mut prev_1 = self.samples[27] as i32;
        let mut i: usize = 0;
        while i < 14
            invariant
                0 <= i <= 14,
                data@.len() >= 16,
                shift == block_shift(data@),
                filter as int == block_filter(data@),
                filter < 5,
                shift < 16,
                pos == pos_filter(filter as int),
                neg == neg_filter(filter as int),
                -0x8000 <= prev_0 <= 0x7FFF,
                -0x8000 <= prev_1 <= 0x7FFF,
                self.samples@.len() == 28,
                self.release == old_release,
                self.samples@.subrange(0, 2 * i as int) == decoded_samples(data@, p0, p1, (2 * i) as nat),
                i == 0 ==> prev_0 == p0 && prev_1 == p1,
                i > 0 ==> prev_0 == self.samples@[2 * i - 2] && prev_1 == self.samples@[2 * i - 1],
            decreases 14 - i,
        {
            let in_data = data[i + 2];
            let lo = (in_data as i16) << 12;
            let hi = ((in_data & 0xF0) as i16) << 8;
            let s_0 = decode_adpcm_sample(lo, shift, prev_0, prev_1, pos, neg, filter);
            prev_0 = prev_1;
            prev_1 = s_0 as i32;
            let s_1 = decode_adpcm_sample(hi, shift, prev_0, prev_1, pos, neg, filter);
            prev_0 = prev_1;
            prev_1 = s_1 as i32;
            let ghost before = self.samples@;
            self.samples[i * 2] = s_0;
            self.samples[i * 2 + 1] = s_1;
            proof {
                let k = 2 * i as int;
                lemma_decoded_len(data@, p0, p1, k as nat);
                lemma_decoded_len(data@, p0, p1, (k + 1) as nat);
                assert((k + 1) / 2 == i as int && (k + 1) % 2 == 1 && k / 2 == i as int && k % 2 == 0);
                assert(before.subrange(0, k) == decoded_samples(data@, p0, p1, k as nat));
                assert(self.samples@.subrange(0, k + 1) =~= decoded_samples(data@, p0, p1, (k + 1) as nat));
                assert(self.samples@.subrange(0, k + 2) =~= decoded_samples(data@, p0, p1, (k + 2) as nat));
            }
            i = i + 1;
        }
        assert(self.samples@ =~= self.samples@.subrange(0, 28));
        self.is_decoded = true;
        let flags = data[1];
        self.loop_end = flags & 1 != 0;
        if self.loop_end {
            self.release = flags & 2 == 0;
        }
        flags & 4 != 0
    }

    pub fn is_loop_end(&self) -> (r: bool)
        ensures
            r == self.loop_ended(),
    {
        self.loop_end
    }

    pub fn should_release(&self) -> (r: bool)
        ensures
            r == self.releasing(),
    {
        self.release
    }

    /// Get sample `n` of the decoded data.
    pub fn get_sample(&self, n: usize) -> (r: i16)
        requires
            n < 28,
        ensures
            r == self.samples()[n as int],
    {
        self.samples[n]
    }
}

impl Default for ADPCMDecoder {
    fn default() -> (r: Self)
        ensures
            r.samples() == Seq::new(28, |i: int| 0i16),
            !r.decoded(),
            !r.loop_ended(),
            !r.releasing(),
    {
        let r = Self { samples: [0; 28], is_decoded: false, loop_end: false, release: false };
        assert(r.samples@ =~= Seq::new(28, |i: int| 0i16));
        r
    }
}

/// A call on a decoder that bears on whether it holds decoded samples.
pub enum DecoderCall {
    Reset,
    DecodeBlock,
    NeedsBlock,
}

/// Whether a decoder holds decoded samples after `calls`, starting from
/// `start`: `reset` clears it, `decode_block` sets it, `needs_block` leaves it.
pub open spec fn decoded_after(start: bool, calls: Seq<DecoderCall>) -> bool
    decreases calls.len(),
{
    if calls.len() == 0 {
        start
    } else {
        match calls.last() {
            DecoderCall::Reset => false,
            DecoderCall::DecodeBlock => true,
            DecoderCall::NeedsBlock => decoded_after(start, calls.drop_last()),
        }
    }
}

/// The block decoded by call `i` still stands: no reset came after it.
pub open spec fn decode_stands(calls: Seq<DecoderCall>, i: int) -> bool {
    &&& 0 <= i < calls.len()
    &&& calls[i] is DecodeBlock
    &&& forall|j: int| i < j < calls.len() ==> !(#[trigger] calls[j] is Reset)
}

/// A new decoder (which holds no decoded samples) needs a block after a run
/// of calls exactly when no block was decoded since it was made or since the
/// last reset.
pub proof fn lemma_needs_block_history(calls: Seq<DecoderCall>)
    ensures
        !decoded_after(false, calls) <==> !exists|i: int| #[trigger] decode_stands(calls, i),
    decreases calls.len(),
{
    if calls.len() == 0 {
        assert(!decoded_after(false, calls));
    } else {
        let prefix = calls.drop_last();
        lemma_needs_block_history(prefix);
        let n = calls.len() - 1;
        assert(calls.last() == calls[n]);
        if calls[n] is Reset {
            assert(!decoded_after(false, calls));
            assert forall|i: int| !#[trigger] decode_stands(calls, i) by {
                if 0 <= i < n {
                    assert(calls[n] is Reset);
                }
            }
        } else if calls[n] is DecodeBlock {
            assert(decoded_after(false, calls));
            assert(decode_stands(calls, n));
        } else {
            assert(decoded_after(false, calls) == decoded_after(false, prefix));
            assert forall|i: int| #![trigger decode_stands(calls, i)] #![trigger decode_stands(prefix, i)]
                decode_stands(calls, i) <==> decode_stands(prefix, i) by {
                if 0 <= i < n {
                    assert(calls[i] == prefix[i]);
                    assert forall|j: int| i < j < n implies calls[j] == prefix[j] by {}
                }
            }
        }
    }
}

} // verus!
