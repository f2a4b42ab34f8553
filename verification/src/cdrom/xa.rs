//! CD audio (XA-ADPCM) output: the volume matrix that mixes the two sides,
//! and the resampling of 37.8 kHz audio to the 44.1 kHz of the sound unit.

use vstd::prelude::*;
use crate::utils::bits::lemma_shr_is_div_i32;

verus! {

/// How much of each input side goes to each output side (0x80 is unity).
#[derive(Clone, Copy, PartialEq, Eq, Structural, Debug)]
pub struct VolumeMap {
    pub left_to_left: u8,
    pub left_to_right: u8,
    pub right_to_left: u8,
    pub right_to_right: u8,
}

/// A sample scaled by a volume, rounded down.
pub open spec fn scaled(x: i16, v: int) -> int {
    (x * v) / 128
}

proof fn lemma_product_range(x: i16, v: int)
    requires
        0 <= v <= 510,
    ensures
        -0x100_0000 <= x * v <= 0x100_0000,
{
    assert(-0x100_0000 <= x * v <= 0x100_0000) by (nonlinear_arith)
        requires -32768 <= x <= 32767, 0 <= v <= 510;
}

impl VolumeMap {
    /// Mix a stereo sample: each output side is the sum of both inputs,
    /// scaled by their volumes (wrapping to 16 bits).
    pub fn apply_stereo(&self, left: i16, right: i16) -> (r: [i16; 2])
        ensures
            r[0] == (scaled(left, self.left_to_left as int) + scaled(right, self.right_to_left as int)) as i16,
            r[1] == (scaled(left, self.left_to_right as int) + scaled(right, self.right_to_right as int)) as i16,
    {
        proof {
            lemma_product_range(left, self.left_to_left as int);
            lemma_product_range(left, self.left_to_right as int);
            lemma_product_range(right, self.right_to_left as int);
            lemma_product_range(right, self.right_to_right as int);
        }
        let ll = (left as i32) * (self.left_to_left as i32);
        let lr = (left as i32) * (self.left_to_right as i32);
        let rl = (right as i32) * (self.right_to_left as i32);
        let rr = (right as i32) * (self.right_to_right as i32);
        proof {
            lemma_shr_is_div_i32(ll);
            lemma_shr_is_div_i32(lr);
            lemma_shr_is_div_i32(rl);
            lemma_shr_is_div_i32(rr);
        }
        let left_to_left = ll >> 7;
        let left_to_right = lr >> 7;
        let right_to_left = rl >> 7;
        let right_to_right = rr >> 7;
        let left_out = (left_to_left + right_to_left) as i16;
        let right_out = (left_to_right + right_to_right) as i16;
        [left_out, right_out]
    }

    /// Spread a mono sample to both sides, scaled by the sum of the volumes
    /// into each side (wrapping to 16 bits).
    pub fn apply_mono(&self, sample: i16) -> (r: [i16; 2])
        ensures
            r[0] == scaled(sample, self.left_to_left + self.right_to_left) as i16,
            r[1] == scaled(sample, self.left_to_right + self.right_to_right) as i16,
    {
        let left_mul = (self.left_to_left as i32) + (self.right_to_left as i32);
        let right_mul = (self.left_to_right as i32) + (self.right_to_right as i32);
        proof {
            lemma_product_range(sample, left_mul as int);
            lemma_product_range(sample, right_mul as int);
        }
        let l = (sample as i32) * left_mul;
        let r = (sample as i32) * right_mul;
        proof {
            lemma_shr_is_div_i32(l);
            lemma_shr_is_div_i32(r);
        }
        let left_out = l >> 7;
        let right_out = r >> 7;
        [left_out as i16, right_out as i16]
    }
}

/// The weight of the earlier sample at step `i` (0 to 5) between two
/// input samples, out of 32768.
pub open spec fn interpolate_weight(i: int) -> int {
    if i == 0 {
        4681
    } else if i == 1 {
        9362
    } else if i == 2 {
        14043
    } else if i == 3 {
        18725
    } else if i == 4 {
        23406
    } else {
        28087
    }
}

fn interpolate_factor(i: usize) -> (r: i32)
    requires
        i < 6,
    ensures
        r == interpolate_weight(i as int),
{
    if i == 0 {
        4681
    } else if i == 1 {
        9362
    } else if i == 2 {
        14043
    } else if i == 3 {
        18725
    } else if i == 4 {
        23406
    } else {
        28087
    }
}

/// `a` and `b` mixed with weight `w` on `a`, out of 32768, rounded down.
pub open spec fn blend(a: i16, b: i16, w: int) -> i16 {
    ((a * w + b * (32768 - w)) / 32768) as i16
}

/// Output sample `j` of the resampling of `s`: each group of six input
/// samples gives seven outputs, the group's first sample and then six
/// blends of neighbouring samples (the last sample blends with itself).
pub open spec fn resampled_at(s: Seq<[i16; 2]>, j: int, ch: int) -> i16 {
    let k = j / 7;
    let i = j % 7;
    if i == 0 {
        s[6 * k][ch]
    } else {
        let a = 6 * k + i - 1;
        let b = if a + 1 == s.len() { a } else { a + 1 };
        blend(s[a][ch], s[b][ch], interpolate_weight(i - 1))
    }
}

/// The weights of the six interpolation steps divide the gap between two
/// input samples evenly: step `i` weighs the earlier sample by (i + 1)/7 of
/// 32768, rounded to the nearest whole; so the weights rise strictly with
/// the step, and steps `i` and `5 - i` weigh the two samples the other way
/// round.
pub proof fn lemma_interpolate_weights(i: int, k: int)
    requires
        0 <= i < 6,
        0 <= k < 6,
    ensures
        -7 < 14 * interpolate_weight(i) - 2 * (i + 1) * 32768 <= 7,
        i < k ==> interpolate_weight(i) < interpolate_weight(k),
        interpolate_weight(i) + interpolate_weight(5 - i) == 32768,
{
}

/// An output sample between two equal input samples is that sample again,
/// and one between two different samples lies between them.
pub proof fn lemma_resampled_between(s: Seq<[i16; 2]>, j: int, ch: int)
    requires
        s.len() % 6 == 0,
        0 <= j < s.len() / 6 * 7,
        0 <= ch < 2,
        j % 7 != 0,
    ensures
        ({
            let a = 6 * (j / 7) + j % 7 - 1;
            let b = if a + 1 == s.len() { a } else { a + 1 };
            let lo = if s[a][ch] <= s[b][ch] { s[a][ch] } else { s[b][ch] };
            let hi = if s[a][ch] <= s[b][ch] { s[b][ch] } else { s[a][ch] };
            lo <= resampled_at(s, j, ch) <= hi
        }),
{
    let i = j % 7;
    let a = 6 * (j / 7) + i - 1;
    let b = if a + 1 == s.len() { a } else { a + 1 };
    let w = interpolate_weight(i - 1);
    let x = s[a][ch] as int;
    let y = s[b][ch] as int;
    assert(0 < w < 32768);
    assert(j / 7 < s.len() / 6) by (nonlinear_arith)
        requires 0 <= j < s.len() / 6 * 7;
    assert(0 <= a < s.len()) by (nonlinear_arith)
        requires a == 6 * (j / 7) + i - 1, 1 <= i < 7, j / 7 < s.len() / 6, 0 <= j / 7, s.len() % 6 == 0;
    let lo = if x <= y { x } else { y };
    let hi = if x <= y { y } else { x };
    assert(lo * 32768 <= x * w + y * (32768 - w) <= hi * 32768) by (nonlinear_arith)
        requires lo <= x <= hi, lo <= y <= hi, 0 <= w <= 32768;
    lemma_blend_range(s[a][ch], s[b][ch], w);
}

proof fn lemma_blend_range(a: i16, b: i16, w: int)
    requires
        0 <= w <= 32768,
    ensures
        -0x4000_0000 <= a * w + b * (32768 - w) <= 0x4000_0000,
{
    assert(-0x4000_0000 <= a * w + b * (32768 - w) <= 0x4000_0000) by (nonlinear_arith)
        requires -32768 <= a <= 32767, -32768 <= b <= 32767, 0 <= w <= 32768;
}

fn blend_exec(a: i16, b: i16, i: usize) -> (r: i16)
    requires
        i < 6,
    ensures
        r == blend(a, b, interpolate_weight(i as int)),
{
    let a_factor = interpolate_factor(i);
    let b_factor = 32768 - a_factor;
    proof {
        lemma_blend_range(a, b, a_factor as int);
    }
    let x = (a as i32) * a_factor + (b as i32) * b_factor;
    proof {
        lemma_shr_is_div_i32(x);
    }
    (x >> 15) as i16
}

/// Resample CD audio from 37.8 kHz to 44.1 kHz: seven samples out for
/// each six in, linearly interpolated.
pub fn resample_audio(samples: &[[i16; 2]]) -> (r: Vec<[i16; 2]>)
    requires
        samples@.len() % 6 == 0,
    ensures
        r@.len() == samples@.len() / 6 * 7,
        forall|j: int, ch: int| 0 <= j < r@.len() && 0 <= ch < 2 ==>
            #[trigger] r@[j][ch] == resampled_at(samples@, j, ch),
{
    let mut out: Vec<[i16; 2]> = Vec::new();
    let len = samples.len();
    let mut base_idx: usize = 0;
    while base_idx < len
        invariant
            len == samples@.len(),
            len % 6 == 0,
            base_idx % 6 == 0,
            base_idx <= len,
            out@.len() == base_idx / 6 * 7,
            forall|j: int, ch: int| 0 <= j < out@.len() && 0 <= ch < 2 ==>
                #[trigger] out@[j][ch] == resampled_at(samples@, j, ch),
        decreases len - base_idx,
    {
        let first = samples[base_idx];
        out.push(first);
        let mut i: usize = 0;
        while i < 6
            invariant
                len == samples@.len(),
                len % 6 == 0,
                base_idx % 6 == 0,
                base_idx + 6 <= len,
                i <= 6,
                out@.len() == base_idx / 6 * 7 + 1 + i,
                forall|j: int, ch: int| 0 <= j < out@.len() && 0 <= ch < 2 ==>
                    #[trigger] out@[j][ch] == resampled_at(samples@, j, ch),
            decreases 6 - i,
        {
            let a_idx = base_idx + i;
            let b_idx = if a_idx + 1 == len { a_idx } else { a_idx + 1 };
            let a = samples[a_idx];
            let b = samples[b_idx];
            let left = blend_exec(a[0], b[0], i);
            let right = blend_exec(a[1], b[1], i);
            let ghost j = out@.len() as int;
            out.push([left, right]);
            proof {
                assert(j / 7 == base_idx / 6 && j % 7 == i + 1) by (nonlinear_arith)
                    requires j == base_idx / 6 * 7 + 1 + i, 0 <= i < 6, base_idx % 6 == 0, base_idx >= 0;
            }
            i = i + 1;
        }
        proof {
            let j = base_idx / 6 * 7;
            assert(j / 7 == base_idx / 6 && j % 7 == 0) by (nonlinear_arith)
                requires j == base_idx / 6 * 7, base_idx >= 0;
        }
        base_idx = base_idx + 6;
    }
    out
}

/// A copy of the samples.
fn copy_samples(v: &Vec<[i16; 2]>) -> (r: Vec<[i16; 2]>)
    ensures
        r@ == v@,
{
    let mut r: Vec<[i16; 2]> = Vec::new();
    let mut i: usize = 0;
    while i < v.len()
        invariant
            i <= v.len(),
            r@ == v@.subrange(0, i as int),
        decreases v.len() - i,
    {
        r.push(v[i]);
        i = i + 1;
        assert(r@ =~= v@.subrange(0, i as int));
    }
    assert(r@ =~= v@);
    r
}

/// The coding bits of an audio sector: stereo, low sample rate (18.9 kHz),
/// 8 bits a sample, emphasis.
pub const CODING_STEREO: u8 = 0x01;
pub const CODING_SAMPLE_RATE: u8 = 0x04;
pub const CODING_BITS_PER_SAMPLE: u8 = 0x10;
pub const CODING_BITS: u8 = 0x55;

/// The state of CD audio output.
pub struct XaView {
    pub current_vol: VolumeMap,
    pub staging_vol: VolumeMap,
    pub file_filter: u8,
    pub channel_filter: u8,
    pub sound_map_info: u8,
    pub mute: bool,
    pub sample_buffer: Seq<[i16; 2]>,
    pub conv_sample_buffer: Seq<[i16; 2]>,
    pub pending_samples: bool,
}

/// CD audio output: the filters that pick the audio sectors, the volume
/// matrix, and the decoded samples waiting for the sound unit.
pub struct XAAudio {
    current_vol: VolumeMap,
    staging_vol: VolumeMap,
    file_filter: u8,
    channel_filter: u8,
    sound_map_info: u8,
    mute: bool,
    sample_buffer: Vec<[i16; 2]>,
    conv_sample_buffer: Vec<[i16; 2]>,
    pending_samples: bool,
}

impl View for XAAudio {
    type V = XaView;

    closed spec fn view(&self) -> XaView {
        XaView {
            current_vol: self.current_vol,
            staging_vol: self.staging_vol,
            file_filter: self.file_filter,
            channel_filter: self.channel_filter,
            sound_map_info: self.sound_map_info,
            mute: self.mute,
            sample_buffer: self.sample_buffer@,
            conv_sample_buffer: self.conv_sample_buffer@,
            pending_samples: self.pending_samples,
        }
    }
}

/// Channel `ch` of output sample `k` of decoded 4-bit samples after the
/// volume matrix: pairs of left and right samples in stereo, single samples
/// spread to both sides in mono.
pub open spec fn mixed_at(samples: Seq<i16>, stereo: bool, v: VolumeMap, k: int, ch: int) -> i16 {
    if stereo {
        let l = samples[2 * k];
        let r = samples[2 * k + 1];
        if ch == 0 {
            (scaled(l, v.left_to_left as int) + scaled(r, v.right_to_left as int)) as i16
        } else {
            (scaled(l, v.left_to_right as int) + scaled(r, v.right_to_right as int)) as i16
        }
    } else {
        let x = samples[k];
        if ch == 0 {
            scaled(x, v.left_to_left + v.right_to_left) as i16
        } else {
            scaled(x, v.left_to_right + v.right_to_right) as i16
        }
    }
}

/// The number of mixed samples from `n` decoded ones.
pub open spec fn mixed_len(n: int, stereo: bool) -> int {
    if stereo { n / 2 } else { n }
}

/// The samples of an audio sector can be taken: 4-bit samples at 37.8 kHz
/// (the only kind handled), pairs in stereo, in groups of six.
pub open spec fn sector_samples_ok(n: int, coding_info: u8) -> bool {
    let stereo = coding_info & CODING_STEREO != 0;
    &&& coding_info & CODING_BITS_PER_SAMPLE == 0
    &&& coding_info & CODING_SAMPLE_RATE == 0
    &&& stereo ==> n % 2 == 0
    &&& mixed_len(n, stereo) % 6 == 0
}

impl XAAudio {
    pub fn new() -> (r: Self)
        ensures
            r@.current_vol == (VolumeMap { left_to_left: 0, left_to_right: 0, right_to_left: 0, right_to_right: 0 }),
            r@.staging_vol == r@.current_vol,
            r@.file_filter == 0 && r@.channel_filter == 0 && r@.sound_map_info == 0,
            !r@.mute && !r@.pending_samples,
            r@.sample_buffer.len() == 0 && r@.conv_sample_buffer.len() == 0,
    {
        let vol = VolumeMap { left_to_left: 0, left_to_right: 0, right_to_left: 0, right_to_right: 0 };
        XAAudio {
            current_vol: vol,
            staging_vol: vol,
            file_filter: 0,
            channel_filter: 0,
            sound_map_info: 0,
            mute: false,
            sample_buffer: Vec::new(),
            conv_sample_buffer: Vec::new(),
            pending_samples: false,
        }
    }

    /// Set the filters (by the set filter command).
    pub fn set_filters(&mut self, file: u8, channel: u8)
        ensures
            final(self)@ == (XaView { file_filter: file, channel_filter: channel, ..old(self)@ }),
    {
        self.file_filter = file;
        self.channel_filter = channel;
    }

    /// The (file, channel) filters.
    pub fn get_filters(&self) -> (r: (u8, u8))
        ensures
            r == (self@.file_filter, self@.channel_filter),
    {
        (self.file_filter, self.channel_filter)
    }

    /// The file _and_ the channel match the filters.
    pub fn test_filter(&self, file: u8, channel: u8) -> (r: bool)
        ensures
            r == (self@.file_filter == file && self@.channel_filter == channel),
    {
        self.file_filter == file && self.channel_filter == channel
    }

    /// Bit 0 mutes; bit 5 makes the staged volumes current.
    pub fn apply_changes(&mut self, data: u8)
        ensures
            final(self)@ == (XaView {
                mute: data & 0x01 != 0,
                current_vol: if data & 0x20 != 0 { old(self)@.staging_vol } else { old(self)@.current_vol },
                ..old(self)@
            }),
    {
        self.mute = data & 0x01 != 0;
        if data & 0x20 != 0 {
            self.current_vol = self.staging_vol;
        }
    }

    pub fn set_sound_map_info(&mut self, data: u8)
        ensures
            final(self)@ == (XaView { sound_map_info: data & CODING_BITS, ..old(self)@ }),
    {
        self.sound_map_info = data & CODING_BITS;
    }

    pub fn set_left_to_left(&mut self, data: u8)
        ensures
            final(self)@ == (XaView { staging_vol: VolumeMap { left_to_left: data, ..old(self)@.staging_vol }, ..old(self)@ }),
    {
        self.staging_vol.left_to_left = data;
    }

    pub fn set_left_to_right(&mut self, data: u8)
        ensures
            final(self)@ == (XaView { staging_vol: VolumeMap { left_to_right: data, ..old(self)@.staging_vol }, ..old(self)@ }),
    {
        self.staging_vol.left_to_right = data;
    }

    pub fn set_right_to_left(&mut self, data: u8)
        ensures
            final(self)@ == (XaView { staging_vol: VolumeMap { right_to_left: data, ..old(self)@.staging_vol }, ..old(self)@ }),
    {
        self.staging_vol.right_to_left = data;
    }

    pub fn set_right_to_right(&mut self, data: u8)
        ensures
            final(self)@ == (XaView { staging_vol: VolumeMap { right_to_right: data, ..old(self)@.staging_vol }, ..old(self)@ }),
    {
        self.staging_vol.right_to_right = data;
    }

    /// Take the decoded 4-bit samples of an audio sector: mix them through
    /// the current volumes, resample them to 44.1 kHz, and hold them for the
    /// sound unit.
    pub fn write_audio_samples(&mut self, samples: &[i16], coding_info: u8)
        requires
            sector_samples_ok(samples@.len() as int, coding_info),
        ensures
            ({
                let stereo = coding_info & CODING_STEREO != 0;
                let m = final(self)@.sample_buffer;
                &&& m.len() == mixed_len(samples@.len() as int, stereo)
                &&& forall|k: int, ch: int| 0 <= k < m.len() && 0 <= ch < 2 ==>
                    #[trigger] m[k][ch] == mixed_at(samples@, stereo, old(self)@.current_vol, k, ch)
                &&& final(self)@.conv_sample_buffer.len() == m.len() / 6 * 7
                &&& forall|j: int, ch: int| 0 <= j < final(self)@.conv_sample_buffer.len() && 0 <= ch < 2 ==>
                    #[trigger] final(self)@.conv_sample_buffer[j][ch] == resampled_at(m, j, ch)
                &&& final(self)@ == (XaView {
                    sample_buffer: m,
                    conv_sample_buffer: final(self)@.conv_sample_buffer,
                    pending_samples: true,
                    ..old(self)@
                })
            }),
    {
        let stereo = coding_info & CODING_STEREO != 0;
        let mut mixed: Vec<[i16; 2]> = Vec::new();
        let len = samples.len();
        let n = if stereo { len / 2 } else { len };
        let mut k: usize = 0;
        while k < n
            invariant
                len == samples@.len(),
                n == mixed_len(samples@.len() as int, stereo),
                stereo ==> samples@.len() % 2 == 0,
                k <= n,
                mixed@.len() == k,
                forall|i: int, ch: int| 0 <= i < k && 0 <= ch < 2 ==>
                    #[trigger] mixed@[i][ch] == mixed_at(samples@, stereo, self@.current_vol, i, ch),
            decreases n - k,
        {
            let sample = if stereo {
                self.current_vol.apply_stereo(samples[2 * k], samples[2 * k + 1])
            } else {
                self.current_vol.apply_mono(samples[k])
            };
            mixed.push(sample);
            k = k + 1;
        }
        let conv = resample_audio(mixed.as_slice());
        self.sample_buffer = mixed;
        self.conv_sample_buffer = conv;
        self.pending_samples = true;
    }

    /// The resampled audio, once, when new samples have come.
    pub fn fetch_decoded_audio(&mut self) -> (r: Option<Vec<[i16; 2]>>)
        ensures
            old(self)@.pending_samples ==> (r matches Some(v) && v@ == old(self)@.conv_sample_buffer),
            !old(self)@.pending_samples ==> r is None,
            final(self)@ == (XaView { pending_samples: false, ..old(self)@ }),
    {
        if self.pending_samples {
            self.pending_samples = false;
            Some(copy_samples(&self.conv_sample_buffer))
        } else {
            None
        }
    }
}

} // verus!
