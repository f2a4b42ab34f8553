//! The motion decoder: video decompression.
//!
//! Commands and their parameter words come in through the command port (or
//! DMA); decoded pixels go out through the data port (or DMA). Where the
//! hardware would be asked to decode data that cannot be decoded, the
//! decoder reports an error.

pub mod decode;

use vstd::prelude::*;
use std::collections::VecDeque;
use decode::{decode_block, dc_overflows, block_coeffs, idct, y_to_mono, mono_pixel, yuv_to_rgb, rgb_fits, rgb_byte};

verus! {

pub const STAT_DATA_OUT_FIFO_EMPTY: u32 = 0x8000_0000;
pub const STAT_DATA_IN_FIFO_FULL: u32 = 0x4000_0000;
pub const STAT_COMMAND_BUSY: u32 = 0x2000_0000;
pub const STAT_DATA_IN_REQ: u32 = 0x1000_0000;
pub const STAT_DATA_OUT_REQ: u32 = 0x0800_0000;
pub const STAT_CURRENT_BLOCK: u32 = 0x0007_0000;
/// The status after a reset: output empty, current block 4.
pub const STAT_INIT: u32 = 0x8004_0000;
/// Monochrome (block 4) in the current block field.
pub const STAT_MONO: u32 = 0x0004_0000;

/// The readiness of the decoder for DMA.
pub struct MDECStatus {
    pub data_in_ready: bool,
    pub data_out_ready: bool,
}

/// How decoded pixels are output.
#[derive(Clone, Copy, PartialEq, Eq, Structural, Debug)]
pub enum OutputDepth {
    Mono4,
    Mono8,
    RGB15,
    RGB24,
}

/// The block of a colour macroblock being decoded.
#[derive(Clone, Copy, PartialEq, Eq, Structural, Debug)]
pub enum Block {
    Idle,
    Cr,
    Cb,
    Y0,
    Y1,
    Y2,
    Y3,
}

/// The current block field of the status register for a block.
pub open spec fn block_bits(b: Block) -> u32 {
    match b {
        Block::Idle => 0,
        Block::Cr => 0x0004_0000,
        Block::Cb => 0x0005_0000,
        Block::Y0 => 0,
        Block::Y1 => 0x0001_0000,
        Block::Y2 => 0x0002_0000,
        Block::Y3 => 0x0003_0000,
    }
}

impl Block {
    pub fn to_status_bits(&self) -> (r: u32)
        ensures
            r == block_bits(*self),
    {
        match self {
            Block::Idle => 0,
            Block::Cr => 0x0004_0000,
            Block::Cb => 0x0005_0000,
            Block::Y0 => 0,
            Block::Y1 => 0x0001_0000,
            Block::Y2 => 0x0002_0000,
            Block::Y3 => 0x0003_0000,
        }
    }
}

/// A decoder command.
#[derive(Clone, Copy, PartialEq, Eq, Structural, Debug)]
pub enum Command {
    DecodeMacroblock { output_depth: OutputDepth, signed: bool, set_bit_15: bool },
    SetQuantTable { use_color: bool },
    SetScaleTable,
}

/// The command words the decoder knows: codes 1 to 3 in the top three bits.
pub open spec fn is_command(data: u32) -> bool {
    1 <= data >> 29 <= 3
}

/// The command a command word gives.
pub open spec fn command_of(data: u32) -> Command {
    let code = data >> 29;
    if code == 1 {
        let d = (data >> 27) & 3;
        Command::DecodeMacroblock {
            output_depth: if d == 0 { OutputDepth::Mono4 } else if d == 1 { OutputDepth::Mono8 } else if d == 2 {
                OutputDepth::RGB24
            } else {
                OutputDepth::RGB15
            },
            signed: data & 0x0400_0000 != 0,
            set_bit_15: data & 0x0200_0000 != 0,
        }
    } else if code == 2 {
        Command::SetQuantTable { use_color: data & 1 != 0 }
    } else {
        Command::SetScaleTable
    }
}

impl Command {
    pub fn decode(data: u32) -> (r: Command)
        requires
            is_command(data),
        ensures
            r == command_of(data),
    {
        let command = data >> 29;
        if command == 1 {
            let d = (data >> 27) & 3;
            let output_depth = if d == 0 {
                OutputDepth::Mono4
            } else if d == 1 {
                OutputDepth::Mono8
            } else if d == 2 {
                OutputDepth::RGB24
            } else {
                OutputDepth::RGB15
            };
            Command::DecodeMacroblock { output_depth, signed: data & 0x0400_0000 != 0, set_bit_15: data & 0x0200_0000 != 0 }
        } else if command == 2 {
            Command::SetQuantTable { use_color: data & 1 != 0 }
        } else {
            Command::SetScaleTable
        }
    }
}

/// Why a macroblock could not be decoded.
#[derive(Clone, Copy, PartialEq, Eq, Structural, Debug)]
pub enum MDECError {
    /// The data ran out in the middle of a colour macroblock.
    AbortedInBlock,
    /// A coefficient or a colour overflowed a halfword.
    Overflow,
    /// The command ended in the middle of a colour macroblock.
    BlockNotEndingOnCr,
}

/// Combine the high nybbles of two values into one byte.
pub open spec fn combine(lo: u8, hi: u8) -> u8 {
    (lo >> 4) | (hi & 0xF0)
}

pub fn combine_u8(lo: u8, hi: u8) -> (r: u8)
    ensures
        r == combine(lo, hi),
{
    (lo >> 4) | (hi & 0xF0)
}

/// A halfword pixel from 8-bit RGB and the mask bit.
pub open spec fn rgb15(r: u8, g: u8, b: u8, hi: u16) -> u16 {
    ((r as u16) >> 3) | (((g as u16) >> 3) << 5) | (((b as u16) >> 3) << 10) | hi
}

pub fn rgb_24_to_15(r: u8, g: u8, b: u8, hi: u16) -> (res: u16)
    ensures
        res == rgb15(r, g, b, hi),
{
    ((r as u16) >> 3) | (((g as u16) >> 3) << 5) | (((b as u16) >> 3) << 10) | hi
}

/// A little-endian word from four bytes.
pub open spec fn le_word(b0: u8, b1: u8, b2: u8, b3: u8) -> u32 {
    (b0 as u32) | ((b1 as u32) << 8) | ((b2 as u32) << 16) | ((b3 as u32) << 24)
}

fn le_word_exec(b0: u8, b1: u8, b2: u8, b3: u8) -> (r: u32)
    ensures
        r == le_word(b0, b1, b2, b3),
{
    (b0 as u32) | ((b1 as u32) << 8) | ((b2 as u32) << 16) | ((b3 as u32) << 24)
}

/// The output of a monochrome block at 4 bits per pixel: 8 words.
pub open spec fn mono4_words(m: Seq<u8>) -> Seq<u32> {
    Seq::new(8, |i: int| le_word(combine(m[8 * i], m[8 * i + 1]), combine(m[8 * i + 2], m[8 * i + 3]),
        combine(m[8 * i + 4], m[8 * i + 5]), combine(m[8 * i + 6], m[8 * i + 7])))
}

/// The output of a monochrome block at 8 bits per pixel: 16 words.
pub open spec fn mono8_words(m: Seq<u8>) -> Seq<u32> {
    Seq::new(16, |i: int| le_word(m[4 * i], m[4 * i + 1], m[4 * i + 2], m[4 * i + 3]))
}

/// The output of a colour block at 15 bits per pixel: 32 words of two pixels.
pub open spec fn rgb15_words(c: Seq<u8>, hi: u16) -> Seq<u32> {
    Seq::new(32, |i: int| (rgb15(c[6 * i], c[6 * i + 1], c[6 * i + 2], hi) as u32)
        | ((rgb15(c[6 * i + 3], c[6 * i + 4], c[6 * i + 5], hi) as u32) << 16))
}

/// The output of a colour block at 24 bits per pixel: 48 words.
pub open spec fn rgb24_words(c: Seq<u8>) -> Seq<u32> {
    Seq::new(48, |i: int| le_word(c[4 * i], c[4 * i + 1], c[4 * i + 2], c[4 * i + 3]))
}

/// The decoder's state as the contracts speak of it.
pub struct MDECView {
    pub status: u32,
    pub command: Option<Command>,
    pub param_words_remaining: u16,
    pub lum_quant: Seq<u8>,
    pub color_quant: Seq<u8>,
    pub scale: Seq<i16>,
    pub in_fifo: Seq<u16>,
    pub out_fifo: Seq<u32>,
    pub data_in_enable: bool,
    pub data_out_enable: bool,
    pub use_reorder: Option<usize>,
    pub reorder_fifo: Seq<u32>,
    pub current_block: Block,
    pub cr: Seq<i16>,
    pub cb: Seq<i16>,
}

/// The status after output: not empty, and a request when output is enabled.
pub open spec fn output_status(v: MDECView) -> u32 {
    let s = v.status & !STAT_DATA_OUT_FIFO_EMPTY;
    if v.data_out_enable { s | STAT_DATA_OUT_REQ } else { s }
}

/// `v` with `words` output.
pub open spec fn with_output(v: MDECView, words: Seq<u32>) -> MDECView {
    MDECView { out_fifo: v.out_fifo + words, status: output_status(v), ..v }
}

/// The input after a block at the front of it, or empty when no block is left.
pub open spec fn after_block(f: Seq<u16>, qt: Seq<u8>) -> Seq<u16> {
    match block_coeffs(f, qt) {
        None => Seq::empty(),
        Some((end, _)) => f.subrange(end, f.len() as int),
    }
}

/// The decoded (transformed) block at the front of the input.
pub open spec fn decoded_block(f: Seq<u16>, qt: Seq<u8>, st: Seq<i16>) -> Seq<i16> {
    match block_coeffs(f, qt) {
        None => Seq::new(64, |i: int| 0i16),
        Some((_, c)) => idct(c, st),
    }
}

/// The quarter of the macroblock that a luminance block covers.
pub open spec fn y_offsets(b: Block) -> (int, int) {
    match b {
        Block::Y1 => (8, 0),
        Block::Y2 => (0, 8),
        Block::Y3 => (8, 8),
        _ => (0, 0),
    }
}

/// The block after a luminance block.
pub open spec fn next_block(b: Block) -> Block {
    match b {
        Block::Y0 => Block::Y1,
        Block::Y1 => Block::Y2,
        Block::Y2 => Block::Y3,
        _ => Block::Cr,
    }
}

/// One step of decoding a macroblock: a monochrome block, or the next
/// block of a colour macroblock.
pub open spec fn macroblock_step(v: MDECView, depth: OutputDepth, signed: bool, bit15: bool) -> Result<MDECView, MDECError> {
    let f = v.in_fifo;
    let unsigned = !signed;
    match depth {
        OutputDepth::Mono4 | OutputDepth::Mono8 => {
            if dc_overflows(f, v.lum_quant) {
                Err(MDECError::Overflow)
            } else {
                let v1 = MDECView { in_fifo: after_block(f, v.lum_quant), ..v };
                if block_coeffs(f, v.lum_quant) is None {
                    Ok(v1)
                } else {
                    let y = decoded_block(f, v.lum_quant, v.scale);
                    let m = Seq::new(64, |i: int| mono_pixel(y[i], unsigned));
                    Ok(with_output(v1, if depth == OutputDepth::Mono4 { mono4_words(m) } else { mono8_words(m) }))
                }
            }
        },
        _ => {
            if dc_overflows(f, v.color_quant) {
                Err(MDECError::Overflow)
            } else {
                let none = block_coeffs(f, v.color_quant) is None;
                let blk = decoded_block(f, v.color_quant, v.scale);
                let v1 = MDECView { in_fifo: after_block(f, v.color_quant), ..v };
                match v.current_block {
                    Block::Cr => if none {
                        Ok(MDECView { cr: Seq::new(64, |i: int| 0i16), ..v1 })
                    } else {
                        Ok(MDECView { cr: blk, current_block: Block::Cb, ..v1 })
                    },
                    Block::Cb => if none {
                        Err(MDECError::AbortedInBlock)
                    } else {
                        Ok(MDECView { cb: blk, current_block: Block::Y0, ..v1 })
                    },
                    Block::Idle => Err(MDECError::AbortedInBlock),
                    _ => {
                        let (xo, yo) = y_offsets(v.current_block);
                        if none {
                            Err(MDECError::AbortedInBlock)
                        } else if !rgb_fits(blk, v.cr, v.cb, xo, yo) {
                            Err(MDECError::Overflow)
                        } else {
                            let c = Seq::new(192, |k: int| rgb_byte(blk, v.cr, v.cb, unsigned, xo, yo, k));
                            let words = if depth == OutputDepth::RGB15 {
                                rgb15_words(c, if bit15 { 0x8000u16 } else { 0u16 })
                            } else {
                                rgb24_words(c)
                            };
                            Ok(MDECView { current_block: next_block(v.current_block), ..with_output(v1, words) })
                        }
                    },
                }
            }
        },
    }
}

/// The decoding of the rest of a command from state `v`: macroblock steps
/// while more than `limit` input halfwords are left.
pub open spec fn decode_loop(v: MDECView, limit: nat, depth: OutputDepth, signed: bool, bit15: bool) -> Result<MDECView, MDECError>
    decreases v.in_fifo.len(),
{
    if v.in_fifo.len() <= limit {
        Ok(v)
    } else {
        match macroblock_step(v, depth, signed, bit15) {
            Err(e) => Err(e),
            Ok(v2) => {
                proof {
                    lemma_step_progress(v, depth, signed, bit15);
                }
                decode_loop(v2, limit, depth, signed, bit15)
            },
        }
    }
}

/// A step of decoding takes at least one halfword of input.
pub proof fn lemma_step_progress(v: MDECView, depth: OutputDepth, signed: bool, bit15: bool)
    requires
        v.in_fifo.len() > 0,
    ensures
        macroblock_step(v, depth, signed, bit15) matches Ok(v2) ==> v2.in_fifo.len() < v.in_fifo.len(),
{
    lemma_after_block(v.in_fifo, v.lum_quant);
    lemma_after_block(v.in_fifo, v.color_quant);
}

/// After a block the input is shorter, unless it was empty.
pub proof fn lemma_after_block(f: Seq<u16>, qt: Seq<u8>)
    requires
        f.len() > 0,
    ensures
        after_block(f, qt).len() < f.len(),
{
    decode::lemma_skip_padding(f, 0);
    let p = decode::skip_padding(f, 0);
    if p < f.len() {
        let first = f[p];
        let qf = (first >> 10) as int;
        let dc = decode::sext10(first);
        let zero = Seq::new(64, |i: int| 0i16);
        let b1 = if qf == 0 {
            zero.update(0, (dc * 2) as i16)
        } else {
            zero.update(0, decode::clamp11((dc * qt[0]) as i16))
        };
        decode::lemma_coeff_run(f, p + 1, 0, b1, qt, qf);
    }
}

/// A step of decoding keeps the decoder consistent.
pub proof fn lemma_step_keeps_ok(v: MDECView, depth: OutputDepth, signed: bool, bit15: bool)
    requires
        decoder_ok(v),
        v.command matches Some(Command::DecodeMacroblock { .. }),
    ensures
        macroblock_step(v, depth, signed, bit15) matches Ok(v2) ==> decoder_ok(v2),
{
    lemma_decoded_len(v.in_fifo, v.color_quant, v.scale);
}

/// A decoded block has 64 entries.
pub proof fn lemma_decoded_len(f: Seq<u16>, qt: Seq<u8>, st: Seq<i16>)
    ensures
        decoded_block(f, qt, st).len() == 64,
{
}

/// The tables from the input: each halfword gives two entries, low byte first.
pub open spec fn table_bytes(f: Seq<u16>) -> Seq<u8> {
    Seq::new(64, |k: int| if k % 2 == 0 { (f[k / 2] & 0xFF) as u8 } else { (f[k / 2] >> 8) as u8 })
}

/// The state after the quantisation tables are set from the input.
pub open spec fn quant_set(v: MDECView, use_color: bool) -> MDECView {
    let f = v.in_fifo;
    if use_color {
        MDECView {
            lum_quant: table_bytes(f),
            color_quant: table_bytes(f.subrange(32, f.len() as int)),
            in_fifo: f.subrange(64, f.len() as int),
            ..v
        }
    } else {
        MDECView { lum_quant: table_bytes(f), in_fifo: f.subrange(32, f.len() as int), ..v }
    }
}

/// The state after the scale table is set from the input.
pub open spec fn scale_set(v: MDECView) -> MDECView {
    MDECView { scale: Seq::new(64, |i: int| v.in_fifo[i] as i16), in_fifo: v.in_fifo.subrange(64, v.in_fifo.len() as int), ..v }
}

/// The state when a command is done.
pub open spec fn finished(v: MDECView) -> MDECView {
    let reorder = match v.command {
        Some(Command::DecodeMacroblock { output_depth, .. }) => match output_depth {
            OutputDepth::RGB15 => Some(4usize),
            OutputDepth::RGB24 => Some(6usize),
            _ => None,
        },
        _ => None,
    };
    MDECView {
        use_reorder: reorder,
        command: None,
        status: v.status & !(STAT_COMMAND_BUSY | STAT_CURRENT_BLOCK | STAT_DATA_IN_REQ),
        current_block: Block::Idle,
        ..v
    }
}

/// What a clock tick does: once all parameters are in, the command is
/// carried out and finished; while they come, a full input is decoded down
/// to 128 halfwords and more data is requested.
pub open spec fn clock_result(v: MDECView) -> Result<MDECView, MDECError> {
    match v.command {
        None => Ok(v),
        Some(c) => if v.param_words_remaining == 0 {
            let r = match c {
                Command::DecodeMacroblock { output_depth, signed, set_bit_15 } => decode_loop(v, 0, output_depth, signed, set_bit_15),
                Command::SetQuantTable { use_color } => Ok(quant_set(v, use_color)),
                Command::SetScaleTable => Ok(scale_set(v)),
            };
            match r {
                Err(e) => Err(e),
                Ok(v2) => if v2.current_block != Block::Cr {
                    Err(MDECError::BlockNotEndingOnCr)
                } else {
                    let v3 = finished(v2);
                    Ok(MDECView { status: v3.status & !STAT_DATA_IN_FIFO_FULL, ..v3 })
                },
            }
        } else if v.in_fifo.len() > 4096 {
            let r = match c {
                Command::DecodeMacroblock { output_depth, signed, set_bit_15 } => decode_loop(v, 128, output_depth, signed, set_bit_15),
                _ => Ok(v),
            };
            match r {
                Err(e) => Err(e),
                Ok(v2) => Ok(MDECView { status: (v2.status & !STAT_DATA_IN_FIFO_FULL) | STAT_DATA_IN_REQ, ..v2 }),
            }
        } else {
            Ok(v)
        },
    }
}

/// The state after command word `data` starts a command: its parameter
/// count, busy, and the first block of a macroblock.
pub open spec fn started(v: MDECView, data: u32) -> MDECView {
    let c = command_of(data);
    let params: u16 = match c {
        Command::DecodeMacroblock { .. } => (data & 0xFFFF) as u16,
        Command::SetQuantTable { use_color } => if use_color { 32 } else { 16 },
        Command::SetScaleTable => 32,
    };
    let s = v.status | STAT_COMMAND_BUSY | STAT_MONO;
    MDECView {
        command: Some(c),
        param_words_remaining: params,
        status: if v.data_in_enable { s | STAT_DATA_IN_REQ } else { s },
        current_block: Block::Cr,
        ..v
    }
}

/// The output of two colour blocks as DMA takes it: for each of the 8 rows,
/// the row of the first block, then the row of the second.
pub open spec fn reordered(out: Seq<u32>, row_words: int) -> Seq<u32> {
    Seq::new((16 * row_words) as nat, |k: int| {
        let row = k / (2 * row_words);
        let within = k % (2 * row_words);
        if within < row_words { out[within + row * row_words] } else { out[8 * row_words + (within - row_words) + row * row_words] }
    })
}

/// The invariant of the decoder: a running command has a current block and,
/// for a table, the input it needs is in or on its way.
pub open spec fn decoder_ok(v: MDECView) -> bool {
    &&& v.command is Some ==> v.current_block != Block::Idle
    &&& v.command matches Some(Command::SetQuantTable { use_color }) ==>
        v.in_fifo.len() + 2 * v.param_words_remaining >= (if use_color { 64int } else { 32int })
    &&& v.command == Some(Command::SetScaleTable) ==> v.in_fifo.len() + 2 * v.param_words_remaining >= 64
    &&& v.use_reorder is None || v.use_reorder == Some(4usize) || v.use_reorder == Some(6usize)
    &&& v.lum_quant.len() == 64 && v.color_quant.len() == 64 && v.scale.len() == 64
    &&& v.cr.len() == 64 && v.cb.len() == 64
}

/// Motion decoder. This handles video decoding.
pub struct MDEC {
    status: u32,
    command: Option<Command>,
    param_words_remaining: u16,

    luminance_quant_table: [u8; 64],
    color_quant_table: [u8; 64],
    scale_table: [i16; 64],

    in_fifo: VecDeque<u16>,
    out_fifo: VecDeque<u32>,
    data_in_enable: bool,
    data_out_enable: bool,

    /// DMA re-orders RGB15 and RGB24 blocks. If this is set to Some, it
    /// marks the width (in words) of an 8-pixel row.
    use_reorder: Option<usize>,
    dma_reorder_fifo: VecDeque<u32>,

    current_block: Block,
    cr_block: [i16; 64],
    cb_block: [i16; 64],
}

/// A write of the control register: bit 31 resets the command; bits 30 and
/// 29 enable data in and data out requests.
pub open spec fn control_written(s: MDECView, data: u32) -> MDECView {
    MDECView {
        command: if data & 0x8000_0000 != 0 { None } else { s.command },
        param_words_remaining: if data & 0x8000_0000 != 0 { 0 } else { s.param_words_remaining },
        status: if data & 0x8000_0000 != 0 { STAT_INIT } else { s.status },
        data_in_enable: data & 0x4000_0000 != 0,
        data_out_enable: data & 0x2000_0000 != 0,
        ..s
    }
}

/// A write of the command port: a parameter word of the running command
/// (two halfwords of input, low first), or a new command.
pub open spec fn command_written(s: MDECView, data: u32) -> MDECView {
    if s.command is Some {
        MDECView {
            in_fifo: s.in_fifo.push(data as u16).push((data >> 16) as u16),
            param_words_remaining: (s.param_words_remaining - 1) as u16,
            status: if s.param_words_remaining == 1 {
                (s.status | STAT_DATA_IN_FIFO_FULL) & !STAT_DATA_IN_REQ
            } else {
                s.status
            },
            ..s
        }
    } else {
        started(s, data)
    }
}

impl View for MDEC {
    type V = MDECView;

    closed spec fn view(&self) -> MDECView {
        MDECView {
            status: self.status,
            command: self.command,
            param_words_remaining: self.param_words_remaining,
            lum_quant: self.luminance_quant_table@,
            color_quant: self.color_quant_table@,
            scale: self.scale_table@,
            in_fifo: self.in_fifo@,
            out_fifo: self.out_fifo@,
            data_in_enable: self.data_in_enable,
            data_out_enable: self.data_out_enable,
            use_reorder: self.use_reorder,
            reorder_fifo: self.dma_reorder_fifo@,
            current_block: self.current_block,
            cr: self.cr_block@,
            cb: self.cb_block@,
        }
    }
}

impl MDEC {
    /// The decoder is in a consistent state.
    pub open spec fn wf(&self) -> bool {
        decoder_ok(self@)
    }

    pub fn new() -> (r: Self)
        ensures
            r.wf(),
            r@.status == STAT_INIT,
            r@.command is None,
            r@.param_words_remaining == 0,
            r@.in_fifo.len() == 0 && r@.out_fifo.len() == 0 && r@.reorder_fifo.len() == 0,
            !r@.data_in_enable && !r@.data_out_enable,
            r@.use_reorder is None,
            r@.current_block == Block::Idle,
    {
        MDEC {
            status: STAT_INIT,
            command: None,
            param_words_remaining: 0,
            luminance_quant_table: [0; 64],
            color_quant_table: [0; 64],
            scale_table: [0; 64],
            in_fifo: VecDeque::new(),
            out_fifo: VecDeque::new(),
            data_in_enable: false,
            data_out_enable: false,
            use_reorder: None,
            dma_reorder_fifo: VecDeque::new(),
            current_block: Block::Idle,
            cr_block: [0; 64],
            cb_block: [0; 64],
        }
    }

    /// The first block's DC coefficient overflows.
    fn dc_overflow_exec(f: &VecDeque<u16>, qt: &[u8; 64]) -> (r: bool)
        ensures
            r == dc_overflows(f@, qt@),
    {
        let mut p: usize = 0;
        while p < f.len() && f[p] == decode::PADDING
            invariant
                0 <= p <= f@.len(),
                decode::skip_padding(f@, 0) == decode::skip_padding(f@, p as int),
            decreases f@.len() - p,
        {
            p = p + 1;
        }
        if p >= f.len() {
            return false;
        }
        let first = f[p];
        let dc = decode::sign_extend_10(first) as i32;
        let q = qt[0] as i32;
        proof {
            assert(-512 * 255 <= dc * q <= 511 * 255) by (nonlinear_arith)
                requires -512 <= dc <= 511, 0 <= q <= 255;
        }
        let v = dc * q;
        first >> 10 != 0 && (v < -0x8000 || v > 0x7FFF)
    }

    /// Append words to the output.
    fn push_words(&mut self, words: &[u32], n: usize)
        requires
            n == words@.len(),
        ensures
            final(self)@ == with_output(old(self)@, words@),
    {
        let mut i: usize = 0;
        while i < n
            invariant
                0 <= i <= n,
                n == words@.len(),
                self@ == (MDECView { out_fifo: old(self)@.out_fifo + words@.subrange(0, i as int), ..old(self)@ }),
            decreases n - i,
        {
            self.out_fifo.push_back(words[i]);
            assert(self@.out_fifo =~= old(self)@.out_fifo + words@.subrange(0, i + 1));
            i = i + 1;
        }
        assert(words@.subrange(0, n as int) =~= words@);
        self.status = self.status & !STAT_DATA_OUT_FIFO_EMPTY;
        if self.data_out_enable {
            self.status = self.status | STAT_DATA_OUT_REQ;
        }
    }

    fn output_mono4(&mut self, mono: &[u8; 64])
        ensures
            final(self)@ == with_output(old(self)@, mono4_words(mono@)),
    {
        let mut words: [u32; 8] = [0; 8];
        let mut i: usize = 0;
        while i < 8
            invariant
                0 <= i <= 8,
                forall|j: int| 0 <= j < i ==> #[trigger] words@[j] == mono4_words(mono@)[j],
            decreases 8 - i,
        {
            let index = i * 8;
            words[i] = le_word_exec(combine_u8(mono[index], mono[index + 1]), combine_u8(mono[index + 2], mono[index + 3]),
                combine_u8(mono[index + 4], mono[index + 5]), combine_u8(mono[index + 6], mono[index + 7]));
            i = i + 1;
        }
        assert(words@ =~= mono4_words(mono@));
        self.push_words(&words, 8);
    }

    fn output_mono8(&mut self, mono: &[u8; 64])
        ensures
            final(self)@ == with_output(old(self)@, mono8_words(mono@)),
    {
        let mut words: [u32; 16] = [0; 16];
        let mut i: usize = 0;
        while i < 16
            invariant
                0 <= i <= 16,
                forall|j: int| 0 <= j < i ==> #[trigger] words@[j] == mono8_words(mono@)[j],
            decreases 16 - i,
        {
            let index = i * 4;
            words[i] = le_word_exec(mono[index], mono[index + 1], mono[index + 2], mono[index + 3]);
            i = i + 1;
        }
        assert(words@ =~= mono8_words(mono@));
        self.push_words(&words, 16);
    }

    fn output_rgb15(&mut self, rgb: &[u8; 192], set_bit_15: bool)
        ensures
            final(self)@ == with_output(old(self)@, rgb15_words(rgb@, if set_bit_15 { 0x8000u16 } else { 0u16 })),
    {
        let hi: u16 = if set_bit_15 { 0x8000 } else { 0 };
        let mut words: [u32; 32] = [0; 32];
        let mut i: usize = 0;
        while i < 32
            invariant
                0 <= i <= 32,
                hi == (if set_bit_15 { 0x8000u16 } else { 0u16 }),
                forall|j: int| 0 <= j < i ==> #[trigger] words@[j] == rgb15_words(rgb@, hi)[j],
            decreases 32 - i,
        {
            let k = i * 6;
            let lo = rgb_24_to_15(rgb[k], rgb[k + 1], rgb[k + 2], hi);
            let up = rgb_24_to_15(rgb[k + 3], rgb[k + 4], rgb[k + 5], hi);
            words[i] = (lo as u32) | ((up as u32) << 16);
            i = i + 1;
        }
        assert(words@ =~= rgb15_words(rgb@, hi));
        self.push_words(&words, 32);
    }

    fn output_rgb24(&mut self, rgb: &[u8; 192])
        ensures
            final(self)@ == with_output(old(self)@, rgb24_words(rgb@)),
    {
        let mut words: [u32; 48] = [0; 48];
        let mut i: usize = 0;
        while i < 48
            invariant
                0 <= i <= 48,
                forall|j: int| 0 <= j < i ==> #[trigger] words@[j] == rgb24_words(rgb@)[j],
            decreases 48 - i,
        {
            let k = i * 4;
            words[i] = le_word_exec(rgb[k], rgb[k + 1], rgb[k + 2], rgb[k + 3]);
            i = i + 1;
        }
        assert(words@ =~= rgb24_words(rgb@));
        self.push_words(&words, 48);
    }

    /// Decode the block at the front of the input with table `color` (else
    /// luminance), into a fresh block.
    fn decode_next(&mut self, color: bool) -> (r: Option<[i16; 64]>)
        requires
            !dc_overflows(old(self)@.in_fifo, if color { old(self)@.color_quant } else { old(self)@.lum_quant }),
        ensures
            final(self)@ == (MDECView {
                in_fifo: after_block(old(self)@.in_fifo, if color { old(self)@.color_quant } else { old(self)@.lum_quant }),
                ..old(self)@
            }),
            r is None <==> block_coeffs(old(self)@.in_fifo, if color { old(self)@.color_quant } else { old(self)@.lum_quant }) is None,
            r matches Some(b) ==> b@ == decoded_block(old(self)@.in_fifo,
                if color { old(self)@.color_quant } else { old(self)@.lum_quant }, old(self)@.scale),
    {
        let mut blk: [i16; 64] = [0; 64];
        let ok = if color {
            decode_block(&mut self.in_fifo, &self.color_quant_table, &self.scale_table, &mut blk)
        } else {
            decode_block(&mut self.in_fifo, &self.luminance_quant_table, &self.scale_table, &mut blk)
        };
        proof {
            if !ok {
                assert(self@.in_fifo =~= Seq::<u16>::empty());
            }
        }
        if ok { Some(blk) } else { None }
    }

    /// Decode the next block of a macroblock.
    fn decode_macroblock(&mut self, output_depth: OutputDepth, signed: bool, set_bit_15: bool) -> (r: Result<(), MDECError>)
        requires
            decoder_ok(old(self)@),
        ensures
            match r {
                Ok(_) => macroblock_step(old(self)@, output_depth, signed, set_bit_15) == Ok::<MDECView, MDECError>(final(self)@),
                Err(e) => macroblock_step(old(self)@, output_depth, signed, set_bit_15) == Err::<MDECView, MDECError>(e),
            },
    {
        let unsigned = !signed;
        match output_depth {
            OutputDepth::Mono4 | OutputDepth::Mono8 => {
                if Self::dc_overflow_exec(&self.in_fifo, &self.luminance_quant_table) {
                    return Err(MDECError::Overflow);
                }
                match self.decode_next(false) {
                    None => Ok(()),
                    Some(y) => {
                        let mono = y_to_mono(&y, unsigned);
                        proof {
                            assert(mono@ =~= Seq::new(64, |i: int| mono_pixel(y@[i], unsigned)));
                        }
                        if output_depth == OutputDepth::Mono4 {
                            self.output_mono4(&mono);
                        } else {
                            self.output_mono8(&mono);
                        }
                        Ok(())
                    },
                }
            },
            _ => {
                if Self::dc_overflow_exec(&self.in_fifo, &self.color_quant_table) {
                    return Err(MDECError::Overflow);
                }
                match self.current_block {
                    Block::Cr => {
                        match self.decode_next(true) {
                            None => {
                                self.cr_block = [0; 64];
                                assert(self.cr_block@ =~= Seq::new(64, |i: int| 0i16));
                            },
                            Some(b) => {
                                self.cr_block = b;
                                self.current_block = Block::Cb;
                            },
                        }
                        Ok(())
                    },
                    Block::Cb => {
                        match self.decode_next(true) {
                            None => Err(MDECError::AbortedInBlock),
                            Some(b) => {
                                self.cb_block = b;
                                self.current_block = Block::Y0;
                                Ok(())
                            },
                        }
                    },
                    Block::Idle => Err(MDECError::AbortedInBlock),
                    _ => {
                        let (xo, yo): (usize, usize) = match self.current_block {
                            Block::Y1 => (8, 0),
                            Block::Y2 => (0, 8),
                            Block::Y3 => (8, 8),
                            _ => (0, 0),
                        };
                        let next = match self.current_block {
                            Block::Y0 => Block::Y1,
                            Block::Y1 => Block::Y2,
                            Block::Y2 => Block::Y3,
                            _ => Block::Cr,
                        };
                        let y = match self.decode_next(true) {
                            None => return Err(MDECError::AbortedInBlock),
                            Some(b) => b,
                        };
                        let rgb = match yuv_to_rgb(&y, &self.cr_block, &self.cb_block, unsigned, xo, yo) {
                            None => return Err(MDECError::Overflow),
                            Some(c) => c,
                        };
                        proof {
                            assert(rgb@ =~= Seq::new(192, |k: int| rgb_byte(y@, self@.cr, self@.cb, unsigned,
                                xo as int, yo as int, k)));
                        }
                        if output_depth == OutputDepth::RGB15 {
                            self.output_rgb15(&rgb, set_bit_15);
                        } else {
                            self.output_rgb24(&rgb);
                        }
                        self.current_block = next;
                        Ok(())
                    },
                }
            },
        }
    }

    /// Read a table of 64 bytes from 32 input halfwords, low byte first.
    fn read_table(&mut self) -> (r: [u8; 64])
        requires
            old(self)@.in_fifo.len() >= 32,
        ensures
            r@ == table_bytes(old(self)@.in_fifo),
            final(self)@ == (MDECView { in_fifo: old(self)@.in_fifo.subrange(32, old(self)@.in_fifo.len() as int), ..old(self)@ }),
    {
        let ghost f = self@.in_fifo;
        assert(f.subrange(0, f.len() as int) =~= f);
        let mut table: [u8; 64] = [0; 64];
        let mut i: usize = 0;
        while i < 32
            invariant
                0 <= i <= 32,
                f.len() >= 32,
                self@ == (MDECView { in_fifo: f.subrange(i as int, f.len() as int), ..old(self)@ }),
                forall|k: int| 0 <= k < 2 * i ==> #[trigger] table@[k] == table_bytes(f)[k],
            decreases 32 - i,
        {
            let data = self.in_fifo.pop_front().unwrap();
            assert(data == f[i as int]);
            assert(self@.in_fifo =~= f.subrange(i + 1, f.len() as int));
            let index = i * 2;
            table[index] = (data & 0xFF) as u8;
            table[index + 1] = (data >> 8) as u8;
            proof {
                assert forall|k: int| 0 <= k < 2 * i + 2 implies #[trigger] table@[k] == table_bytes(f)[k] by {
                    if k >= 2 * i {
                        assert(k / 2 == i as int);
                    }
                }
            }
            i = i + 1;
        }
        assert(table@ =~= table_bytes(f));
        table
    }

    fn set_quant_table(&mut self, use_color: bool)
        requires
            old(self)@.in_fifo.len() >= (if use_color { 64int } else { 32int }),
        ensures
            final(self)@ == quant_set(old(self)@, use_color),
    {
        let ghost f = self@.in_fifo;
        self.luminance_quant_table = self.read_table();
        if use_color {
            self.color_quant_table = self.read_table();
            assert(f.subrange(32, f.len() as int).subrange(32, f.len() - 32) =~= f.subrange(64, f.len() as int));
        }
    }

    fn set_scale_table(&mut self)
        requires
            old(self)@.in_fifo.len() >= 64,
        ensures
            final(self)@ == scale_set(old(self)@),
    {
        let ghost f = self@.in_fifo;
        assert(f.subrange(0, f.len() as int) =~= f);
        let mut i: usize = 0;
        while i < 64
            invariant
                0 <= i <= 64,
                f.len() >= 64,
                self@ == (MDECView {
                    in_fifo: f.subrange(i as int, f.len() as int),
                    scale: self@.scale,
                    ..old(self)@
                }),
                self@.scale.len() == 64,
                forall|k: int| 0 <= k < i ==> #[trigger] self@.scale[k] == f[k] as i16,
                forall|k: int| i <= k < 64 ==> #[trigger] self@.scale[k] == old(self)@.scale[k],
            decreases 64 - i,
        {
            let data = self.in_fifo.pop_front().unwrap();
            assert(data == f[i as int]);
            assert(self@.in_fifo =~= f.subrange(i + 1, f.len() as int));
            self.scale_table[i] = data as i16;
            i = i + 1;
        }
        assert(self@.scale =~= Seq::new(64, |k: int| f[k] as i16));
    }

    fn finish_command(&mut self)
        ensures
            final(self)@ == finished(old(self)@),
    {
        match self.command {
            Some(Command::DecodeMacroblock { output_depth, .. }) => {
                self.use_reorder = match output_depth {
                    OutputDepth::RGB15 => Some(4),
                    OutputDepth::RGB24 => Some(6),
                    _ => None,
                };
            },
            _ => {
                self.use_reorder = None;
            },
        }
        self.command = None;
        self.status = self.status & !(STAT_COMMAND_BUSY | STAT_CURRENT_BLOCK | STAT_DATA_IN_REQ);
        self.current_block = Block::Idle;
    }

    /// Decode macroblocks while more than `limit` input halfwords are left.
    fn decode_while(&mut self, limit: usize, output_depth: OutputDepth, signed: bool, set_bit_15: bool) -> (r: Result<(), MDECError>)
        requires
            decoder_ok(old(self)@),
            old(self)@.command matches Some(Command::DecodeMacroblock { .. }),
        ensures
            match r {
                Ok(_) => decode_loop(old(self)@, limit as nat, output_depth, signed, set_bit_15) == Ok::<MDECView, MDECError>(final(self)@)
                    && decoder_ok(final(self)@),
                Err(e) => decode_loop(old(self)@, limit as nat, output_depth, signed, set_bit_15) == Err::<MDECView, MDECError>(e),
            },
    {
        while self.in_fifo.len() > limit
            invariant
                decoder_ok(self@),
                self@.command == old(self)@.command,
                old(self)@.command matches Some(Command::DecodeMacroblock { .. }),
                decode_loop(old(self)@, limit as nat, output_depth, signed, set_bit_15)
                    == decode_loop(self@, limit as nat, output_depth, signed, set_bit_15),
            decreases self@.in_fifo.len(),
        {
            let ghost before = self@;
            match self.decode_macroblock(output_depth, signed, set_bit_15) {
                Err(e) => return Err(e),
                Ok(_) => {},
            }
            proof {
                lemma_step_progress(before, output_depth, signed, set_bit_15);
                lemma_step_keeps_ok(before, output_depth, signed, set_bit_15);
            }
        }
        Ok(())
    }

    /// Advance the decoder: carry out a command whose parameters are in.
    pub fn clock(&mut self, _cycles: usize) -> (r: Result<MDECStatus, MDECError>)
        requires
            old(self).wf(),
        ensures
            match r {
                Ok(st) => clock_result(old(self)@) == Ok::<MDECView, MDECError>(final(self)@)
                    && final(self).wf()
                    && st.data_in_ready == (final(self)@.status & STAT_DATA_IN_REQ != 0)
                    && st.data_out_ready == (final(self)@.status & STAT_DATA_OUT_REQ != 0),
                Err(e) => clock_result(old(self)@) == Err::<MDECView, MDECError>(e),
            },
    {
        if let Some(command) = self.command {
            if self.param_words_remaining == 0 {
                match command {
                    Command::DecodeMacroblock { output_depth, signed, set_bit_15 } => {
                        match self.decode_while(0, output_depth, signed, set_bit_15) {
                            Err(e) => return Err(e),
                            Ok(_) => {},
                        }
                    },
                    Command::SetQuantTable { use_color } => self.set_quant_table(use_color),
                    Command::SetScaleTable => self.set_scale_table(),
                }
                if self.current_block != Block::Cr {
                    return Err(MDECError::BlockNotEndingOnCr);
                }
                self.finish_command();
                self.status = self.status & !STAT_DATA_IN_FIFO_FULL;
            } else if self.in_fifo.len() > 4096 {
                match command {
                    Command::DecodeMacroblock { output_depth, signed, set_bit_15 } => {
                        match self.decode_while(128, output_depth, signed, set_bit_15) {
                            Err(e) => return Err(e),
                            Ok(_) => {},
                        }
                    },
                    _ => {},
                }
                self.status = (self.status & !STAT_DATA_IN_FIFO_FULL) | STAT_DATA_IN_REQ;
            }
        }
        Ok(MDECStatus {
            data_in_ready: self.status & STAT_DATA_IN_REQ != 0,
            data_out_ready: self.status & STAT_DATA_OUT_REQ != 0,
        })
    }

    /// Take a word of output.
    fn read_data(&mut self) -> (r: u32)
        requires
            old(self)@.out_fifo.len() > 0,
        ensures
            r == old(self)@.out_fifo[0],
            final(self)@ == (MDECView {
                out_fifo: old(self)@.out_fifo.subrange(1, old(self)@.out_fifo.len() as int),
                status: if old(self)@.out_fifo.len() == 1 { old(self)@.status | STAT_DATA_OUT_FIFO_EMPTY } else { old(self)@.status },
                ..old(self)@
            }),
    {
        let data = self.out_fifo.pop_front().unwrap();
        if self.out_fifo.len() == 0 {
            self.status = self.status | STAT_DATA_OUT_FIFO_EMPTY;
        }
        data
    }

    /// The status register: the flags, the current block, and the number of
    /// parameter words still expected, less one.
    pub fn read_status(&self) -> (r: u32)
        ensures
            r == (self@.status | block_bits(self@.current_block)) | (if self@.param_words_remaining == 0 {
                0xFFFFu32
            } else {
                (self@.param_words_remaining - 1) as u32
            }),
    {
        let param_words = self.param_words_remaining.wrapping_sub(1) as u32;
        let current_mode = self.current_block.to_status_bits();
        (self.status | current_mode) | param_words
    }

    /// Write the control register: bit 31 resets the command; bits 30 and 29
    /// enable data in and data out requests.
    pub fn write_control(&mut self, data: u32)
        requires
            old(self).wf(),
        ensures
            final(self).wf(),
            final(self)@ == control_written(old(self)@, data),
    {
        if data & 0x8000_0000 != 0 {
            self.command = None;
            self.param_words_remaining = 0;
            self.status = STAT_INIT;
        }
        self.data_in_enable = data & 0x4000_0000 != 0;
        self.data_out_enable = data & 0x2000_0000 != 0;
    }

    /// A command word can be written: it is a command when none runs, and
    /// a running command still expects parameters.
    pub open spec fn can_write_command(&self, data: u32) -> bool {
        &&& self@.command is None ==> is_command(data)
        &&& self@.command is Some ==> self@.param_words_remaining > 0
    }

    /// Write the command port: a parameter word of the running command (two
    /// halfwords of input, low first), or a new command.
    pub fn write_command(&mut self, data: u32)
        requires
            old(self).wf(),
            old(self).can_write_command(data),
        ensures
            final(self).wf(),
            final(self)@ == command_written(old(self)@, data),
    {
        if self.command.is_some() {
            let data_lo = data as u16;
            let data_hi = (data >> 16) as u16;
            self.in_fifo.push_back(data_lo);
            self.in_fifo.push_back(data_hi);
            self.param_words_remaining = self.param_words_remaining - 1;
            if self.param_words_remaining == 0 {
                self.status = (self.status | STAT_DATA_IN_FIFO_FULL) & !STAT_DATA_IN_REQ;
            }
        } else {
            self.start_command(data);
        }
    }

    fn start_command(&mut self, data: u32)
        requires
            old(self).wf(),
            is_command(data),
        ensures
            final(self).wf(),
            final(self)@ == started(old(self)@, data),
    {
        let command = Command::decode(data);
        self.param_words_remaining = match command {
            Command::DecodeMacroblock { .. } => (data & 0xFFFF) as u16,
            Command::SetQuantTable { use_color } => if use_color { 32 } else { 16 },
            Command::SetScaleTable => 32,
        };
        self.command = Some(command);
        self.status = self.status | STAT_COMMAND_BUSY | STAT_MONO;
        if self.data_in_enable {
            self.status = self.status | STAT_DATA_IN_REQ;
        }
        self.current_block = Block::Cr;
    }

    /// Read the data port (`0x1F80_1820`) or the status register (`0x1F80_1824`).
    pub fn read_word(&mut self, addr: u32) -> (r: u32)
        requires
            addr == 0x1F80_1820 || addr == 0x1F80_1824,
            addr == 0x1F80_1820 ==> old(self)@.out_fifo.len() > 0,
        ensures
            addr == 0x1F80_1824 ==> r == (old(self)@.status | block_bits(old(self)@.current_block)) | (
                if old(self)@.param_words_remaining == 0 {
                    0xFFFFu32
                } else {
                    (old(self)@.param_words_remaining - 1) as u32
                }) && final(self)@ == old(self)@,
            addr == 0x1F80_1820 ==> r == old(self)@.out_fifo[0] && final(self)@ == (MDECView {
                out_fifo: old(self)@.out_fifo.subrange(1, old(self)@.out_fifo.len() as int),
                status: if old(self)@.out_fifo.len() == 1 { old(self)@.status | STAT_DATA_OUT_FIFO_EMPTY } else { old(self)@.status },
                ..old(self)@
            }),
    {
        if addr == 0x1F80_1820 {
            self.read_data()
        } else {
            self.read_status()
        }
    }

    /// Write the command port (`0x1F80_1820`) or the control register (`0x1F80_1824`).
    pub fn write_word(&mut self, addr: u32, data: u32)
        requires
            old(self).wf(),
            addr == 0x1F80_1820 || addr == 0x1F80_1824,
            addr == 0x1F80_1820 ==> old(self).can_write_command(data),
        ensures
            final(self).wf(),
            addr == 0x1F80_1820 ==> final(self)@ == command_written(old(self)@, data),
            addr == 0x1F80_1824 ==> final(self)@ == control_written(old(self)@, data),
    {
        if addr == 0x1F80_1820 {
            self.write_command(data)
        } else {
            self.write_control(data)
        }
    }

    /// A word can be taken by DMA: the output holds a reordered block, or a word.
    pub open spec fn can_dma_read(&self) -> bool {
        match self@.use_reorder {
            Some(row_words) => self@.reorder_fifo.len() > 0 || self@.out_fifo.len() >= 16 * row_words,
            None => self@.out_fifo.len() > 0,
        }
    }

    /// Take a word of output by DMA. Colour blocks come out reordered: the
    /// 8 rows of two horizontally adjacent blocks are interleaved.
    pub fn dma_read_word(&mut self) -> (r: u32)
        requires
            old(self).wf(),
            old(self).can_dma_read(),
        ensures
            final(self).wf(),
            final(self)@.command == old(self)@.command,
            final(self)@.in_fifo == old(self)@.in_fifo,
            match old(self)@.use_reorder {
                Some(rw) => {
                    let q = if old(self)@.reorder_fifo.len() > 0 {
                        old(self)@.reorder_fifo
                    } else {
                        reordered(old(self)@.out_fifo, rw as int)
                    };
                    let out = if old(self)@.reorder_fifo.len() > 0 {
                        old(self)@.out_fifo
                    } else {
                        old(self)@.out_fifo.subrange(16 * rw, old(self)@.out_fifo.len() as int)
                    };
                    &&& r == q[0]
                    &&& final(self)@.reorder_fifo == q.subrange(1, q.len() as int)
                    &&& final(self)@.out_fifo == out
                    &&& final(self)@.status == (if q.len() == 1 && out.len() == 0 {
                        (old(self)@.status & !STAT_DATA_OUT_REQ) | STAT_DATA_OUT_FIFO_EMPTY
                    } else {
                        old(self)@.status
                    })
                },
                None => {
                    let s1 = if old(self)@.out_fifo.len() == 1 { old(self)@.status | STAT_DATA_OUT_FIFO_EMPTY } else { old(self)@.status };
                    &&& r == old(self)@.out_fifo[0]
                    &&& final(self)@.out_fifo == old(self)@.out_fifo.subrange(1, old(self)@.out_fifo.len() as int)
                    &&& final(self)@.reorder_fifo == old(self)@.reorder_fifo
                    &&& final(self)@.status == (if old(self)@.out_fifo.len() == 1 && old(self)@.reorder_fifo.len() == 0 {
                        (s1 & !STAT_DATA_OUT_REQ) | STAT_DATA_OUT_FIFO_EMPTY
                    } else {
                        s1
                    })
                },
            },
    {
        let data = match self.use_reorder {
            Some(row_words) => {
                if self.dma_reorder_fifo.len() == 0 {
                    self.fill_reorder(row_words);
                }
                self.dma_reorder_fifo.pop_front().unwrap()
            },
            None => self.read_data(),
        };
        if self.dma_reorder_fifo.len() == 0 && self.out_fifo.len() == 0 {
            self.status = (self.status & !STAT_DATA_OUT_REQ) | STAT_DATA_OUT_FIFO_EMPTY;
        }
        data
    }

    /// Move two blocks of output into the reorder buffer, interleaving their rows.
    fn fill_reorder(&mut self, row_words: usize)
        requires
            old(self).wf(),
            row_words == 4 || row_words == 6,
            old(self)@.reorder_fifo.len() == 0,
            old(self)@.out_fifo.len() >= 16 * row_words,
        ensures
            final(self)@ == (MDECView {
                reorder_fifo: reordered(old(self)@.out_fifo, row_words as int),
                out_fifo: old(self)@.out_fifo.subrange(16 * row_words, old(self)@.out_fifo.len() as int),
                ..old(self)@
            }),
    {
        let ghost out = self@.out_fifo;
        let block_size = 8 * row_words;
        assert(self@.reorder_fifo =~= reordered(out, row_words as int).subrange(0, 0));
        let mut k: usize = 0;
        while k < 2 * block_size
            invariant
                row_words == 4 || row_words == 6,
                block_size == 8 * row_words,
                0 <= k <= 2 * block_size,
                out == old(self)@.out_fifo,
                out.len() >= 16 * row_words,
                self@ == (MDECView { reorder_fifo: reordered(out, row_words as int).subrange(0, k as int), ..old(self)@ }),
            decreases 2 * block_size - k,
        {
            let row = k / (2 * row_words);
            let within = k % (2 * row_words);
            proof {
                if row_words == 4 {
                    assert(row < 8 && within < 8 && k == row * 8 + within);
                } else {
                    assert(row < 8 && within < 12 && k == row * 12 + within);
                }
                assert(row * row_words <= 7 * row_words) by (nonlinear_arith)
                    requires row < 8, row_words <= 6;
                assert(7 * row_words <= 42) by (nonlinear_arith)
                    requires row_words <= 6;
            }
            let src = if within < row_words { within + row * row_words } else { block_size + (within - row_words) + row * row_words };
            proof {
                if row_words == 4 {
                    assert(row * row_words == row * 4);
                } else {
                    assert(row * row_words == row * 6);
                }
                assert(src < 16 * row_words);
                assert(src as int == (if within < row_words { within + row * row_words }
                    else { 8 * row_words + (within - row_words) + row * row_words }));
            }
            let data = self.out_fifo[src];
            self.dma_reorder_fifo.push_back(data);
            assert(self@.reorder_fifo =~= reordered(out, row_words as int).subrange(0, k + 1));
            assert(k + 1 <= 16 * row_words);
            k = k + 1;
        }
        assert(reordered(out, row_words as int).subrange(0, 16 * row_words) =~= reordered(out, row_words as int));
        assert(out.subrange(0, out.len() as int) =~= out);
        let mut d: usize = 0;
        while d < 2 * block_size
            invariant
                row_words == 4 || row_words == 6,
                block_size == 8 * row_words,
                0 <= d <= 2 * block_size,
                out == old(self)@.out_fifo,
                out.len() >= 16 * row_words,
                self@ == (MDECView {
                    reorder_fifo: reordered(out, row_words as int),
                    out_fifo: out.subrange(d as int, out.len() as int),
                    ..old(self)@
                }),
            decreases 2 * block_size - d,
        {
            let _ = self.out_fifo.pop_front();
            assert(self@.out_fifo =~= out.subrange(d + 1, out.len() as int));
            d = d + 1;
        }
    }

    /// A word written by DMA goes to the command port.
    pub fn dma_write_word(&mut self, data: u32) -> (r: usize)
        requires
            old(self).wf(),
            old(self).can_write_command(data),
        ensures
            final(self).wf(),
            r == 1,
    {
        self.write_command(data);
        1
    }
}

} // verus!
