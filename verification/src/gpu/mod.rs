//! The graphics processing unit: its registers, the decoding of command
//! packets, and the video timing.
//!
//! The GPU decides; the commands it produces for the renderer are handed
//! back to the caller, which passes them on.

pub mod videostate;
pub mod status;
pub mod renderer;
pub mod gp0;

use vstd::prelude::*;
use status::{GPUStatus, InterlaceState, h_res_of, v_res_of, STAT_DMA_MODE, STAT_DMA_RECV_READY,
    STAT_VRAM_SEND_READY, STAT_DMA_REQUEST, STAT_TEX_DISABLE, STAT_DRAW_MODE_FLAGS, STAT_SET_DRAW_MASK,
    STAT_MASK_DRAWING, STAT_IRQ, STAT_COMMAND_READY, STAT_DISP_MODE_FLAGS, STAT_INTERLACE, STAT_COLOR_DEPTH,
    STAT_DISPLAY_ENABLE, STAT_INTERLACE_ODD};
use videostate::{StateMachine, VideoTiming, GPUClockRes, ntsc_cycles_per_dot, NTSC_SCANLINES};
use renderer::{GP0Command, RendererCmd, Size, clip_width, clip_height, words_for};
use gp0::{gp0_words, gp0_known, is_plain, is_poly_line, is_shaded_poly_line, transparent_cmd, describes,
    POLY_LINE_TERM, gp0_command_words, plain_command};

verus! {

/// The state of the GPU as the contracts speak of it.
pub struct GPUView {
    pub status: u32,
    pub read_reg: u32,
    pub tex_window: u32,
    pub draw_area_top_left: u32,
    pub draw_area_bottom_right: u32,
    pub draw_offset: u32,
    /// The command whose packet is being received.
    pub pending_command: u8,
    /// Words of that packet still to come.
    pub pending_words: int,
    /// Words of that packet received so far.
    pub command_data: Seq<u32>,
    /// The last vertices (and colours) of a poly-line being drawn.
    pub poly_buf: Seq<u32>,
    /// Words of a VRAM transfer still to come.
    pub data_words: int,
    /// Words left in the current block of a VRAM transfer.
    pub block_count: int,
    pub timing: VideoTiming,
}

/// The DMA request bit follows the DMA mode (bits 29, 30): off, on, ready
/// to receive, or ready to send.
pub open spec fn dma_status(s: u32) -> u32 {
    let mode = (s & STAT_DMA_MODE) >> 29;
    let request = if mode == 0 {
        false
    } else if mode == 1 {
        true
    } else if mode == 2 {
        s & STAT_DMA_RECV_READY != 0
    } else {
        s & STAT_VRAM_SEND_READY != 0
    };
    if request { s | STAT_DMA_REQUEST } else { s & !STAT_DMA_REQUEST }
}

/// The number of words of a VRAM transfer of the size in `xy`.
pub open spec fn blit_words(xy: u32) -> int {
    words_for(clip_width((xy & 0xFFFF) as u16), clip_height(((xy >> 16) & 0xFFFF) as u16))
}

/// The status after a draw mode setting: bits 0 to 10 from the parameter,
/// and the texture disable bit (15) from its bit 11.
pub open spec fn draw_mode_status(s: u32, param: u32) -> u32 {
    let t = if param & 0x800 != 0 { STAT_TEX_DISABLE } else { 0 };
    (s & !STAT_DRAW_MODE_FLAGS) | (param & 0x7FF) | t
}

/// The status after a mask bit setting: bit 11 from bit 0, bit 12 from bit 1.
pub open spec fn mask_status(s: u32, param: u32) -> u32 {
    let set_mask = if param & 1 != 0 { STAT_SET_DRAW_MASK } else { 0 };
    let check_mask = if param & 2 != 0 { STAT_MASK_DRAWING } else { 0 };
    (s & !(STAT_SET_DRAW_MASK | STAT_MASK_DRAWING)) | set_mask | check_mask
}

/// A poly-line of one colour takes its next packet: the first one draws
/// from its first to its second vertex; each further vertex draws on from
/// the last one; the terminator ends the line.
pub open spec fn poly_line_result(b: GPUView, cmd: u8, w: Seq<u32>, n: GPUView, r: Option<GP0Command>) -> bool {
    let buf = b.poly_buf;
    if buf.len() == 0 {
        &&& n == GPUView { poly_buf: seq![w[0], w[2]], pending_words: 1, ..b }
        &&& r matches Some(GP0Command::DrawLine { params, transparent })
        &&& params@ == w.subrange(0, 3) && transparent == transparent_cmd(cmd)
    } else if w[0] == POLY_LINE_TERM {
        n == GPUView { poly_buf: Seq::empty(), ..b } && r is None
    } else {
        &&& n == GPUView { poly_buf: seq![buf[0], w[0]], pending_words: 1, ..b }
        &&& r matches Some(GP0Command::DrawLine { params, transparent })
        &&& params@ == seq![buf[0], buf[1], w[0]] && transparent == transparent_cmd(cmd)
    }
}

/// A shaded poly-line takes its next packet: the first one draws the first
/// segment; then a colour and a vertex alternate, and each vertex draws on
/// from the last one; the terminator, in place of a colour, ends the line.
pub open spec fn shaded_poly_line_result(b: GPUView, cmd: u8, w: Seq<u32>, n: GPUView, r: Option<GP0Command>) -> bool {
    let buf = b.poly_buf;
    if buf.len() == 0 {
        &&& n == GPUView { poly_buf: seq![w[2], w[3]], pending_words: 1, ..b }
        &&& r matches Some(GP0Command::DrawShadedLine { params, transparent })
        &&& params@ == w.subrange(0, 4) && transparent == transparent_cmd(cmd)
    } else if buf.len() == 2 {
        if w[0] == POLY_LINE_TERM {
            n == GPUView { poly_buf: Seq::empty(), ..b } && r is None
        } else {
            n == GPUView { poly_buf: buf.push(w[0]), pending_words: 1, ..b } && r is None
        }
    } else {
        &&& n == GPUView { poly_buf: seq![buf[2], w[0]], pending_words: 1, ..b }
        &&& r matches Some(GP0Command::DrawShadedLine { params, transparent })
        &&& params@ == seq![buf[0], buf[1], buf[2], w[0]] && transparent == transparent_cmd(cmd)
    }
}

/// A complete packet of command `cmd`, of words `w` (the last one `data`),
/// takes the GPU from `b` to `n` and gives the renderer `r`.
pub open spec fn dispatch_result(b: GPUView, cmd: u8, w: Seq<u32>, data: u32, n: GPUView, r: Option<GP0Command>) -> bool {
    if cmd == 0x00 {
        n == b && r is None
    } else if is_plain(cmd) {
        n == b && (r matches Some(c) && describes(cmd, w, c))
    } else if cmd == 0x1F {
        n == GPUView { status: b.status | STAT_IRQ, ..b } && r is None
    } else if is_poly_line(cmd) {
        poly_line_result(b, cmd, w, n, r)
    } else if is_shaded_poly_line(cmd) {
        shaded_poly_line_result(b, cmd, w, n, r)
    } else if cmd == 0xA0 || cmd == 0xC0 {
        let ready = if cmd == 0xA0 { STAT_DMA_RECV_READY } else { STAT_VRAM_SEND_READY };
        &&& n == GPUView {
            data_words: blit_words(w[2]),
            block_count: 0x10,
            status: dma_status((b.status & !STAT_COMMAND_READY) | ready),
            ..b
        }
        &&& r matches Some(c) && describes(cmd, w, c)
    } else if cmd == 0xE1 {
        let s = draw_mode_status(b.status, data);
        n == GPUView { status: s, ..b } && r == Some(GP0Command::DrawMode(GPUStatus { bits: s }))
    } else if cmd == 0xE2 {
        n == GPUView { tex_window: data & 0xFF_FFFF, ..b } && r == Some(GP0Command::TexWindow(data & 0xFF_FFFF))
    } else if cmd == 0xE3 {
        n == GPUView { draw_area_top_left: data & 0xFF_FFFF, ..b }
            && r == Some(GP0Command::DrawAreaTopLeft(data & 0xFF_FFFF))
    } else if cmd == 0xE4 {
        n == GPUView { draw_area_bottom_right: data & 0xFF_FFFF, ..b }
            && r == Some(GP0Command::DrawAreaBottomRight(data & 0xFF_FFFF))
    } else if cmd == 0xE5 {
        n == GPUView { draw_offset: data & 0xFF_FFFF, ..b } && r == Some(GP0Command::DrawOffset(data & 0xFF_FFFF))
    } else {
        n == GPUView { status: mask_status(b.status, data), ..b }
            && r == Some(GP0Command::MaskBit { set_mask: data & 1 != 0, check_mask: data & 2 != 0 })
    }
}

/// The GP0 port takes the command word `data` in state `v`: it starts a new
/// packet when none is pending, and once the packet is complete the command
/// is carried out.
pub open spec fn gp0_result(v: GPUView, data: u32, n: GPUView, r: Option<GP0Command>) -> bool {
    let starts = v.pending_words == 0;
    let cmd = if starts { (data >> 24) as u8 } else { v.pending_command };
    let expected = if starts { gp0_words(cmd) } else { v.pending_words };
    let w = if expected > 0 { v.command_data.push(data) } else { v.command_data };
    let rest = if expected > 0 { expected - 1 } else { 0 };
    if rest > 0 {
        n == GPUView { pending_command: cmd, pending_words: rest, command_data: w, ..v } && r is None
    } else {
        dispatch_result(
            GPUView { pending_command: cmd, pending_words: 0, command_data: Seq::empty(), ..v },
            cmd,
            w,
            data,
            n,
            r,
        )
    }
}

/// One word of a VRAM transfer passes: the counts go down, a new block is
/// requested every 16 words, and at the end the GPU is ready for commands.
pub open spec fn transfer_step(v: GPUView, done_clear: u32) -> GPUView {
    let s1 = v.status & !STAT_DMA_REQUEST;
    let dw = v.data_words - 1;
    let bc = v.block_count - 1;
    let (s2, bc2) = if dw == 0 {
        ((s1 & !done_clear) | STAT_COMMAND_READY | STAT_DMA_REQUEST, bc)
    } else if bc == 0 {
        (s1 | STAT_DMA_REQUEST, 0x10)
    } else {
        (s1, bc)
    };
    GPUView { status: dma_status(s2), data_words: dw, block_count: bc2, ..v }
}

/// The GP1 commands the GPU accepts: 0 to 9, and 0x10 with a known info
/// request. Display mode 8 must not select PAL.
pub open spec fn gp1_accepted(data: u32) -> bool {
    let cmd = data >> 24;
    let info = data & 7;
    ||| cmd <= 0x07 || cmd == 0x09
    ||| cmd == 0x08 && data & 0x8 == 0
    ||| cmd == 0x10 && (info == 2 || info == 3 || info == 4 || info == 5 || info == 7)
}

/// The status after a display mode setting.
pub open spec fn display_mode_status(s: u32, param: u32) -> u32 {
    (s & !STAT_DISP_MODE_FLAGS) | ((param & 0x3F) << 17) | ((param & 0x40) << 10) | ((param & 0x80) << 7)
}

/// The interlace state after interlacing is switched on or off.
pub open spec fn interlace_after(i: InterlaceState, on: bool) -> InterlaceState {
    if on {
        if i == InterlaceState::Off { InterlaceState::Odd } else { i }
    } else {
        InterlaceState::Off
    }
}

/// The video timing after the display mode in status `s` is selected.
pub open spec fn timing_for_mode(t: VideoTiming, s: u32) -> VideoTiming {
    let h = h_res_of(s);
    VideoTiming {
        h_res: h as int,
        cycles_per_dot: ntsc_cycles_per_dot(h) as int,
        interlace: interlace_after(t.interlace, s & STAT_INTERLACE != 0),
        ..t
    }
}

/// The renderer command announcing the display mode in status `s`.
pub open spec fn display_mode_cmd(s: u32) -> RendererCmd {
    RendererCmd::DisplayMode {
        h_res: h_res_of(s),
        v_res: v_res_of(s),
        interlace: s & STAT_INTERLACE != 0,
        rgb24: s & STAT_COLOR_DEPTH != 0,
    }
}

/// The status with the display enable bit (23) set as `enable`.
pub open spec fn display_enable_status(s: u32, enable: bool) -> u32 {
    if enable { s | STAT_DISPLAY_ENABLE } else { s & !STAT_DISPLAY_ENABLE }
}

/// The status with DMA mode `mode` (bits 29, 30).
pub open spec fn data_request_status(s: u32, param: u32) -> u32 {
    dma_status((s & !STAT_DMA_MODE) | ((param & 3) << 29))
}

/// The value a GPU info request `param` reads back.
pub open spec fn gpu_info(v: GPUView, param: u32) -> u32 {
    let i = param & 7;
    if i == 2 {
        v.tex_window
    } else if i == 3 {
        v.draw_area_top_left
    } else if i == 4 {
        v.draw_area_bottom_right
    } else if i == 5 {
        v.draw_offset
    } else {
        0
    }
}

/// The display range that a reset selects horizontally.
pub const RESET_RANGE_X: u32 = 0x200 | ((0x200 + 256 * 10) << 12);
/// The display range that a reset selects vertically.
pub const RESET_RANGE_Y: u32 = 0x010 | ((0x010 + 240) << 12);

/// The GP1 port takes the command word `data` in state `v`, giving the
/// renderer the commands `out`.
pub open spec fn gp1_result(v: GPUView, data: u32, n: GPUView, out: Seq<RendererCmd>) -> bool {
    let cmd = data >> 24;
    if cmd == 0x00 {
        let s1 = display_enable_status(v.status & !STAT_IRQ, false);
        let s2 = data_request_status(s1, 0);
        let s3 = display_mode_status(s2, 0);
        &&& n == GPUView { status: s3, timing: timing_for_mode(v.timing, s3), ..v }
        &&& out == seq![
            RendererCmd::DisplayEnable(false),
            RendererCmd::DisplayVRAMOffset(0),
            RendererCmd::DisplayXRange(RESET_RANGE_X),
            RendererCmd::DisplayYRange(RESET_RANGE_Y),
            display_mode_cmd(s3),
        ]
    } else if cmd == 0x01 {
        n == v && out == Seq::<RendererCmd>::empty()
    } else if cmd == 0x02 {
        n == GPUView { status: v.status & !STAT_IRQ, ..v } && out == Seq::<RendererCmd>::empty()
    } else if cmd == 0x03 {
        let enable = data & 1 == 0;
        n == GPUView { status: display_enable_status(v.status, enable), ..v }
            && out == seq![RendererCmd::DisplayEnable(enable)]
    } else if cmd == 0x04 {
        n == GPUView { status: data_request_status(v.status, data), ..v } && out == Seq::<RendererCmd>::empty()
    } else if cmd == 0x05 {
        n == v && out == seq![RendererCmd::DisplayVRAMOffset(data)]
    } else if cmd == 0x06 {
        n == v && out == seq![RendererCmd::DisplayXRange(data)]
    } else if cmd == 0x07 {
        n == v && out == seq![RendererCmd::DisplayYRange(data)]
    } else if cmd == 0x08 {
        let s = display_mode_status(v.status, data);
        n == GPUView { status: s, timing: timing_for_mode(v.timing, s), ..v } && out == seq![display_mode_cmd(s)]
    } else if cmd == 0x09 {
        let disable = data & 1 != 0;
        let s = if disable { v.status | STAT_TEX_DISABLE } else { v.status & !STAT_TEX_DISABLE };
        n == GPUView { status: s, ..v } && out == seq![RendererCmd::TexDisable(disable)]
    } else {
        n == GPUView { read_reg: gpu_info(v, data), ..v } && out == Seq::<RendererCmd>::empty()
    }
}

/// The invariant of the command decoder.
pub open spec fn decoder_inv(v: GPUView) -> bool {
    &&& v.data_words > 0 ==> v.block_count > 0
    &&& v.pending_words == 0 ==> v.command_data.len() == 0 && v.poly_buf.len() == 0
    &&& v.pending_words > 0 ==> gp0_known(v.pending_command) && v.command_data.len() + v.pending_words == (
        if v.poly_buf.len() > 0 { 1 } else { gp0_words(v.pending_command) })
    &&& v.poly_buf.len() > 0 ==> (is_poly_line(v.pending_command) && v.poly_buf.len() == 2)
        || (is_shaded_poly_line(v.pending_command) && (v.poly_buf.len() == 2 || v.poly_buf.len() == 3))
}

/// Graphics processing unit.
pub struct GPU {
    state: StateMachine,

    status: u32,
    read_reg: u32,
    // Below are used only for returning via GPU Info command
    tex_window: u32,
    draw_area_top_left: u32,
    draw_area_bottom_right: u32,
    draw_offset: u32,

    // GP0 stuff
    pending_command: u8,
    pending_command_words: usize,
    command_data: Vec<u32>,
    poly_line_buf: Vec<u32>,

    // DMA
    data_words: usize,
    block_count: usize,
}

impl View for GPU {
    type V = GPUView;

    closed spec fn view(&self) -> GPUView {
        GPUView {
            status: self.status,
            read_reg: self.read_reg,
            tex_window: self.tex_window,
            draw_area_top_left: self.draw_area_top_left,
            draw_area_bottom_right: self.draw_area_bottom_right,
            draw_offset: self.draw_offset,
            pending_command: self.pending_command,
            pending_words: self.pending_command_words as int,
            command_data: self.command_data@,
            poly_buf: self.poly_line_buf@,
            data_words: self.data_words as int,
            block_count: self.block_count as int,
            timing: self.state.timing(),
        }
    }
}

/// Exec form of `dma_status`.
fn update_dma(s: u32) -> (r: u32)
    ensures
        r == dma_status(s),
{
    let mode = (s & STAT_DMA_MODE) >> 29;
    let request = if mode == 0 {
        false
    } else if mode == 1 {
        true
    } else if mode == 2 {
        s & STAT_DMA_RECV_READY != 0
    } else {
        s & STAT_VRAM_SEND_READY != 0
    };
    if request { s | STAT_DMA_REQUEST } else { s & !STAT_DMA_REQUEST }
}

/// Exec form of `is_plain`.
fn plain_cmd(cmd: u8) -> (r: bool)
    ensures
        r == is_plain(cmd),
{
    cmd == 0x01 || cmd == 0x02 || (0x20 <= cmd && cmd <= 0x3F) || (0x40 <= cmd && cmd <= 0x42)
        || (0x50 <= cmd && cmd <= 0x53) || (0x60 <= cmd && cmd <= 0x68) || cmd == 0x6A
        || (0x6C <= cmd && cmd <= 0x70) || cmd == 0x72 || (0x74 <= cmd && cmd <= 0x78) || cmd == 0x7A
        || (0x7C <= cmd && cmd <= 0x80)
}

impl GPU {
    /// The decoder is in a consistent state.
    pub open spec fn wf(&self) -> bool {
        decoder_inv(self@)
    }

    pub fn new() -> (r: Self)
        ensures
            r.wf(),
            r@.status == STAT_COMMAND_READY | STAT_DMA_RECV_READY,
            r@.read_reg == 0 && r@.tex_window == 0 && r@.draw_offset == 0,
            r@.draw_area_top_left == 0 && r@.draw_area_bottom_right == 0,
            r@.pending_command == 0 && r@.pending_words == 0,
            r@.command_data.len() == 0 && r@.poly_buf.len() == 0,
            r@.data_words == 0 && r@.block_count == 0,
            r@.timing == videostate::initial_timing(),
    {
        GPU {
            state: StateMachine::new(),
            status: STAT_COMMAND_READY | STAT_DMA_RECV_READY,
            read_reg: 0,
            tex_window: 0,
            draw_area_top_left: 0,
            draw_area_bottom_right: 0,
            draw_offset: 0,
            pending_command: 0,
            pending_command_words: 0,
            command_data: Vec::new(),
            poly_line_buf: Vec::new(),
            data_words: 0,
            block_count: 0,
        }
    }

    /// Advance the video timing.
    pub fn clock(&mut self, cycles: usize) -> (r: GPUClockRes)
        requires
            old(self).can_clock(cycles),
        ensures
            (final(self)@.timing, r) == videostate::clock_step(old(self)@.timing, cycles as int),
            final(self)@ == (GPUView { timing: final(self)@.timing, ..old(self)@ }),
    {
        self.state.clock(cycles)
    }

    /// The video timing can count `cycles` more cycles.
    pub open spec fn can_clock(&self, cycles: usize) -> bool {
        &&& self@.timing.h_cycle_count + cycles <= usize::MAX
        &&& self@.timing.h_dot <= (self@.timing.h_cycle_count + cycles) / self@.timing.cycles_per_dot
    }

    /// Check if DMA is ready.
    pub fn dma_ready(&mut self) -> (r: bool)
        ensures
            r == (old(self)@.status & STAT_DMA_REQUEST != 0),
            final(self)@ == old(self)@,
    {
        self.status & STAT_DMA_REQUEST != 0
    }

    pub fn dma_cmd_ready(&self) -> (r: bool)
        ensures
            r == (self@.status & STAT_COMMAND_READY != 0),
    {
        self.status & STAT_COMMAND_READY != 0
    }

    /// The command asking the renderer for a frame; it is to be sent at the
    /// start of each frame.
    pub fn get_frame(&self) -> (r: RendererCmd)
        ensures
            r == RendererCmd::GetFrame(self@.timing.interlace),
    {
        RendererCmd::GetFrame(self.state.get_interlace_state())
    }

    /// A VRAM transfer is in progress, so a read of the data port takes a
    /// word from the renderer.
    pub fn awaits_vram_word(&self) -> (r: bool)
        ensures
            r == (self@.data_words > 0),
    {
        self.data_words > 0
    }

    /// The status register, with the odd-field bit (31) set while
    /// interlacing on an odd field.
    pub fn read_status(&self) -> (r: u32)
        ensures
            r == (if self@.status & STAT_INTERLACE != 0 && videostate::interlace_bit(self@.timing) {
                self@.status | STAT_INTERLACE_ODD
            } else {
                self@.status
            }),
    {
        let status = self.status;
        if status & STAT_INTERLACE != 0 && self.state.get_interlace_bit() {
            status | STAT_INTERLACE_ODD
        } else {
            status
        }
    }

    /// Write a word to the GP0 port: a word of a VRAM transfer, passed on,
    /// or a word of a command packet.
    pub fn send_gp0(&mut self, data: u32) -> (r: Option<RendererCmd>)
        requires
            old(self).wf(),
            old(self)@.data_words == 0 && old(self)@.pending_words == 0 ==> gp0_known((data >> 24) as u8),
        ensures
            final(self).wf(),
            old(self)@.data_words > 0 ==> r == Some(RendererCmd::GP0Data(data))
                && final(self)@ == transfer_step(old(self)@, 0),
            old(self)@.data_words == 0 ==> match r {
                None => gp0_result(old(self)@, data, final(self)@, None),
                Some(RendererCmd::GP0(c)) => gp0_result(old(self)@, data, final(self)@, Some(c)),
                _ => false,
            },
    {
        if self.data_words > 0 {
            self.transfer_word(0);
            Some(RendererCmd::GP0Data(data))
        } else {
            match self.send_gp0_command(data) {
                Some(c) => Some(RendererCmd::GP0(c)),
                None => None,
            }
        }
    }

    /// Read the GP0 port: during a VRAM transfer the word `vram_word` from
    /// the renderer is taken in; the last word read is returned.
    pub fn recv_response(&mut self, vram_word: u32) -> (r: u32)
        requires
            old(self).wf(),
        ensures
            final(self).wf(),
            old(self)@.data_words > 0 ==> final(self)@ == (GPUView { read_reg: vram_word,
                ..transfer_step(old(self)@, STAT_VRAM_SEND_READY) }),
            old(self)@.data_words == 0 ==> final(self)@ == old(self)@,
            r == final(self)@.read_reg,
    {
        if self.data_words > 0 {
            self.read_reg = vram_word;
            self.transfer_word(STAT_VRAM_SEND_READY);
        }
        self.read_reg
    }

    /// Count one word of a VRAM transfer.
    fn transfer_word(&mut self, done_clear: u32)
        requires
            old(self).wf(),
            old(self)@.data_words > 0,
        ensures
            final(self).wf(),
            final(self)@ == transfer_step(old(self)@, done_clear),
    {
        self.status = self.status & !STAT_DMA_REQUEST;
        self.data_words = self.data_words - 1;
        self.block_count = self.block_count - 1;
        if self.data_words == 0 {
            self.status = (self.status & !done_clear) | STAT_COMMAND_READY | STAT_DMA_REQUEST;
        } else if self.block_count == 0 {
            self.status = self.status | STAT_DMA_REQUEST;
            self.block_count = 0x10;
        }
        self.status = update_dma(self.status);
    }

    /// Take a word of a command packet.
    fn send_gp0_command(&mut self, data: u32) -> (r: Option<GP0Command>)
        requires
            old(self).wf(),
            old(self)@.pending_words == 0 ==> gp0_known((data >> 24) as u8),
        ensures
            final(self).wf(),
            gp0_result(old(self)@, data, final(self)@, r),
    {
        if self.pending_command_words == 0 {
            self.pending_command = (data >> 24) as u8;
            self.pending_command_words = gp0_command_words(self.pending_command);
        }
        if self.pending_command_words > 0 {
            self.command_data.push(data);
            self.pending_command_words = self.pending_command_words - 1;
        }
        if self.pending_command_words == 0 {
            let r = self.dispatch(data);
            self.command_data.clear();
            assert(self@.command_data =~= Seq::<u32>::empty());
            r
        } else {
            None
        }
    }
}

// GP0 commands: mostly they only describe a drawing, for the renderer;
// some change the status.
impl GPU {
    /// Carry out a complete packet.
    fn dispatch(&mut self, data: u32) -> (r: Option<GP0Command>)
        requires
            old(self).pending_command_words == 0,
            old(self)@.poly_buf.len() > 0 ==> old(self)@.command_data.len() == 1
                && ((is_poly_line(old(self)@.pending_command) && old(self)@.poly_buf.len() == 2)
                || (is_shaded_poly_line(old(self)@.pending_command) && (old(self)@.poly_buf.len() == 2
                || old(self)@.poly_buf.len() == 3))),
            old(self)@.poly_buf.len() == 0 ==> old(self)@.command_data.len() == gp0_words(old(self)@.pending_command),
            gp0_known(old(self)@.pending_command),
            gp0_words(old(self)@.pending_command) > 0 ==> old(self)@.command_data.last() == data,
            old(self)@.data_words > 0 ==> old(self)@.block_count > 0,
        ensures
            final(self)@.command_data == old(self)@.command_data,
            dispatch_result(
                GPUView { command_data: Seq::empty(), ..old(self)@ },
                old(self)@.pending_command,
                old(self)@.command_data,
                data,
                GPUView { command_data: Seq::empty(), ..final(self)@ },
                r,
            ),
            decoder_inv(GPUView { command_data: Seq::empty(), ..final(self)@ }),
    {
        let cmd = self.pending_command;
        if cmd == 0x00 {
            None
        } else if plain_cmd(cmd) {
            Some(plain_command(cmd, &self.command_data))
        } else if cmd == 0x1F {
            self.irq();
            None
        } else if cmd == 0x48 || cmd == 0x4A || cmd == 0x4C {
            self.poly_line(cmd & 2 != 0)
        } else if cmd == 0x58 || cmd == 0x5A || cmd == 0x5E {
            self.shaded_poly_line(cmd & 2 != 0)
        } else if cmd == 0xA0 {
            Some(self.blit_cpu_to_vram())
        } else if cmd == 0xC0 {
            Some(self.blit_vram_to_cpu())
        } else if cmd == 0xE1 {
            Some(self.draw_mode_setting(data))
        } else if cmd == 0xE2 {
            self.tex_window = data & 0xFF_FFFF;
            Some(GP0Command::TexWindow(self.tex_window))
        } else if cmd == 0xE3 {
            self.draw_area_top_left = data & 0xFF_FFFF;
            Some(GP0Command::DrawAreaTopLeft(self.draw_area_top_left))
        } else if cmd == 0xE4 {
            self.draw_area_bottom_right = data & 0xFF_FFFF;
            Some(GP0Command::DrawAreaBottomRight(self.draw_area_bottom_right))
        } else if cmd == 0xE5 {
            self.draw_offset = data & 0xFF_FFFF;
            Some(GP0Command::DrawOffset(self.draw_offset))
        } else {
            Some(self.mask_bit_setting(data))
        }
    }

    fn irq(&mut self)
        ensures
            final(self)@ == (GPUView { status: old(self)@.status | STAT_IRQ, ..old(self)@ }),
    {
        self.status = self.status | STAT_IRQ;
    }

    fn draw_mode_setting(&mut self, param: u32) -> (r: GP0Command)
        ensures
            final(self)@ == (GPUView { status: draw_mode_status(old(self)@.status, param), ..old(self)@ }),
            r == GP0Command::DrawMode(GPUStatus { bits: draw_mode_status(old(self)@.status, param) }),
    {
        let low_bits = param & 0x7FF;
        let t = if param & 0x800 != 0 { STAT_TEX_DISABLE } else { 0 };
        self.status = (self.status & !STAT_DRAW_MODE_FLAGS) | low_bits | t;
        GP0Command::DrawMode(GPUStatus { bits: self.status })
    }

    fn mask_bit_setting(&mut self, param: u32) -> (r: GP0Command)
        ensures
            final(self)@ == (GPUView { status: mask_status(old(self)@.status, param), ..old(self)@ }),
            r == (GP0Command::MaskBit { set_mask: param & 1 != 0, check_mask: param & 2 != 0 }),
    {
        let set_mask = param & 1 != 0;
        let check_mask = param & 2 != 0;
        let s = if set_mask { STAT_SET_DRAW_MASK } else { 0 };
        let c = if check_mask { STAT_MASK_DRAWING } else { 0 };
        self.status = (self.status & !(STAT_SET_DRAW_MASK | STAT_MASK_DRAWING)) | s | c;
        GP0Command::MaskBit { set_mask, check_mask }
    }

    fn poly_line(&mut self, transparent: bool) -> (r: Option<GP0Command>)
        requires
            is_poly_line(old(self)@.pending_command),
            transparent == transparent_cmd(old(self)@.pending_command),
            old(self)@.poly_buf.len() == 0 ==> old(self)@.command_data.len() == 3,
            old(self)@.poly_buf.len() > 0 ==> old(self)@.command_data.len() == 1 && old(self)@.poly_buf.len() == 2,
        ensures
            final(self)@.command_data == old(self)@.command_data,
            poly_line_result(
                GPUView { command_data: Seq::empty(), ..old(self)@ },
                old(self)@.pending_command,
                old(self)@.command_data,
                GPUView { command_data: Seq::empty(), ..final(self)@ },
                r,
            ),
    {
        if self.poly_line_buf.len() == 0 {
            let a = self.command_data[0];
            let b = self.command_data[2];
            self.poly_line_buf.push(a);
            self.poly_line_buf.push(b);
            assert(self.poly_line_buf@ =~= seq![a, b]);
            self.pending_command_words = 1;
            let params = [self.command_data[0], self.command_data[1], self.command_data[2]];
            assert(params@ =~= old(self)@.command_data.subrange(0, 3));
            Some(GP0Command::DrawLine { params, transparent })
        } else {
            let v = self.command_data[0];
            if v == POLY_LINE_TERM {
                self.poly_line_buf.clear();
                assert(self.poly_line_buf@ =~= Seq::<u32>::empty());
                None
            } else {
                let params = [self.poly_line_buf[0], self.poly_line_buf[1], v];
                assert(params@ =~= seq![old(self)@.poly_buf[0], old(self)@.poly_buf[1], v]);
                self.poly_line_buf.set(1, v);
                assert(self.poly_line_buf@ =~= seq![old(self)@.poly_buf[0], v]);
                self.pending_command_words = 1;
                Some(GP0Command::DrawLine { params, transparent })
            }
        }
    }

    fn shaded_poly_line(&mut self, transparent: bool) -> (r: Option<GP0Command>)
        requires
            is_shaded_poly_line(old(self)@.pending_command),
            transparent == transparent_cmd(old(self)@.pending_command),
            old(self)@.poly_buf.len() == 0 ==> old(self)@.command_data.len() == 4,
            old(self)@.poly_buf.len() > 0 ==> old(self)@.command_data.len() == 1
                && (old(self)@.poly_buf.len() == 2 || old(self)@.poly_buf.len() == 3),
        ensures
            final(self)@.command_data == old(self)@.command_data,
            shaded_poly_line_result(
                GPUView { command_data: Seq::empty(), ..old(self)@ },
                old(self)@.pending_command,
                old(self)@.command_data,
                GPUView { command_data: Seq::empty(), ..final(self)@ },
                r,
            ),
    {
        if self.poly_line_buf.len() == 0 {
            let a = self.command_data[2];
            let b = self.command_data[3];
            self.poly_line_buf.push(a);
            self.poly_line_buf.push(b);
            assert(self.poly_line_buf@ =~= seq![a, b]);
            self.pending_command_words = 1;
            let params = [self.command_data[0], self.command_data[1], self.command_data[2], self.command_data[3]];
            assert(params@ =~= old(self)@.command_data.subrange(0, 4));
            Some(GP0Command::DrawShadedLine { params, transparent })
        } else if self.poly_line_buf.len() == 2 {
            let v = self.command_data[0];
            if v == POLY_LINE_TERM {
                self.poly_line_buf.clear();
                assert(self.poly_line_buf@ =~= Seq::<u32>::empty());
            } else {
                self.poly_line_buf.push(v);
                self.pending_command_words = 1;
            }
            None
        } else {
            let v = self.command_data[0];
            let params = [self.poly_line_buf[0], self.poly_line_buf[1], self.poly_line_buf[2], v];
            assert(params@ =~= seq![old(self)@.poly_buf[0], old(self)@.poly_buf[1], old(self)@.poly_buf[2], v]);
            let last = self.poly_line_buf[2];
            self.poly_line_buf.set(0, last);
            self.poly_line_buf.set(1, v);
            self.poly_line_buf.truncate(2);
            assert(self.poly_line_buf@ =~= seq![last, v]);
            self.pending_command_words = 1;
            Some(GP0Command::DrawShadedLine { params, transparent })
        }
    }

    fn blit_cpu_to_vram(&mut self) -> (r: GP0Command)
        requires
            old(self)@.pending_command == 0xA0,
            old(self)@.command_data.len() == 3,
        ensures
            final(self)@ == (GPUView {
                data_words: blit_words(old(self)@.command_data[2]),
                block_count: 0x10,
                status: dma_status((old(self)@.status & !STAT_COMMAND_READY) | STAT_DMA_RECV_READY),
                ..old(self)@
            }),
            describes(0xA0, old(self)@.command_data, r),
    {
        let size = Size::from_xy(self.command_data[2]).copy_clip();
        let words = size.word_count();
        self.data_words = words as usize;
        self.block_count = 0x10;
        self.status = update_dma((self.status & !STAT_COMMAND_READY) | STAT_DMA_RECV_READY);
        let params = [self.command_data[1], self.command_data[2]];
        assert(params@ =~= old(self)@.command_data.subrange(1, 3));
        GP0Command::BlitCPUtoVRAM { params }
    }

    fn blit_vram_to_cpu(&mut self) -> (r: GP0Command)
        requires
            old(self)@.pending_command == 0xC0,
            old(self)@.command_data.len() == 3,
        ensures
            final(self)@ == (GPUView {
                data_words: blit_words(old(self)@.command_data[2]),
                block_count: 0x10,
                status: dma_status((old(self)@.status & !STAT_COMMAND_READY) | STAT_VRAM_SEND_READY),
                ..old(self)@
            }),
            describes(0xC0, old(self)@.command_data, r),
    {
        let size = Size::from_xy(self.command_data[2]).copy_clip();
        let words = size.word_count();
        self.data_words = words as usize;
        self.block_count = 0x10;
        self.status = update_dma((self.status & !STAT_COMMAND_READY) | STAT_VRAM_SEND_READY);
        let params = [self.command_data[1], self.command_data[2]];
        assert(params@ =~= old(self)@.command_data.subrange(1, 3));
        GP0Command::BlitVRAMtoCPU { params }
    }
}

// GP1 commands: display control.
impl GPU {
    /// Write a word to the GP1 port; the commands for the renderer are returned.
    pub fn send_gp1_command(&mut self, data: u32) -> (out: Vec<RendererCmd>)
        requires
            old(self).wf(),
            gp1_accepted(data),
        ensures
            final(self).wf(),
            gp1_result(old(self)@, data, final(self)@, out@),
    {
        let command = data >> 24;
        let mut out: Vec<RendererCmd> = Vec::new();
        if command == 0x00 {
            self.reset(&mut out);
        } else if command == 0x01 {
            self.reset_command_buf();
        } else if command == 0x02 {
            self.acknowledge_irq();
        } else if command == 0x03 {
            self.display_enable(data & 1 == 0, &mut out);
        } else if command == 0x04 {
            self.data_request(data);
        } else if command == 0x05 {
            out.push(RendererCmd::DisplayVRAMOffset(data));
        } else if command == 0x06 {
            out.push(RendererCmd::DisplayXRange(data));
        } else if command == 0x07 {
            out.push(RendererCmd::DisplayYRange(data));
        } else if command == 0x08 {
            self.display_mode(data, &mut out);
        } else if command == 0x09 {
            self.tex_disable(data, &mut out);
        } else {
            self.get_gpu_info(data);
        }
        proof {
            if command == 0x05 {
                assert(out@ =~= seq![RendererCmd::DisplayVRAMOffset(data)]);
            } else if command == 0x06 {
                assert(out@ =~= seq![RendererCmd::DisplayXRange(data)]);
            } else if command == 0x07 {
                assert(out@ =~= seq![RendererCmd::DisplayYRange(data)]);
            }
        }
        out
    }

    fn reset(&mut self, out: &mut Vec<RendererCmd>)
        requires
            old(out)@.len() == 0,
        ensures
            ({
                let s1 = display_enable_status(old(self)@.status & !STAT_IRQ, false);
                let s2 = data_request_status(s1, 0);
                let s3 = display_mode_status(s2, 0);
                &&& final(self)@ == (GPUView { status: s3, timing: timing_for_mode(old(self)@.timing, s3), ..old(self)@ })
                &&& final(out)@ == seq![
                    RendererCmd::DisplayEnable(false),
                    RendererCmd::DisplayVRAMOffset(0),
                    RendererCmd::DisplayXRange(RESET_RANGE_X),
                    RendererCmd::DisplayYRange(RESET_RANGE_Y),
                    display_mode_cmd(s3),
                ]
            }),
    {
        self.reset_command_buf();
        self.acknowledge_irq();
        self.display_enable(false, out);
        self.data_request(0);
        out.push(RendererCmd::DisplayVRAMOffset(0));
        out.push(RendererCmd::DisplayXRange(RESET_RANGE_X));
        out.push(RendererCmd::DisplayYRange(RESET_RANGE_Y));
        self.display_mode(0, out);
        assert(out@ =~= seq![
            RendererCmd::DisplayEnable(false),
            RendererCmd::DisplayVRAMOffset(0),
            RendererCmd::DisplayXRange(RESET_RANGE_X),
            RendererCmd::DisplayYRange(RESET_RANGE_Y),
            display_mode_cmd(self@.status),
        ]);
    }

    /// The command buffer of the renderer is not flushed: commands are
    /// passed on as they come.
    fn reset_command_buf(&mut self)
        ensures
            final(self)@ == old(self)@,
    {
    }

    fn acknowledge_irq(&mut self)
        ensures
            final(self)@ == (GPUView { status: old(self)@.status & !STAT_IRQ, ..old(self)@ }),
    {
        self.status = self.status & !STAT_IRQ;
    }

    /// Switch the display on or off; bit 0 of the GP1 parameter is 1 for off.
    fn display_enable(&mut self, enable: bool, out: &mut Vec<RendererCmd>)
        ensures
            final(self)@ == (GPUView { status: display_enable_status(old(self)@.status, enable), ..old(self)@ }),
            final(out)@ == old(out)@.push(RendererCmd::DisplayEnable(enable)),
    {
        self.status = if enable { self.status | STAT_DISPLAY_ENABLE } else { self.status & !STAT_DISPLAY_ENABLE };
        out.push(RendererCmd::DisplayEnable(enable));
    }

    fn data_request(&mut self, param: u32)
        ensures
            final(self)@ == (GPUView { status: data_request_status(old(self)@.status, param), ..old(self)@ }),
    {
        self.status = update_dma((self.status & !STAT_DMA_MODE) | ((param & 3) << 29));
    }

    fn display_mode(&mut self, param: u32, out: &mut Vec<RendererCmd>)
        ensures
            final(self)@ == (GPUView {
                status: display_mode_status(old(self)@.status, param),
                timing: timing_for_mode(old(self)@.timing, display_mode_status(old(self)@.status, param)),
                ..old(self)@
            }),
            final(out)@ == old(out)@.push(display_mode_cmd(display_mode_status(old(self)@.status, param))),
    {
        self.status = (self.status & !STAT_DISP_MODE_FLAGS) | ((param & 0x3F) << 17) | ((param & 0x40) << 10)
            | ((param & 0x80) << 7);
        let st = GPUStatus { bits: self.status };
        let h_res = st.h_res();
        let v_res = st.v_res();
        self.state.set_h_res_ntsc(h_res);
        let interlace = self.status & STAT_INTERLACE != 0;
        self.state.set_interlace(interlace);
        let rgb24 = self.status & STAT_COLOR_DEPTH != 0;
        out.push(RendererCmd::DisplayMode { h_res, v_res, interlace, rgb24 });
    }

    fn get_gpu_info(&mut self, param: u32)
        ensures
            final(self)@ == (GPUView { read_reg: gpu_info(old(self)@, param), ..old(self)@ }),
    {
        let i = param & 7;
        self.read_reg = if i == 2 {
            self.tex_window
        } else if i == 3 {
            self.draw_area_top_left
        } else if i == 4 {
            self.draw_area_bottom_right
        } else if i == 5 {
            self.draw_offset
        } else {
            0
        };
    }

    fn tex_disable(&mut self, param: u32, out: &mut Vec<RendererCmd>)
        requires
            old(out)@.len() == 0,
        ensures
            final(self)@ == (GPUView {
                status: if param & 1 != 0 { old(self)@.status | STAT_TEX_DISABLE } else { old(self)@.status & !STAT_TEX_DISABLE },
                ..old(self)@
            }),
            final(out)@ == seq![RendererCmd::TexDisable(param & 1 != 0)],
    {
        let disable = param & 1 != 0;
        self.status = if disable { self.status | STAT_TEX_DISABLE } else { self.status & !STAT_TEX_DISABLE };
        out.push(RendererCmd::TexDisable(disable));
        assert(out@ =~= seq![RendererCmd::TexDisable(disable)]);
    }
}

/// A draw command is held back until its packet is complete: a word that
/// leaves words to come hands nothing to the renderer, and the word that
/// completes the packet hands over the command its words describe and
/// leaves the packet buffer empty.
pub proof fn lemma_packet_delivery(v: GPUView, data: u32, n: GPUView, r: Option<GP0Command>)
    requires
        gp0_result(v, data, n, r),
        v.pending_words >= 0,
        v.pending_words > 0 ==> is_plain(v.pending_command),
        v.pending_words == 0 ==> is_plain((data >> 24) as u8),
    ensures
        ({
            let cmd = if v.pending_words == 0 { (data >> 24) as u8 } else { v.pending_command };
            let left = if v.pending_words == 0 { gp0_words(cmd) } else { v.pending_words };
            if left > 1 {
                &&& r is None
                &&& n.pending_words == left - 1
                &&& n.command_data == v.command_data.push(data)
            } else {
                &&& n.pending_words == 0
                &&& n.command_data == Seq::<u32>::empty()
                &&& r matches Some(c) && describes(cmd, v.command_data.push(data), c)
            }
        }),
{
}

/// The states of a packet `k` words into it: the command and its words so
/// far are held, the rest of the GPU is as before.
proof fn lemma_packet_prefix(vs: Seq<GPUView>, ws: Seq<u32>, rs: Seq<Option<GP0Command>>, k: int)
    requires
        ws.len() >= 1,
        is_plain((ws[0] >> 24) as u8),
        ws.len() == gp0_words((ws[0] >> 24) as u8),
        vs.len() == ws.len() + 1,
        rs.len() == ws.len(),
        vs[0].pending_words == 0,
        vs[0].command_data == Seq::<u32>::empty(),
        forall|j: int| 0 <= j < ws.len() ==> gp0_result(#[trigger] vs[j], ws[j], vs[j + 1], rs[j]),
        1 <= k < ws.len(),
    ensures
        vs[k] == (GPUView {
            pending_command: (ws[0] >> 24) as u8,
            pending_words: ws.len() - k,
            command_data: ws.take(k),
            ..vs[0]
        }),
        forall|j: int| 0 <= j < k ==> rs[j] is None,
    decreases k,
{
    if k > 1 {
        lemma_packet_prefix(vs, ws, rs, k - 1);
        assert(gp0_result(vs[k - 1], ws[k - 1], vs[k], rs[k - 1]));
        assert(ws.take(k - 1).push(ws[k - 1]) =~= ws.take(k));
    } else {
        assert(gp0_result(vs[0], ws[0], vs[1], rs[0]));
        assert(Seq::<u32>::empty().push(ws[0]) =~= ws.take(1));
    }
}

/// A draw packet of `n` words, sent word by word when no packet is pending,
/// yields exactly one command: the first `n - 1` words hand nothing to the
/// renderer, the last hands over the command its words describe, and the
/// GPU is then left as it was but for the command last received, with no
/// packet pending.
pub proof fn lemma_packet_one_command(vs: Seq<GPUView>, ws: Seq<u32>, rs: Seq<Option<GP0Command>>)
    requires
        ws.len() >= 1,
        is_plain((ws[0] >> 24) as u8),
        ws.len() == gp0_words((ws[0] >> 24) as u8),
        vs.len() == ws.len() + 1,
        rs.len() == ws.len(),
        vs[0].pending_words == 0,
        vs[0].command_data == Seq::<u32>::empty(),
        forall|j: int| 0 <= j < ws.len() ==> gp0_result(#[trigger] vs[j], ws[j], vs[j + 1], rs[j]),
    ensures
        forall|j: int| 0 <= j < ws.len() - 1 ==> rs[j] is None,
        rs.last() matches Some(c) && describes((ws[0] >> 24) as u8, ws, c),
        vs.last() == (GPUView {
            pending_command: (ws[0] >> 24) as u8,
            pending_words: 0,
            command_data: Seq::<u32>::empty(),
            ..vs[0]
        }),
{
    let n = ws.len() - 1;
    assert(gp0_result(vs[n], ws[n], vs[n + 1], rs[n]));
    if n > 0 {
        lemma_packet_prefix(vs, ws, rs, n);
        assert(ws.take(n).push(ws[n]) =~= ws);
    } else {
        assert(Seq::<u32>::empty().push(ws[0]) =~= ws);
    }
}

} // verus!
