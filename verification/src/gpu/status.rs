use vstd::prelude::*;

verus! {

/// State of interlace.
#[derive(Clone, Copy, Debug, PartialEq, Eq, Structural)]
pub enum InterlaceState {
    /// Not drawing in interlace mode.
    Off,
    Even,
    Odd,
}

impl InterlaceState {
    /// The field after a frame: odd and even alternate, off stays off.
    pub open spec fn toggled(self) -> InterlaceState {
        match self {
            InterlaceState::Off => InterlaceState::Off,
            InterlaceState::Even => InterlaceState::Odd,
            InterlaceState::Odd => InterlaceState::Even,
        }
    }

    pub fn toggle(self) -> (r: Self)
        ensures
            r == self.toggled(),
    {
        match self {
            InterlaceState::Off => InterlaceState::Off,
            InterlaceState::Even => InterlaceState::Odd,
            InterlaceState::Odd => InterlaceState::Even,
        }
    }
}

/// Toggling the interlace field twice gives it back.
pub proof fn lemma_toggle_twice(s: InterlaceState)
    ensures
        s.toggled().toggled() == s,
{
}

// GPU status register bits.
pub const STAT_INTERLACE_ODD: u32 = 0x8000_0000;
pub const STAT_DMA_MODE: u32 = 0x6000_0000;
pub const STAT_DMA_RECV_READY: u32 = 0x1000_0000;
pub const STAT_VRAM_SEND_READY: u32 = 0x0800_0000;
pub const STAT_COMMAND_READY: u32 = 0x0400_0000;
pub const STAT_DMA_REQUEST: u32 = 0x0200_0000;
pub const STAT_IRQ: u32 = 0x0100_0000;
pub const STAT_DISPLAY_ENABLE: u32 = 0x0080_0000;
pub const STAT_INTERLACE: u32 = 0x0040_0000;
pub const STAT_COLOR_DEPTH: u32 = 0x0020_0000;
pub const STAT_PAL_MODE: u32 = 0x0010_0000;
pub const STAT_Y_RESOLUTION: u32 = 0x0008_0000;
pub const STAT_X_RESOLUTION: u32 = 0x0007_0000;
pub const STAT_TEX_DISABLE: u32 = 0x0000_8000;
pub const STAT_REVERSE: u32 = 0x0000_4000;
pub const STAT_INTERLACE_FIELD: u32 = 0x0000_2000;
pub const STAT_MASK_DRAWING: u32 = 0x0000_1000;
pub const STAT_SET_DRAW_MASK: u32 = 0x0000_0800;
pub const STAT_DRAW_DISPLAY: u32 = 0x0000_0400;
pub const STAT_DITHER: u32 = 0x0000_0200;
pub const STAT_TEX_PAGE_COL: u32 = 0x0000_0180;
pub const STAT_SEMI_TRANS: u32 = 0x0000_0060;
pub const STAT_TEX_PAGE_Y_BASE: u32 = 0x0000_0010;
pub const STAT_TEX_PAGE_X_BASE: u32 = 0x0000_000F;
/// The display mode bits.
pub const STAT_DISP_MODE_FLAGS: u32 = 0x007F_4000;
/// The drawing mode bits.
pub const STAT_DRAW_MODE_FLAGS: u32 = 0x0000_87FF;

/// The GPU status register.
#[derive(Clone, Copy, Debug)]
pub struct GPUStatus {
    pub bits: u32,
}

/// The horizontal resolution selected by the X resolution field (bits 16-18).
pub open spec fn h_res_of(bits: u32) -> usize {
    let x = (bits & STAT_X_RESOLUTION) >> 16;
    if x == 0 { 256 } else if x == 2 { 320 } else if x == 4 { 512 } else if x == 6 { 640 } else { 368 }
}

/// The vertical resolution: 480 when both the Y resolution and interlace bits are set.
pub open spec fn v_res_of(bits: u32) -> usize {
    if bits & (STAT_Y_RESOLUTION | STAT_INTERLACE) == (STAT_Y_RESOLUTION | STAT_INTERLACE) { 480 } else { 240 }
}

impl GPUStatus {
    pub fn h_res(&self) -> (r: usize)
        ensures
            r == h_res_of(self.bits),
    {
        let x = (self.bits & STAT_X_RESOLUTION) >> 16;
        if x == 0 {
            256
        } else if x == 2 {
            320
        } else if x == 4 {
            512
        } else if x == 6 {
            640
        } else {
            368
        }
    }

    pub fn v_res(&self) -> (r: usize)
        ensures
            r == v_res_of(self.bits),
    {
        let interlace_bits = STAT_Y_RESOLUTION | STAT_INTERLACE;
        if self.bits & interlace_bits == interlace_bits {
            480
        } else {
            240
        }
    }
}

} // verus!
