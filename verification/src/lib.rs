//! A PlayStation (PSX) emulator core: memory-mapped devices, the geometry
//! transformation engine, the motion decoder, sound units and the GPU,
//! each written as a verified state machine.

pub mod utils;
pub mod interrupt;
pub mod gte;
pub mod mem;
pub mod expansion;
pub mod serial;
pub mod gpu;
pub mod timer;
pub mod peripheral;
pub mod spu;
pub mod cpu;
pub mod cdrom;
pub mod mdec;

use vstd::prelude::*;

verus! {

/// Information for frame: a BGRA image of `size.0` by `size.1` pixels.
pub struct Frame {
    pub frame_buffer: Vec<u8>,
    pub size: (usize, usize),
}

impl Frame {
    pub fn new() -> (r: Self)
        ensures
            r.frame_buffer@.len() == 0,
            r.size == (0usize, 0usize),
    {
        Self { frame_buffer: Vec::new(), size: (0, 0) }
    }

    /// Change the frame size. The buffer is cleared to zero when the size changes.
    pub fn resize(&mut self, size: (usize, usize))
        requires
            size.0 * size.1 * 4 <= usize::MAX,
        ensures
            size == old(self).size ==> *final(self) == *old(self),
            size != old(self).size ==> final(self).size == size
                && final(self).frame_buffer@ == Seq::new((size.0 * size.1 * 4) as nat, |i: int| 0u8),
    {
        if size.0 != self.size.0 || size.1 != self.size.1 {
            self.size = size;
            let len = size.0 * size.1 * 4;
            let mut buf: Vec<u8> = Vec::new();
            let mut i: usize = 0;
            while i < len
                invariant
                    i <= len,
                    buf@ == Seq::new(i as nat, |j: int| 0u8),
                decreases len - i,
            {
                buf.push(0);
                i = i + 1;
                assert(buf@ =~= Seq::new(i as nat, |j: int| 0u8));
            }
            self.frame_buffer = buf;
        }
    }
}

/// The type of controller being connected.
/// Certain (typically older) games do not support Analog controllers,
/// while certain newer games do not support Digital controllers.
#[derive(Clone, Copy, Debug, PartialEq, Eq, Structural)]
pub enum ControllerType {
    Digital,
    Analog,
}

/// The port of controller or memory card.
#[derive(Clone, Copy, Debug, PartialEq, Eq, Structural)]
pub enum Port {
    One,
    Two,
}

/// Controller analog stick side and axis.
#[derive(Clone, Copy, Debug, PartialEq, Eq, Structural)]
pub enum AnalogStickAxis {
    LeftX,
    LeftY,
    RightX,
    RightY,
}

/// Controller buttons.
#[derive(Clone, Copy, Debug, PartialEq, Eq, Structural)]
pub enum Button {
    Select,
    /// Only available on analog controllers
    L3,
    /// Only available on analog controllers
    R3,
    Start,
    DUp,
    DRight,
    DDown,
    DLeft,
    L2,
    R2,
    L1,
    R1,
    Triangle,
    Circle,
    Cross,
    Square,
}

} // verus!
