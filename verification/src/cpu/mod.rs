//! The processor's own state: the system control coprocessor and a
//! snapshot of the registers.

pub mod cop0;

use vstd::prelude::*;

verus! {

/// The registers of the processor at one moment.
pub struct CPUState {
    pub regs: [u32; 32],
    pub hi: u32,
    pub lo: u32,
    pub pc: u32,
}

} // verus!
