//! Instruction-processing core of a 6502-family CPU, with cycle-accurate
//! coupling between bus accesses and the clock.
use vstd::prelude::*;

pub mod addressing_mode;
pub mod bus;
pub mod cpu;
pub mod executor;
pub mod instruction;
pub mod laws;
pub mod nes;
pub mod rom;
pub mod status;

verus! {

/// The emulator: the entry points that drive the machine.
pub struct Emu {}

impl Emu {
    /// Runs the machine for one video frame; nothing but the CPU exists yet,
    /// so there is nothing to run.
    pub fn run_frame() {
    }
}

} // verus!
