//! Instruction-execution core of an 8-bit handheld game console.
//!
//! The crate models the machine as a register file, a flat 64KB memory bus,
//! per-opcode length/cycle tables over a base and an extended (prefixed)
//! opcode space, and a decode-execute dispatcher driven one instruction at a
//! time through [`cpu::CPU::cycle`].  Hosts populate memory through the bus,
//! then repeatedly step the CPU; video, audio and input live outside.

use vstd::prelude::*;

pub mod alu;
pub mod cpu;
pub mod mmu;
pub mod model;
pub mod tables;

verus! {

/// A failure surfaced by the core instead of continuing in an undefined
/// state.  Both kinds are deterministic: the same registers and memory
/// reproduce the same failure, so there is nothing to retry.
#[derive(Clone, Copy, Debug, PartialEq, Eq, Structural)]
pub enum Failure {
    /// An opcode with no table entry in either opcode space was fetched.
    /// Skipping it would desynchronize the program counter and the flags,
    /// so execution of this machine instance cannot continue.
    UnimplementedOpcode { opcode: u8, address: u16 },
    /// A memory access outside the 64KB address space was attempted.  Only
    /// the attempted access fails; the machine state is left unchanged.
    OutOfRangeAddress { address: usize },
}

} // verus!
