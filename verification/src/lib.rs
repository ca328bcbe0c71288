//! Game Boy (DMG) emulator core: an instruction-accurate SM83 CPU,
//! a memory bus with timer and interrupt registers, and MBC0/MBC1
//! cartridge banking, with machine-checked contracts.

use vstd::prelude::*;

pub mod alu;
pub mod bits;
pub mod cartridge;
pub mod disasm;
pub mod gameboy;
pub mod laws;
pub mod mbc;
pub mod globals;
pub mod opcodes;
pub mod opcodes_cb;
pub mod utils;

pub use utils::format_binary;

verus! {

/// Errors the emulator core can report.
#[derive(Clone, Copy, Debug, PartialEq, Eq, Structural)]
pub enum GbError {
    /// An opcode outside the SM83 instruction set was fetched.
    IllegalOpcode,
    /// PC and SP did not move over a non-halted instruction.
    Stuck,
    /// The header declares a RAM size code that does not exist.
    InvalidRamSize,
    /// The header's ROM size code disagrees with the image length.
    RomSizeMismatch,
    /// The header checksum does not match the header bytes.
    ChecksumMismatch,
    /// The cartridge type byte names a mapper this core does not emulate.
    UnsupportedCartType,
}

} // verus!
