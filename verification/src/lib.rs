//! A verified core of a MOS 6502 interpreter.
//!
//! The crate models a flat 64 KiB memory and the 6502 register file, decodes
//! the 151 official opcode bytes into instruction descriptors, resolves the
//! thirteen addressing modes, executes one instruction per step with exact
//! flag and cycle accounting, and renders a byte-exact trace line per
//! retired instruction.

pub mod cpu;
pub mod flags;
pub mod instruction;
pub mod laws;
pub mod trace;
pub mod utils;
