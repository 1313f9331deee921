//! A 6502 emulator core: registers, 64 KiB of memory, the instruction set,
//! and a lexer for ca65-style assembly source.
use vstd::prelude::*;

pub mod char_utils;
pub mod cpu;
pub mod decode;
pub mod describe;
pub mod general_register;
pub mod instruction_laws;
pub mod laws;
pub mod lexer;
pub mod memory;
pub mod model;
pub mod ops;
pub mod named_flags;
pub mod program_counter;
pub mod read_ops;
pub mod repl;
pub mod semantics;
pub mod stack_pointer;
pub mod status_register;
pub mod token;
pub mod write_ops;

verus! {

/// Where program execution starts unless another block is chosen. This is
/// what the NES uses.
pub const STARTING_MEMORY_BLOCK: u16 = 0x8000;

} // verus!
