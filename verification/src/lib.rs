//! An emulator of the LR35902, the processor of a hand-held game console: the reader of
//! the cartridge header, the processor with its registers, flags and memory map, the
//! decoder of its two opcode tables and the engine that runs the decoded instructions.
//!
//! Every executable function carries a contract over [`cpu::machine::Machine`], the
//! state of the processor as a mathematical value, and [`cpu::laws`] states what follows
//! from the contracts.

pub mod cart;
pub mod cpu;
pub mod io;
