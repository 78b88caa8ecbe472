//! The parts that the processor is made of: flags, registers, the decoder and the bus.

use vstd::prelude::*;

pub mod flag_register;
pub mod instructions;
pub mod memory_bus;
pub mod register;

pub use flag_register::{Flag, Flagd, Flags};
pub use instructions::Instruction;
pub use memory_bus::{Busd, MemoryBus};
pub use register::{Operand, Register, Register16, Register8};

verus! {

/// How an instruction ran, as far as its cost is concerned.
#[derive(Clone, Copy, Debug, PartialEq, Eq, Structural)]
pub enum Timing {
    /// The instruction took its ordinary path.
    Default,
    /// A control transfer whose condition held was taken.
    Flag,
    /// An instruction of the extended table, with its cost in machine cycles.
    Cb(u32),
}

/// Why the machine cannot go on.
#[derive(Clone, Copy, Debug, PartialEq, Eq, Structural)]
pub enum Fault {
    /// The address belongs to a part of the system that is not built in: cartridge, video,
    /// sound, timer, serial port or joypad.
    Unimplemented(u16),
    /// The address lies in no region of the memory map.
    OutOfRange(u16),
    /// The byte is assigned to no instruction.
    InvalidOpcode(u8),
    /// The lowest enabled and pending interrupt bit belongs to no interrupt source.
    InvalidInterrupt(u8),
    /// An operand was used at a width, or in a direction, that it does not have.
    BadOperand,
}

} // verus!
