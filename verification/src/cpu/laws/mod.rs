//! What holds of the machine whatever its state: the agreement of register pairs with
//! their halves, the memory map and its mirror, the flags of additions and comparisons,
//! decimal adjustment, the stack, the dispatch of interrupts, and the agreement of the
//! decoder with the engine.

pub mod arithmetic;
pub mod decoder;
pub mod interrupts;
pub mod sizes;
pub mod memory;
pub mod registers;
pub mod stack;
