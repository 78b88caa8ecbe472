//! The address space as one flat memory.

use vstd::prelude::*;

verus! {

/// Bytes on the bus: one for each 16-bit address.
pub const BUS_SIZE: usize = 65536;

/// The whole address space as one flat array.
pub type MemoryBus = [u8; BUS_SIZE];

/// A flat memory that is read by address.
pub trait Busd: Sized {
    /// The bytes on the bus, by address.
    spec fn bytes(&self) -> Seq<u8>;

    /// Reads the byte at `address`.
    fn read_byte(&self, address: u16) -> (r: u8)
        requires
            address < self.bytes().len(),
        ensures
            r == self.bytes()[address as int],
    ;

    /// A bus with a zero byte at every address.
    fn new() -> (r: Self)
        ensures
            r.bytes() == Seq::new(BUS_SIZE as nat, |i: int| 0u8),
    ;
}

impl Busd for MemoryBus {
    open spec fn bytes(&self) -> Seq<u8> {
        self@
    }

    fn read_byte(&self, address: u16) -> (r: u8) {
        self[address as usize]
    }

    fn new() -> (r: Self) {
        let bus = [0u8; BUS_SIZE];
        assert(bus@ =~= Seq::new(BUS_SIZE as nat, |i: int| 0u8));
        bus
    }
}

} // verus!
