//! The memory map: regions, cells and the mirror.

use vstd::prelude::*;
use crate::cpu::inner::register::{high};
use crate::cpu::inner::{Fault};
use crate::cpu::machine::{region_of, Machine, Region};

verus! {

/// The memory cell behind an address, if the address is backed by memory or by one of
/// the two interrupt registers: an address in the mirror names the cell of working RAM
/// that it mirrors.
pub open spec fn cell(addr: u16) -> Option<u16> {
    match region_of(addr) {
        Region::WorkRam | Region::HighRam | Region::InterruptFlags | Region::InterruptEnable => Some(
            addr,
        ),
        Region::EchoRam => Some((addr - 0x2000) as u16),
        _ => None,
    }
}

/// Every address has one region, and the regions are the ranges of the memory map.
pub proof fn law_memory_map(addr: u16)
    ensures
        region_of(addr) is Cartridge <==> addr <= 0x9fff,
        region_of(addr) is CartridgeRam <==> 0xa000 <= addr <= 0xbfff,
        region_of(addr) is WorkRam <==> 0xc000 <= addr <= 0xdfff,
        region_of(addr) is EchoRam <==> 0xe000 <= addr <= 0xfdff,
        region_of(addr) is Joypad <==> addr == 0xff00,
        region_of(addr) is Serial <==> 0xff01 <= addr <= 0xff02,
        region_of(addr) is Timer <==> 0xff04 <= addr <= 0xff07,
        region_of(addr) is InterruptFlags <==> addr == 0xff0f,
        region_of(addr) is Audio <==> 0xff10 <= addr <= 0xff3f,
        region_of(addr) is Lcd <==> 0xff40 <= addr <= 0xff45 || 0xff47 <= addr <= 0xff4b || addr
            == 0xff4f || 0xff68 <= addr <= 0xff69,
        region_of(addr) is Dma <==> addr == 0xff46,
        region_of(addr) is SpeedSwitch <==> addr == 0xff4d,
        region_of(addr) is WramBank <==> addr == 0xff70,
        region_of(addr) is Tolerated <==> addr == 0xff7f,
        region_of(addr) is HighRam <==> 0xff80 <= addr <= 0xfffe,
        region_of(addr) is InterruptEnable <==> addr == 0xffff,
        region_of(addr) is Undefined <==> 0xfe00 <= addr <= 0xfeff || addr == 0xff03 || 0xff08
            <= addr <= 0xff0e || addr == 0xff4c || addr == 0xff4e || 0xff50 <= addr <= 0xff67
            || 0xff6a <= addr <= 0xff6f || 0xff71 <= addr <= 0xff7e,
{
}

/// A read changes nothing and succeeds exactly at the addresses that have a cell and at
/// the speed switch; elsewhere it reports the address.
pub proof fn law_read_faults(m: Machine, addr: u16)
    ensures
        m.read_mem(addr) is Ok <==> cell(addr) is Some || region_of(addr) is SpeedSwitch,
        m.read_mem(addr) is Err ==> m.read_mem(addr) == Err::<u8, Fault>(
            if region_of(addr) is Undefined || region_of(addr) is Tolerated {
                Fault::OutOfRange(addr)
            } else {
                Fault::Unimplemented(addr)
            },
        ),
{
    reveal(Machine::read_mem);
    reveal(Machine::write_mem);
}

/// What a read gives depends on the two memories and the two interrupt registers only.
pub proof fn law_read_frame(m: Machine, n: Machine, addr: u16)
    requires
        m.ram == n.ram,
        m.hram == n.hram,
        m.int_flags == n.int_flags,
        m.int_enable == n.int_enable,
    ensures
        m.read_mem(addr) == n.read_mem(addr),
{
    reveal(Machine::read_mem);
}

/// Memory never reports a bad operand.
pub proof fn law_memory_faults(m: Machine, addr: u16, val: u8)
    ensures
        m.read_mem(addr) != Err::<u8, Fault>(Fault::BadOperand),
        m.write_mem(addr, val).1 != Err::<(), Fault>(Fault::BadOperand),
{
    reveal(Machine::read_mem);
    reveal(Machine::write_mem);
}

/// A write keeps both memories at their size.
pub proof fn law_write_keeps_wf(m: Machine, addr: u16, val: u8)
    requires
        m.wf(),
    ensures
        m.write_mem(addr, val).0.wf(),
{
    reveal(Machine::read_mem);
    reveal(Machine::write_mem);
}

/// After a write to a cell, a read of any address gives the byte written if the address
/// names that cell, and what it gave before if not.
pub proof fn law_write_then_read(m: Machine, addr: u16, val: u8, other: u16)
    requires
        m.wf(),
        cell(addr) is Some,
    ensures
        m.write_mem(addr, val).1 is Ok,
        m.write_mem(addr, val).0.read_mem(other) == if cell(other) == cell(addr) {
            Ok::<u8, Fault>(val)
        } else {
            m.read_mem(other)
        },
{
    reveal(Machine::read_mem);
    reveal(Machine::write_mem);
}

/// A write that is refused or ignored leaves every read as it was.
pub proof fn law_write_without_cell(m: Machine, addr: u16, val: u8, other: u16)
    requires
        cell(addr) is None,
    ensures
        m.write_mem(addr, val).0.read_mem(other) == m.read_mem(other),
        m.write_mem(addr, val).1 is Ok <==> region_of(addr) is SpeedSwitch || region_of(addr) is Tolerated,
{
    reveal(Machine::read_mem);
    reveal(Machine::write_mem);
}

/// The mirror: a byte written to working RAM from 0xC000 to 0xDDFF is read 0x2000 higher,
/// and a byte written there is read from working RAM.
pub proof fn law_echo_round_trip(m: Machine, addr: u16, val: u8)
    requires
        m.wf(),
        0xc000 <= addr <= 0xddff,
    ensures
        m.write_mem(addr, val).0.read_mem((addr + 0x2000) as u16) == Ok::<u8, Fault>(val),
        m.write_mem((addr + 0x2000) as u16, val).0.read_mem(addr) == Ok::<u8, Fault>(val),
        m.write_mem((addr + 0x2000) as u16, val) == m.write_mem(addr, val),
        m.read_mem((addr + 0x2000) as u16) == m.read_mem(addr),
{
    reveal(Machine::read_mem);
    reveal(Machine::write_mem);
}

/// High RAM reaches from 0xFF80 to 0xFFFE. A write to 0xFFFF goes to the
/// interrupt-enable register and leaves high RAM, like all else, as it was.
pub proof fn law_high_ram_boundary(m: Machine, addr: u16, val: u8)
    requires
        m.wf(),
    ensures
        0xff80 <= addr <= 0xfffe ==> m.write_mem(addr, val) == (
            Machine { hram: m.hram.update(addr - 0xff80, val), ..m },
            Ok::<(), Fault>(()),
        ) && m.write_mem(addr, val).0.read_mem(addr) == Ok::<u8, Fault>(val),
        m.write_mem(0xffff, val) == (Machine { int_enable: val, ..m }, Ok::<(), Fault>(())),
        m.write_mem(0xffff, val).0.hram == m.hram,
{
    reveal(Machine::read_mem);
    reveal(Machine::write_mem);
}

} // verus!
