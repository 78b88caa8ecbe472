//! The state of the machine as a mathematical value, with its memory map and its
//! accesses to registers, operands and the stack.

use vstd::prelude::*;
use crate::cpu::inner::register::{high, low, pair};
use crate::cpu::inner::{Fault, Flags, Operand, Register16, Register8};

verus! {

/// Bytes of working RAM.
pub const RAM_SIZE: usize = 1024 * 32;

/// Bytes of high RAM, 0xFF80 to 0xFFFE.
pub const VRAM_SIZE: usize = 0x7F;

/// The rule that the memory map has for an address.
#[derive(Clone, Copy, Debug, PartialEq, Eq, Structural)]
pub enum Region {
    /// 0x0000 to 0x9FFF: cartridge ROM and video RAM. Not built in.
    Cartridge,
    /// 0xA000 to 0xBFFF: cartridge RAM. Not built in.
    CartridgeRam,
    /// 0xC000 to 0xDFFF: working RAM.
    WorkRam,
    /// 0xE000 to 0xFDFF: the mirror of working RAM from 0xC000 to 0xDDFF.
    EchoRam,
    /// 0xFF00: joypad. Not built in.
    Joypad,
    /// 0xFF01 and 0xFF02: serial port. Not built in.
    Serial,
    /// 0xFF04 to 0xFF07: timer. Not built in.
    Timer,
    /// 0xFF0F: the interrupt-flags register.
    InterruptFlags,
    /// 0xFF10 to 0xFF3F: sound. Not built in.
    Audio,
    /// 0xFF40 to 0xFF45, 0xFF47 to 0xFF4B, 0xFF4F, 0xFF68 and 0xFF69: display. Not built in.
    Lcd,
    /// 0xFF46: the trigger of a sprite-memory transfer. A write is recorded; the transfer is
    /// not built in.
    Dma,
    /// 0xFF4D: the speed switch. Reads as zero, ignores writes.
    SpeedSwitch,
    /// 0xFF70: the working-RAM bank select. A write is recorded; switching is not built in.
    WramBank,
    /// 0xFF7F: maps to nothing, yet some cartridges write to it. Writes are ignored.
    Tolerated,
    /// 0xFF80 to 0xFFFE: high RAM.
    HighRam,
    /// 0xFFFF: the interrupt-enable register.
    InterruptEnable,
    /// Any other address.
    Undefined,
}

/// The region of each address. Every address has exactly one.
pub open spec fn region_of(addr: u16) -> Region {
    if addr <= 0x9fff {
        Region::Cartridge
    } else if addr <= 0xbfff {
        Region::CartridgeRam
    } else if addr <= 0xdfff {
        Region::WorkRam
    } else if addr <= 0xfdff {
        Region::EchoRam
    } else if addr == 0xff00 {
        Region::Joypad
    } else if 0xff01 <= addr <= 0xff02 {
        Region::Serial
    } else if 0xff04 <= addr <= 0xff07 {
        Region::Timer
    } else if addr == 0xff0f {
        Region::InterruptFlags
    } else if 0xff10 <= addr <= 0xff3f {
        Region::Audio
    } else if addr == 0xff46 {
        Region::Dma
    } else if 0xff40 <= addr <= 0xff4b || addr == 0xff4f || 0xff68 <= addr <= 0xff69 {
        Region::Lcd
    } else if addr == 0xff4d {
        Region::SpeedSwitch
    } else if addr == 0xff70 {
        Region::WramBank
    } else if addr == 0xff7f {
        Region::Tolerated
    } else if 0xff80 <= addr <= 0xfffe {
        Region::HighRam
    } else if addr == 0xffff {
        Region::InterruptEnable
    } else {
        Region::Undefined
    }
}

impl Region {
    /// Whether the region belongs to a part of the system that is not built in.
    pub open spec fn is_collaborator(self) -> bool {
        self is Cartridge || self is CartridgeRam || self is Joypad || self is Serial
            || self is Timer || self is Audio || self is Lcd
    }
}

/// The state of the machine, as the contracts speak of it.
pub struct Machine {
    pub a: u8,
    pub flags: Flags,
    pub b: u8,
    pub c: u8,
    pub d: u8,
    pub e: u8,
    pub h: u8,
    pub l: u8,
    pub pc: u16,
    pub sp: u16,
    pub halted: bool,
    pub ime: bool,
    pub int_enable: u8,
    pub int_flags: u8,
    pub svbk: u8,
    pub ppu_dma: u8,
    pub ram: Seq<u8>,
    pub hram: Seq<u8>,
}

impl Machine {
    /// Both memories have their size.
    pub open spec fn wf(self) -> bool {
        self.ram.len() == RAM_SIZE && self.hram.len() == VRAM_SIZE
    }

    /// The machine after reset: the registers at their power-on values, nothing halted,
    /// enabled or pending, all memory zero.
    pub open spec fn initial() -> Machine {
        Machine {
            a: 0x11,
            flags: Flags { zero: false, subtract: false, half_carry: false, carry: false },
            b: 0x00,
            c: 0x00,
            d: 0xff,
            e: 0x56,
            h: 0x00,
            l: 0x0d,
            pc: 0,
            sp: 0,
            halted: false,
            ime: false,
            int_enable: 0,
            int_flags: 0,
            svbk: 0,
            ppu_dma: 0,
            ram: Seq::new(RAM_SIZE as nat, |i: int| 0u8),
            hram: Seq::new(VRAM_SIZE as nat, |i: int| 0u8),
        }
    }

    /// What a read of `addr` gives.
    #[verifier::opaque]
    pub open spec fn read_mem(self, addr: u16) -> Result<u8, Fault> {
        match region_of(addr) {
            Region::WorkRam => Ok(self.ram[addr - 0xc000]),
            Region::EchoRam => Ok(self.ram[addr - 0xe000]),
            Region::InterruptFlags => Ok(self.int_flags),
            Region::SpeedSwitch => Ok(0u8),
            Region::HighRam => Ok(self.hram[addr - 0xff80]),
            Region::InterruptEnable => Ok(self.int_enable),
            Region::Tolerated | Region::Undefined => Err(Fault::OutOfRange(addr)),
            _ => Err(Fault::Unimplemented(addr)),
        }
    }

    /// The machine after a write of `val` to `addr`, and whether the write was carried out.
    #[verifier::opaque]
    pub open spec fn write_mem(self, addr: u16, val: u8) -> (Machine, Result<(), Fault>) {
        match region_of(addr) {
            Region::WorkRam => (Machine { ram: self.ram.update(addr - 0xc000, val), ..self }, Ok(())),
            Region::EchoRam => (Machine { ram: self.ram.update(addr - 0xe000, val), ..self }, Ok(())),
            Region::InterruptFlags => (Machine { int_flags: val, ..self }, Ok(())),
            Region::Dma => (Machine { ppu_dma: val, ..self }, Err(Fault::Unimplemented(addr))),
            Region::SpeedSwitch | Region::Tolerated => (self, Ok(())),
            Region::WramBank => (
                Machine { svbk: (val % 8) as u8, ..self },
                Err(Fault::Unimplemented(addr)),
            ),
            Region::HighRam => (Machine { hram: self.hram.update(addr - 0xff80, val), ..self }, Ok(())),
            Region::InterruptEnable => (Machine { int_enable: val, ..self }, Ok(())),
            Region::Undefined => (self, Err(Fault::OutOfRange(addr))),
            _ => (self, Err(Fault::Unimplemented(addr))),
        }
    }

    /// Fetches the byte at the program counter, which then moves on by one.
    pub open spec fn d8(self) -> (Machine, Result<u8, Fault>) {
        match self.read_mem(self.pc) {
            Ok(v) => (Machine { pc: self.pc.wrapping_add(1), ..self }, Ok(v)),
            Err(e) => (self, Err(e)),
        }
    }

    /// Fetches the word at the program counter, low byte first.
    pub open spec fn d16(self) -> (Machine, Result<u16, Fault>) {
        let (m1, lo) = self.d8();
        match lo {
            Ok(lo) => {
                let (m2, hi) = m1.d8();
                match hi {
                    Ok(hi) => (m2, Ok(pair(hi, lo))),
                    Err(e) => (m2, Err(e)),
                }
            },
            Err(e) => (m1, Err(e)),
        }
    }

    /// Reads an 8-bit selector.
    pub open spec fn read8(self, r: Register8) -> (Machine, Result<u8, Fault>) {
        match r {
            Register8::D8 => self.d8(),
            Register8::A => (self, Ok(self.a)),
            Register8::F => (self, Ok(self.flags.byte())),
            Register8::B => (self, Ok(self.b)),
            Register8::C => (self, Ok(self.c)),
            Register8::D => (self, Ok(self.d)),
            Register8::E => (self, Ok(self.e)),
            Register8::H => (self, Ok(self.h)),
            Register8::L => (self, Ok(self.l)),
        }
    }

    /// Writes an 8-bit selector. An immediate cannot be written; of a byte written to F
    /// only the four status bits are kept.
    pub open spec fn write8(self, r: Register8, v: u8) -> (Machine, Result<(), Fault>) {
        match r {
            Register8::D8 => (self, Err(Fault::BadOperand)),
            Register8::A => (Machine { a: v, ..self }, Ok(())),
            Register8::F => (Machine { flags: Flags::of_byte(v), ..self }, Ok(())),
            Register8::B => (Machine { b: v, ..self }, Ok(())),
            Register8::C => (Machine { c: v, ..self }, Ok(())),
            Register8::D => (Machine { d: v, ..self }, Ok(())),
            Register8::E => (Machine { e: v, ..self }, Ok(())),
            Register8::H => (Machine { h: v, ..self }, Ok(())),
            Register8::L => (Machine { l: v, ..self }, Ok(())),
        }
    }

    /// Reads a 16-bit selector. A pair is its two registers, the first one high.
    pub open spec fn read16(self, r: Register16) -> (Machine, Result<u16, Fault>) {
        match r {
            Register16::D16 => self.d16(),
            Register16::HL | Register16::HLi | Register16::HLd => (self, Ok(pair(self.h, self.l))),
            Register16::AF => (self, Ok(pair(self.a, self.flags.byte()))),
            Register16::BC => (self, Ok(pair(self.b, self.c))),
            Register16::DE => (self, Ok(pair(self.d, self.e))),
            Register16::SP => (self, Ok(self.sp)),
        }
    }

    /// Writes a 16-bit selector. A pair takes the high byte in its first register and the
    /// low byte in its second. An immediate cannot be written.
    pub open spec fn write16(self, r: Register16, v: u16) -> (Machine, Result<(), Fault>) {
        match r {
            Register16::D16 => (self, Err(Fault::BadOperand)),
            Register16::HL | Register16::HLi | Register16::HLd => (
                Machine { h: high(v), l: low(v), ..self },
                Ok(()),
            ),
            Register16::AF => (Machine { a: high(v), flags: Flags::of_byte(low(v)), ..self }, Ok(())),
            Register16::BC => (Machine { b: high(v), c: low(v), ..self }, Ok(())),
            Register16::DE => (Machine { d: high(v), e: low(v), ..self }, Ok(())),
            Register16::SP => (Machine { sp: v, ..self }, Ok(())),
        }
    }

    /// The address that an indirect operand names: the value of a 16-bit selector for
    /// `Mem`, 0xFF00 plus the value of an 8-bit selector for `ZMem`.
    pub open spec fn address(self, op: Operand) -> (Machine, Result<u16, Fault>) {
        match op {
            Operand::Reg(_) => (self, Err(Fault::BadOperand)),
            Operand::Mem(r) => match r.wide() {
                Some(r16) => self.read16(r16),
                None => (self, Err(Fault::BadOperand)),
            },
            Operand::ZMem(r) => match r.narrow() {
                Some(r8) => {
                    let (m, v) = self.read8(r8);
                    match v {
                        Ok(v) => (m, Ok((0xff00 + v) as u16)),
                        Err(e) => (m, Err(e)),
                    }
                },
                None => (self, Err(Fault::BadOperand)),
            },
        }
    }

    /// Reads an operand as a byte.
    #[verifier::opaque]
    pub open spec fn load8(self, op: Operand) -> (Machine, Result<u8, Fault>) {
        match op {
            Operand::Reg(r) => match r.narrow() {
                Some(r8) => self.read8(r8),
                None => (self, Err(Fault::BadOperand)),
            },
            _ => {
                let (m, addr) = self.address(op);
                match addr {
                    Ok(addr) => (m, m.read_mem(addr)),
                    Err(e) => (m, Err(e)),
                }
            },
        }
    }

    /// Writes a byte to an operand.
    #[verifier::opaque]
    pub open spec fn store8(self, op: Operand, v: u8) -> (Machine, Result<(), Fault>) {
        match op {
            Operand::Reg(r) => match r.narrow() {
                Some(r8) => self.write8(r8, v),
                None => (self, Err(Fault::BadOperand)),
            },
            _ => {
                let (m, addr) = self.address(op);
                match addr {
                    Ok(addr) => m.write_mem(addr, v),
                    Err(e) => (m, Err(e)),
                }
            },
        }
    }

    /// Reads an operand as a word. Only registers are read so.
    #[verifier::opaque]
    pub open spec fn load16(self, op: Operand) -> (Machine, Result<u16, Fault>) {
        match op {
            Operand::Reg(r) => match r.wide() {
                Some(r16) => self.read16(r16),
                None => (self, Err(Fault::BadOperand)),
            },
            _ => (self, Err(Fault::BadOperand)),
        }
    }

    /// Writes a word to an operand: to a register, or to memory with the low byte at the
    /// address and the high byte at the next one.
    #[verifier::opaque]
    pub open spec fn store16(self, op: Operand, v: u16) -> (Machine, Result<(), Fault>) {
        match op {
            Operand::Reg(r) => match r.wide() {
                Some(r16) => self.write16(r16, v),
                None => (self, Err(Fault::BadOperand)),
            },
            Operand::Mem(_) => {
                let (m, addr) = self.address(op);
                match addr {
                    Ok(addr) => {
                        let (m1, w) = m.write_mem(addr, low(v));
                        match w {
                            Ok(_) => m1.write_mem(addr.wrapping_add(1), high(v)),
                            Err(e) => (m1, Err(e)),
                        }
                    },
                    Err(e) => (m, Err(e)),
                }
            },
            Operand::ZMem(_) => (self, Err(Fault::BadOperand)),
        }
    }

    /// Pushes a byte: the stack pointer goes down by one, the byte goes where it then points.
    pub open spec fn push_u8(self, v: u8) -> (Machine, Result<(), Fault>) {
        let sp = self.sp.wrapping_sub(1);
        let (m, w) = self.write_mem(sp, v);
        match w {
            Ok(_) => (Machine { sp: sp, ..m }, Ok(())),
            Err(e) => (m, Err(e)),
        }
    }

    /// Pushes a word, high byte first.
    #[verifier::opaque]
    pub open spec fn push_u16(self, v: u16) -> (Machine, Result<(), Fault>) {
        let (m, w) = self.push_u8(high(v));
        match w {
            Ok(_) => m.push_u8(low(v)),
            Err(e) => (m, Err(e)),
        }
    }

    /// Pops a byte: the byte where the stack pointer points, which then goes up by one.
    pub open spec fn pop_u8(self) -> (Machine, Result<u8, Fault>) {
        match self.read_mem(self.sp) {
            Ok(v) => (Machine { sp: self.sp.wrapping_add(1), ..self }, Ok(v)),
            Err(e) => (self, Err(e)),
        }
    }

    /// Pops a word, low byte first.
    #[verifier::opaque]
    pub open spec fn pop_u16(self) -> (Machine, Result<u16, Fault>) {
        let (m1, lo) = self.pop_u8();
        match lo {
            Ok(lo) => {
                let (m2, hi) = m1.pop_u8();
                match hi {
                    Ok(hi) => (m2, Ok(pair(hi, lo))),
                    Err(e) => (m2, Err(e)),
                }
            },
            Err(e) => (m1, Err(e)),
        }
    }
}

} // verus!
