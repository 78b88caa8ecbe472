//! The processor: its registers and memory map, the execution of decoded instructions,
//! the dispatch of interrupts and the cycle that ties them together.

use vstd::prelude::*;

pub mod alu;
pub mod cost;
pub mod inner;
pub mod instructions;
pub mod laws;
pub mod machine;

use inner::register::{high_byte, low_byte, make_pair};
use inner::instructions::{decode_prefixed, decode_raw};
use inner::{
    Fault, Flag, Flagd, Flags, Instruction, Operand, Register, Register16, Register8, Timing,
};
use machine::{Machine, RAM_SIZE, VRAM_SIZE};

verus! {

/// The processor with its registers and the memory it owns.
pub struct CPU {
    /// Flag register; the low nibble stays zero.
    flag: u8,
    /// Accumulator.
    a: u8,
    c: u8,
    b: u8,
    e: u8,
    d: u8,
    l: u8,
    h: u8,
    halted: bool,
    /// Program counter.
    pc: u16,
    /// Stack pointer.
    sp: u16,
    svbk: u8,
    ppu_dma: u8,
    ime: bool,
    int_enable: u8,
    int_flags: u8,
    /// Offset of the switched bank in working RAM; no bank is ever switched in.
    ram_offset: usize,
    ram: [u8; RAM_SIZE],
    vram: [u8; VRAM_SIZE],
}

impl View for CPU {
    type V = Machine;

    closed spec fn view(&self) -> Machine {
        Machine {
            a: self.a,
            flags: Flags::of_byte(self.flag),
            b: self.b,
            c: self.c,
            d: self.d,
            e: self.e,
            h: self.h,
            l: self.l,
            pc: self.pc,
            sp: self.sp,
            halted: self.halted,
            ime: self.ime,
            int_enable: self.int_enable,
            int_flags: self.int_flags,
            svbk: self.svbk,
            ppu_dma: self.ppu_dma,
            ram: self.ram@,
            hram: self.vram@,
        }
    }
}

impl CPU {
    #[verifier::type_invariant]
    spec fn inv(&self) -> bool {
        self.flag % 16 == 0 && self.ram_offset == 0
    }

    /// A processor after reset.
    pub fn new() -> (cpu: Self)
        ensures
            cpu@ == Machine::initial(),
    {
        let cpu = Self {
            a: 0x11,
            flag: 0x00,
            b: 0x00,
            c: 0x00,
            d: 0xFF,
            e: 0x56,
            h: 0x00,
            l: 0x0D,
            halted: false,
            pc: 0,
            sp: 0,
            svbk: 0,
            ppu_dma: 0,
            ime: false,
            int_enable: 0,
            int_flags: 0,
            ram_offset: 0,
            ram: [0u8; RAM_SIZE],
            vram: [0u8; VRAM_SIZE],
        };
        assert(cpu@.ram =~= Machine::initial().ram);
        assert(cpu@.hram =~= Machine::initial().hram);
        cpu
    }

    /// Reads the byte at `addr` through the memory map.
    pub fn read_mem(&self, addr: u16) -> (r: Result<u8, Fault>)
        ensures
            r == self@.read_mem(addr),
        decreases (if addr >= 0xe000 { 1int } else { 0int }),
    {
        proof {
            use_type_invariant(self);
            reveal(Machine::read_mem);
        }
        match addr {
            0x0000..=0x7fff => Err(Fault::Unimplemented(addr)),
            0x8000..=0x9fff => Err(Fault::Unimplemented(addr)),
            0xa000..=0xbfff => Err(Fault::Unimplemented(addr)),
            0xc000..=0xcfff => Ok(self.ram[(addr - 0xC000) as usize]),
            0xd000..=0xdfff => Ok(self.ram[(addr - 0xC000) as usize + self.ram_offset]),
            0xe000..=0xfdff => self.read_mem(addr - 0xE000 + 0xC000),
            0xff00 => Err(Fault::Unimplemented(addr)),
            0xff01..=0xff02 => Err(Fault::Unimplemented(addr)),
            0xff04..=0xff07 => Err(Fault::Unimplemented(addr)),
            0xff10..=0xff3f => Err(Fault::Unimplemented(addr)),
            0xff0f => Ok(self.int_flags),
            0xff46 => Err(Fault::Unimplemented(addr)),
            0xff40..=0xff45 | 0xff47..=0xff4b | 0xff68..=0xff69 | 0xff4f => {
                Err(Fault::Unimplemented(addr))
            },
            0xff4d => Ok(0),
            0xff70 => Err(Fault::Unimplemented(addr)),
            0xff80..=0xfffe => Ok(self.vram[(addr - 0xFF80) as usize]),
            0xffff => Ok(self.int_enable),
            _ => Err(Fault::OutOfRange(addr)),
        }
    }

    /// Writes `val` to `addr` through the memory map.
    pub fn write_mem(&mut self, addr: u16, val: u8) -> (r: Result<(), Fault>)
        ensures
            (final(self)@, r) == old(self)@.write_mem(addr, val),
        decreases (if addr >= 0xe000 { 1int } else { 0int }),
    {
        proof {
            use_type_invariant(&*self);
            reveal(Machine::write_mem);
        }
        match addr {
            0x0000..=0x7fff => Err(Fault::Unimplemented(addr)),
            0x8000..=0x9fff => Err(Fault::Unimplemented(addr)),
            0xa000..=0xbfff => Err(Fault::Unimplemented(addr)),
            0xc000..=0xcfff => {
                self.ram[(addr - 0xC000) as usize] = val;
                Ok(())
            },
            0xd000..=0xdfff => {
                self.ram[(addr - 0xC000) as usize + self.ram_offset] = val;
                Ok(())
            },
            0xe000..=0xfdff => self.write_mem(addr - 0xE000 + 0xC000, val),
            0xff00 => Err(Fault::Unimplemented(addr)),
            0xff01..=0xff02 => Err(Fault::Unimplemented(addr)),
            0xff04..=0xff07 => Err(Fault::Unimplemented(addr)),
            0xff10..=0xff3f => Err(Fault::Unimplemented(addr)),
            0xff0f => {
                self.int_flags = val;
                Ok(())
            },
            0xff46 => {
                self.ppu_dma = val;
                Err(Fault::Unimplemented(addr))
            },
            0xff40..=0xff45 | 0xff47..=0xff4b | 0xff68..=0xff69 | 0xff4f => {
                Err(Fault::Unimplemented(addr))
            },
            0xff4d => Ok(()),
            0xff70 => {
                assert(val & 0b111 == val % 8) by (bit_vector);
                self.svbk = val & 0b111;
                Err(Fault::Unimplemented(addr))
            },
            0xff7f => Ok(()),
            0xff80..=0xfffe => {
                self.vram[(addr - 0xFF80) as usize] = val;
                Ok(())
            },
            0xffff => {
                self.int_enable = val;
                Ok(())
            },
            _ => Err(Fault::OutOfRange(addr)),
        }
    }

    /// Fetches the byte at the program counter and moves the counter on by one.
    pub fn d8(&mut self) -> (r: Result<u8, Fault>)
        ensures
            (final(self)@, r) == old(self)@.d8(),
    {
        proof {
            use_type_invariant(&*self);
        }
        let v = self.read_mem(self.pc)?;
        self.pc = self.pc.wrapping_add(1);
        Ok(v)
    }

    /// Fetches the word at the program counter, low byte first, and moves the counter on
    /// by two.
    pub fn d16(&mut self) -> (r: Result<u16, Fault>)
        ensures
            (final(self)@, r) == old(self)@.d16(),
    {
        let low = self.d8()?;
        let high = self.d8()?;
        Ok(make_pair(high, low))
    }

    /// Reads an 8-bit selector.
    pub fn read8(&mut self, r: Register8) -> (out: Result<u8, Fault>)
        ensures
            (final(self)@, out) == old(self)@.read8(r),
    {
        proof {
            use_type_invariant(&*self);
        }
        match r {
            Register8::D8 => self.d8(),
            Register8::A => Ok(self.a),
            Register8::F => {
                let f = Flags::from_byte(self.flag).to_byte();
                Ok(f)
            },
            Register8::B => Ok(self.b),
            Register8::C => Ok(self.c),
            Register8::D => Ok(self.d),
            Register8::E => Ok(self.e),
            Register8::H => Ok(self.h),
            Register8::L => Ok(self.l),
        }
    }

    /// Writes an 8-bit selector.
    pub fn write8(&mut self, r: Register8, v: u8) -> (out: Result<(), Fault>)
        ensures
            (final(self)@, out) == old(self)@.write8(r, v),
    {
        proof {
            use_type_invariant(&*self);
        }
        match r {
            Register8::D8 => {
                return Err(Fault::BadOperand);
            },
            Register8::A => {
                self.a = v;
            },
            Register8::F => {
                proof {
                    inner::flag_register::lemma_masks(v);
                }
                self.flag = v & 0xf0;
            },
            Register8::B => {
                self.b = v;
            },
            Register8::C => {
                self.c = v;
            },
            Register8::D => {
                self.d = v;
            },
            Register8::E => {
                self.e = v;
            },
            Register8::H => {
                self.h = v;
            },
            Register8::L => {
                self.l = v;
            },
        }
        Ok(())
    }

    /// Reads a 16-bit selector.
    pub fn read16(&mut self, r: Register16) -> (out: Result<u16, Fault>)
        ensures
            (final(self)@, out) == old(self)@.read16(r),
    {
        match r {
            Register16::D16 => self.d16(),
            Register16::HL | Register16::HLi | Register16::HLd => Ok(make_pair(self.h, self.l)),
            Register16::AF => {
                let f = Flags::from_byte(self.flag).to_byte();
                Ok(make_pair(self.a, f))
            },
            Register16::BC => Ok(make_pair(self.b, self.c)),
            Register16::DE => Ok(make_pair(self.d, self.e)),
            Register16::SP => Ok(self.sp),
        }
    }

    /// Writes a 16-bit selector.
    pub fn write16(&mut self, r: Register16, v: u16) -> (out: Result<(), Fault>)
        ensures
            (final(self)@, out) == old(self)@.write16(r, v),
    {
        proof {
            use_type_invariant(&*self);
        }
        match r {
            Register16::D16 => {
                return Err(Fault::BadOperand);
            },
            Register16::HL | Register16::HLi | Register16::HLd => {
                self.h = high_byte(v);
                self.l = low_byte(v);
            },
            Register16::AF => {
                let f = low_byte(v);
                proof {
                    inner::flag_register::lemma_masks(f);
                }
                self.a = high_byte(v);
                self.flag = f & 0xf0;
            },
            Register16::BC => {
                self.b = high_byte(v);
                self.c = low_byte(v);
            },
            Register16::DE => {
                self.d = high_byte(v);
                self.e = low_byte(v);
            },
            Register16::SP => {
                self.sp = v;
            },
        }
        Ok(())
    }

    /// Finds the address that an indirect operand names.
    pub fn address(&mut self, op: Operand) -> (out: Result<u16, Fault>)
        ensures
            (final(self)@, out) == old(self)@.address(op),
    {
        match op {
            Operand::Reg(_) => Err(Fault::BadOperand),
            Operand::Mem(r) => match r.as_16() {
                Some(r16) => self.read16(r16),
                None => Err(Fault::BadOperand),
            },
            Operand::ZMem(r) => match r.as_8() {
                Some(r8) => {
                    let v = self.read8(r8)?;
                    Ok(0xff00 + v as u16)
                },
                None => Err(Fault::BadOperand),
            },
        }
    }

    /// Reads an operand as a byte.
    pub fn load8(&mut self, op: Operand) -> (out: Result<u8, Fault>)
        ensures
            (final(self)@, out) == old(self)@.load8(op),
    {
        proof {
            reveal(Machine::load8);
        }
        match op {
            Operand::Reg(r) => match r.as_8() {
                Some(r8) => self.read8(r8),
                None => Err(Fault::BadOperand),
            },
            _ => {
                let addr = self.address(op)?;
                self.read_mem(addr)
            },
        }
    }

    /// Writes a byte to an operand.
    pub fn store8(&mut self, op: Operand, v: u8) -> (out: Result<(), Fault>)
        ensures
            (final(self)@, out) == old(self)@.store8(op, v),
    {
        proof {
            reveal(Machine::store8);
        }
        match op {
            Operand::Reg(r) => match r.as_8() {
                Some(r8) => self.write8(r8, v),
                None => Err(Fault::BadOperand),
            },
            _ => {
                let addr = self.address(op)?;
                self.write_mem(addr, v)
            },
        }
    }

    /// Reads an operand as a word.
    pub fn load16(&mut self, op: Operand) -> (out: Result<u16, Fault>)
        ensures
            (final(self)@, out) == old(self)@.load16(op),
    {
        proof {
            reveal(Machine::load16);
        }
        match op {
            Operand::Reg(r) => match r.as_16() {
                Some(r16) => self.read16(r16),
                None => Err(Fault::BadOperand),
            },
            _ => Err(Fault::BadOperand),
        }
    }

    /// Writes a word to an operand.
    pub fn store16(&mut self, op: Operand, v: u16) -> (out: Result<(), Fault>)
        ensures
            (final(self)@, out) == old(self)@.store16(op, v),
    {
        proof {
            reveal(Machine::store16);
        }
        match op {
            Operand::Reg(r) => match r.as_16() {
                Some(r16) => self.write16(r16, v),
                None => Err(Fault::BadOperand),
            },
            Operand::Mem(_) => {
                let addr = self.address(op)?;
                self.write_mem(addr, low_byte(v))?;
                self.write_mem(addr.wrapping_add(1), high_byte(v))
            },
            Operand::ZMem(_) => Err(Fault::BadOperand),
        }
    }

    /// The program counter.
    pub fn pc(&self) -> (r: u16)
        ensures
            r == self@.pc,
    {
        self.pc
    }

    /// Points the program counter at `v`.
    pub fn set_pc(&mut self, v: u16)
        ensures
            final(self)@ == (Machine { pc: v, ..old(self)@ }),
    {
        proof {
            use_type_invariant(&*self);
        }
        self.pc = v;
    }

    /// The stack pointer.
    pub fn sp(&self) -> (r: u16)
        ensures
            r == self@.sp,
    {
        self.sp
    }

    /// Points the stack pointer at `v`.
    pub fn set_sp(&mut self, v: u16)
        ensures
            final(self)@ == (Machine { sp: v, ..old(self)@ }),
    {
        proof {
            use_type_invariant(&*self);
        }
        self.sp = v;
    }

    /// The accumulator.
    pub fn a(&self) -> (r: u8)
        ensures
            r == self@.a,
    {
        self.a
    }

    /// Puts `v` in the accumulator.
    pub fn set_a(&mut self, v: u8)
        ensures
            final(self)@ == (Machine { a: v, ..old(self)@ }),
    {
        proof {
            use_type_invariant(&*self);
        }
        self.a = v;
    }

    /// Whether the processor is halted.
    pub fn halted(&self) -> (r: bool)
        ensures
            r == self@.halted,
    {
        self.halted
    }

    /// Halts or wakes the processor.
    pub fn set_halted(&mut self, b: bool)
        ensures
            final(self)@ == (Machine { halted: b, ..old(self)@ }),
    {
        proof {
            use_type_invariant(&*self);
        }
        self.halted = b;
    }

    /// The interrupt master enable.
    pub fn ime(&self) -> (r: bool)
        ensures
            r == self@.ime,
    {
        self.ime
    }

    /// Sets or clears the interrupt master enable.
    pub fn set_ime(&mut self, b: bool)
        ensures
            final(self)@ == (Machine { ime: b, ..old(self)@ }),
    {
        proof {
            use_type_invariant(&*self);
        }
        self.ime = b;
    }

    /// The interrupt-enable register.
    pub fn int_enable(&self) -> (r: u8)
        ensures
            r == self@.int_enable,
    {
        self.int_enable
    }

    /// The interrupt-flags register.
    pub fn int_flags(&self) -> (r: u8)
        ensures
            r == self@.int_flags,
    {
        self.int_flags
    }

    /// The bank of working RAM that was last selected.
    pub fn svbk(&self) -> (r: u8)
        ensures
            r == self@.svbk,
    {
        self.svbk
    }

    /// The source page of the sprite-memory transfer that was last asked for.
    pub fn ppu_dma(&self) -> (r: u8)
        ensures
            r == self@.ppu_dma,
    {
        self.ppu_dma
    }

    /// The state of a processor is always well formed: the laws of the machine hold of it.
    pub proof fn lemma_wf(&self)
        ensures
            self@.wf(),
    {
    }

    /// The status bits.
    pub fn get_flags(&self) -> (r: Flags)
        ensures
            r == self@.flags,
    {
        Flags::from_byte(self.flag)
    }
}

impl Flagd for CPU {
    open spec fn flags(&self) -> Flags {
        self@.flags
    }

    fn status(&self, f: Flag) -> (r: bool) {
        self.flag.status(f)
    }

    fn zero(&mut self, b: bool)
        ensures
            final(self)@ == (Machine { flags: Flags { zero: b, ..old(self)@.flags }, ..old(self)@ }),
    {
        proof {
            use_type_invariant(&*self);
        }
        let mut f = self.flag;
        f.zero(b);
        self.flag = f;
    }

    fn subtract(&mut self, b: bool)
        ensures
            final(self)@ == (Machine {
                flags: Flags { subtract: b, ..old(self)@.flags },
                ..old(self)@
            }),
    {
        proof {
            use_type_invariant(&*self);
        }
        let mut f = self.flag;
        f.subtract(b);
        self.flag = f;
    }

    fn half_carry(&mut self, b: bool)
        ensures
            final(self)@ == (Machine {
                flags: Flags { half_carry: b, ..old(self)@.flags },
                ..old(self)@
            }),
    {
        proof {
            use_type_invariant(&*self);
        }
        let mut f = self.flag;
        f.half_carry(b);
        self.flag = f;
    }

    fn carry(&mut self, b: bool)
        ensures
            final(self)@ == (Machine { flags: Flags { carry: b, ..old(self)@.flags }, ..old(self)@ }),
    {
        proof {
            use_type_invariant(&*self);
        }
        let mut f = self.flag;
        f.carry(b);
        self.flag = f;
    }

    fn set_flags(&mut self, zero: bool, subtract: bool, half_carry: bool, carry: bool)
        ensures
            final(self)@ == (Machine {
                flags: Flags { zero, subtract, half_carry, carry },
                ..old(self)@
            }),
    {
        proof {
            use_type_invariant(&*self);
        }
        let mut f = self.flag;
        f.set_flags(zero, subtract, half_carry, carry);
        self.flag = f;
    }
}

/// The index of the lowest bit set in `x`; eight if none is.
pub open spec fn lowest_bit(x: u8) -> u8 {
    if alu::bit_set(x, 0) {
        0
    } else if alu::bit_set(x, 1) {
        1
    } else if alu::bit_set(x, 2) {
        2
    } else if alu::bit_set(x, 3) {
        3
    } else if alu::bit_set(x, 4) {
        4
    } else if alu::bit_set(x, 5) {
        5
    } else if alu::bit_set(x, 6) {
        6
    } else if alu::bit_set(x, 7) {
        7
    } else {
        8
    }
}

/// The address at which the handler of interrupt source `n` starts: 0x40 for the vertical
/// blank, then display status, timer, serial port and joypad, eight bytes apart.
pub open spec fn vector(n: u8) -> u16 {
    (0x40 + 8 * n) as u16
}

proof fn lemma_lowest(x: u8)
    by (bit_vector)
    ensures
        ({
            &&& alu::bit_set(x, 0) == (x & 0x01u8 != 0u8)
            &&& alu::bit_set(x, 1) == (x & 0x02u8 != 0u8)
            &&& alu::bit_set(x, 2) == (x & 0x04u8 != 0u8)
            &&& alu::bit_set(x, 3) == (x & 0x08u8 != 0u8)
            &&& alu::bit_set(x, 4) == (x & 0x10u8 != 0u8)
            &&& alu::bit_set(x, 5) == (x & 0x20u8 != 0u8)
            &&& alu::bit_set(x, 6) == (x & 0x40u8 != 0u8)
            &&& alu::bit_set(x, 7) == (x & 0x80u8 != 0u8)
            &&& (x == 0u8) == (x & 0xffu8 == 0u8)
            &&& x != 0u8 ==> (x & 0x01u8 != 0u8) || (x & 0x02u8 != 0u8) || (x & 0x04u8 != 0u8) || (x
                & 0x08u8 != 0u8) || (x & 0x10u8 != 0u8) || (x & 0x20u8 != 0u8) || (x & 0x40u8 != 0u8)
                || (x & 0x80u8 != 0u8)
        }),
{
}

/// Finds the lowest bit set in a byte that is not zero.
pub fn lowest_set_bit(x: u8) -> (n: u8)
    requires
        x != 0,
    ensures
        n == lowest_bit(x),
        n < 8,
        alu::bit_set(x, n),
{
    proof {
        lemma_lowest(x);
    }
    if x & 0x01 != 0 {
        0
    } else if x & 0x02 != 0 {
        1
    } else if x & 0x04 != 0 {
        2
    } else if x & 0x08 != 0 {
        3
    } else if x & 0x10 != 0 {
        4
    } else if x & 0x20 != 0 {
        5
    } else if x & 0x40 != 0 {
        6
    } else {
        7
    }
}

impl Machine {
    /// What an instruction does by itself. Instructions of the extended table report
    /// their own cost. The prefix alone does nothing: see [`Machine::execute`].
    #[verifier::opaque]
    pub open spec fn perform(self, instr: Instruction) -> (Machine, Result<Timing, Fault>) {
        match instr {
            Instruction::NOP | Instruction::STOP | Instruction::CB_INSTRUCTION => (
                self,
                Ok(Timing::Default),
            ),
            Instruction::ADD(op) => if instructions::is_wide(op) {
                self.add_16(Operand::Reg(Register::HL), op)
            } else {
                self.add_8(Operand::Reg(Register::A), op)
            },
            Instruction::ADC(op) => self.adc(Operand::Reg(Register::A), op),
            Instruction::SUB(op) => self.sub_8(Operand::Reg(Register::A), op),
            Instruction::SBC(op) => self.sbc(Operand::Reg(Register::A), op),
            Instruction::AND(op) => self.and(op),
            Instruction::OR(op) => self.or(op),
            Instruction::XOR(op) => self.xor(op),
            Instruction::CP(op) => self.cp(op),
            Instruction::CALL(f, op) => self.call(f, op),
            Instruction::JP(f, op) => self.jp(f, op),
            Instruction::JR(f, op) => self.jr(f, op),
            Instruction::INC(op) => if instructions::is_wide(op) {
                self.inc_16(op)
            } else {
                self.inc_8(op)
            },
            Instruction::DEC(op) => if instructions::is_wide(op) {
                self.dec_16(op)
            } else {
                self.dec_8(op)
            },
            Instruction::DAA => (self.daa(), Ok(Timing::Default)),
            Instruction::CCF => (self.ccf(), Ok(Timing::Default)),
            Instruction::SCF => (self.scf(), Ok(Timing::Default)),
            Instruction::CPL => (self.cpl(), Ok(Timing::Default)),
            Instruction::RRA => self.rra(),
            Instruction::RLA => self.rla(),
            Instruction::RRCA => self.rrca(),
            Instruction::RLCA => self.rlca(),
            Instruction::LD(dst, src) => if dst == Operand::Mem(Register::HLi) || src
                == Operand::Mem(Register::HLi) {
                self.ldi(dst, src, Register::HL)
            } else if dst == Operand::Mem(Register::HLd) || src == Operand::Mem(Register::HLd) {
                self.ldd(dst, src, Register::HL)
            } else {
                self.ld(dst, src)
            },
            Instruction::LDSP => self.ld_hl_sp(),
            Instruction::ADDSP => self.add_sp(),
            Instruction::BIT(n, op) => extended(self.bit(n, op), instr),
            Instruction::RES(n, op) => extended(self.res(n, op), instr),
            Instruction::SET(n, op) => extended(self.set(n, op), instr),
            Instruction::SRL(op) => extended(self.srl(op), instr),
            Instruction::RR(op) => extended(self.rr(op), instr),
            Instruction::RL(op) => extended(self.rl(op), instr),
            Instruction::RRC(op) => extended(self.rrc(op), instr),
            Instruction::RLC(op) => extended(self.rlc(op), instr),
            Instruction::SRA(op) => extended(self.sra(op), instr),
            Instruction::SLA(op) => extended(self.sla(op), instr),
            Instruction::SWAP(op) => extended(self.swap_8(op), instr),
            Instruction::HCF => (self.halt(), Ok(Timing::Default)),
            Instruction::POP(op) => self.pop(op),
            Instruction::PUSH(op) => self.push(op),
            Instruction::RST(n) => self.rst(n),
            Instruction::RET(f) => self.ret(f),
            Instruction::RETI => self.reti(),
            Instruction::EI => (self.ei(), Ok(Timing::Default)),
            Instruction::DI => (self.di(), Ok(Timing::Default)),
        }
    }

    /// What a decoded instruction does. For the prefix, the next byte is fetched and the
    /// instruction that it selects from the extended table is performed.
    pub open spec fn execute(self, instr: Instruction) -> (Machine, Result<Timing, Fault>) {
        if instr is CB_INSTRUCTION {
            let (m1, b) = self.d8();
            match b {
                Ok(b) => m1.perform(decode_prefixed(b)),
                Err(e) => (m1, Err(e)),
            }
        } else {
            self.perform(instr)
        }
    }

    /// What the instruction behind an opcode of the main table does, and the clock
    /// cycles it takes. A byte assigned to nothing is a fault and changes nothing.
    pub open spec fn execute_instruction(self, opcode: u8) -> (Machine, Result<u32, Fault>) {
        match decode_raw(opcode) {
            Some(instr) => {
                let (m, t) = self.execute(instr);
                match t {
                    Ok(t) => (m, Ok(cost::clocks(opcode, t) as u32)),
                    Err(e) => (m, Err(e)),
                }
            },
            None => (self, Err(Fault::InvalidOpcode(opcode))),
        }
    }

    /// What the instruction behind an opcode of the extended table does.
    pub open spec fn execute_cb_instruction(self, opcode: u8) -> (Machine, Result<Timing, Fault>) {
        self.perform(decode_prefixed(opcode))
    }

    /// The fetch of an opcode: the byte at the program counter and, where that is the
    /// prefix, the byte behind it. The program counter moves past what was fetched.
    pub open spec fn step(self) -> (Machine, Result<(bool, u8), Fault>) {
        let (m1, b) = self.d8();
        match b {
            Ok(b) => if b == 0xCB {
                let (m2, c) = m1.d8();
                match c {
                    Ok(c) => (m2, Ok((true, c))),
                    Err(e) => (m2, Err(e)),
                }
            } else {
                (m1, Ok((false, b)))
            },
            Err(e) => (m1, Err(e)),
        }
    }

    /// The interrupts that are both pending and enabled.
    pub open spec fn pending(self) -> u8 {
        self.int_flags & self.int_enable
    }

    /// The dispatch of interrupts between two instructions, and the clock cycles it takes.
    /// A halted processor wakes when an interrupt is pending and enabled. With the master
    /// enable set, the source with the lowest bit is served: the master enable and the
    /// pending bit of the source are cleared, the program counter is pushed, and the
    /// program goes on at the vector of the source.
    pub open spec fn handle_interrupt(self) -> (Machine, Result<u32, Fault>) {
        let ints = self.pending();
        let m1 = if self.halted {
            Machine { halted: ints == 0, ..self }
        } else {
            self
        };
        if !m1.ime || ints == 0 {
            (m1, Ok(0u32))
        } else {
            let m2 = Machine { ime: false, ..m1 };
            let n = lowest_bit(ints);
            if n >= 5 {
                (m2, Err(Fault::InvalidInterrupt(n)))
            } else {
                let m3 = Machine { int_flags: alu::res8_of(n, m2.int_flags), ..m2 };
                let (m4, w) = m3.push_u16(m3.pc);
                match w {
                    Ok(_) => (Machine { pc: vector(n), ..m4 }, Ok(cost::INTERRUPT_CLOCKS)),
                    Err(e) => (m4, Err(e)),
                }
            }
        }
    }

    /// One cycle of the processor, and the clock cycles it takes: interrupts are
    /// dispatched; then, unless the processor is halted, one instruction is fetched,
    /// decoded and executed. A halted processor idles for one machine cycle.
    pub open spec fn cycle(self) -> (Machine, Result<u32, Fault>) {
        let (m1, spent) = self.handle_interrupt();
        match spent {
            Ok(spent) => if m1.halted {
                (m1, Ok((spent + cost::CLOCKS) as u32))
            } else {
                let (m2, fetched) = m1.step();
                match fetched {
                    Ok((prefixed, byte)) => if prefixed {
                        let (m3, t) = m2.execute_cb_instruction(byte);
                        match t {
                            Ok(t) => (m3, Ok((spent + cost::clocks(byte, t)) as u32)),
                            Err(e) => (m3, Err(e)),
                        }
                    } else {
                        let (m3, c) = m2.execute_instruction(byte);
                        match c {
                            Ok(c) => (m3, Ok((spent + c) as u32)),
                            Err(e) => (m3, Err(e)),
                        }
                    },
                    Err(e) => (m2, Err(e)),
                }
            },
            Err(e) => (m1, Err(e)),
        }
    }
}

/// The result of an instruction of the extended table: its own cost where it went
/// through.
pub open spec fn extended(o: (Machine, Result<(), Fault>), instr: Instruction) -> (
    Machine,
    Result<Timing, Fault>,
) {
    (o.0, instructions::timed(o.1, Timing::Cb(cost::extended_time(instr) as u32)))
}

/// Whether the instruction works on A, on the flags or on an operand in place.
pub open spec fn is_arithmetic(instr: Instruction) -> bool {
    match instr {
        Instruction::ADD(_) | Instruction::ADC(_) | Instruction::SUB(_) | Instruction::SBC(_)
        | Instruction::AND(_) | Instruction::OR(_) | Instruction::XOR(_) | Instruction::CP(_)
        | Instruction::INC(_) | Instruction::DEC(_) | Instruction::DAA | Instruction::CCF
        | Instruction::SCF | Instruction::CPL | Instruction::RRA | Instruction::RLA
        | Instruction::RRCA | Instruction::RLCA => true,
        _ => false,
    }
}

/// Machine cycles of an instruction of the extended table on `op`.
fn extended_cost(op: Operand, test: bool) -> (r: u32)
    ensures
        r == 2 + (if test { 1int } else { 2int }) * cost::accessed(op),
{
    match op {
        Operand::Reg(_) => 2,
        _ => if test {
            3
        } else {
            4
        },
    }
}

impl CPU {
    /// Performs an instruction of the extended table.
    fn perform_extended(&mut self, instr: Instruction) -> (r: Result<Timing, Fault>)
        requires
            cost::extended_time(instr) > 0,
        ensures
            (final(self)@, r) == old(self)@.perform(instr),
            r matches Ok(t) ==> t == Timing::Cb(cost::extended_time(instr) as u32),
            2 <= cost::extended_time(instr) <= 4,
    {
        reveal(Machine::perform);
        match instr {
            Instruction::BIT(n, op) => {
                instructions::bit(self, n, op)?;
                Ok(Timing::Cb(extended_cost(op, true)))
            },
            Instruction::RES(n, op) => {
                instructions::res(self, n, op)?;
                Ok(Timing::Cb(extended_cost(op, false)))
            },
            Instruction::SET(n, op) => {
                instructions::set(self, n, op)?;
                Ok(Timing::Cb(extended_cost(op, false)))
            },
            Instruction::SRL(op) => {
                instructions::srl(self, op)?;
                Ok(Timing::Cb(extended_cost(op, false)))
            },
            Instruction::RR(op) => {
                instructions::rr(self, op)?;
                Ok(Timing::Cb(extended_cost(op, false)))
            },
            Instruction::RL(op) => {
                instructions::rl(self, op)?;
                Ok(Timing::Cb(extended_cost(op, false)))
            },
            Instruction::RRC(op) => {
                instructions::rrc(self, op)?;
                Ok(Timing::Cb(extended_cost(op, false)))
            },
            Instruction::RLC(op) => {
                instructions::rlc(self, op)?;
                Ok(Timing::Cb(extended_cost(op, false)))
            },
            Instruction::SRA(op) => {
                instructions::sra(self, op)?;
                Ok(Timing::Cb(extended_cost(op, false)))
            },
            Instruction::SLA(op) => {
                instructions::sla(self, op)?;
                Ok(Timing::Cb(extended_cost(op, false)))
            },
            Instruction::SWAP(op) => {
                instructions::swap_8(self, op)?;
                Ok(Timing::Cb(extended_cost(op, false)))
            },
            _ => Ok(Timing::Default),
        }
    }

    /// Performs an instruction that works on A, on the flags or on an operand in place.
    fn perform_arithmetic(&mut self, instr: Instruction) -> (r: Result<Timing, Fault>)
        requires
            is_arithmetic(instr),
        ensures
            (final(self)@, r) == old(self)@.perform(instr),
            r matches Ok(t) ==> t == Timing::Default,
    {
        reveal(Machine::perform);
        let a = Operand::Reg(Register::A);
        match instr {
            Instruction::ADD(op) => if instructions::wide(op) {
                instructions::add_16(self, Operand::Reg(Register::HL), op)
            } else {
                instructions::add_8(self, a, op)
            },
            Instruction::ADC(op) => instructions::adc(self, a, op),
            Instruction::SUB(op) => instructions::sub_8(self, a, op),
            Instruction::SBC(op) => instructions::sbc(self, a, op),
            Instruction::AND(op) => instructions::and(self, op),
            Instruction::OR(op) => instructions::or(self, op),
            Instruction::XOR(op) => instructions::xor(self, op),
            Instruction::CP(op) => instructions::cp(self, op),
            Instruction::INC(op) => if instructions::wide(op) {
                instructions::inc_16(self, op)
            } else {
                instructions::inc_8(self, op)
            },
            Instruction::DEC(op) => if instructions::wide(op) {
                instructions::dec_16(self, op)
            } else {
                instructions::dec_8(self, op)
            },
            Instruction::DAA => Ok(instructions::daa(self)),
            Instruction::CCF => Ok(instructions::ccf(self)),
            Instruction::SCF => Ok(instructions::scf(self)),
            Instruction::CPL => Ok(instructions::cpl(self)),
            Instruction::RRA => instructions::rra(self),
            Instruction::RLA => instructions::rla(self),
            Instruction::RRCA => instructions::rrca(self),
            Instruction::RLCA => instructions::rlca(self),
            _ => Ok(Timing::Default),
        }
    }

    /// Performs an instruction other than the prefix.
    fn perform(&mut self, instr: Instruction) -> (r: Result<Timing, Fault>)
        requires
            !(instr is CB_INSTRUCTION),
        ensures
            (final(self)@, r) == old(self)@.perform(instr),
            r matches Ok(Timing::Cb(x)) ==> 2 <= x <= 4 && cost::extended_time(instr) == x,
            r is Ok && !(r matches Ok(Timing::Cb(_))) ==> cost::extended_time(instr) == 0,
    {
        reveal(Machine::perform);
        match instr {
            Instruction::NOP => Ok(Timing::Default),
            Instruction::ADD(_) | Instruction::ADC(_) | Instruction::SUB(_) | Instruction::SBC(_)
            | Instruction::AND(_) | Instruction::OR(_) | Instruction::XOR(_) | Instruction::CP(_)
            | Instruction::INC(_) | Instruction::DEC(_) | Instruction::DAA | Instruction::CCF
            | Instruction::SCF | Instruction::CPL | Instruction::RRA | Instruction::RLA
            | Instruction::RRCA | Instruction::RLCA => self.perform_arithmetic(instr),
            Instruction::BIT(_, _) | Instruction::RES(_, _) | Instruction::SET(_, _)
            | Instruction::SRL(_) | Instruction::RR(_) | Instruction::RL(_) | Instruction::RRC(_)
            | Instruction::RLC(_) | Instruction::SRA(_) | Instruction::SLA(_)
            | Instruction::SWAP(_) => self.perform_extended(instr),
            Instruction::CALL(f, op) => instructions::call(self, f, op),
            Instruction::JP(f, op) => instructions::jp(self, f, op),
            Instruction::JR(f, op) => instructions::jr(self, f, op),
            Instruction::LD(dst, src) => {
                let up = Operand::Mem(Register::HLi);
                let down = Operand::Mem(Register::HLd);
                if dst == up || src == up {
                    instructions::ldi(self, dst, src, Register::HL)
                } else if dst == down || src == down {
                    instructions::ldd(self, dst, src, Register::HL)
                } else {
                    instructions::ld(self, dst, src)
                }
            },
            Instruction::LDSP => instructions::ld_hl_sp(self),
            Instruction::ADDSP => instructions::add_sp(self),
            Instruction::HCF => Ok(instructions::halt(self)),
            Instruction::POP(op) => instructions::pop(self, op),
            Instruction::PUSH(op) => instructions::push(self, op),
            Instruction::STOP => Ok(instructions::stop()),
            Instruction::RST(n) => instructions::rst(self, n),
            Instruction::RET(f) => instructions::ret(self, f),
            Instruction::RETI => instructions::reti(self),
            Instruction::EI => Ok(instructions::ei(self)),
            Instruction::DI => Ok(instructions::di(self)),
            Instruction::CB_INSTRUCTION => Ok(Timing::Default),
        }
    }

    /// Executes a decoded instruction and tells how it ran.
    pub fn execute(&mut self, instr: Instruction) -> (r: Result<Timing, Fault>)
        ensures
            (final(self)@, r) == old(self)@.execute(instr),
            r matches Ok(Timing::Cb(x)) ==> 2 <= x <= 4,
    {
        match instr {
            Instruction::CB_INSTRUCTION => {
                let b = self.d8()?;
                self.perform(Instruction::from_prefixed_instruction(b))
            },
            _ => self.perform(instr),
        }
    }

    /// Executes the instruction behind an opcode of the main table and returns the clock
    /// cycles it took.
    pub fn execute_instruction(&mut self, opcode: u8) -> (r: Result<u32, Fault>)
        ensures
            (final(self)@, r) == old(self)@.execute_instruction(opcode),
            r matches Ok(c) ==> c <= 24,
    {
        let instr = match Instruction::from_raw_instruction(opcode) {
            Some(instr) => instr,
            None => {
                return Err(Fault::InvalidOpcode(opcode));
            },
        };
        let timing = self.execute(instr)?;
        let cycles = match timing {
            Timing::Default => cost::opcode_times(opcode),
            Timing::Flag => cost::opcode_cond_times(opcode),
            Timing::Cb(x) => x,
        };
        Ok(cycles * 4)
    }

    /// Executes the instruction behind an opcode of the extended table and returns its
    /// timing, which holds its cost.
    pub fn execute_cb_instruction(&mut self, opcode: u8) -> (r: Result<Timing, Fault>)
        ensures
            (final(self)@, r) == old(self)@.execute_cb_instruction(opcode),
            r matches Ok(t) ==> t == Timing::Cb(cost::extended_time(decode_prefixed(opcode)) as u32),
    {
        let instr = Instruction::from_prefixed_instruction(opcode);
        self.perform(instr)?;
        Ok(Timing::Cb(cost::cb_opcode_times(opcode)))
    }

    /// Fetches the next opcode and tells whether it stood behind the prefix.
    pub fn step(&mut self) -> (r: Result<(bool, u8), Fault>)
        ensures
            (final(self)@, r) == old(self)@.step(),
    {
        let tmp = self.d8()?;
        if tmp == 0xCB {
            let byte = self.d8()?;
            Ok((true, byte))
        } else {
            Ok((false, tmp))
        }
    }

    /// Dispatches the interrupt that is due, if any, and returns the clock cycles that
    /// took.
    pub fn handle_interrupt(&mut self) -> (r: Result<u32, Fault>)
        ensures
            (final(self)@, r) == old(self)@.handle_interrupt(),
            r matches Ok(c) ==> c <= 20,
    {
        proof {
            use_type_invariant(&*self);
        }
        let ints = self.int_flags & self.int_enable;
        if self.halted {
            self.halted = ints == 0;
        }
        if !self.ime {
            return Ok(0);
        }
        if ints == 0 {
            return Ok(0);
        }
        self.ime = false;
        let source = lowest_set_bit(ints);
        let int_handler: u16 = match source {
            0 => 0x40,
            1 => 0x48,
            2 => 0x50,
            3 => 0x58,
            4 => 0x60,
            _ => {
                return Err(Fault::InvalidInterrupt(source));
            },
        };
        self.int_flags = alu::res8(source, self.int_flags);
        let pc = self.pc;
        instructions::push_u16(self, pc)?;
        proof {
            use_type_invariant(&*self);
        }
        self.pc = int_handler;
        Ok(20)
    }

    /// Runs one cycle: dispatches interrupts, then fetches, decodes and executes one
    /// instruction unless the processor is halted. Returns the clock cycles that passed.
    pub fn cycle(&mut self) -> (r: Result<u32, Fault>)
        ensures
            (final(self)@, r) == old(self)@.cycle(),
    {
        let spent = self.handle_interrupt()?;
        if self.halted() {
            return Ok(spent + 4);
        }
        let (prefixed, byte) = self.step()?;
        let cycles = if prefixed {
            match self.execute_cb_instruction(byte)? {
                Timing::Cb(x) => x * 4,
                Timing::Default => cost::opcode_times(byte) * 4,
                Timing::Flag => cost::opcode_cond_times(byte) * 4,
            }
        } else {
            self.execute_instruction(byte)?
        };
        Ok(spent + cycles)
    }
}

} // verus!
