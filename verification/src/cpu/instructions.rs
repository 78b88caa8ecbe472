//! The instructions, one function each, and what each does to the machine.

use vstd::prelude::*;
use crate::cpu::alu;
use crate::cpu::inner::register::{high, low};
use crate::cpu::inner::{Fault, Flag, Flagd, Flags, Operand, Register, Timing};
use crate::cpu::machine::Machine;
use crate::cpu::CPU;

verus! {

/// Whether the operand is a register of 16 bits.
pub open spec fn is_wide(op: Operand) -> bool {
    op matches Operand::Reg(r) && r.wide() is Some
}

/// Tells whether the operand is a register of 16 bits.
pub fn wide(op: Operand) -> (r: bool)
    ensures
        r == is_wide(op),
{
    match op {
        Operand::Reg(r) => r.as_16().is_some(),
        _ => false,
    }
}

/// Tells whether an instruction may test the condition.
pub fn testable(f: Flag) -> (r: bool)
    ensures
        r == f.is_condition(),
{
    match f {
        Flag::NF | Flag::Z | Flag::NZ | Flag::CY | Flag::NC => true,
        _ => false,
    }
}

impl Machine {
    /// HALT: the processor sleeps until an interrupt is pending.
    pub open spec fn halt(self) -> Machine {
        Machine { halted: true, ..self }
    }

    /// DI: interrupts are no longer served.
    pub open spec fn di(self) -> Machine {
        Machine { ime: false, ..self }
    }

    /// EI: interrupts are served again. The master enable is set at once, so an interrupt
    /// that is pending is dispatched before the next instruction.
    pub open spec fn ei(self) -> Machine {
        Machine { ime: true, ..self }
    }

    /// CALL: if the condition holds, the address of the next instruction is pushed and
    /// the program goes on at the target. The target is read in either case.
    pub open spec fn call(self, f: Flag, src: Operand) -> (Machine, Result<Timing, Fault>) {
        if !f.is_condition() {
            (self, Err(Fault::BadOperand))
        } else {
            let (m1, target) = self.load16(src);
            match target {
                Ok(target) => if f.holds(m1.flags) {
                    let (m2, w) = m1.push_u16(m1.pc);
                    match w {
                        Ok(_) => (Machine { pc: target, ..m2 }, Ok(Timing::Flag)),
                        Err(e) => (m2, Err(e)),
                    }
                } else {
                    (m1, Ok(Timing::Default))
                },
                Err(e) => (m1, Err(e)),
            }
        }
    }

    /// RET: if the condition holds, the program goes on at the address popped.
    pub open spec fn ret(self, f: Flag) -> (Machine, Result<Timing, Fault>) {
        if !f.is_condition() {
            (self, Err(Fault::BadOperand))
        } else if f.holds(self.flags) {
            let (m1, target) = self.pop_u16();
            match target {
                Ok(target) => (Machine { pc: target, ..m1 }, Ok(Timing::Flag)),
                Err(e) => (m1, Err(e)),
            }
        } else {
            (self, Ok(Timing::Default))
        }
    }

    /// RETI: interrupts are enabled, then the program returns.
    pub open spec fn reti(self) -> (Machine, Result<Timing, Fault>) {
        self.ei().ret(Flag::NF)
    }

    /// RST: the program counter is pushed and the program goes on at `n`.
    pub open spec fn rst(self, n: u16) -> (Machine, Result<Timing, Fault>) {
        let (m1, w) = self.push_u16(self.pc);
        match w {
            Ok(_) => (Machine { pc: n, ..m1 }, Ok(Timing::Default)),
            Err(e) => (m1, Err(e)),
        }
    }

    /// JP: if the condition holds, the program goes on at the target. The target is read
    /// in either case.
    pub open spec fn jp(self, f: Flag, src: Operand) -> (Machine, Result<Timing, Fault>) {
        if !f.is_condition() {
            (self, Err(Fault::BadOperand))
        } else {
            let (m1, target) = self.load16(src);
            match target {
                Ok(target) => if f.holds(m1.flags) {
                    (Machine { pc: target, ..m1 }, Ok(Timing::Flag))
                } else {
                    (m1, Ok(Timing::Default))
                },
                Err(e) => (m1, Err(e)),
            }
        }
    }

    /// JR: if the condition holds, the program counter, which already points behind the
    /// instruction, moves by the signed displacement. The displacement is read in either
    /// case.
    pub open spec fn jr(self, f: Flag, src: Operand) -> (Machine, Result<Timing, Fault>) {
        if !f.is_condition() {
            (self, Err(Fault::BadOperand))
        } else {
            let (m1, offset) = self.load8(src);
            match offset {
                Ok(offset) => if f.holds(m1.flags) {
                    (Machine { pc: alu::relative_of(m1.pc, offset), ..m1 }, Ok(Timing::Flag))
                } else {
                    (m1, Ok(Timing::Default))
                },
                Err(e) => (m1, Err(e)),
            }
        }
    }

    /// PUSH: the word in the operand goes onto the stack.
    pub open spec fn push(self, src: Operand) -> (Machine, Result<Timing, Fault>) {
        let (m1, v) = self.load16(src);
        match v {
            Ok(v) => {
                let (m2, w) = m1.push_u16(v);
                match w {
                    Ok(_) => (m2, Ok(Timing::Default)),
                    Err(e) => (m2, Err(e)),
                }
            },
            Err(e) => (m1, Err(e)),
        }
    }

    /// POP: the word on top of the stack goes into the operand.
    pub open spec fn pop(self, dst: Operand) -> (Machine, Result<Timing, Fault>) {
        let (m1, v) = self.pop_u16();
        match v {
            Ok(v) => {
                let (m2, w) = m1.store16(dst, v);
                match w {
                    Ok(_) => (m2, Ok(Timing::Default)),
                    Err(e) => (m2, Err(e)),
                }
            },
            Err(e) => (m1, Err(e)),
        }
    }

    /// LD: the destination takes the value of the source. The transfer is one of 16 bits
    /// when either operand is a 16-bit register, else one of 8 bits.
    pub open spec fn ld(self, dst: Operand, src: Operand) -> (Machine, Result<Timing, Fault>) {
        if is_wide(dst) || is_wide(src) {
            let (m1, v) = self.load16(src);
            match v {
                Ok(v) => {
                    let (m2, w) = m1.store16(dst, v);
                    match w {
                        Ok(_) => (m2, Ok(Timing::Default)),
                        Err(e) => (m2, Err(e)),
                    }
                },
                Err(e) => (m1, Err(e)),
            }
        } else {
            let (m1, v) = self.load8(src);
            match v {
                Ok(v) => {
                    let (m2, w) = m1.store8(dst, v);
                    match w {
                        Ok(_) => (m2, Ok(Timing::Default)),
                        Err(e) => (m2, Err(e)),
                    }
                },
                Err(e) => (m1, Err(e)),
            }
        }
    }

    /// INC of a word: no flag changes.
    pub open spec fn inc_16(self, loc: Operand) -> (Machine, Result<Timing, Fault>) {
        let (m1, v) = self.load16(loc);
        match v {
            Ok(v) => {
                let (m2, w) = m1.store16(loc, v.wrapping_add(1));
                match w {
                    Ok(_) => (m2, Ok(Timing::Default)),
                    Err(e) => (m2, Err(e)),
                }
            },
            Err(e) => (m1, Err(e)),
        }
    }

    /// DEC of a word: no flag changes.
    pub open spec fn dec_16(self, loc: Operand) -> (Machine, Result<Timing, Fault>) {
        let (m1, v) = self.load16(loc);
        match v {
            Ok(v) => {
                let (m2, w) = m1.store16(loc, v.wrapping_sub(1));
                match w {
                    Ok(_) => (m2, Ok(Timing::Default)),
                    Err(e) => (m2, Err(e)),
                }
            },
            Err(e) => (m1, Err(e)),
        }
    }

    /// A load followed by a step up of the pair `inc`.
    pub open spec fn ldi(self, dst: Operand, src: Operand, inc: Register) -> (Machine, Result<Timing, Fault>) {
        let (m1, t) = self.ld(dst, src);
        match t {
            Ok(t) => {
                let (m2, w) = m1.inc_16(Operand::Reg(inc));
                match w {
                    Ok(_) => (m2, Ok(t)),
                    Err(e) => (m2, Err(e)),
                }
            },
            Err(e) => (m1, Err(e)),
        }
    }

    /// A load followed by a step down of the pair `dec`.
    pub open spec fn ldd(self, dst: Operand, src: Operand, dec: Register) -> (Machine, Result<Timing, Fault>) {
        let (m1, t) = self.ld(dst, src);
        match t {
            Ok(t) => {
                let (m2, w) = m1.dec_16(Operand::Reg(dec));
                match w {
                    Ok(_) => (m2, Ok(t)),
                    Err(e) => (m2, Err(e)),
                }
            },
            Err(e) => (m1, Err(e)),
        }
    }

    /// The stack pointer moved by the signed immediate byte, with the flags that the
    /// move leaves. The stack pointer itself stays.
    pub open spec fn offset_sp(self) -> (Machine, Result<u16, Fault>) {
        let (m1, o) = self.d8();
        match o {
            Ok(o) => {
                let (r, flags) = alu::offset16_of(m1.sp, o);
                (Machine { flags: flags, ..m1 }, Ok(r))
            },
            Err(e) => (m1, Err(e)),
        }
    }

    /// ADD SP: the stack pointer moves by the signed immediate byte.
    pub open spec fn add_sp(self) -> (Machine, Result<Timing, Fault>) {
        let (m1, r) = self.offset_sp();
        match r {
            Ok(r) => (Machine { sp: r, ..m1 }, Ok(Timing::Default)),
            Err(e) => (m1, Err(e)),
        }
    }

    /// LD HL,SP+d: HL takes the stack pointer moved by the signed immediate byte.
    pub open spec fn ld_hl_sp(self) -> (Machine, Result<Timing, Fault>) {
        let (m1, r) = self.offset_sp();
        match r {
            Ok(r) => (Machine { h: high(r), l: low(r), ..m1 }, Ok(Timing::Default)),
            Err(e) => (m1, Err(e)),
        }
    }
}

/// Pushes one byte onto the stack.
pub fn push_u8(cpu: &mut CPU, value: u8) -> (r: Result<(), Fault>)
    ensures
        (final(cpu)@, r) == old(cpu)@.push_u8(value),
{
    let sp = cpu.sp().wrapping_sub(1);
    cpu.write_mem(sp, value)?;
    cpu.set_sp(sp);
    Ok(())
}

/// Pushes two bytes onto the stack, the high one first.
pub fn push_u16(cpu: &mut CPU, value: u16) -> (r: Result<(), Fault>)
    ensures
        (final(cpu)@, r) == old(cpu)@.push_u16(value),
{
    proof {
        reveal(Machine::push_u16);
    }
    push_u8(cpu, crate::cpu::inner::register::high_byte(value))?;
    push_u8(cpu, crate::cpu::inner::register::low_byte(value))
}

/// Pops one byte from the stack.
pub fn pop_u8(cpu: &mut CPU) -> (r: Result<u8, Fault>)
    ensures
        (final(cpu)@, r) == old(cpu)@.pop_u8(),
{
    let sp = cpu.sp();
    let value = cpu.read_mem(sp)?;
    cpu.set_sp(sp.wrapping_add(1));
    Ok(value)
}

/// Pops two bytes from the stack, the low one first.
pub fn pop_u16(cpu: &mut CPU) -> (r: Result<u16, Fault>)
    ensures
        (final(cpu)@, r) == old(cpu)@.pop_u16(),
{
    proof {
        reveal(Machine::pop_u16);
    }
    let low = pop_u8(cpu)?;
    let high = pop_u8(cpu)?;
    Ok(crate::cpu::inner::register::make_pair(high, low))
}

/// HALT.
pub fn halt(cpu: &mut CPU) -> (t: Timing)
    ensures
        final(cpu)@ == old(cpu)@.halt(),
        t == Timing::Default,
{
    cpu.set_halted(true);
    Timing::Default
}

/// STOP. Taken as an instruction of one byte that does nothing.
pub fn stop() -> (t: Timing)
    ensures
        t == Timing::Default,
{
    Timing::Default
}

/// DI.
pub fn di(cpu: &mut CPU) -> (t: Timing)
    ensures
        final(cpu)@ == old(cpu)@.di(),
        t == Timing::Default,
{
    cpu.set_ime(false);
    Timing::Default
}

/// EI.
pub fn ei(cpu: &mut CPU) -> (t: Timing)
    ensures
        final(cpu)@ == old(cpu)@.ei(),
        t == Timing::Default,
{
    cpu.set_ime(true);
    Timing::Default
}

/// CALL.
pub fn call(cpu: &mut CPU, f: Flag, src: Operand) -> (r: Result<Timing, Fault>)
    ensures
        (final(cpu)@, r) == old(cpu)@.call(f, src),
{
    if !testable(f) {
        return Err(Fault::BadOperand);
    }
    let new_pc = cpu.load16(src)?;
    if cpu.status(f) {
        let ret = cpu.pc();
        push_u16(cpu, ret)?;
        cpu.set_pc(new_pc);
        Ok(Timing::Flag)
    } else {
        Ok(Timing::Default)
    }
}

/// RET.
pub fn ret(cpu: &mut CPU, f: Flag) -> (r: Result<Timing, Fault>)
    ensures
        (final(cpu)@, r) == old(cpu)@.ret(f),
{
    if !testable(f) {
        return Err(Fault::BadOperand);
    }
    if cpu.status(f) {
        let new_pc = pop_u16(cpu)?;
        cpu.set_pc(new_pc);
        Ok(Timing::Flag)
    } else {
        Ok(Timing::Default)
    }
}

/// RETI.
pub fn reti(cpu: &mut CPU) -> (r: Result<Timing, Fault>)
    ensures
        (final(cpu)@, r) == old(cpu)@.reti(),
{
    ei(cpu);
    ret(cpu, Flag::NF)
}

/// RST.
pub fn rst(cpu: &mut CPU, n: u16) -> (r: Result<Timing, Fault>)
    ensures
        (final(cpu)@, r) == old(cpu)@.rst(n),
{
    let pc = cpu.pc();
    push_u16(cpu, pc)?;
    cpu.set_pc(n);
    Ok(Timing::Default)
}

/// JP.
pub fn jp(cpu: &mut CPU, f: Flag, src: Operand) -> (r: Result<Timing, Fault>)
    ensures
        (final(cpu)@, r) == old(cpu)@.jp(f, src),
{
    if !testable(f) {
        return Err(Fault::BadOperand);
    }
    let new_pc = cpu.load16(src)?;
    if cpu.status(f) {
        cpu.set_pc(new_pc);
        Ok(Timing::Flag)
    } else {
        Ok(Timing::Default)
    }
}

/// JR.
pub fn jr(cpu: &mut CPU, f: Flag, src: Operand) -> (r: Result<Timing, Fault>)
    ensures
        (final(cpu)@, r) == old(cpu)@.jr(f, src),
{
    if !testable(f) {
        return Err(Fault::BadOperand);
    }
    let offset = cpu.load8(src)?;
    if cpu.status(f) {
        let new_pc = alu::relative(cpu.pc(), offset);
        cpu.set_pc(new_pc);
        Ok(Timing::Flag)
    } else {
        Ok(Timing::Default)
    }
}

/// PUSH.
pub fn push(cpu: &mut CPU, src: Operand) -> (r: Result<Timing, Fault>)
    ensures
        (final(cpu)@, r) == old(cpu)@.push(src),
{
    let value = cpu.load16(src)?;
    push_u16(cpu, value)?;
    Ok(Timing::Default)
}

/// POP.
pub fn pop(cpu: &mut CPU, dst: Operand) -> (r: Result<Timing, Fault>)
    ensures
        (final(cpu)@, r) == old(cpu)@.pop(dst),
{
    let value = pop_u16(cpu)?;
    cpu.store16(dst, value)?;
    Ok(Timing::Default)
}

/// LD.
pub fn ld(cpu: &mut CPU, dst: Operand, src: Operand) -> (r: Result<Timing, Fault>)
    ensures
        (final(cpu)@, r) == old(cpu)@.ld(dst, src),
{
    if wide(dst) || wide(src) {
        let value = cpu.load16(src)?;
        cpu.store16(dst, value)?;
    } else {
        let value = cpu.load8(src)?;
        cpu.store8(dst, value)?;
    }
    Ok(Timing::Default)
}

/// INC of a word.
pub fn inc_16(cpu: &mut CPU, loc: Operand) -> (r: Result<Timing, Fault>)
    ensures
        (final(cpu)@, r) == old(cpu)@.inc_16(loc),
{
    let value = cpu.load16(loc)?;
    cpu.store16(loc, value.wrapping_add(1))?;
    Ok(Timing::Default)
}

/// DEC of a word.
pub fn dec_16(cpu: &mut CPU, loc: Operand) -> (r: Result<Timing, Fault>)
    ensures
        (final(cpu)@, r) == old(cpu)@.dec_16(loc),
{
    let value = cpu.load16(loc)?;
    cpu.store16(loc, value.wrapping_sub(1))?;
    Ok(Timing::Default)
}

/// LD with a step up of `inc` after the transfer.
pub fn ldi(cpu: &mut CPU, dst: Operand, src: Operand, inc: Register) -> (r: Result<Timing, Fault>)
    ensures
        (final(cpu)@, r) == old(cpu)@.ldi(dst, src, inc),
{
    let t = ld(cpu, dst, src)?;
    inc_16(cpu, Operand::Reg(inc))?;
    Ok(t)
}

/// LD with a step down of `dec` after the transfer.
pub fn ldd(cpu: &mut CPU, dst: Operand, src: Operand, dec: Register) -> (r: Result<Timing, Fault>)
    ensures
        (final(cpu)@, r) == old(cpu)@.ldd(dst, src, dec),
{
    let t = ld(cpu, dst, src)?;
    dec_16(cpu, Operand::Reg(dec))?;
    Ok(t)
}

/// Computes the stack pointer moved by the signed immediate byte and sets the flags.
pub fn offset_sp(cpu: &mut CPU) -> (r: Result<u16, Fault>)
    ensures
        (final(cpu)@, r) == old(cpu)@.offset_sp(),
{
    let o = cpu.d8()?;
    let (r, flags) = alu::offset16(cpu.sp(), o);
    cpu.set_flags(flags.zero, flags.subtract, flags.half_carry, flags.carry);
    Ok(r)
}

/// ADD SP.
pub fn add_sp(cpu: &mut CPU) -> (r: Result<Timing, Fault>)
    ensures
        (final(cpu)@, r) == old(cpu)@.add_sp(),
{
    let new_sp = offset_sp(cpu)?;
    cpu.set_sp(new_sp);
    Ok(Timing::Default)
}

/// LD HL,SP+d.
pub fn ld_hl_sp(cpu: &mut CPU) -> (r: Result<Timing, Fault>)
    ensures
        (final(cpu)@, r) == old(cpu)@.ld_hl_sp(),
{
    let sp = offset_sp(cpu)?;
    cpu.write16(crate::cpu::inner::Register16::HL, sp)?;
    Ok(Timing::Default)
}

impl Machine {
    /// An operation on two bytes: both operands are read, the destination first; the
    /// result goes to the destination, then the flags are set.
    pub open spec fn binary8(
        self,
        dst: Operand,
        src: Operand,
        f: spec_fn(u8, u8, Flags) -> (u8, Flags),
    ) -> (Machine, Result<Timing, Fault>) {
        let (m1, a) = self.load8(dst);
        match a {
            Ok(a) => {
                let (m2, b) = m1.load8(src);
                match b {
                    Ok(b) => {
                        let (r, flags) = f(a, b, m2.flags);
                        let (m3, w) = m2.store8(dst, r);
                        match w {
                            Ok(_) => (Machine { flags: flags, ..m3 }, Ok(Timing::Default)),
                            Err(e) => (m3, Err(e)),
                        }
                    },
                    Err(e) => (m2, Err(e)),
                }
            },
            Err(e) => (m1, Err(e)),
        }
    }

    /// An operation of A and an operand: the operand is read, then A takes the result
    /// and the flags are set.
    pub open spec fn accumulate(self, src: Operand, f: spec_fn(u8, u8) -> (u8, Flags)) -> (
        Machine,
        Result<Timing, Fault>,
    ) {
        let (m1, b) = self.load8(src);
        match b {
            Ok(b) => {
                let (r, flags) = f(m1.a, b);
                (Machine { a: r, flags: flags, ..m1 }, Ok(Timing::Default))
            },
            Err(e) => (m1, Err(e)),
        }
    }

    /// An operation on one byte, in place: the operand is read, takes the result, then
    /// the flags are set.
    pub open spec fn modify8(self, loc: Operand, f: spec_fn(u8, Flags) -> (u8, Flags)) -> (
        Machine,
        Result<(), Fault>,
    ) {
        let (m1, v) = self.load8(loc);
        match v {
            Ok(v) => {
                let (r, flags) = f(v, m1.flags);
                let (m2, w) = m1.store8(loc, r);
                match w {
                    Ok(_) => (Machine { flags: flags, ..m2 }, Ok(())),
                    Err(e) => (m2, Err(e)),
                }
            },
            Err(e) => (m1, Err(e)),
        }
    }

    /// A change of one byte, in place, that leaves the flags alone.
    pub open spec fn update8(self, loc: Operand, f: spec_fn(u8) -> u8) -> (Machine, Result<(), Fault>) {
        let (m1, v) = self.load8(loc);
        match v {
            Ok(v) => m1.store8(loc, f(v)),
            Err(e) => (m1, Err(e)),
        }
    }

    /// ADD of bytes.
    pub open spec fn add_8(self, dst: Operand, src: Operand) -> (Machine, Result<Timing, Fault>) {
        self.binary8(dst, src, |a: u8, b: u8, flags: Flags| alu::add8_of(a, b))
    }

    /// ADC: the carry flag is added too.
    pub open spec fn adc(self, dst: Operand, src: Operand) -> (Machine, Result<Timing, Fault>) {
        self.binary8(dst, src, |a: u8, b: u8, flags: Flags| alu::adc8_of(a, b, flags.carry))
    }

    /// SUB.
    pub open spec fn sub_8(self, dst: Operand, src: Operand) -> (Machine, Result<Timing, Fault>) {
        self.binary8(dst, src, |a: u8, b: u8, flags: Flags| alu::sub8_of(a, b))
    }

    /// SBC: the carry flag is subtracted too.
    pub open spec fn sbc(self, dst: Operand, src: Operand) -> (Machine, Result<Timing, Fault>) {
        self.binary8(dst, src, |a: u8, b: u8, flags: Flags| alu::sbc8_of(a, b, flags.carry))
    }

    /// ADD of words. The zero flag keeps its value.
    pub open spec fn add_16(self, dst: Operand, src: Operand) -> (Machine, Result<Timing, Fault>) {
        let (m1, a) = self.load16(dst);
        match a {
            Ok(a) => {
                let (m2, b) = m1.load16(src);
                match b {
                    Ok(b) => {
                        let (r, flags) = alu::add16_of(a, b, m2.flags);
                        let (m3, w) = m2.store16(dst, r);
                        match w {
                            Ok(_) => (Machine { flags: flags, ..m3 }, Ok(Timing::Default)),
                            Err(e) => (m3, Err(e)),
                        }
                    },
                    Err(e) => (m2, Err(e)),
                }
            },
            Err(e) => (m1, Err(e)),
        }
    }

    /// AND.
    pub open spec fn and(self, src: Operand) -> (Machine, Result<Timing, Fault>) {
        self.accumulate(src, |a: u8, b: u8| alu::and8_of(b, a))
    }

    /// XOR.
    pub open spec fn xor(self, src: Operand) -> (Machine, Result<Timing, Fault>) {
        self.accumulate(src, |a: u8, b: u8| alu::xor8_of(a, b))
    }

    /// OR.
    pub open spec fn or(self, src: Operand) -> (Machine, Result<Timing, Fault>) {
        self.accumulate(src, |a: u8, b: u8| alu::or8_of(a, b))
    }

    /// CP: the flags are those of A minus the operand; A keeps its value.
    pub open spec fn cp(self, src: Operand) -> (Machine, Result<Timing, Fault>) {
        let (m1, b) = self.load8(src);
        match b {
            Ok(b) => (Machine { flags: alu::cp8_of(self.a, b), ..m1 }, Ok(Timing::Default)),
            Err(e) => (m1, Err(e)),
        }
    }

    /// INC of a byte. The carry flag keeps its value.
    pub open spec fn inc_8(self, loc: Operand) -> (Machine, Result<Timing, Fault>) {
        let (m, w) = self.modify8(loc, |v: u8, flags: Flags| alu::inc8_of(v, flags));
        (m, timed(w, Timing::Default))
    }

    /// DEC of a byte. The carry flag keeps its value.
    pub open spec fn dec_8(self, loc: Operand) -> (Machine, Result<Timing, Fault>) {
        let (m, w) = self.modify8(loc, |v: u8, flags: Flags| alu::dec8_of(v, flags));
        (m, timed(w, Timing::Default))
    }

    /// DAA.
    pub open spec fn daa(self) -> Machine {
        let (r, flags) = alu::daa8_of(self.a, self.flags);
        Machine { a: r, flags: flags, ..self }
    }

    /// CPL.
    pub open spec fn cpl(self) -> Machine {
        let (r, flags) = alu::cpl8_of(self.a, self.flags);
        Machine { a: r, flags: flags, ..self }
    }

    /// SCF.
    pub open spec fn scf(self) -> Machine {
        Machine { flags: alu::scf_of(self.flags), ..self }
    }

    /// CCF.
    pub open spec fn ccf(self) -> Machine {
        Machine { flags: alu::ccf_of(self.flags), ..self }
    }

    /// RLC.
    pub open spec fn rlc(self, loc: Operand) -> (Machine, Result<(), Fault>) {
        self.modify8(loc, |v: u8, flags: Flags| alu::rlc8_of(v))
    }

    /// RRC.
    pub open spec fn rrc(self, loc: Operand) -> (Machine, Result<(), Fault>) {
        self.modify8(loc, |v: u8, flags: Flags| alu::rrc8_of(v))
    }

    /// RL.
    pub open spec fn rl(self, loc: Operand) -> (Machine, Result<(), Fault>) {
        self.modify8(loc, |v: u8, flags: Flags| alu::rl8_of(v, flags.carry))
    }

    /// RR.
    pub open spec fn rr(self, loc: Operand) -> (Machine, Result<(), Fault>) {
        self.modify8(loc, |v: u8, flags: Flags| alu::rr8_of(v, flags.carry))
    }

    /// SLA.
    pub open spec fn sla(self, loc: Operand) -> (Machine, Result<(), Fault>) {
        self.modify8(loc, |v: u8, flags: Flags| alu::sla8_of(v))
    }

    /// SRA.
    pub open spec fn sra(self, loc: Operand) -> (Machine, Result<(), Fault>) {
        self.modify8(loc, |v: u8, flags: Flags| alu::sra8_of(v))
    }

    /// SRL.
    pub open spec fn srl(self, loc: Operand) -> (Machine, Result<(), Fault>) {
        self.modify8(loc, |v: u8, flags: Flags| alu::srl8_of(v))
    }

    /// SWAP.
    pub open spec fn swap_8(self, loc: Operand) -> (Machine, Result<(), Fault>) {
        self.modify8(loc, |v: u8, flags: Flags| alu::swap8_of(v))
    }

    /// A rotate of A: as the rotate of any operand, but the zero flag is cleared.
    pub open spec fn clear_zero(self, o: (Machine, Result<(), Fault>)) -> (Machine, Result<Timing, Fault>) {
        match o.1 {
            Ok(_) => (Machine { flags: Flags { zero: false, ..o.0.flags }, ..o.0 }, Ok(Timing::Default)),
            Err(e) => (o.0, Err(e)),
        }
    }

    /// RLCA.
    pub open spec fn rlca(self) -> (Machine, Result<Timing, Fault>) {
        self.clear_zero(self.rlc(Operand::Reg(Register::A)))
    }

    /// RRCA.
    pub open spec fn rrca(self) -> (Machine, Result<Timing, Fault>) {
        self.clear_zero(self.rrc(Operand::Reg(Register::A)))
    }

    /// RLA.
    pub open spec fn rla(self) -> (Machine, Result<Timing, Fault>) {
        self.clear_zero(self.rl(Operand::Reg(Register::A)))
    }

    /// RRA.
    pub open spec fn rra(self) -> (Machine, Result<Timing, Fault>) {
        self.clear_zero(self.rr(Operand::Reg(Register::A)))
    }

    /// BIT: the zero flag tells whether bit `n` of the operand is clear. There are bits 0
    /// to 7.
    pub open spec fn bit(self, n: u8, src: Operand) -> (Machine, Result<(), Fault>) {
        if n >= 8 {
            (self, Err(Fault::BadOperand))
        } else {
            let (m1, v) = self.load8(src);
            match v {
                Ok(v) => (Machine { flags: alu::bit8_of(n, v, m1.flags), ..m1 }, Ok(())),
                Err(e) => (m1, Err(e)),
            }
        }
    }

    /// RES: bit `n` of the operand is cleared. No flag changes.
    pub open spec fn res(self, n: u8, loc: Operand) -> (Machine, Result<(), Fault>) {
        if n >= 8 {
            (self, Err(Fault::BadOperand))
        } else {
            self.update8(loc, |v: u8| alu::res8_of(n, v))
        }
    }

    /// SET: bit `n` of the operand is set. No flag changes.
    pub open spec fn set(self, n: u8, loc: Operand) -> (Machine, Result<(), Fault>) {
        if n >= 8 {
            (self, Err(Fault::BadOperand))
        } else {
            self.update8(loc, |v: u8| alu::set8_of(n, v))
        }
    }
}

/// The timing `t` for an operation that went through, its fault for one that did not.
pub open spec fn timed(w: Result<(), Fault>, t: Timing) -> Result<Timing, Fault> {
    match w {
        Ok(_) => Ok(t),
        Err(e) => Err(e),
    }
}

/// ADD of bytes.
pub fn add_8(cpu: &mut CPU, dst: Operand, src: Operand) -> (r: Result<Timing, Fault>)
    ensures
        (final(cpu)@, r) == old(cpu)@.add_8(dst, src),
{
    let a = cpu.load8(dst)?;
    let b = cpu.load8(src)?;
    let (r, f) = alu::add8(a, b);
    cpu.store8(dst, r)?;
    cpu.set_flags(f.zero, f.subtract, f.half_carry, f.carry);
    Ok(Timing::Default)
}

/// ADC.
pub fn adc(cpu: &mut CPU, dst: Operand, src: Operand) -> (r: Result<Timing, Fault>)
    ensures
        (final(cpu)@, r) == old(cpu)@.adc(dst, src),
{
    let a = cpu.load8(dst)?;
    let b = cpu.load8(src)?;
    let c = cpu.status(Flag::CY);
    let (r, f) = alu::adc8(a, b, c);
    cpu.store8(dst, r)?;
    cpu.set_flags(f.zero, f.subtract, f.half_carry, f.carry);
    Ok(Timing::Default)
}

/// SUB.
pub fn sub_8(cpu: &mut CPU, dst: Operand, src: Operand) -> (r: Result<Timing, Fault>)
    ensures
        (final(cpu)@, r) == old(cpu)@.sub_8(dst, src),
{
    let a = cpu.load8(dst)?;
    let b = cpu.load8(src)?;
    let (r, f) = alu::sub8(a, b);
    cpu.store8(dst, r)?;
    cpu.set_flags(f.zero, f.subtract, f.half_carry, f.carry);
    Ok(Timing::Default)
}

/// SBC.
pub fn sbc(cpu: &mut CPU, dst: Operand, src: Operand) -> (r: Result<Timing, Fault>)
    ensures
        (final(cpu)@, r) == old(cpu)@.sbc(dst, src),
{
    let a = cpu.load8(dst)?;
    let b = cpu.load8(src)?;
    let c = cpu.status(Flag::CY);
    let (r, f) = alu::sbc8(a, b, c);
    cpu.store8(dst, r)?;
    cpu.set_flags(f.zero, f.subtract, f.half_carry, f.carry);
    Ok(Timing::Default)
}

/// ADD of words.
pub fn add_16(cpu: &mut CPU, dst: Operand, src: Operand) -> (r: Result<Timing, Fault>)
    ensures
        (final(cpu)@, r) == old(cpu)@.add_16(dst, src),
{
    let a = cpu.load16(dst)?;
    let b = cpu.load16(src)?;
    let (r, f) = alu::add16(a, b, cpu.get_flags());
    cpu.store16(dst, r)?;
    cpu.set_flags(f.zero, f.subtract, f.half_carry, f.carry);
    Ok(Timing::Default)
}

/// AND.
pub fn and(cpu: &mut CPU, src: Operand) -> (r: Result<Timing, Fault>)
    ensures
        (final(cpu)@, r) == old(cpu)@.and(src),
{
    let a = cpu.load8(src)?;
    let (r, f) = alu::and8(a, cpu.a());
    cpu.set_a(r);
    cpu.set_flags(f.zero, f.subtract, f.half_carry, f.carry);
    Ok(Timing::Default)
}

/// XOR.
pub fn xor(cpu: &mut CPU, src: Operand) -> (r: Result<Timing, Fault>)
    ensures
        (final(cpu)@, r) == old(cpu)@.xor(src),
{
    let a = cpu.load8(src)?;
    let (r, f) = alu::xor8(cpu.a(), a);
    cpu.set_a(r);
    cpu.set_flags(f.zero, f.subtract, f.half_carry, f.carry);
    Ok(Timing::Default)
}

/// OR.
pub fn or(cpu: &mut CPU, src: Operand) -> (r: Result<Timing, Fault>)
    ensures
        (final(cpu)@, r) == old(cpu)@.or(src),
{
    let a = cpu.load8(src)?;
    let (r, f) = alu::or8(cpu.a(), a);
    cpu.set_a(r);
    cpu.set_flags(f.zero, f.subtract, f.half_carry, f.carry);
    Ok(Timing::Default)
}

/// CP.
pub fn cp(cpu: &mut CPU, src: Operand) -> (r: Result<Timing, Fault>)
    ensures
        (final(cpu)@, r) == old(cpu)@.cp(src),
{
    let a = cpu.a();
    let value = cpu.load8(src)?;
    let f = alu::cp8(a, value);
    cpu.set_flags(f.zero, f.subtract, f.half_carry, f.carry);
    Ok(Timing::Default)
}

/// INC of a byte.
pub fn inc_8(cpu: &mut CPU, loc: Operand) -> (r: Result<Timing, Fault>)
    ensures
        (final(cpu)@, r) == old(cpu)@.inc_8(loc),
{
    let value = cpu.load8(loc)?;
    let (result, f) = alu::inc8(value, cpu.get_flags());
    cpu.store8(loc, result)?;
    cpu.set_flags(f.zero, f.subtract, f.half_carry, f.carry);
    Ok(Timing::Default)
}

/// DEC of a byte.
pub fn dec_8(cpu: &mut CPU, loc: Operand) -> (r: Result<Timing, Fault>)
    ensures
        (final(cpu)@, r) == old(cpu)@.dec_8(loc),
{
    let value = cpu.load8(loc)?;
    let (result, f) = alu::dec8(value, cpu.get_flags());
    cpu.store8(loc, result)?;
    cpu.set_flags(f.zero, f.subtract, f.half_carry, f.carry);
    Ok(Timing::Default)
}

/// DAA.
pub fn daa(cpu: &mut CPU) -> (t: Timing)
    ensures
        final(cpu)@ == old(cpu)@.daa(),
        t == Timing::Default,
{
    let (a, f) = alu::daa8(cpu.a(), cpu.get_flags());
    cpu.carry(f.carry);
    cpu.zero(f.zero);
    cpu.half_carry(false);
    cpu.set_a(a);
    Timing::Default
}

/// CPL.
pub fn cpl(cpu: &mut CPU) -> (t: Timing)
    ensures
        final(cpu)@ == old(cpu)@.cpl(),
        t == Timing::Default,
{
    let (a, f) = alu::cpl8(cpu.a(), cpu.get_flags());
    cpu.set_a(a);
    cpu.subtract(true);
    cpu.half_carry(true);
    Timing::Default
}

/// SCF.
pub fn scf(cpu: &mut CPU) -> (t: Timing)
    ensures
        final(cpu)@ == old(cpu)@.scf(),
        t == Timing::Default,
{
    cpu.subtract(false);
    cpu.half_carry(false);
    cpu.carry(true);
    Timing::Default
}

/// CCF.
pub fn ccf(cpu: &mut CPU) -> (t: Timing)
    ensures
        final(cpu)@ == old(cpu)@.ccf(),
        t == Timing::Default,
{
    cpu.subtract(false);
    cpu.half_carry(false);
    let c = cpu.status(Flag::CY);
    cpu.carry(!c);
    Timing::Default
}

/// RLC.
pub fn rlc(cpu: &mut CPU, loc: Operand) -> (r: Result<(), Fault>)
    ensures
        (final(cpu)@, r) == old(cpu)@.rlc(loc),
{
    let a = cpu.load8(loc)?;
    let (r, f) = alu::rlc8(a);
    cpu.store8(loc, r)?;
    cpu.set_flags(f.zero, f.subtract, f.half_carry, f.carry);
    Ok(())
}

/// RRC.
pub fn rrc(cpu: &mut CPU, loc: Operand) -> (r: Result<(), Fault>)
    ensures
        (final(cpu)@, r) == old(cpu)@.rrc(loc),
{
    let a = cpu.load8(loc)?;
    let (r, f) = alu::rrc8(a);
    cpu.store8(loc, r)?;
    cpu.set_flags(f.zero, f.subtract, f.half_carry, f.carry);
    Ok(())
}

/// RL.
pub fn rl(cpu: &mut CPU, loc: Operand) -> (r: Result<(), Fault>)
    ensures
        (final(cpu)@, r) == old(cpu)@.rl(loc),
{
    let a = cpu.load8(loc)?;
    let (r, f) = alu::rl8(a, cpu.status(Flag::CY));
    cpu.store8(loc, r)?;
    cpu.set_flags(f.zero, f.subtract, f.half_carry, f.carry);
    Ok(())
}

/// RR.
pub fn rr(cpu: &mut CPU, loc: Operand) -> (r: Result<(), Fault>)
    ensures
        (final(cpu)@, r) == old(cpu)@.rr(loc),
{
    let a = cpu.load8(loc)?;
    let (r, f) = alu::rr8(a, cpu.status(Flag::CY));
    cpu.store8(loc, r)?;
    cpu.set_flags(f.zero, f.subtract, f.half_carry, f.carry);
    Ok(())
}

/// SLA.
pub fn sla(cpu: &mut CPU, loc: Operand) -> (r: Result<(), Fault>)
    ensures
        (final(cpu)@, r) == old(cpu)@.sla(loc),
{
    let a = cpu.load8(loc)?;
    let (r, f) = alu::sla8(a);
    cpu.store8(loc, r)?;
    cpu.set_flags(f.zero, f.subtract, f.half_carry, f.carry);
    Ok(())
}

/// SRA.
pub fn sra(cpu: &mut CPU, loc: Operand) -> (r: Result<(), Fault>)
    ensures
        (final(cpu)@, r) == old(cpu)@.sra(loc),
{
    let a = cpu.load8(loc)?;
    let (r, f) = alu::sra8(a);
    cpu.store8(loc, r)?;
    cpu.set_flags(f.zero, f.subtract, f.half_carry, f.carry);
    Ok(())
}

/// SRL.
pub fn srl(cpu: &mut CPU, loc: Operand) -> (r: Result<(), Fault>)
    ensures
        (final(cpu)@, r) == old(cpu)@.srl(loc),
{
    let a = cpu.load8(loc)?;
    let (r, f) = alu::srl8(a);
    cpu.store8(loc, r)?;
    cpu.set_flags(f.zero, f.subtract, f.half_carry, f.carry);
    Ok(())
}

/// SWAP.
pub fn swap_8(cpu: &mut CPU, loc: Operand) -> (r: Result<(), Fault>)
    ensures
        (final(cpu)@, r) == old(cpu)@.swap_8(loc),
{
    let a = cpu.load8(loc)?;
    let (r, f) = alu::swap8(a);
    cpu.store8(loc, r)?;
    cpu.set_flags(f.zero, f.subtract, f.half_carry, f.carry);
    Ok(())
}

/// RLCA.
pub fn rlca(cpu: &mut CPU) -> (r: Result<Timing, Fault>)
    ensures
        (final(cpu)@, r) == old(cpu)@.rlca(),
{
    rlc(cpu, Operand::Reg(Register::A))?;
    cpu.zero(false);
    Ok(Timing::Default)
}

/// RRCA.
pub fn rrca(cpu: &mut CPU) -> (r: Result<Timing, Fault>)
    ensures
        (final(cpu)@, r) == old(cpu)@.rrca(),
{
    rrc(cpu, Operand::Reg(Register::A))?;
    cpu.zero(false);
    Ok(Timing::Default)
}

/// RLA.
pub fn rla(cpu: &mut CPU) -> (r: Result<Timing, Fault>)
    ensures
        (final(cpu)@, r) == old(cpu)@.rla(),
{
    rl(cpu, Operand::Reg(Register::A))?;
    cpu.zero(false);
    Ok(Timing::Default)
}

/// RRA.
pub fn rra(cpu: &mut CPU) -> (r: Result<Timing, Fault>)
    ensures
        (final(cpu)@, r) == old(cpu)@.rra(),
{
    rr(cpu, Operand::Reg(Register::A))?;
    cpu.zero(false);
    Ok(Timing::Default)
}

/// BIT.
pub fn bit(cpu: &mut CPU, n: u8, src: Operand) -> (r: Result<(), Fault>)
    ensures
        (final(cpu)@, r) == old(cpu)@.bit(n, src),
{
    if n >= 8 {
        return Err(Fault::BadOperand);
    }
    let a = cpu.load8(src)?;
    let f = alu::bit8(n, a, cpu.get_flags());
    cpu.zero(f.zero);
    cpu.subtract(false);
    cpu.half_carry(true);
    Ok(())
}

/// RES.
pub fn res(cpu: &mut CPU, n: u8, loc: Operand) -> (r: Result<(), Fault>)
    ensures
        (final(cpu)@, r) == old(cpu)@.res(n, loc),
{
    if n >= 8 {
        return Err(Fault::BadOperand);
    }
    let a = cpu.load8(loc)?;
    let r = alu::res8(n, a);
    cpu.store8(loc, r)
}

/// SET.
pub fn set(cpu: &mut CPU, n: u8, loc: Operand) -> (r: Result<(), Fault>)
    ensures
        (final(cpu)@, r) == old(cpu)@.set(n, loc),
{
    if n >= 8 {
        return Err(Fault::BadOperand);
    }
    let a = cpu.load8(loc)?;
    let r = alu::set8(n, a);
    cpu.store8(loc, r)
}

} // verus!
