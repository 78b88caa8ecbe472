//! The stack: what is pushed comes back.

use vstd::prelude::*;
use crate::cpu::inner::register::{high, low, pair};
use crate::cpu::inner::{Fault, Flags, Instruction, Operand, Register16, Timing};
use crate::cpu::laws::memory::{cell, law_read_frame, law_write_keeps_wf, law_write_then_read};
use crate::cpu::laws::registers::{halves, halves_value, wide_pair};
use crate::cpu::machine::Machine;

verus! {

/// Whether a word pushed with the stack pointer at `sp` can be popped again: both bytes
/// go to cells.
pub open spec fn stack_backed(sp: u16) -> bool {
    cell(sp.wrapping_sub(1)) is Some && cell(sp.wrapping_sub(2)) is Some
}

/// A push that goes through changes memory, the interrupt registers and the stack
/// pointer, and nothing else.
pub proof fn law_push_frame(m: Machine, v: u8)
    requires
        m.push_u8(v).1 is Ok,
    ensures
        ({
            let m1 = m.push_u8(v).0;
            m1 == Machine {
                sp: m.sp.wrapping_sub(1),
                ram: m1.ram,
                hram: m1.hram,
                int_enable: m1.int_enable,
                int_flags: m1.int_flags,
                ..m
            }
        }),
{
    reveal(Machine::write_mem);
}

/// A byte pushed onto a cell lies where the stack pointer then points, and every other
/// cell reads as before.
pub proof fn law_push_byte(m: Machine, b: u8, other: u16)
    requires
        m.wf(),
        cell(m.sp.wrapping_sub(1)) is Some,
    ensures
        ({
            let (m1, w) = m.push_u8(b);
            &&& w is Ok
            &&& m1.wf()
            &&& m1.sp == m.sp.wrapping_sub(1)
            &&& m1.read_mem(m1.sp) == Ok::<u8, Fault>(b)
            &&& cell(other) != cell(m1.sp) ==> m1.read_mem(other) == m.read_mem(other)
        }),
{
    reveal(Machine::read_mem);
    reveal(Machine::write_mem);
    let at = m.sp.wrapping_sub(1);
    law_write_then_read(m, at, b, at);
    law_write_then_read(m, at, b, other);
    law_write_keeps_wf(m, at, b);
}

/// A byte popped is the byte where the stack pointer points; nothing changes but the
/// stack pointer, which goes up by one.
pub proof fn law_pop_byte(m: Machine)
    ensures
        m.read_mem(m.sp) matches Ok(b) ==> m.pop_u8() == (
            Machine { sp: m.sp.wrapping_add(1), ..m },
            Ok::<u8, Fault>(b),
        ),
        m.read_mem(m.sp) matches Err(e) ==> m.pop_u8() == (m, Err::<u8, Fault>(e)),
{
}

/// A word pushed and popped again comes back as it was, and the stack pointer with it.
pub proof fn law_push_then_pop_word(m: Machine, v: u16)
    requires
        m.wf(),
        stack_backed(m.sp),
    ensures
        ({
            let (m1, w) = m.push_u16(v);
            let (m2, r) = m1.pop_u16();
            &&& w is Ok
            &&& m1.sp == m.sp.wrapping_sub(2)
            &&& r == Ok::<u16, Fault>(v)
            &&& m2.sp == m.sp
            &&& m2 == Machine { sp: m.sp, ..m1 }
        }),
{
    reveal(Machine::push_u16);
    reveal(Machine::pop_u16);
    let hi_at = m.sp.wrapping_sub(1);
    let lo_at = m.sp.wrapping_sub(2);
    assert(hi_at.wrapping_sub(1) == lo_at);
    assert(lo_at.wrapping_add(1) == hi_at);
    assert(hi_at.wrapping_add(1) == m.sp);
    assert(cell(hi_at) != cell(lo_at));
    law_push_byte(m, high(v), hi_at);
    let ma = m.push_u8(high(v)).0;
    law_push_byte(ma, low(v), hi_at);
    let m1 = ma.push_u8(low(v)).0;
    assert(m.push_u16(v) == (m1, Ok::<(), Fault>(())));
    assert(m1.sp == lo_at);
    assert(m1.read_mem(lo_at) == Ok::<u8, Fault>(low(v)));
    assert(m1.read_mem(hi_at) == Ok::<u8, Fault>(high(v)));
    law_pop_byte(m1);
    let mb = Machine { sp: hi_at, ..m1 };
    assert(m1.pop_u8() == (mb, Ok::<u8, Fault>(low(v))));
    law_read_frame(mb, m1, hi_at);
    law_pop_byte(mb);
    assert(mb.pop_u8() == (Machine { sp: m.sp, ..mb }, Ok::<u8, Fault>(high(v))));
    assert(pair(high(v), low(v)) == v);
}

proof fn lemma_write_back(m: Machine, r: Register16)
    requires
        halves(r) is Some,
    ensures
        m.read16(r).1 is Ok,
        m.write16(r, m.read16(r).1->Ok_0) == (m, Ok::<(), Fault>(())),
{
    assert(Flags::of_byte(m.flags.byte()) == m.flags);
    assert(m.flags.byte() % 16 == 0);
    let v = m.read16(r).1->Ok_0;
    let (x, y) = halves_value(m, r);
    assert(v == pair(x, y));
    assert(high(v) == x && low(v) == y);
}

proof fn lemma_push_word_frame(m: Machine, v: u16)
    requires
        m.push_u16(v).1 is Ok,
    ensures
        ({
            let m1 = m.push_u16(v).0;
            m1 == Machine {
                sp: m1.sp,
                ram: m1.ram,
                hram: m1.hram,
                int_enable: m1.int_enable,
                int_flags: m1.int_flags,
                ..m
            }
        }),
{
    reveal(Machine::push_u16);
    law_push_frame(m, high(v));
    law_push_frame(m.push_u8(high(v)).0, low(v));
}

/// PUSH of a register pair and then POP into the same pair restores the pair and leaves
/// the stack pointer where it was; no register changes.
pub proof fn law_push_then_pop(m: Machine, r: Register16)
    requires
        m.wf(),
        halves(r) is Some,
        stack_backed(m.sp),
    ensures
        ({
            let op = Operand::Reg(wide_pair(r));
            let (m1, t1) = m.perform(Instruction::PUSH(op));
            let (m2, t2) = m1.perform(Instruction::POP(op));
            &&& t1 == Ok::<Timing, Fault>(Timing::Default)
            &&& t2 == Ok::<Timing, Fault>(Timing::Default)
            &&& m2.sp == m.sp
            &&& m2.read16(r).1 == m.read16(r).1
            &&& m2 == Machine {
                ram: m2.ram,
                hram: m2.hram,
                int_enable: m2.int_enable,
                int_flags: m2.int_flags,
                ..m
            }
        }),
{
    reveal(Machine::load16);
    reveal(Machine::store16);
    let op = Operand::Reg(wide_pair(r));
    lemma_write_back(m, r);
    let v = m.read16(r).1->Ok_0;
    assert(m.perform(Instruction::PUSH(op)) == m.push(op)) by {
        reveal(Machine::perform);
    }
    assert(m.load16(op) == (m, Ok::<u16, Fault>(v)));
    law_push_then_pop_word(m, v);
    lemma_push_word_frame(m, v);
    let m1 = m.push_u16(v).0;
    assert(m.push(op) == (m1, Ok::<Timing, Fault>(Timing::Default)));
    assert(m1.perform(Instruction::POP(op)) == m1.pop(op)) by {
        reveal(Machine::perform);
    }
    let mp = Machine { sp: m.sp, ..m1 };
    assert(m1.pop_u16() == (mp, Ok::<u16, Fault>(v)));
    assert(mp.store16(op, v) == mp.write16(r, v));
    assert(mp.read16(r) == (mp, Ok::<u16, Fault>(v)));
    lemma_write_back(mp, r);
    assert(m1.pop(op) == (mp, Ok::<Timing, Fault>(Timing::Default)));
}

} // verus!
