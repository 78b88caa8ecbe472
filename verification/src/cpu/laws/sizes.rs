//! The sizes of the memories, which no step of the machine changes.

use vstd::prelude::*;
use crate::cpu::alu;
use crate::cpu::inner::instructions::{decode_prefixed, decode_raw};
use crate::cpu::inner::{Flags, Instruction, Operand, Register};
use crate::cpu::instructions::is_wide;
use crate::cpu::laws::interrupts::{served};
use crate::cpu::laws::memory::{law_write_keeps_wf};
use crate::cpu::machine::Machine;

verus! {

/// The machine after reset is well formed.
pub proof fn law_initial_wf()
    ensures
        Machine::initial().wf(),
{
}

/// No access to an operand, to the instruction stream or to the stack changes the size of
/// a memory.
pub proof fn law_access_keeps_wf(m: Machine, op: Operand, b: u8, w: u16)
    requires
        m.wf(),
    ensures
        m.d8().0.wf(),
        m.load8(op).0.wf(),
        m.store8(op, b).0.wf(),
        m.load16(op).0.wf(),
        m.store16(op, w).0.wf(),
        m.push_u16(w).0.wf(),
        m.pop_u16().0.wf(),
        m.step().0.wf(),
{
    reveal(Machine::load8);
    reveal(Machine::store8);
    reveal(Machine::load16);
    reveal(Machine::store16);
    reveal(Machine::push_u16);
    reveal(Machine::pop_u16);
    assert forall|n: Machine, addr: u16, val: u8| n.wf() implies (#[trigger] n.write_mem(
        addr,
        val,
    )).0.wf() by {
        law_write_keeps_wf(n, addr, val);
    }
}

proof fn lemma_shapes_keep_wf(
    m: Machine,
    dst: Operand,
    src: Operand,
    f3: spec_fn(u8, u8, Flags) -> (u8, Flags),
    f2: spec_fn(u8, u8) -> (u8, Flags),
    f1: spec_fn(u8, Flags) -> (u8, Flags),
    f0: spec_fn(u8) -> u8,
)
    requires
        m.wf(),
    ensures
        m.binary8(dst, src, f3).0.wf(),
        m.accumulate(src, f2).0.wf(),
        m.modify8(dst, f1).0.wf(),
        m.update8(dst, f0).0.wf(),
{
    law_access_keeps_wf(m, dst, 0, 0);
    law_access_keeps_wf(m, src, 0, 0);
    let m1 = m.load8(dst).0;
    law_access_keeps_wf(m1, src, 0, 0);
    let a = m.load8(dst).1->Ok_0;
    let b = m1.load8(src).1->Ok_0;
    let m2 = m1.load8(src).0;
    law_access_keeps_wf(m2, dst, f3(a, b, m2.flags).0, 0);
    law_access_keeps_wf(m1, dst, f1(a, m1.flags).0, 0);
    law_access_keeps_wf(m1, dst, f0(a), 0);
}

proof fn lemma_arithmetic_keeps_wf(m: Machine, instr: Instruction)
    requires
        m.wf(),
        crate::cpu::is_arithmetic(instr),
    ensures
        m.perform(instr).0.wf(),
{
    reveal(Machine::perform);
    let a = Operand::Reg(Register::A);
    let hl = Operand::Reg(Register::HL);
    let id3 = |x: u8, y: u8, f: Flags| (x, f);
    let id2 = |x: u8, y: u8| (x, Flags::of_byte(0));
    let id1 = |x: u8, f: Flags| (x, f);
    let id0 = |x: u8| x;
    match instr {
        Instruction::ADD(op) => {
            if is_wide(op) {
                law_access_keeps_wf(m, hl, 0, 0);
                let m1 = m.load16(hl).0;
                law_access_keeps_wf(m1, op, 0, 0);
                let m2 = m1.load16(op).0;
                let r = alu::add16_of(m.load16(hl).1->Ok_0, m1.load16(op).1->Ok_0, m2.flags).0;
                law_access_keeps_wf(m2, hl, 0, r);
            } else {
                lemma_shapes_keep_wf(m, a, op, |x: u8, y: u8, f: Flags| alu::add8_of(x, y), id2, id1, id0);
            }
        },
        Instruction::ADC(op) => {
            lemma_shapes_keep_wf(m, a, op, |x: u8, y: u8, f: Flags| alu::adc8_of(x, y, f.carry), id2, id1, id0);
        },
        Instruction::SUB(op) => {
            lemma_shapes_keep_wf(m, a, op, |x: u8, y: u8, f: Flags| alu::sub8_of(x, y), id2, id1, id0);
        },
        Instruction::SBC(op) => {
            lemma_shapes_keep_wf(m, a, op, |x: u8, y: u8, f: Flags| alu::sbc8_of(x, y, f.carry), id2, id1, id0);
        },
        Instruction::AND(op) => {
            lemma_shapes_keep_wf(m, a, op, id3, |x: u8, y: u8| alu::and8_of(y, x), id1, id0);
        },
        Instruction::OR(op) => {
            lemma_shapes_keep_wf(m, a, op, id3, |x: u8, y: u8| alu::or8_of(x, y), id1, id0);
        },
        Instruction::XOR(op) => {
            lemma_shapes_keep_wf(m, a, op, id3, |x: u8, y: u8| alu::xor8_of(x, y), id1, id0);
        },
        Instruction::CP(op) => {
            law_access_keeps_wf(m, op, 0, 0);
        },
        Instruction::INC(op) => {
            if is_wide(op) {
                law_access_keeps_wf(m, op, 0, 0);
                law_access_keeps_wf(m.load16(op).0, op, 0, (m.load16(op).1->Ok_0).wrapping_add(1));
            } else {
                lemma_shapes_keep_wf(m, op, op, id3, id2, |v: u8, f: Flags| alu::inc8_of(v, f), id0);
            }
        },
        Instruction::DEC(op) => {
            if is_wide(op) {
                law_access_keeps_wf(m, op, 0, 0);
                law_access_keeps_wf(m.load16(op).0, op, 0, (m.load16(op).1->Ok_0).wrapping_sub(1));
            } else {
                lemma_shapes_keep_wf(m, op, op, id3, id2, |v: u8, f: Flags| alu::dec8_of(v, f), id0);
            }
        },
        Instruction::RRA => {
            lemma_shapes_keep_wf(m, a, a, id3, id2, |v: u8, f: Flags| alu::rr8_of(v, f.carry), id0);
        },
        Instruction::RLA => {
            lemma_shapes_keep_wf(m, a, a, id3, id2, |v: u8, f: Flags| alu::rl8_of(v, f.carry), id0);
        },
        Instruction::RRCA => {
            lemma_shapes_keep_wf(m, a, a, id3, id2, |v: u8, f: Flags| alu::rrc8_of(v), id0);
        },
        Instruction::RLCA => {
            lemma_shapes_keep_wf(m, a, a, id3, id2, |v: u8, f: Flags| alu::rlc8_of(v), id0);
        },
        _ => {},
    }
}

proof fn lemma_extended_keeps_wf(m: Machine, instr: Instruction)
    requires
        m.wf(),
        crate::cpu::cost::extended_time(instr) > 0,
    ensures
        m.perform(instr).0.wf(),
{
    reveal(Machine::perform);
    let id3 = |x: u8, y: u8, f: Flags| (x, f);
    let id2 = |x: u8, y: u8| (x, Flags::of_byte(0));
    let id1 = |x: u8, f: Flags| (x, f);
    let id0 = |x: u8| x;
    match instr {
        Instruction::BIT(n, op) => {
            law_access_keeps_wf(m, op, 0, 0);
        },
        Instruction::RES(n, op) => {
            lemma_shapes_keep_wf(m, op, op, id3, id2, id1, |v: u8| alu::res8_of(n, v));
        },
        Instruction::SET(n, op) => {
            lemma_shapes_keep_wf(m, op, op, id3, id2, id1, |v: u8| alu::set8_of(n, v));
        },
        Instruction::SRL(op) => {
            lemma_shapes_keep_wf(m, op, op, id3, id2, |v: u8, f: Flags| alu::srl8_of(v), id0);
        },
        Instruction::RR(op) => {
            lemma_shapes_keep_wf(m, op, op, id3, id2, |v: u8, f: Flags| alu::rr8_of(v, f.carry), id0);
        },
        Instruction::RL(op) => {
            lemma_shapes_keep_wf(m, op, op, id3, id2, |v: u8, f: Flags| alu::rl8_of(v, f.carry), id0);
        },
        Instruction::RRC(op) => {
            lemma_shapes_keep_wf(m, op, op, id3, id2, |v: u8, f: Flags| alu::rrc8_of(v), id0);
        },
        Instruction::RLC(op) => {
            lemma_shapes_keep_wf(m, op, op, id3, id2, |v: u8, f: Flags| alu::rlc8_of(v), id0);
        },
        Instruction::SRA(op) => {
            lemma_shapes_keep_wf(m, op, op, id3, id2, |v: u8, f: Flags| alu::sra8_of(v), id0);
        },
        Instruction::SLA(op) => {
            lemma_shapes_keep_wf(m, op, op, id3, id2, |v: u8, f: Flags| alu::sla8_of(v), id0);
        },
        Instruction::SWAP(op) => {
            lemma_shapes_keep_wf(m, op, op, id3, id2, |v: u8, f: Flags| alu::swap8_of(v), id0);
        },
        _ => {},
    }
}

proof fn lemma_load_keeps_wf(m: Machine, dst: Operand, src: Operand)
    requires
        m.wf(),
    ensures
        m.ld(dst, src).0.wf(),
        m.ldi(dst, src, Register::HL).0.wf(),
        m.ldd(dst, src, Register::HL).0.wf(),
{
    law_access_keeps_wf(m, src, 0, 0);
    law_access_keeps_wf(m.load16(src).0, dst, 0, m.load16(src).1->Ok_0);
    law_access_keeps_wf(m.load8(src).0, dst, m.load8(src).1->Ok_0, 0);
    let m1 = m.ld(dst, src).0;
    let hl = Operand::Reg(Register::HL);
    law_access_keeps_wf(m1, hl, 0, 0);
    law_access_keeps_wf(m1.load16(hl).0, hl, 0, (m1.load16(hl).1->Ok_0).wrapping_add(1));
    law_access_keeps_wf(m1.load16(hl).0, hl, 0, (m1.load16(hl).1->Ok_0).wrapping_sub(1));
}

proof fn lemma_flow_keeps_wf(m: Machine, instr: Instruction)
    requires
        m.wf(),
        !crate::cpu::is_arithmetic(instr),
        crate::cpu::cost::extended_time(instr) == 0,
        !(instr is LD),
    ensures
        m.perform(instr).0.wf(),
{
    reveal(Machine::perform);
    let a = Operand::Reg(Register::A);
    match instr {
        Instruction::CALL(f, op) => {
            law_access_keeps_wf(m, op, 0, 0);
            law_access_keeps_wf(m.load16(op).0, op, 0, m.load16(op).0.pc);
        },
        Instruction::JP(f, op) => {
            law_access_keeps_wf(m, op, 0, 0);
        },
        Instruction::JR(f, op) => {
            law_access_keeps_wf(m, op, 0, 0);
        },
        Instruction::RET(f) => {
            law_access_keeps_wf(m, a, 0, 0);
        },
        Instruction::RETI => {
            law_access_keeps_wf(m.ei(), a, 0, 0);
        },
        Instruction::RST(n) => {
            law_access_keeps_wf(m, a, 0, m.pc);
        },
        Instruction::PUSH(op) => {
            law_access_keeps_wf(m, op, 0, 0);
            law_access_keeps_wf(m.load16(op).0, op, 0, m.load16(op).1->Ok_0);
        },
        Instruction::POP(op) => {
            law_access_keeps_wf(m, op, 0, 0);
            law_access_keeps_wf(m.pop_u16().0, op, 0, m.pop_u16().1->Ok_0);
        },
        Instruction::LDSP | Instruction::ADDSP => {
            law_access_keeps_wf(m, a, 0, 0);
        },
        _ => {},
    }
}

/// No instruction changes the size of a memory, whether it goes through or not.
pub proof fn law_perform_keeps_wf(m: Machine, instr: Instruction)
    requires
        m.wf(),
    ensures
        m.perform(instr).0.wf(),
{
    if crate::cpu::is_arithmetic(instr) {
        lemma_arithmetic_keeps_wf(m, instr);
    } else if crate::cpu::cost::extended_time(instr) > 0 {
        lemma_extended_keeps_wf(m, instr);
    } else if let Instruction::LD(dst, src) = instr {
        lemma_load_keeps_wf(m, dst, src);
        reveal(Machine::perform);
    } else {
        lemma_flow_keeps_wf(m, instr);
    }
}

/// The dispatch of interrupts and the fetch of an opcode keep a machine well formed.
pub proof fn law_fetch_keeps_wf(m: Machine)
    requires
        m.wf(),
    ensures
        m.handle_interrupt().0.wf(),
        m.step().0.wf(),
{
    let a = Operand::Reg(Register::A);
    law_access_keeps_wf(served(m), a, 0, m.pc);
    law_access_keeps_wf(m, a, 0, 0);
}

/// The execution of an instruction keeps a machine well formed, whether it is given
/// decoded or by its opcode.
pub proof fn law_execute_keeps_wf(m: Machine, instr: Instruction, opcode: u8)
    requires
        m.wf(),
    ensures
        m.execute(instr).0.wf(),
        m.execute_instruction(opcode).0.wf(),
        m.execute_cb_instruction(opcode).0.wf(),
{
    let a = Operand::Reg(Register::A);
    law_access_keeps_wf(m, a, 0, 0);
    let (m1, b) = m.d8();
    if b is Ok {
        law_perform_keeps_wf(m1, decode_prefixed(b->Ok_0));
    }
    law_perform_keeps_wf(m, instr);
    law_perform_keeps_wf(m, decode_prefixed(opcode));
    if decode_raw(opcode) is Some {
        law_perform_keeps_wf(m, decode_raw(opcode)->0);
    }
}

/// A well-formed machine stays well formed through every cycle, whether the cycle goes
/// through or not.
pub proof fn law_cycle_keeps_wf(m: Machine)
    requires
        m.wf(),
    ensures
        m.cycle().0.wf(),
{
    law_fetch_keeps_wf(m);
    let m1 = m.handle_interrupt().0;
    law_fetch_keeps_wf(m1);
    let (m2, fetched) = m1.step();
    if fetched is Ok {
        let (prefixed, byte) = fetched->Ok_0;
        law_execute_keeps_wf(m2, Instruction::NOP, byte);
    }
}

} // verus!
