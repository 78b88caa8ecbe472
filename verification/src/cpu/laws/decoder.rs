//! The agreement of the decoder with the engine: what is decoded can be run.

use vstd::prelude::*;
use crate::cpu::alu;
use crate::cpu::inner::instructions::{accumulator_op_of, alu_of, condition_of, decode, decode_high, decode_low, decode_prefixed, decode_raw, indirect_of, operand_of, pair_of, rotation_of, stack_pair_of};
use crate::cpu::inner::{Fault, Flags, Instruction, Operand, Register, Timing};
use crate::cpu::instructions::is_wide;
use crate::cpu::laws::memory::{law_memory_faults};
use crate::cpu::machine::Machine;

verus! {

/// Whether the operand can be read as a byte.
pub open spec fn readable8(op: Operand) -> bool {
    match op {
        Operand::Reg(r) => r.narrow() is Some,
        Operand::Mem(r) => r.wide() is Some,
        Operand::ZMem(r) => r.narrow() is Some,
    }
}

/// Whether a byte can be written to the operand.
pub open spec fn writable8(op: Operand) -> bool {
    readable8(op) && op != Operand::Reg(Register::D8)
}

/// Whether a word can be written to the operand.
pub open spec fn writable16(op: Operand) -> bool {
    match op {
        Operand::Reg(r) => r.wide() is Some && r != Register::D16,
        Operand::Mem(r) => r.wide() is Some,
        Operand::ZMem(_) => false,
    }
}

/// Whether every operand of the instruction has the width and the direction in which the
/// instruction uses it, every condition can be tested, and every bit number is one of a
/// byte.
pub open spec fn well_formed(instr: Instruction) -> bool {
    match instr {
        Instruction::ADD(op) => readable8(op) || is_wide(op),
        Instruction::ADC(op) | Instruction::SUB(op) | Instruction::SBC(op) | Instruction::AND(op)
        | Instruction::OR(op) | Instruction::XOR(op) | Instruction::CP(op) => readable8(op),
        Instruction::INC(op) | Instruction::DEC(op) => if is_wide(op) {
            writable16(op)
        } else {
            writable8(op)
        },
        Instruction::CALL(f, op) | Instruction::JP(f, op) => f.is_condition() && is_wide(op),
        Instruction::JR(f, op) => f.is_condition() && readable8(op),
        Instruction::RET(f) => f.is_condition(),
        Instruction::LD(dst, src) => if is_wide(dst) || is_wide(src) {
            is_wide(src) && writable16(dst)
        } else {
            readable8(src) && writable8(dst)
        },
        Instruction::BIT(n, op) => n < 8 && readable8(op),
        Instruction::RES(n, op) | Instruction::SET(n, op) => n < 8 && writable8(op),
        Instruction::SRL(op) | Instruction::RR(op) | Instruction::RL(op) | Instruction::RRC(op)
        | Instruction::RLC(op) | Instruction::SRA(op) | Instruction::SLA(op)
        | Instruction::SWAP(op) => writable8(op),
        Instruction::PUSH(op) => is_wide(op),
        Instruction::POP(op) => writable16(op),
        _ => true,
    }
}

proof fn lemma_fields(code: int, op: Operand)
    ensures
        readable8(operand_of(code)) && writable8(operand_of(code)),
        is_wide(pair_of(code)) && writable16(pair_of(code)),
        is_wide(stack_pair_of(code)) && writable16(stack_pair_of(code)),
        readable8(indirect_of(code)) && writable8(indirect_of(code)),
        condition_of(code).is_condition(),
        readable8(op) ==> well_formed(alu_of(code, op)),
        writable8(op) ==> well_formed(rotation_of(code, op)),
        well_formed(accumulator_op_of(code)),
{
}

proof fn lemma_low_is_well_formed(y: int, z: int)
    requires
        0 <= y < 8,
        0 <= z < 8,
    ensures
        well_formed(decode_low(y, z)),
{
    lemma_fields(y, Operand::Reg(Register::D8));
    lemma_fields(y / 2, Operand::Reg(Register::D8));
    lemma_fields(y - 4, Operand::Reg(Register::D8));
}

proof fn lemma_high_is_well_formed(y: int, z: int)
    requires
        0 <= y < 8,
        0 <= z < 8,
    ensures
        decode_high(y, z) matches Some(instr) ==> well_formed(instr),
{
    lemma_fields(y, Operand::Reg(Register::D8));
    lemma_fields(y / 2, Operand::Reg(Register::D8));
}

/// The decoder hands out well-formed instructions only.
pub proof fn law_decoded_is_well_formed(prefixed: bool, byte: u8)
    ensures
        decode(prefixed, byte) matches Some(instr) ==> well_formed(instr),
{
    let x = byte as int / 64;
    let y = (byte as int / 8) % 8;
    let z = byte as int % 8;
    lemma_fields(y, operand_of(z));
    lemma_fields(z, operand_of(z));
    if prefixed {
    } else if x == 0 {
        lemma_low_is_well_formed(y, z);
    } else if x == 3 {
        lemma_high_is_well_formed(y, z);
    }
}

/// The bytes of the main table that are assigned to nothing are these eleven.
pub proof fn law_unassigned_opcodes(byte: u8)
    ensures
        decode_raw(byte) is None <==> byte == 0xd3 || byte == 0xdb || byte == 0xdd || byte == 0xe3
            || byte == 0xe4 || byte == 0xeb || byte == 0xec || byte == 0xed || byte == 0xf4
            || byte == 0xfc || byte == 0xfd,
        decode_raw(byte) == Some(Instruction::CB_INSTRUCTION) <==> byte == 0xcb,
        !(decode_prefixed(byte) is CB_INSTRUCTION),
{
}

/// An access to an operand reports a bad operand only where the operand lacks the width
/// or the direction of the access.
pub proof fn law_operand_access(m: Machine, op: Operand, b: u8, w: u16)
    ensures
        readable8(op) ==> m.load8(op).1 != Err::<u8, Fault>(Fault::BadOperand),
        writable8(op) ==> m.store8(op, b).1 != Err::<(), Fault>(Fault::BadOperand),
        is_wide(op) ==> m.load16(op).1 != Err::<u16, Fault>(Fault::BadOperand),
        writable16(op) ==> m.store16(op, w).1 != Err::<(), Fault>(Fault::BadOperand),
        m.push_u16(w).1 != Err::<(), Fault>(Fault::BadOperand),
        m.pop_u16().1 != Err::<u16, Fault>(Fault::BadOperand),
        m.d8().1 != Err::<u8, Fault>(Fault::BadOperand),
        m.step().1 != Err::<(bool, u8), Fault>(Fault::BadOperand),
{
    reveal(Machine::load8);
    reveal(Machine::store8);
    reveal(Machine::load16);
    reveal(Machine::store16);
    reveal(Machine::push_u16);
    reveal(Machine::pop_u16);
    assert forall|n: Machine, addr: u16| #[trigger]
        n.read_mem(addr) != Err::<u8, Fault>(Fault::BadOperand) by {
        law_memory_faults(n, addr, 0);
    }
    assert forall|n: Machine, addr: u16, val: u8| (#[trigger] n.write_mem(addr, val)).1 != Err::<
        (),
        Fault,
    >(Fault::BadOperand) by {
        law_memory_faults(n, addr, val);
    }
}

proof fn lemma_shapes_run(
    m: Machine,
    dst: Operand,
    src: Operand,
    f3: spec_fn(u8, u8, Flags) -> (u8, Flags),
    f2: spec_fn(u8, u8) -> (u8, Flags),
    f1: spec_fn(u8, Flags) -> (u8, Flags),
    f0: spec_fn(u8) -> u8,
)
    ensures
        writable8(dst) && readable8(src) ==> m.binary8(dst, src, f3).1 != Err::<Timing, Fault>(
            Fault::BadOperand,
        ),
        readable8(src) ==> m.accumulate(src, f2).1 != Err::<Timing, Fault>(Fault::BadOperand),
        writable8(dst) ==> m.modify8(dst, f1).1 != Err::<(), Fault>(Fault::BadOperand),
        writable8(dst) ==> m.update8(dst, f0).1 != Err::<(), Fault>(Fault::BadOperand),
{
    law_operand_access(m, dst, 0, 0);
    law_operand_access(m, src, 0, 0);
    let m1 = m.load8(dst).0;
    law_operand_access(m1, src, 0, 0);
    let a = m.load8(dst).1->Ok_0;
    let b = m1.load8(src).1->Ok_0;
    let m2 = m1.load8(src).0;
    law_operand_access(m2, dst, f3(a, b, m2.flags).0, 0);
    law_operand_access(m1, dst, f1(a, m1.flags).0, 0);
    law_operand_access(m1, dst, f0(a), 0);
}

proof fn lemma_arithmetic_runs(m: Machine, instr: Instruction)
    requires
        well_formed(instr),
        crate::cpu::is_arithmetic(instr),
    ensures
        m.perform(instr).1 != Err::<Timing, Fault>(Fault::BadOperand),
{
    reveal(Machine::perform);
    let a = Operand::Reg(Register::A);
    let hl = Operand::Reg(Register::HL);
    let id3 = |x: u8, y: u8, f: Flags| (x, f);
    let id2 = |x: u8, y: u8| (x, Flags::of_byte(0));
    let id1 = |x: u8, f: Flags| (x, f);
    let id0 = |x: u8| x;
    match instr {
        Instruction::ADD(op) => {
            if is_wide(op) {
                law_operand_access(m, hl, 0, 0);
                let m1 = m.load16(hl).0;
                law_operand_access(m1, op, 0, 0);
                let m2 = m1.load16(op).0;
                let r = alu::add16_of(m.load16(hl).1->Ok_0, m1.load16(op).1->Ok_0, m2.flags).0;
                law_operand_access(m2, hl, 0, r);
            } else {
                lemma_shapes_run(m, a, op, |x: u8, y: u8, f: Flags| alu::add8_of(x, y), id2, id1, id0);
            }
        },
        Instruction::ADC(op) => {
            lemma_shapes_run(m, a, op, |x: u8, y: u8, f: Flags| alu::adc8_of(x, y, f.carry), id2, id1, id0);
        },
        Instruction::SUB(op) => {
            lemma_shapes_run(m, a, op, |x: u8, y: u8, f: Flags| alu::sub8_of(x, y), id2, id1, id0);
        },
        Instruction::SBC(op) => {
            lemma_shapes_run(m, a, op, |x: u8, y: u8, f: Flags| alu::sbc8_of(x, y, f.carry), id2, id1, id0);
        },
        Instruction::AND(op) => {
            lemma_shapes_run(m, a, op, id3, |x: u8, y: u8| alu::and8_of(y, x), id1, id0);
        },
        Instruction::OR(op) => {
            lemma_shapes_run(m, a, op, id3, |x: u8, y: u8| alu::or8_of(x, y), id1, id0);
        },
        Instruction::XOR(op) => {
            lemma_shapes_run(m, a, op, id3, |x: u8, y: u8| alu::xor8_of(x, y), id1, id0);
        },
        Instruction::CP(op) => {
            law_operand_access(m, op, 0, 0);
        },
        Instruction::INC(op) => {
            if is_wide(op) {
                law_operand_access(m, op, 0, 0);
                law_operand_access(m.load16(op).0, op, 0, (m.load16(op).1->Ok_0).wrapping_add(1));
            } else {
                lemma_shapes_run(m, op, op, id3, id2, |v: u8, f: Flags| alu::inc8_of(v, f), id0);
            }
        },
        Instruction::DEC(op) => {
            if is_wide(op) {
                law_operand_access(m, op, 0, 0);
                law_operand_access(m.load16(op).0, op, 0, (m.load16(op).1->Ok_0).wrapping_sub(1));
            } else {
                lemma_shapes_run(m, op, op, id3, id2, |v: u8, f: Flags| alu::dec8_of(v, f), id0);
            }
        },
        Instruction::RRA => {
            lemma_shapes_run(m, a, a, id3, id2, |v: u8, f: Flags| alu::rr8_of(v, f.carry), id0);
        },
        Instruction::RLA => {
            lemma_shapes_run(m, a, a, id3, id2, |v: u8, f: Flags| alu::rl8_of(v, f.carry), id0);
        },
        Instruction::RRCA => {
            lemma_shapes_run(m, a, a, id3, id2, |v: u8, f: Flags| alu::rrc8_of(v), id0);
        },
        Instruction::RLCA => {
            lemma_shapes_run(m, a, a, id3, id2, |v: u8, f: Flags| alu::rlc8_of(v), id0);
        },
        _ => {},
    }
}

proof fn lemma_extended_runs(m: Machine, instr: Instruction)
    requires
        well_formed(instr),
        crate::cpu::cost::extended_time(instr) > 0,
    ensures
        m.perform(instr).1 != Err::<Timing, Fault>(Fault::BadOperand),
{
    reveal(Machine::perform);
    let id3 = |x: u8, y: u8, f: Flags| (x, f);
    let id2 = |x: u8, y: u8| (x, Flags::of_byte(0));
    let id1 = |x: u8, f: Flags| (x, f);
    let id0 = |x: u8| x;
    match instr {
        Instruction::BIT(n, op) => {
            law_operand_access(m, op, 0, 0);
        },
        Instruction::RES(n, op) => {
            lemma_shapes_run(m, op, op, id3, id2, id1, |v: u8| alu::res8_of(n, v));
        },
        Instruction::SET(n, op) => {
            lemma_shapes_run(m, op, op, id3, id2, id1, |v: u8| alu::set8_of(n, v));
        },
        Instruction::SRL(op) => {
            lemma_shapes_run(m, op, op, id3, id2, |v: u8, f: Flags| alu::srl8_of(v), id0);
        },
        Instruction::RR(op) => {
            lemma_shapes_run(m, op, op, id3, id2, |v: u8, f: Flags| alu::rr8_of(v, f.carry), id0);
        },
        Instruction::RL(op) => {
            lemma_shapes_run(m, op, op, id3, id2, |v: u8, f: Flags| alu::rl8_of(v, f.carry), id0);
        },
        Instruction::RRC(op) => {
            lemma_shapes_run(m, op, op, id3, id2, |v: u8, f: Flags| alu::rrc8_of(v), id0);
        },
        Instruction::RLC(op) => {
            lemma_shapes_run(m, op, op, id3, id2, |v: u8, f: Flags| alu::rlc8_of(v), id0);
        },
        Instruction::SRA(op) => {
            lemma_shapes_run(m, op, op, id3, id2, |v: u8, f: Flags| alu::sra8_of(v), id0);
        },
        Instruction::SLA(op) => {
            lemma_shapes_run(m, op, op, id3, id2, |v: u8, f: Flags| alu::sla8_of(v), id0);
        },
        Instruction::SWAP(op) => {
            lemma_shapes_run(m, op, op, id3, id2, |v: u8, f: Flags| alu::swap8_of(v), id0);
        },
        _ => {},
    }
}

proof fn lemma_load_runs(m: Machine, dst: Operand, src: Operand)
    requires
        well_formed(Instruction::LD(dst, src)),
    ensures
        m.ld(dst, src).1 != Err::<Timing, Fault>(Fault::BadOperand),
        m.ldi(dst, src, Register::HL).1 != Err::<Timing, Fault>(Fault::BadOperand),
        m.ldd(dst, src, Register::HL).1 != Err::<Timing, Fault>(Fault::BadOperand),
{
    law_operand_access(m, src, 0, 0);
    if is_wide(dst) || is_wide(src) {
        law_operand_access(m.load16(src).0, dst, 0, m.load16(src).1->Ok_0);
    } else {
        law_operand_access(m.load8(src).0, dst, m.load8(src).1->Ok_0, 0);
    }
    let m1 = m.ld(dst, src).0;
    let hl = Operand::Reg(Register::HL);
    law_operand_access(m1, hl, 0, 0);
    law_operand_access(m1.load16(hl).0, hl, 0, (m1.load16(hl).1->Ok_0).wrapping_add(1));
    law_operand_access(m1.load16(hl).0, hl, 0, (m1.load16(hl).1->Ok_0).wrapping_sub(1));
}

proof fn lemma_flow_runs(m: Machine, instr: Instruction)
    requires
        well_formed(instr),
    ensures
        !crate::cpu::is_arithmetic(instr) && crate::cpu::cost::extended_time(instr) == 0 && !(instr
            is LD) ==> m.perform(instr).1 != Err::<Timing, Fault>(Fault::BadOperand),
{
    reveal(Machine::perform);
    match instr {
        Instruction::LDSP | Instruction::ADDSP => {
            law_operand_access(m, Operand::Reg(Register::A), 0, 0);
        },
        Instruction::CALL(f, op) => {
            law_operand_access(m, op, 0, 0);
            law_operand_access(m.load16(op).0, op, 0, m.load16(op).0.pc);
        },
        Instruction::JP(f, op) => {
            law_operand_access(m, op, 0, 0);
        },
        Instruction::JR(f, op) => {
            law_operand_access(m, op, 0, 0);
        },
        Instruction::RET(f) => {
            law_operand_access(m, Operand::Reg(Register::A), 0, 0);
        },
        Instruction::RETI => {
            law_operand_access(m.ei(), Operand::Reg(Register::A), 0, 0);
        },
        Instruction::RST(n) => {
            law_operand_access(m, Operand::Reg(Register::A), 0, m.pc);
        },
        Instruction::PUSH(op) => {
            law_operand_access(m, op, 0, 0);
            law_operand_access(m.load16(op).0, op, 0, m.load16(op).1->Ok_0);
        },
        Instruction::POP(op) => {
            law_operand_access(m, op, 0, 0);
            law_operand_access(m.pop_u16().0, op, 0, m.pop_u16().1->Ok_0);
        },
        _ => {},
    }
}

/// A well-formed instruction never fails for a bad operand: what the decoder hands out,
/// the engine can run. Any fault left comes from memory.
pub proof fn law_well_formed_runs(m: Machine, instr: Instruction)
    requires
        well_formed(instr),
    ensures
        m.perform(instr).1 != Err::<Timing, Fault>(Fault::BadOperand),
{
    if crate::cpu::is_arithmetic(instr) {
        lemma_arithmetic_runs(m, instr);
    } else if crate::cpu::cost::extended_time(instr) > 0 {
        lemma_extended_runs(m, instr);
    } else if let Instruction::LD(dst, src) = instr {
        lemma_load_runs(m, dst, src);
        reveal(Machine::perform);
    } else {
        lemma_flow_runs(m, instr);
    }
}

} // verus!
