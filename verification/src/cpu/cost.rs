//! The cost of instructions in machine cycles: the tables by opcode, and the rule by
//! the shape of the instruction that the tables follow.

use vstd::prelude::*;
use crate::cpu::inner::instructions::{decode_prefixed, decode_raw};
use crate::cpu::inner::{Flag, Instruction, Operand, Register, Timing};
use crate::cpu::instructions::is_wide;

verus! {

/// Clock cycles in a machine cycle.
pub const CLOCKS: u32 = 4;

/// Clock cycles that the dispatch of an interrupt takes.
pub const INTERRUPT_CLOCKS: u32 = 20;

/// The immediate bytes that an operand takes from the instruction stream.
pub open spec fn fetched(op: Operand) -> int {
    match op {
        Operand::Reg(Register::D8) | Operand::ZMem(Register::D8) => 1,
        Operand::Reg(Register::D16) | Operand::Mem(Register::D16) => 2,
        _ => 0,
    }
}

/// The memory cells, outside the instruction stream, that one access to an operand
/// touches.
pub open spec fn accessed(op: Operand) -> int {
    if op is Reg {
        0
    } else {
        1
    }
}

/// Machine cycles of an instruction of the extended table: two for the two bytes of
/// the instruction, and one for each access to memory.
pub open spec fn extended_time(instr: Instruction) -> int {
    match instr {
        Instruction::BIT(_, op) => 2 + accessed(op),
        Instruction::RES(_, op) | Instruction::SET(_, op) | Instruction::RLC(op)
        | Instruction::RRC(op) | Instruction::RL(op) | Instruction::RR(op) | Instruction::SLA(op)
        | Instruction::SRA(op) | Instruction::SWAP(op) | Instruction::SRL(op) => 2 + 2 * accessed(op),
        _ => 0,
    }
}

/// Machine cycles of an instruction of the main table when it transfers control: one for
/// the opcode, one for each immediate byte, one for each byte pushed or popped, and one
/// more where the program counter is loaded from anything but HL. Zero for an instruction
/// that transfers nothing.
pub open spec fn taken_time(instr: Instruction) -> int {
    match instr {
        Instruction::JP(_, op) => if fetched(op) > 0 {
            2 + fetched(op)
        } else {
            1
        },
        Instruction::JR(_, op) => 2 + fetched(op),
        Instruction::CALL(_, op) => 4 + fetched(op),
        Instruction::RET(f) => if f is NF {
            4
        } else {
            5
        },
        Instruction::RETI => 4,
        _ => 0,
    }
}

/// Machine cycles of an instruction of the main table on its ordinary path: one for the
/// opcode, one for each immediate byte and each access to memory, and one more for work
/// on 16 bits inside the processor. An instruction that always transfers control has the
/// cost of the transfer. Zero for the prefix and the instructions behind it.
pub open spec fn default_time(instr: Instruction) -> int {
    match instr {
        Instruction::NOP | Instruction::STOP | Instruction::HCF | Instruction::DI | Instruction::EI
        | Instruction::DAA | Instruction::CPL | Instruction::SCF | Instruction::CCF
        | Instruction::RLCA | Instruction::RRCA | Instruction::RLA | Instruction::RRA => 1,
        Instruction::ADD(op) => if is_wide(op) {
            2
        } else {
            1 + fetched(op) + accessed(op)
        },
        Instruction::ADC(op) | Instruction::SUB(op) | Instruction::SBC(op) | Instruction::AND(op)
        | Instruction::OR(op) | Instruction::XOR(op) | Instruction::CP(op) => 1 + fetched(op)
            + accessed(op),
        Instruction::INC(op) | Instruction::DEC(op) => if is_wide(op) {
            2
        } else {
            1 + 2 * accessed(op)
        },
        Instruction::LD(dst, src) => if is_wide(dst) || is_wide(src) {
            if dst is Mem {
                1 + fetched(dst) + 2
            } else if fetched(src) > 0 {
                1 + fetched(src)
            } else {
                2
            }
        } else {
            1 + fetched(dst) + fetched(src) + accessed(dst) + accessed(src)
        },
        Instruction::LDSP => 3,
        Instruction::ADDSP => 4,
        Instruction::PUSH(_) => 4,
        Instruction::POP(_) => 3,
        Instruction::RST(_) => 4,
        Instruction::JP(f, op) => if f is NF {
            taken_time(instr)
        } else {
            1 + fetched(op)
        },
        Instruction::JR(f, op) => if f is NF {
            taken_time(instr)
        } else {
            1 + fetched(op)
        },
        Instruction::CALL(f, op) => if f is NF {
            taken_time(instr)
        } else {
            1 + fetched(op)
        },
        Instruction::RET(f) => if f is NF {
            taken_time(instr)
        } else {
            2
        },
        Instruction::RETI => taken_time(instr),
        _ => 0,
    }
}

/// Machine cycles of the instruction behind an opcode of the main table on its ordinary
/// path; zero for a byte that is assigned to nothing.
pub open spec fn opcode_time(opcode: u8) -> int {
    match decode_raw(opcode) {
        Some(instr) => default_time(instr),
        None => 0,
    }
}

/// Machine cycles of the instruction behind an opcode of the main table when it
/// transfers control; zero where there is nothing to transfer.
pub open spec fn opcode_cond_time(opcode: u8) -> int {
    match decode_raw(opcode) {
        Some(instr) => taken_time(instr),
        None => 0,
    }
}

/// Clock cycles of the instruction behind `opcode`, which ran with `timing`.
pub open spec fn clocks(opcode: u8, timing: Timing) -> int {
    CLOCKS * match timing {
        Timing::Default => opcode_time(opcode),
        Timing::Flag => opcode_cond_time(opcode),
        Timing::Cb(x) => x as int,
    }
}

/// The table of ordinary costs, in machine cycles, by opcode.
pub fn opcode_times(opcode: u8) -> (r: u32)
    ensures
        r == opcode_time(opcode),
        r <= 6,
{
    match opcode {
        0x01 => 3,
        0x02 => 2,
        0x03 => 2,
        0x06 => 2,
        0x08 => 5,
        0x09 => 2,
        0x0A => 2,
        0x0B => 2,
        0x0E => 2,
        0x11 => 3,
        0x12 => 2,
        0x13 => 2,
        0x16 => 2,
        0x18 => 3,
        0x19 => 2,
        0x1A => 2,
        0x1B => 2,
        0x1E => 2,
        0x20 => 2,
        0x21 => 3,
        0x22 => 2,
        0x23 => 2,
        0x26 => 2,
        0x28 => 2,
        0x29 => 2,
        0x2A => 2,
        0x2B => 2,
        0x2E => 2,
        0x30 => 2,
        0x31 => 3,
        0x32 => 2,
        0x33 => 2,
        0x34 => 3,
        0x35 => 3,
        0x36 => 3,
        0x38 => 2,
        0x39 => 2,
        0x3A => 2,
        0x3B => 2,
        0x3E => 2,
        0x46 => 2,
        0x4E => 2,
        0x56 => 2,
        0x5E => 2,
        0x66 => 2,
        0x6E => 2,
        0x70 => 2,
        0x71 => 2,
        0x72 => 2,
        0x73 => 2,
        0x74 => 2,
        0x75 => 2,
        0x77 => 2,
        0x7E => 2,
        0x86 => 2,
        0x8E => 2,
        0x96 => 2,
        0x9E => 2,
        0xA6 => 2,
        0xAE => 2,
        0xB6 => 2,
        0xBE => 2,
        0xC0 => 2,
        0xC1 => 3,
        0xC2 => 3,
        0xC3 => 4,
        0xC4 => 3,
        0xC5 => 4,
        0xC6 => 2,
        0xC7 => 4,
        0xC8 => 2,
        0xC9 => 4,
        0xCA => 3,
        0xCB => 0,
        0xCC => 3,
        0xCD => 6,
        0xCE => 2,
        0xCF => 4,
        0xD0 => 2,
        0xD1 => 3,
        0xD2 => 3,
        0xD3 => 0,
        0xD4 => 3,
        0xD5 => 4,
        0xD6 => 2,
        0xD7 => 4,
        0xD8 => 2,
        0xD9 => 4,
        0xDA => 3,
        0xDB => 0,
        0xDC => 3,
        0xDD => 0,
        0xDE => 2,
        0xDF => 4,
        0xE0 => 3,
        0xE1 => 3,
        0xE2 => 2,
        0xE3 => 0,
        0xE4 => 0,
        0xE5 => 4,
        0xE6 => 2,
        0xE7 => 4,
        0xE8 => 4,
        0xEA => 4,
        0xEB => 0,
        0xEC => 0,
        0xED => 0,
        0xEE => 2,
        0xEF => 4,
        0xF0 => 3,
        0xF1 => 3,
        0xF2 => 2,
        0xF4 => 0,
        0xF5 => 4,
        0xF6 => 2,
        0xF7 => 4,
        0xF8 => 3,
        0xF9 => 2,
        0xFA => 4,
        0xFC => 0,
        0xFD => 0,
        0xFE => 2,
        0xFF => 4,
        _ => 1,
    }
}

/// The table of costs when control is transferred, in machine cycles, by opcode.
pub fn opcode_cond_times(opcode: u8) -> (r: u32)
    ensures
        r == opcode_cond_time(opcode),
        r <= 6,
{
    match opcode {
        0x18 => 3,
        0x20 => 3,
        0x28 => 3,
        0x30 => 3,
        0x38 => 3,
        0xC0 => 5,
        0xC2 => 4,
        0xC3 => 4,
        0xC4 => 6,
        0xC8 => 5,
        0xC9 => 4,
        0xCA => 4,
        0xCC => 6,
        0xCD => 6,
        0xD0 => 5,
        0xD2 => 4,
        0xD4 => 6,
        0xD8 => 5,
        0xD9 => 4,
        0xDA => 4,
        0xDC => 6,
        0xE9 => 1,
        _ => 0,
    }
}

/// The table of costs of the extended instructions, in machine cycles, by the byte
/// behind the prefix.
pub fn cb_opcode_times(opcode: u8) -> (r: u32)
    ensures
        r == extended_time(decode_prefixed(opcode)),
        2 <= r <= 4,
{
    match opcode {
        0x06 => 4,
        0x0E => 4,
        0x16 => 4,
        0x1E => 4,
        0x26 => 4,
        0x2E => 4,
        0x36 => 4,
        0x3E => 4,
        0x46 => 3,
        0x4E => 3,
        0x56 => 3,
        0x5E => 3,
        0x66 => 3,
        0x6E => 3,
        0x76 => 3,
        0x7E => 3,
        0x86 => 4,
        0x8E => 4,
        0x96 => 4,
        0x9E => 4,
        0xA6 => 4,
        0xAE => 4,
        0xB6 => 4,
        0xBE => 4,
        0xC6 => 4,
        0xCE => 4,
        0xD6 => 4,
        0xDE => 4,
        0xE6 => 4,
        0xEE => 4,
        0xF6 => 4,
        0xFE => 4,
        _ => 2,
    }
}

} // verus!
