//! The decoder: the instruction behind each byte of the main and of the extended opcode
//! table.

use vstd::prelude::*;
use crate::cpu::inner::flag_register::Flag;
use crate::cpu::inner::register::Operand;
use crate::cpu::inner::register::Operand::{Mem, Reg, ZMem};
use crate::cpu::inner::register::Register::{A, AF, B, BC, C, D, D16, D8, DE, E, H, HL, HLd, HLi, L, SP};

verus! {

/// A decoded instruction: what to do, and on which operands.
#[derive(Clone, Copy, Debug, PartialEq, Eq, Structural)]
pub enum Instruction {
    /// No operation.
    NOP,
    /// Adds an 8-bit operand to A, or a 16-bit register to HL.
    ADD(Operand),
    /// Adds an 8-bit operand and the carry to A.
    ADC(Operand),
    /// Subtracts an 8-bit operand from A.
    SUB(Operand),
    /// Subtracts an 8-bit operand and the carry from A.
    SBC(Operand),
    /// Ands an 8-bit operand into A.
    AND(Operand),
    /// Ors an 8-bit operand into A.
    OR(Operand),
    /// Exclusive-ors an 8-bit operand into A.
    XOR(Operand),
    /// Compares A with an 8-bit operand.
    CP(Operand),
    /// Calls the address in the operand if the condition holds.
    CALL(Flag, Operand),
    /// Jumps to the address in the operand if the condition holds.
    JP(Flag, Operand),
    /// Jumps by the signed displacement in the operand if the condition holds.
    JR(Flag, Operand),
    /// Adds one to an operand of either width.
    INC(Operand),
    /// Takes one from an operand of either width.
    DEC(Operand),
    /// Adjusts A to binary-coded decimal.
    DAA,
    /// Flips the carry flag.
    CCF,
    /// Sets the carry flag.
    SCF,
    /// Rotates A right through the carry.
    RRA,
    /// Rotates A left through the carry.
    RLA,
    /// Rotates A right.
    RRCA,
    /// Rotates A left.
    RLCA,
    /// Complements A.
    CPL,
    /// Loads the first operand from the second.
    LD(Operand, Operand),
    /// Loads HL with the stack pointer moved by the signed immediate byte.
    LDSP,
    /// Moves the stack pointer by the signed immediate byte.
    ADDSP,
    /// Tests a bit of an operand.
    BIT(u8, Operand),
    /// Clears a bit of an operand.
    RES(u8, Operand),
    /// Sets a bit of an operand.
    SET(u8, Operand),
    /// Shifts an operand right, bit 7 becoming zero.
    SRL(Operand),
    /// Rotates an operand right through the carry.
    RR(Operand),
    /// Rotates an operand left through the carry.
    RL(Operand),
    /// Rotates an operand right.
    RRC(Operand),
    /// Rotates an operand left.
    RLC(Operand),
    /// Shifts an operand right, bit 7 keeping its value.
    SRA(Operand),
    /// Shifts an operand left.
    SLA(Operand),
    /// Swaps the nibbles of an operand.
    SWAP(Operand),
    /// Halts until an interrupt is pending.
    HCF,
    /// Pops a register pair from the stack.
    POP(Operand),
    /// Pushes a register pair onto the stack.
    PUSH(Operand),
    /// Stops the processor. Handled as no operation.
    STOP,
    /// Calls a fixed address in page zero.
    RST(u16),
    /// Returns if the condition holds.
    RET(Flag),
    /// Returns and enables interrupts.
    RETI,
    /// Enables interrupts.
    EI,
    /// Disables interrupts.
    DI,
    /// The prefix byte: the next byte selects from the extended table.
    #[allow(non_camel_case_types)]
    CB_INSTRUCTION,
}

/// The 8-bit operand that the three-bit field `code` of an opcode selects.
pub open spec fn operand_of(code: int) -> Operand {
    if code == 0 {
        Reg(B)
    } else if code == 1 {
        Reg(C)
    } else if code == 2 {
        Reg(D)
    } else if code == 3 {
        Reg(E)
    } else if code == 4 {
        Reg(H)
    } else if code == 5 {
        Reg(L)
    } else if code == 6 {
        Mem(HL)
    } else {
        Reg(A)
    }
}

/// The register pair that the two-bit field `code` selects in loads and arithmetic.
pub open spec fn pair_of(code: int) -> Operand {
    if code == 0 {
        Reg(BC)
    } else if code == 1 {
        Reg(DE)
    } else if code == 2 {
        Reg(HL)
    } else {
        Reg(SP)
    }
}

/// The register pair that the two-bit field `code` selects in pushes and pops.
pub open spec fn stack_pair_of(code: int) -> Operand {
    if code == 3 {
        Reg(AF)
    } else {
        pair_of(code)
    }
}

/// The memory operand that the two-bit field `code` selects in the indirect loads of A.
pub open spec fn indirect_of(code: int) -> Operand {
    if code == 0 {
        Mem(BC)
    } else if code == 1 {
        Mem(DE)
    } else if code == 2 {
        Mem(HLi)
    } else {
        Mem(HLd)
    }
}

/// The condition that the two-bit field `code` selects.
pub open spec fn condition_of(code: int) -> Flag {
    if code == 0 {
        Flag::NZ
    } else if code == 1 {
        Flag::Z
    } else if code == 2 {
        Flag::NC
    } else {
        Flag::CY
    }
}

/// The arithmetic or logic instruction on A that the three-bit field `code` selects.
pub open spec fn alu_of(code: int, op: Operand) -> Instruction {
    if code == 0 {
        Instruction::ADD(op)
    } else if code == 1 {
        Instruction::ADC(op)
    } else if code == 2 {
        Instruction::SUB(op)
    } else if code == 3 {
        Instruction::SBC(op)
    } else if code == 4 {
        Instruction::AND(op)
    } else if code == 5 {
        Instruction::XOR(op)
    } else if code == 6 {
        Instruction::OR(op)
    } else {
        Instruction::CP(op)
    }
}

/// The rotate or shift that the three-bit field `code` selects.
pub open spec fn rotation_of(code: int, op: Operand) -> Instruction {
    if code == 0 {
        Instruction::RLC(op)
    } else if code == 1 {
        Instruction::RRC(op)
    } else if code == 2 {
        Instruction::RL(op)
    } else if code == 3 {
        Instruction::RR(op)
    } else if code == 4 {
        Instruction::SLA(op)
    } else if code == 5 {
        Instruction::SRA(op)
    } else if code == 6 {
        Instruction::SWAP(op)
    } else {
        Instruction::SRL(op)
    }
}

/// The operation on A or the flags that the three-bit field `code` selects.
pub open spec fn accumulator_op_of(code: int) -> Instruction {
    if code == 0 {
        Instruction::RLCA
    } else if code == 1 {
        Instruction::RRCA
    } else if code == 2 {
        Instruction::RLA
    } else if code == 3 {
        Instruction::RRA
    } else if code == 4 {
        Instruction::DAA
    } else if code == 5 {
        Instruction::CPL
    } else if code == 6 {
        Instruction::SCF
    } else {
        Instruction::CCF
    }
}

/// The first quarter of the main table, 0x00 to 0x3F, by the fields `y` (bits 5 to 3) and
/// `z` (bits 2 to 0) of the opcode.
pub open spec fn decode_low(y: int, z: int) -> Instruction {
    if z == 0 {
        if y == 0 {
            Instruction::NOP
        } else if y == 1 {
            Instruction::LD(Mem(D16), Reg(SP))
        } else if y == 2 {
            Instruction::STOP
        } else if y == 3 {
            Instruction::JR(Flag::NF, Reg(D8))
        } else {
            Instruction::JR(condition_of(y - 4), Reg(D8))
        }
    } else if z == 1 {
        if y % 2 == 0 {
            Instruction::LD(pair_of(y / 2), Reg(D16))
        } else {
            Instruction::ADD(pair_of(y / 2))
        }
    } else if z == 2 {
        if y % 2 == 0 {
            Instruction::LD(indirect_of(y / 2), Reg(A))
        } else {
            Instruction::LD(Reg(A), indirect_of(y / 2))
        }
    } else if z == 3 {
        if y % 2 == 0 {
            Instruction::INC(pair_of(y / 2))
        } else {
            Instruction::DEC(pair_of(y / 2))
        }
    } else if z == 4 {
        Instruction::INC(operand_of(y))
    } else if z == 5 {
        Instruction::DEC(operand_of(y))
    } else if z == 6 {
        Instruction::LD(operand_of(y), Reg(D8))
    } else {
        accumulator_op_of(y)
    }
}

/// The last quarter of the main table, 0xC0 to 0xFF, by the fields `y` and `z` of the
/// opcode. Eleven bytes of it are assigned to nothing.
pub open spec fn decode_high(y: int, z: int) -> Option<Instruction> {
    if z == 0 {
        if y < 4 {
            Some(Instruction::RET(condition_of(y)))
        } else if y == 4 {
            Some(Instruction::LD(ZMem(D8), Reg(A)))
        } else if y == 5 {
            Some(Instruction::ADDSP)
        } else if y == 6 {
            Some(Instruction::LD(Reg(A), ZMem(D8)))
        } else {
            Some(Instruction::LDSP)
        }
    } else if z == 1 {
        if y % 2 == 0 {
            Some(Instruction::POP(stack_pair_of(y / 2)))
        } else if y == 1 {
            Some(Instruction::RET(Flag::NF))
        } else if y == 3 {
            Some(Instruction::RETI)
        } else if y == 5 {
            Some(Instruction::JP(Flag::NF, Reg(HL)))
        } else {
            Some(Instruction::LD(Reg(SP), Reg(HL)))
        }
    } else if z == 2 {
        if y < 4 {
            Some(Instruction::JP(condition_of(y), Reg(D16)))
        } else if y == 4 {
            Some(Instruction::LD(ZMem(C), Reg(A)))
        } else if y == 5 {
            Some(Instruction::LD(Mem(D16), Reg(A)))
        } else if y == 6 {
            Some(Instruction::LD(Reg(A), ZMem(C)))
        } else {
            Some(Instruction::LD(Reg(A), Mem(D16)))
        }
    } else if z == 3 {
        if y == 0 {
            Some(Instruction::JP(Flag::NF, Reg(D16)))
        } else if y == 1 {
            Some(Instruction::CB_INSTRUCTION)
        } else if y == 6 {
            Some(Instruction::DI)
        } else if y == 7 {
            Some(Instruction::EI)
        } else {
            None
        }
    } else if z == 4 {
        if y < 4 {
            Some(Instruction::CALL(condition_of(y), Reg(D16)))
        } else {
            None
        }
    } else if z == 5 {
        if y % 2 == 0 {
            Some(Instruction::PUSH(stack_pair_of(y / 2)))
        } else if y == 1 {
            Some(Instruction::CALL(Flag::NF, Reg(D16)))
        } else {
            None
        }
    } else if z == 6 {
        Some(alu_of(y, Reg(D8)))
    } else {
        Some(Instruction::RST((y * 8) as u16))
    }
}

/// The instruction that a byte of the main table stands for, if any: by quarter (bits 7
/// and 6) and the fields `y` (bits 5 to 3) and `z` (bits 2 to 0).
pub open spec fn decode_raw(byte: u8) -> Option<Instruction> {
    let x = byte as int / 64;
    let y = (byte as int / 8) % 8;
    let z = byte as int % 8;
    if x == 0 {
        Some(decode_low(y, z))
    } else if x == 1 {
        if y == 6 && z == 6 {
            Some(Instruction::HCF)
        } else {
            Some(Instruction::LD(operand_of(y), operand_of(z)))
        }
    } else if x == 2 {
        Some(alu_of(y, operand_of(z)))
    } else {
        decode_high(y, z)
    }
}

/// The instruction that a byte of the extended table stands for. Every byte has one.
pub open spec fn decode_prefixed(byte: u8) -> Instruction {
    let x = byte as int / 64;
    let y = (byte as int / 8) % 8;
    let z = byte as int % 8;
    if x == 0 {
        rotation_of(y, operand_of(z))
    } else if x == 1 {
        Instruction::BIT(y as u8, operand_of(z))
    } else if x == 2 {
        Instruction::RES(y as u8, operand_of(z))
    } else {
        Instruction::SET(y as u8, operand_of(z))
    }
}

/// The instruction that a byte stands for in the main table or, after the prefix, in the
/// extended one.
pub open spec fn decode(prefixed: bool, byte: u8) -> Option<Instruction> {
    if prefixed {
        Some(decode_prefixed(byte))
    } else {
        decode_raw(byte)
    }
}

impl Instruction {
    /// Decodes a byte: `None` for the bytes of the main table that are assigned to nothing.
    pub fn from_memory(prefixed: bool, byte: u8) -> (r: Option<Instruction>)
        ensures
            r == decode(prefixed, byte),
    {
        if !prefixed {
            Self::from_raw_instruction(byte)
        } else {
            Some(Self::from_prefixed_instruction(byte))
        }
    }

    /// Looks a byte up in the main table.
    pub fn from_raw_instruction(byte: u8) -> (r: Option<Instruction>)
        ensures
            r == decode_raw(byte),
    {
        match byte {
            0x00 => Some(Instruction::NOP),
            0x01 => Some(Instruction::LD(Reg(BC), Reg(D16))),
            0x02 => Some(Instruction::LD(Mem(BC), Reg(A))),
            0x03 => Some(Instruction::INC(Reg(BC))),
            0x04 => Some(Instruction::INC(Reg(B))),
            0x05 => Some(Instruction::DEC(Reg(B))),
            0x06 => Some(Instruction::LD(Reg(B), Reg(D8))),
            0x07 => Some(Instruction::RLCA),
            0x08 => Some(Instruction::LD(Mem(D16), Reg(SP))),
            0x09 => Some(Instruction::ADD(Reg(BC))),
            0x0A => Some(Instruction::LD(Reg(A), Mem(BC))),
            0x0B => Some(Instruction::DEC(Reg(BC))),
            0x0C => Some(Instruction::INC(Reg(C))),
            0x0D => Some(Instruction::DEC(Reg(C))),
            0x0E => Some(Instruction::LD(Reg(C), Reg(D8))),
            0x0F => Some(Instruction::RRCA),
            0x10 => Some(Instruction::STOP),
            0x11 => Some(Instruction::LD(Reg(DE), Reg(D16))),
            0x12 => Some(Instruction::LD(Mem(DE), Reg(A))),
            0x13 => Some(Instruction::INC(Reg(DE))),
            0x14 => Some(Instruction::INC(Reg(D))),
            0x15 => Some(Instruction::DEC(Reg(D))),
            0x16 => Some(Instruction::LD(Reg(D), Reg(D8))),
            0x17 => Some(Instruction::RLA),
            0x18 => Some(Instruction::JR(Flag::NF, Reg(D8))),
            0x19 => Some(Instruction::ADD(Reg(DE))),
            0x1A => Some(Instruction::LD(Reg(A), Mem(DE))),
            0x1B => Some(Instruction::DEC(Reg(DE))),
            0x1C => Some(Instruction::INC(Reg(E))),
            0x1D => Some(Instruction::DEC(Reg(E))),
            0x1E => Some(Instruction::LD(Reg(E), Reg(D8))),
            0x1F => Some(Instruction::RRA),
            0x20 => Some(Instruction::JR(Flag::NZ, Reg(D8))),
            0x21 => Some(Instruction::LD(Reg(HL), Reg(D16))),
            0x22 => Some(Instruction::LD(Mem(HLi), Reg(A))),
            0x23 => Some(Instruction::INC(Reg(HL))),
            0x24 => Some(Instruction::INC(Reg(H))),
            0x25 => Some(Instruction::DEC(Reg(H))),
            0x26 => Some(Instruction::LD(Reg(H), Reg(D8))),
            0x27 => Some(Instruction::DAA),
            0x28 => Some(Instruction::JR(Flag::Z, Reg(D8))),
            0x29 => Some(Instruction::ADD(Reg(HL))),
            0x2A => Some(Instruction::LD(Reg(A), Mem(HLi))),
            0x2B => Some(Instruction::DEC(Reg(HL))),
            0x2C => Some(Instruction::INC(Reg(L))),
            0x2D => Some(Instruction::DEC(Reg(L))),
            0x2E => Some(Instruction::LD(Reg(L), Reg(D8))),
            0x2F => Some(Instruction::CPL),
            0x30 => Some(Instruction::JR(Flag::NC, Reg(D8))),
            0x31 => Some(Instruction::LD(Reg(SP), Reg(D16))),
            0x32 => Some(Instruction::LD(Mem(HLd), Reg(A))),
            0x33 => Some(Instruction::INC(Reg(SP))),
            0x34 => Some(Instruction::INC(Mem(HL))),
            0x35 => Some(Instruction::DEC(Mem(HL))),
            0x36 => Some(Instruction::LD(Mem(HL), Reg(D8))),
            0x37 => Some(Instruction::SCF),
            0x38 => Some(Instruction::JR(Flag::CY, Reg(D8))),
            0x39 => Some(Instruction::ADD(Reg(SP))),
            0x3A => Some(Instruction::LD(Reg(A), Mem(HLd))),
            0x3B => Some(Instruction::DEC(Reg(SP))),
            0x3C => Some(Instruction::INC(Reg(A))),
            0x3D => Some(Instruction::DEC(Reg(A))),
            0x3E => Some(Instruction::LD(Reg(A), Reg(D8))),
            0x3F => Some(Instruction::CCF),
            0x40 => Some(Instruction::LD(Reg(B), Reg(B))),
            0x41 => Some(Instruction::LD(Reg(B), Reg(C))),
            0x42 => Some(Instruction::LD(Reg(B), Reg(D))),
            0x43 => Some(Instruction::LD(Reg(B), Reg(E))),
            0x44 => Some(Instruction::LD(Reg(B), Reg(H))),
            0x45 => Some(Instruction::LD(Reg(B), Reg(L))),
            0x46 => Some(Instruction::LD(Reg(B), Mem(HL))),
            0x47 => Some(Instruction::LD(Reg(B), Reg(A))),
            0x48 => Some(Instruction::LD(Reg(C), Reg(B))),
            0x49 => Some(Instruction::LD(Reg(C), Reg(C))),
            0x4A => Some(Instruction::LD(Reg(C), Reg(D))),
            0x4B => Some(Instruction::LD(Reg(C), Reg(E))),
            0x4C => Some(Instruction::LD(Reg(C), Reg(H))),
            0x4D => Some(Instruction::LD(Reg(C), Reg(L))),
            0x4E => Some(Instruction::LD(Reg(C), Mem(HL))),
            0x4F => Some(Instruction::LD(Reg(C), Reg(A))),
            0x50 => Some(Instruction::LD(Reg(D), Reg(B))),
            0x51 => Some(Instruction::LD(Reg(D), Reg(C))),
            0x52 => Some(Instruction::LD(Reg(D), Reg(D))),
            0x53 => Some(Instruction::LD(Reg(D), Reg(E))),
            0x54 => Some(Instruction::LD(Reg(D), Reg(H))),
            0x55 => Some(Instruction::LD(Reg(D), Reg(L))),
            0x56 => Some(Instruction::LD(Reg(D), Mem(HL))),
            0x57 => Some(Instruction::LD(Reg(D), Reg(A))),
            0x58 => Some(Instruction::LD(Reg(E), Reg(B))),
            0x59 => Some(Instruction::LD(Reg(E), Reg(C))),
            0x5A => Some(Instruction::LD(Reg(E), Reg(D))),
            0x5B => Some(Instruction::LD(Reg(E), Reg(E))),
            0x5C => Some(Instruction::LD(Reg(E), Reg(H))),
            0x5D => Some(Instruction::LD(Reg(E), Reg(L))),
            0x5E => Some(Instruction::LD(Reg(E), Mem(HL))),
            0x5F => Some(Instruction::LD(Reg(E), Reg(A))),
            0x60 => Some(Instruction::LD(Reg(H), Reg(B))),
            0x61 => Some(Instruction::LD(Reg(H), Reg(C))),
            0x62 => Some(Instruction::LD(Reg(H), Reg(D))),
            0x63 => Some(Instruction::LD(Reg(H), Reg(E))),
            0x64 => Some(Instruction::LD(Reg(H), Reg(H))),
            0x65 => Some(Instruction::LD(Reg(H), Reg(L))),
            0x66 => Some(Instruction::LD(Reg(H), Mem(HL))),
            0x67 => Some(Instruction::LD(Reg(H), Reg(A))),
            0x68 => Some(Instruction::LD(Reg(L), Reg(B))),
            0x69 => Some(Instruction::LD(Reg(L), Reg(C))),
            0x6A => Some(Instruction::LD(Reg(L), Reg(D))),
            0x6B => Some(Instruction::LD(Reg(L), Reg(E))),
            0x6C => Some(Instruction::LD(Reg(L), Reg(H))),
            0x6D => Some(Instruction::LD(Reg(L), Reg(L))),
            0x6E => Some(Instruction::LD(Reg(L), Mem(HL))),
            0x6F => Some(Instruction::LD(Reg(L), Reg(A))),
            0x70 => Some(Instruction::LD(Mem(HL), Reg(B))),
            0x71 => Some(Instruction::LD(Mem(HL), Reg(C))),
            0x72 => Some(Instruction::LD(Mem(HL), Reg(D))),
            0x73 => Some(Instruction::LD(Mem(HL), Reg(E))),
            0x74 => Some(Instruction::LD(Mem(HL), Reg(H))),
            0x75 => Some(Instruction::LD(Mem(HL), Reg(L))),
            0x76 => Some(Instruction::HCF),
            0x77 => Some(Instruction::LD(Mem(HL), Reg(A))),
            0x78 => Some(Instruction::LD(Reg(A), Reg(B))),
            0x79 => Some(Instruction::LD(Reg(A), Reg(C))),
            0x7A => Some(Instruction::LD(Reg(A), Reg(D))),
            0x7B => Some(Instruction::LD(Reg(A), Reg(E))),
            0x7C => Some(Instruction::LD(Reg(A), Reg(H))),
            0x7D => Some(Instruction::LD(Reg(A), Reg(L))),
            0x7E => Some(Instruction::LD(Reg(A), Mem(HL))),
            0x7F => Some(Instruction::LD(Reg(A), Reg(A))),
            0x80 => Some(Instruction::ADD(Reg(B))),
            0x81 => Some(Instruction::ADD(Reg(C))),
            0x82 => Some(Instruction::ADD(Reg(D))),
            0x83 => Some(Instruction::ADD(Reg(E))),
            0x84 => Some(Instruction::ADD(Reg(H))),
            0x85 => Some(Instruction::ADD(Reg(L))),
            0x86 => Some(Instruction::ADD(Mem(HL))),
            0x87 => Some(Instruction::ADD(Reg(A))),
            0x88 => Some(Instruction::ADC(Reg(B))),
            0x89 => Some(Instruction::ADC(Reg(C))),
            0x8A => Some(Instruction::ADC(Reg(D))),
            0x8B => Some(Instruction::ADC(Reg(E))),
            0x8C => Some(Instruction::ADC(Reg(H))),
            0x8D => Some(Instruction::ADC(Reg(L))),
            0x8E => Some(Instruction::ADC(Mem(HL))),
            0x8F => Some(Instruction::ADC(Reg(A))),
            0x90 => Some(Instruction::SUB(Reg(B))),
            0x91 => Some(Instruction::SUB(Reg(C))),
            0x92 => Some(Instruction::SUB(Reg(D))),
            0x93 => Some(Instruction::SUB(Reg(E))),
            0x94 => Some(Instruction::SUB(Reg(H))),
            0x95 => Some(Instruction::SUB(Reg(L))),
            0x96 => Some(Instruction::SUB(Mem(HL))),
            0x97 => Some(Instruction::SUB(Reg(A))),
            0x98 => Some(Instruction::SBC(Reg(B))),
            0x99 => Some(Instruction::SBC(Reg(C))),
            0x9A => Some(Instruction::SBC(Reg(D))),
            0x9B => Some(Instruction::SBC(Reg(E))),
            0x9C => Some(Instruction::SBC(Reg(H))),
            0x9D => Some(Instruction::SBC(Reg(L))),
            0x9E => Some(Instruction::SBC(Mem(HL))),
            0x9F => Some(Instruction::SBC(Reg(A))),
            0xA0 => Some(Instruction::AND(Reg(B))),
            0xA1 => Some(Instruction::AND(Reg(C))),
            0xA2 => Some(Instruction::AND(Reg(D))),
            0xA3 => Some(Instruction::AND(Reg(E))),
            0xA4 => Some(Instruction::AND(Reg(H))),
            0xA5 => Some(Instruction::AND(Reg(L))),
            0xA6 => Some(Instruction::AND(Mem(HL))),
            0xA7 => Some(Instruction::AND(Reg(A))),
            0xA8 => Some(Instruction::XOR(Reg(B))),
            0xA9 => Some(Instruction::XOR(Reg(C))),
            0xAA => Some(Instruction::XOR(Reg(D))),
            0xAB => Some(Instruction::XOR(Reg(E))),
            0xAC => Some(Instruction::XOR(Reg(H))),
            0xAD => Some(Instruction::XOR(Reg(L))),
            0xAE => Some(Instruction::XOR(Mem(HL))),
            0xAF => Some(Instruction::XOR(Reg(A))),
            0xB0 => Some(Instruction::OR(Reg(B))),
            0xB1 => Some(Instruction::OR(Reg(C))),
            0xB2 => Some(Instruction::OR(Reg(D))),
            0xB3 => Some(Instruction::OR(Reg(E))),
            0xB4 => Some(Instruction::OR(Reg(H))),
            0xB5 => Some(Instruction::OR(Reg(L))),
            0xB6 => Some(Instruction::OR(Mem(HL))),
            0xB7 => Some(Instruction::OR(Reg(A))),
            0xB8 => Some(Instruction::CP(Reg(B))),
            0xB9 => Some(Instruction::CP(Reg(C))),
            0xBA => Some(Instruction::CP(Reg(D))),
            0xBB => Some(Instruction::CP(Reg(E))),
            0xBC => Some(Instruction::CP(Reg(H))),
            0xBD => Some(Instruction::CP(Reg(L))),
            0xBE => Some(Instruction::CP(Mem(HL))),
            0xBF => Some(Instruction::CP(Reg(A))),
            0xC0 => Some(Instruction::RET(Flag::NZ)),
            0xC1 => Some(Instruction::POP(Reg(BC))),
            0xC2 => Some(Instruction::JP(Flag::NZ, Reg(D16))),
            0xC3 => Some(Instruction::JP(Flag::NF, Reg(D16))),
            0xC4 => Some(Instruction::CALL(Flag::NZ, Reg(D16))),
            0xC5 => Some(Instruction::PUSH(Reg(BC))),
            0xC6 => Some(Instruction::ADD(Reg(D8))),
            0xC7 => Some(Instruction::RST(0x00)),
            0xC8 => Some(Instruction::RET(Flag::Z)),
            0xC9 => Some(Instruction::RET(Flag::NF)),
            0xCA => Some(Instruction::JP(Flag::Z, Reg(D16))),
            0xCB => Some(Instruction::CB_INSTRUCTION),
            0xCC => Some(Instruction::CALL(Flag::Z, Reg(D16))),
            0xCD => Some(Instruction::CALL(Flag::NF, Reg(D16))),
            0xCE => Some(Instruction::ADC(Reg(D8))),
            0xCF => Some(Instruction::RST(0x08)),
            0xD0 => Some(Instruction::RET(Flag::NC)),
            0xD1 => Some(Instruction::POP(Reg(DE))),
            0xD2 => Some(Instruction::JP(Flag::NC, Reg(D16))),
            0xD4 => Some(Instruction::CALL(Flag::NC, Reg(D16))),
            0xD5 => Some(Instruction::PUSH(Reg(DE))),
            0xD6 => Some(Instruction::SUB(Reg(D8))),
            0xD7 => Some(Instruction::RST(0x10)),
            0xD8 => Some(Instruction::RET(Flag::CY)),
            0xD9 => Some(Instruction::RETI),
            0xDA => Some(Instruction::JP(Flag::CY, Reg(D16))),
            0xDC => Some(Instruction::CALL(Flag::CY, Reg(D16))),
            0xDE => Some(Instruction::SBC(Reg(D8))),
            0xDF => Some(Instruction::RST(0x18)),
            0xE0 => Some(Instruction::LD(ZMem(D8), Reg(A))),
            0xE1 => Some(Instruction::POP(Reg(HL))),
            0xE2 => Some(Instruction::LD(ZMem(C), Reg(A))),
            0xE5 => Some(Instruction::PUSH(Reg(HL))),
            0xE6 => Some(Instruction::AND(Reg(D8))),
            0xE7 => Some(Instruction::RST(0x20)),
            0xE8 => Some(Instruction::ADDSP),
            0xE9 => Some(Instruction::JP(Flag::NF, Reg(HL))),
            0xEA => Some(Instruction::LD(Mem(D16), Reg(A))),
            0xEE => Some(Instruction::XOR(Reg(D8))),
            0xEF => Some(Instruction::RST(0x28)),
            0xF0 => Some(Instruction::LD(Reg(A), ZMem(D8))),
            0xF1 => Some(Instruction::POP(Reg(AF))),
            0xF2 => Some(Instruction::LD(Reg(A), ZMem(C))),
            0xF3 => Some(Instruction::DI),
            0xF5 => Some(Instruction::PUSH(Reg(AF))),
            0xF6 => Some(Instruction::OR(Reg(D8))),
            0xF7 => Some(Instruction::RST(0x30)),
            0xF8 => Some(Instruction::LDSP),
            0xF9 => Some(Instruction::LD(Reg(SP), Reg(HL))),
            0xFA => Some(Instruction::LD(Reg(A), Mem(D16))),
            0xFB => Some(Instruction::EI),
            0xFE => Some(Instruction::CP(Reg(D8))),
            0xFF => Some(Instruction::RST(0x38)),
            _ => None,
        }
    }

    /// Looks a byte up in the extended table.
    pub fn from_prefixed_instruction(byte: u8) -> (r: Instruction)
        ensures
            r == decode_prefixed(byte),
    {
        match byte {
            0x00 => Instruction::RLC(Reg(B)),
            0x01 => Instruction::RLC(Reg(C)),
            0x02 => Instruction::RLC(Reg(D)),
            0x03 => Instruction::RLC(Reg(E)),
            0x04 => Instruction::RLC(Reg(H)),
            0x05 => Instruction::RLC(Reg(L)),
            0x06 => Instruction::RLC(Mem(HL)),
            0x07 => Instruction::RLC(Reg(A)),
            0x08 => Instruction::RRC(Reg(B)),
            0x09 => Instruction::RRC(Reg(C)),
            0x0A => Instruction::RRC(Reg(D)),
            0x0B => Instruction::RRC(Reg(E)),
            0x0C => Instruction::RRC(Reg(H)),
            0x0D => Instruction::RRC(Reg(L)),
            0x0E => Instruction::RRC(Mem(HL)),
            0x0F => Instruction::RRC(Reg(A)),
            0x10 => Instruction::RL(Reg(B)),
            0x11 => Instruction::RL(Reg(C)),
            0x12 => Instruction::RL(Reg(D)),
            0x13 => Instruction::RL(Reg(E)),
            0x14 => Instruction::RL(Reg(H)),
            0x15 => Instruction::RL(Reg(L)),
            0x16 => Instruction::RL(Mem(HL)),
            0x17 => Instruction::RL(Reg(A)),
            0x18 => Instruction::RR(Reg(B)),
            0x19 => Instruction::RR(Reg(C)),
            0x1A => Instruction::RR(Reg(D)),
            0x1B => Instruction::RR(Reg(E)),
            0x1C => Instruction::RR(Reg(H)),
            0x1D => Instruction::RR(Reg(L)),
            0x1E => Instruction::RR(Mem(HL)),
            0x1F => Instruction::RR(Reg(A)),
            0x20 => Instruction::SLA(Reg(B)),
            0x21 => Instruction::SLA(Reg(C)),
            0x22 => Instruction::SLA(Reg(D)),
            0x23 => Instruction::SLA(Reg(E)),
            0x24 => Instruction::SLA(Reg(H)),
            0x25 => Instruction::SLA(Reg(L)),
            0x26 => Instruction::SLA(Mem(HL)),
            0x27 => Instruction::SLA(Reg(A)),
            0x28 => Instruction::SRA(Reg(B)),
            0x29 => Instruction::SRA(Reg(C)),
            0x2A => Instruction::SRA(Reg(D)),
            0x2B => Instruction::SRA(Reg(E)),
            0x2C => Instruction::SRA(Reg(H)),
            0x2D => Instruction::SRA(Reg(L)),
            0x2E => Instruction::SRA(Mem(HL)),
            0x2F => Instruction::SRA(Reg(A)),
            0x30 => Instruction::SWAP(Reg(B)),
            0x31 => Instruction::SWAP(Reg(C)),
            0x32 => Instruction::SWAP(Reg(D)),
            0x33 => Instruction::SWAP(Reg(E)),
            0x34 => Instruction::SWAP(Reg(H)),
            0x35 => Instruction::SWAP(Reg(L)),
            0x36 => Instruction::SWAP(Mem(HL)),
            0x37 => Instruction::SWAP(Reg(A)),
            0x38 => Instruction::SRL(Reg(B)),
            0x39 => Instruction::SRL(Reg(C)),
            0x3A => Instruction::SRL(Reg(D)),
            0x3B => Instruction::SRL(Reg(E)),
            0x3C => Instruction::SRL(Reg(H)),
            0x3D => Instruction::SRL(Reg(L)),
            0x3E => Instruction::SRL(Mem(HL)),
            0x3F => Instruction::SRL(Reg(A)),
            0x40 => Instruction::BIT(0, Reg(B)),
            0x41 => Instruction::BIT(0, Reg(C)),
            0x42 => Instruction::BIT(0, Reg(D)),
            0x43 => Instruction::BIT(0, Reg(E)),
            0x44 => Instruction::BIT(0, Reg(H)),
            0x45 => Instruction::BIT(0, Reg(L)),
            0x46 => Instruction::BIT(0, Mem(HL)),
            0x47 => Instruction::BIT(0, Reg(A)),
            0x48 => Instruction::BIT(1, Reg(B)),
            0x49 => Instruction::BIT(1, Reg(C)),
            0x4A => Instruction::BIT(1, Reg(D)),
            0x4B => Instruction::BIT(1, Reg(E)),
            0x4C => Instruction::BIT(1, Reg(H)),
            0x4D => Instruction::BIT(1, Reg(L)),
            0x4E => Instruction::BIT(1, Mem(HL)),
            0x4F => Instruction::BIT(1, Reg(A)),
            0x50 => Instruction::BIT(2, Reg(B)),
            0x51 => Instruction::BIT(2, Reg(C)),
            0x52 => Instruction::BIT(2, Reg(D)),
            0x53 => Instruction::BIT(2, Reg(E)),
            0x54 => Instruction::BIT(2, Reg(H)),
            0x55 => Instruction::BIT(2, Reg(L)),
            0x56 => Instruction::BIT(2, Mem(HL)),
            0x57 => Instruction::BIT(2, Reg(A)),
            0x58 => Instruction::BIT(3, Reg(B)),
            0x59 => Instruction::BIT(3, Reg(C)),
            0x5A => Instruction::BIT(3, Reg(D)),
            0x5B => Instruction::BIT(3, Reg(E)),
            0x5C => Instruction::BIT(3, Reg(H)),
            0x5D => Instruction::BIT(3, Reg(L)),
            0x5E => Instruction::BIT(3, Mem(HL)),
            0x5F => Instruction::BIT(3, Reg(A)),
            0x60 => Instruction::BIT(4, Reg(B)),
            0x61 => Instruction::BIT(4, Reg(C)),
            0x62 => Instruction::BIT(4, Reg(D)),
            0x63 => Instruction::BIT(4, Reg(E)),
            0x64 => Instruction::BIT(4, Reg(H)),
            0x65 => Instruction::BIT(4, Reg(L)),
            0x66 => Instruction::BIT(4, Mem(HL)),
            0x67 => Instruction::BIT(4, Reg(A)),
            0x68 => Instruction::BIT(5, Reg(B)),
            0x69 => Instruction::BIT(5, Reg(C)),
            0x6A => Instruction::BIT(5, Reg(D)),
            0x6B => Instruction::BIT(5, Reg(E)),
            0x6C => Instruction::BIT(5, Reg(H)),
            0x6D => Instruction::BIT(5, Reg(L)),
            0x6E => Instruction::BIT(5, Mem(HL)),
            0x6F => Instruction::BIT(5, Reg(A)),
            0x70 => Instruction::BIT(6, Reg(B)),
            0x71 => Instruction::BIT(6, Reg(C)),
            0x72 => Instruction::BIT(6, Reg(D)),
            0x73 => Instruction::BIT(6, Reg(E)),
            0x74 => Instruction::BIT(6, Reg(H)),
            0x75 => Instruction::BIT(6, Reg(L)),
            0x76 => Instruction::BIT(6, Mem(HL)),
            0x77 => Instruction::BIT(6, Reg(A)),
            0x78 => Instruction::BIT(7, Reg(B)),
            0x79 => Instruction::BIT(7, Reg(C)),
            0x7A => Instruction::BIT(7, Reg(D)),
            0x7B => Instruction::BIT(7, Reg(E)),
            0x7C => Instruction::BIT(7, Reg(H)),
            0x7D => Instruction::BIT(7, Reg(L)),
            0x7E => Instruction::BIT(7, Mem(HL)),
            0x7F => Instruction::BIT(7, Reg(A)),
            0x80 => Instruction::RES(0, Reg(B)),
            0x81 => Instruction::RES(0, Reg(C)),
            0x82 => Instruction::RES(0, Reg(D)),
            0x83 => Instruction::RES(0, Reg(E)),
            0x84 => Instruction::RES(0, Reg(H)),
            0x85 => Instruction::RES(0, Reg(L)),
            0x86 => Instruction::RES(0, Mem(HL)),
            0x87 => Instruction::RES(0, Reg(A)),
            0x88 => Instruction::RES(1, Reg(B)),
            0x89 => Instruction::RES(1, Reg(C)),
            0x8A => Instruction::RES(1, Reg(D)),
            0x8B => Instruction::RES(1, Reg(E)),
            0x8C => Instruction::RES(1, Reg(H)),
            0x8D => Instruction::RES(1, Reg(L)),
            0x8E => Instruction::RES(1, Mem(HL)),
            0x8F => Instruction::RES(1, Reg(A)),
            0x90 => Instruction::RES(2, Reg(B)),
            0x91 => Instruction::RES(2, Reg(C)),
            0x92 => Instruction::RES(2, Reg(D)),
            0x93 => Instruction::RES(2, Reg(E)),
            0x94 => Instruction::RES(2, Reg(H)),
            0x95 => Instruction::RES(2, Reg(L)),
            0x96 => Instruction::RES(2, Mem(HL)),
            0x97 => Instruction::RES(2, Reg(A)),
            0x98 => Instruction::RES(3, Reg(B)),
            0x99 => Instruction::RES(3, Reg(C)),
            0x9A => Instruction::RES(3, Reg(D)),
            0x9B => Instruction::RES(3, Reg(E)),
            0x9C => Instruction::RES(3, Reg(H)),
            0x9D => Instruction::RES(3, Reg(L)),
            0x9E => Instruction::RES(3, Mem(HL)),
            0x9F => Instruction::RES(3, Reg(A)),
            0xA0 => Instruction::RES(4, Reg(B)),
            0xA1 => Instruction::RES(4, Reg(C)),
            0xA2 => Instruction::RES(4, Reg(D)),
            0xA3 => Instruction::RES(4, Reg(E)),
            0xA4 => Instruction::RES(4, Reg(H)),
            0xA5 => Instruction::RES(4, Reg(L)),
            0xA6 => Instruction::RES(4, Mem(HL)),
            0xA7 => Instruction::RES(4, Reg(A)),
            0xA8 => Instruction::RES(5, Reg(B)),
            0xA9 => Instruction::RES(5, Reg(C)),
            0xAA => Instruction::RES(5, Reg(D)),
            0xAB => Instruction::RES(5, Reg(E)),
            0xAC => Instruction::RES(5, Reg(H)),
            0xAD => Instruction::RES(5, Reg(L)),
            0xAE => Instruction::RES(5, Mem(HL)),
            0xAF => Instruction::RES(5, Reg(A)),
            0xB0 => Instruction::RES(6, Reg(B)),
            0xB1 => Instruction::RES(6, Reg(C)),
            0xB2 => Instruction::RES(6, Reg(D)),
            0xB3 => Instruction::RES(6, Reg(E)),
            0xB4 => Instruction::RES(6, Reg(H)),
            0xB5 => Instruction::RES(6, Reg(L)),
            0xB6 => Instruction::RES(6, Mem(HL)),
            0xB7 => Instruction::RES(6, Reg(A)),
            0xB8 => Instruction::RES(7, Reg(B)),
            0xB9 => Instruction::RES(7, Reg(C)),
            0xBA => Instruction::RES(7, Reg(D)),
            0xBB => Instruction::RES(7, Reg(E)),
            0xBC => Instruction::RES(7, Reg(H)),
            0xBD => Instruction::RES(7, Reg(L)),
            0xBE => Instruction::RES(7, Mem(HL)),
            0xBF => Instruction::RES(7, Reg(A)),
            0xC0 => Instruction::SET(0, Reg(B)),
            0xC1 => Instruction::SET(0, Reg(C)),
            0xC2 => Instruction::SET(0, Reg(D)),
            0xC3 => Instruction::SET(0, Reg(E)),
            0xC4 => Instruction::SET(0, Reg(H)),
            0xC5 => Instruction::SET(0, Reg(L)),
            0xC6 => Instruction::SET(0, Mem(HL)),
            0xC7 => Instruction::SET(0, Reg(A)),
            0xC8 => Instruction::SET(1, Reg(B)),
            0xC9 => Instruction::SET(1, Reg(C)),
            0xCA => Instruction::SET(1, Reg(D)),
            0xCB => Instruction::SET(1, Reg(E)),
            0xCC => Instruction::SET(1, Reg(H)),
            0xCD => Instruction::SET(1, Reg(L)),
            0xCE => Instruction::SET(1, Mem(HL)),
            0xCF => Instruction::SET(1, Reg(A)),
            0xD0 => Instruction::SET(2, Reg(B)),
            0xD1 => Instruction::SET(2, Reg(C)),
            0xD2 => Instruction::SET(2, Reg(D)),
            0xD3 => Instruction::SET(2, Reg(E)),
            0xD4 => Instruction::SET(2, Reg(H)),
            0xD5 => Instruction::SET(2, Reg(L)),
            0xD6 => Instruction::SET(2, Mem(HL)),
            0xD7 => Instruction::SET(2, Reg(A)),
            0xD8 => Instruction::SET(3, Reg(B)),
            0xD9 => Instruction::SET(3, Reg(C)),
            0xDA => Instruction::SET(3, Reg(D)),
            0xDB => Instruction::SET(3, Reg(E)),
            0xDC => Instruction::SET(3, Reg(H)),
            0xDD => Instruction::SET(3, Reg(L)),
            0xDE => Instruction::SET(3, Mem(HL)),
            0xDF => Instruction::SET(3, Reg(A)),
            0xE0 => Instruction::SET(4, Reg(B)),
            0xE1 => Instruction::SET(4, Reg(C)),
            0xE2 => Instruction::SET(4, Reg(D)),
            0xE3 => Instruction::SET(4, Reg(E)),
            0xE4 => Instruction::SET(4, Reg(H)),
            0xE5 => Instruction::SET(4, Reg(L)),
            0xE6 => Instruction::SET(4, Mem(HL)),
            0xE7 => Instruction::SET(4, Reg(A)),
            0xE8 => Instruction::SET(5, Reg(B)),
            0xE9 => Instruction::SET(5, Reg(C)),
            0xEA => Instruction::SET(5, Reg(D)),
            0xEB => Instruction::SET(5, Reg(E)),
            0xEC => Instruction::SET(5, Reg(H)),
            0xED => Instruction::SET(5, Reg(L)),
            0xEE => Instruction::SET(5, Mem(HL)),
            0xEF => Instruction::SET(5, Reg(A)),
            0xF0 => Instruction::SET(6, Reg(B)),
            0xF1 => Instruction::SET(6, Reg(C)),
            0xF2 => Instruction::SET(6, Reg(D)),
            0xF3 => Instruction::SET(6, Reg(E)),
            0xF4 => Instruction::SET(6, Reg(H)),
            0xF5 => Instruction::SET(6, Reg(L)),
            0xF6 => Instruction::SET(6, Mem(HL)),
            0xF7 => Instruction::SET(6, Reg(A)),
            0xF8 => Instruction::SET(7, Reg(B)),
            0xF9 => Instruction::SET(7, Reg(C)),
            0xFA => Instruction::SET(7, Reg(D)),
            0xFB => Instruction::SET(7, Reg(E)),
            0xFC => Instruction::SET(7, Reg(H)),
            0xFD => Instruction::SET(7, Reg(L)),
            0xFE => Instruction::SET(7, Mem(HL)),
            0xFF => Instruction::SET(7, Reg(A)),
        }
    }
}

} // verus!
