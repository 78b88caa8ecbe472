use gbc_m4::cpu::cost;
use gbc_m4::cpu::inner::Operand::{Mem, Reg, ZMem};
use gbc_m4::cpu::inner::{Flag, Instruction, Register};

fn raw(byte: u8) -> Option<Instruction> {
    Instruction::from_memory(false, byte)
}

fn extended(byte: u8) -> Option<Instruction> {
    Instruction::from_memory(true, byte)
}

#[test]
fn unassigned_bytes() {
    let unassigned = [0xD3u8, 0xDB, 0xDD, 0xE3, 0xE4, 0xEB, 0xEC, 0xED, 0xF4, 0xFC, 0xFD];
    for byte in 0u8..=255 {
        assert_eq!(raw(byte).is_none(), unassigned.contains(&byte));
        assert!(extended(byte).is_some());
    }
}

#[test]
fn prefix_byte() {
    assert_eq!(raw(0xCB), Some(Instruction::CB_INSTRUCTION));
    for byte in 0u8..=255 {
        assert_ne!(extended(byte), Some(Instruction::CB_INSTRUCTION));
        assert_eq!(raw(byte) == Some(Instruction::CB_INSTRUCTION), byte == 0xCB);
    }
}

#[test]
fn loads() {
    assert_eq!(raw(0x01), Some(Instruction::LD(Reg(Register::BC), Reg(Register::D16))));
    assert_eq!(raw(0x02), Some(Instruction::LD(Mem(Register::BC), Reg(Register::A))));
    assert_eq!(raw(0x08), Some(Instruction::LD(Mem(Register::D16), Reg(Register::SP))));
    assert_eq!(raw(0x22), Some(Instruction::LD(Mem(Register::HLi), Reg(Register::A))));
    assert_eq!(raw(0x2A), Some(Instruction::LD(Reg(Register::A), Mem(Register::HLi))));
    assert_eq!(raw(0x32), Some(Instruction::LD(Mem(Register::HLd), Reg(Register::A))));
    assert_eq!(raw(0x3A), Some(Instruction::LD(Reg(Register::A), Mem(Register::HLd))));
    assert_eq!(raw(0x36), Some(Instruction::LD(Mem(Register::HL), Reg(Register::D8))));
    assert_eq!(raw(0x41), Some(Instruction::LD(Reg(Register::B), Reg(Register::C))));
    assert_eq!(raw(0x7E), Some(Instruction::LD(Reg(Register::A), Mem(Register::HL))));
    assert_eq!(raw(0x77), Some(Instruction::LD(Mem(Register::HL), Reg(Register::A))));
    assert_eq!(raw(0xE0), Some(Instruction::LD(ZMem(Register::D8), Reg(Register::A))));
    assert_eq!(raw(0xF0), Some(Instruction::LD(Reg(Register::A), ZMem(Register::D8))));
    assert_eq!(raw(0xE2), Some(Instruction::LD(ZMem(Register::C), Reg(Register::A))));
    assert_eq!(raw(0xF2), Some(Instruction::LD(Reg(Register::A), ZMem(Register::C))));
    assert_eq!(raw(0xEA), Some(Instruction::LD(Mem(Register::D16), Reg(Register::A))));
    assert_eq!(raw(0xFA), Some(Instruction::LD(Reg(Register::A), Mem(Register::D16))));
    assert_eq!(raw(0xF9), Some(Instruction::LD(Reg(Register::SP), Reg(Register::HL))));
    assert_eq!(raw(0xF8), Some(Instruction::LDSP));
    assert_eq!(raw(0x76), Some(Instruction::HCF));
}

#[test]
fn arithmetic() {
    assert_eq!(raw(0x80), Some(Instruction::ADD(Reg(Register::B))));
    assert_eq!(raw(0x86), Some(Instruction::ADD(Mem(Register::HL))));
    assert_eq!(raw(0x8F), Some(Instruction::ADC(Reg(Register::A))));
    assert_eq!(raw(0x92), Some(Instruction::SUB(Reg(Register::D))));
    assert_eq!(raw(0x9B), Some(Instruction::SBC(Reg(Register::E))));
    assert_eq!(raw(0xA4), Some(Instruction::AND(Reg(Register::H))));
    assert_eq!(raw(0xAD), Some(Instruction::XOR(Reg(Register::L))));
    assert_eq!(raw(0xB6), Some(Instruction::OR(Mem(Register::HL))));
    assert_eq!(raw(0xBF), Some(Instruction::CP(Reg(Register::A))));
    assert_eq!(raw(0xC6), Some(Instruction::ADD(Reg(Register::D8))));
    assert_eq!(raw(0xFE), Some(Instruction::CP(Reg(Register::D8))));
    assert_eq!(raw(0x09), Some(Instruction::ADD(Reg(Register::BC))));
    assert_eq!(raw(0x39), Some(Instruction::ADD(Reg(Register::SP))));
    assert_eq!(raw(0xE8), Some(Instruction::ADDSP));
    assert_eq!(raw(0x03), Some(Instruction::INC(Reg(Register::BC))));
    assert_eq!(raw(0x34), Some(Instruction::INC(Mem(Register::HL))));
    assert_eq!(raw(0x3D), Some(Instruction::DEC(Reg(Register::A))));
    assert_eq!(raw(0x3B), Some(Instruction::DEC(Reg(Register::SP))));
    assert_eq!(raw(0x07), Some(Instruction::RLCA));
    assert_eq!(raw(0x0F), Some(Instruction::RRCA));
    assert_eq!(raw(0x17), Some(Instruction::RLA));
    assert_eq!(raw(0x1F), Some(Instruction::RRA));
    assert_eq!(raw(0x27), Some(Instruction::DAA));
    assert_eq!(raw(0x2F), Some(Instruction::CPL));
    assert_eq!(raw(0x37), Some(Instruction::SCF));
    assert_eq!(raw(0x3F), Some(Instruction::CCF));
}

#[test]
fn control_flow() {
    assert_eq!(raw(0x18), Some(Instruction::JR(Flag::NF, Reg(Register::D8))));
    assert_eq!(raw(0x20), Some(Instruction::JR(Flag::NZ, Reg(Register::D8))));
    assert_eq!(raw(0x28), Some(Instruction::JR(Flag::Z, Reg(Register::D8))));
    assert_eq!(raw(0x30), Some(Instruction::JR(Flag::NC, Reg(Register::D8))));
    assert_eq!(raw(0x38), Some(Instruction::JR(Flag::CY, Reg(Register::D8))));
    assert_eq!(raw(0xC0), Some(Instruction::RET(Flag::NZ)));
    assert_eq!(raw(0xC8), Some(Instruction::RET(Flag::Z)));
    assert_eq!(raw(0xC9), Some(Instruction::RET(Flag::NF)));
    assert_eq!(raw(0xD9), Some(Instruction::RETI));
    assert_eq!(raw(0xC2), Some(Instruction::JP(Flag::NZ, Reg(Register::D16))));
    assert_eq!(raw(0xC3), Some(Instruction::JP(Flag::NF, Reg(Register::D16))));
    assert_eq!(raw(0xCA), Some(Instruction::JP(Flag::Z, Reg(Register::D16))));
    assert_eq!(raw(0xE9), Some(Instruction::JP(Flag::NF, Reg(Register::HL))));
    assert_eq!(raw(0xCC), Some(Instruction::CALL(Flag::Z, Reg(Register::D16))));
    assert_eq!(raw(0xCD), Some(Instruction::CALL(Flag::NF, Reg(Register::D16))));
    assert_eq!(raw(0xDC), Some(Instruction::CALL(Flag::CY, Reg(Register::D16))));
    assert_eq!(raw(0xC1), Some(Instruction::POP(Reg(Register::BC))));
    assert_eq!(raw(0xF1), Some(Instruction::POP(Reg(Register::AF))));
    assert_eq!(raw(0xE5), Some(Instruction::PUSH(Reg(Register::HL))));
    assert_eq!(raw(0xF5), Some(Instruction::PUSH(Reg(Register::AF))));
    assert_eq!(raw(0xC7), Some(Instruction::RST(0x00)));
    assert_eq!(raw(0xCF), Some(Instruction::RST(0x08)));
    assert_eq!(raw(0xEF), Some(Instruction::RST(0x28)));
    assert_eq!(raw(0xFF), Some(Instruction::RST(0x38)));
    assert_eq!(raw(0xF3), Some(Instruction::DI));
    assert_eq!(raw(0xFB), Some(Instruction::EI));
    assert_eq!(raw(0x10), Some(Instruction::STOP));
}

#[test]
fn extended_table() {
    assert_eq!(extended(0x00), Some(Instruction::RLC(Reg(Register::B))));
    assert_eq!(extended(0x0E), Some(Instruction::RRC(Mem(Register::HL))));
    assert_eq!(extended(0x11), Some(Instruction::RL(Reg(Register::C))));
    assert_eq!(extended(0x1F), Some(Instruction::RR(Reg(Register::A))));
    assert_eq!(extended(0x22), Some(Instruction::SLA(Reg(Register::D))));
    assert_eq!(extended(0x2B), Some(Instruction::SRA(Reg(Register::E))));
    assert_eq!(extended(0x37), Some(Instruction::SWAP(Reg(Register::A))));
    assert_eq!(extended(0x3C), Some(Instruction::SRL(Reg(Register::H))));
    assert_eq!(extended(0x40), Some(Instruction::BIT(0, Reg(Register::B))));
    assert_eq!(extended(0x7E), Some(Instruction::BIT(7, Mem(Register::HL))));
    assert_eq!(extended(0x87), Some(Instruction::RES(0, Reg(Register::A))));
    assert_eq!(extended(0xBD), Some(Instruction::RES(7, Reg(Register::L))));
    assert_eq!(extended(0xC0), Some(Instruction::SET(0, Reg(Register::B))));
    assert_eq!(extended(0xFF), Some(Instruction::SET(7, Reg(Register::A))));
}

#[test]
fn costs_of_the_main_table() {
    assert_eq!(cost::opcode_times(0x00), 1);
    assert_eq!(cost::opcode_times(0x01), 3);
    assert_eq!(cost::opcode_times(0x08), 5);
    assert_eq!(cost::opcode_times(0x09), 2);
    assert_eq!(cost::opcode_times(0x34), 3);
    assert_eq!(cost::opcode_times(0x36), 3);
    assert_eq!(cost::opcode_times(0x46), 2);
    assert_eq!(cost::opcode_times(0x76), 1);
    assert_eq!(cost::opcode_times(0x80), 1);
    assert_eq!(cost::opcode_times(0xC5), 4);
    assert_eq!(cost::opcode_times(0xC1), 3);
    assert_eq!(cost::opcode_times(0xC7), 4);
    assert_eq!(cost::opcode_times(0xE0), 3);
    assert_eq!(cost::opcode_times(0xE2), 2);
    assert_eq!(cost::opcode_times(0xE8), 4);
    assert_eq!(cost::opcode_times(0xEA), 4);
    assert_eq!(cost::opcode_times(0xF8), 3);
    assert_eq!(cost::opcode_times(0xF9), 2);
    assert_eq!(cost::opcode_times(0xCB), 0);
    assert_eq!(cost::opcode_times(0xD3), 0);
}

#[test]
fn costs_of_control_transfers() {
    // not taken
    assert_eq!(cost::opcode_times(0x20), 2);
    assert_eq!(cost::opcode_times(0xC0), 2);
    assert_eq!(cost::opcode_times(0xC2), 3);
    assert_eq!(cost::opcode_times(0xC4), 3);
    // taken
    assert_eq!(cost::opcode_cond_times(0x18), 3);
    assert_eq!(cost::opcode_cond_times(0x20), 3);
    assert_eq!(cost::opcode_cond_times(0xC0), 5);
    assert_eq!(cost::opcode_cond_times(0xC2), 4);
    assert_eq!(cost::opcode_cond_times(0xC3), 4);
    assert_eq!(cost::opcode_cond_times(0xC4), 6);
    assert_eq!(cost::opcode_cond_times(0xC9), 4);
    assert_eq!(cost::opcode_cond_times(0xCD), 6);
    assert_eq!(cost::opcode_cond_times(0xD9), 4);
    assert_eq!(cost::opcode_cond_times(0xE9), 1);
    assert_eq!(cost::opcode_cond_times(0x00), 0);
}

#[test]
fn costs_of_the_extended_table() {
    for byte in 0u8..=255 {
        let expected = if byte & 0x07 != 0x06 {
            2
        } else if (0x40..0x80).contains(&byte) {
            3
        } else {
            4
        };
        assert_eq!(cost::cb_opcode_times(byte), expected);
    }
}
