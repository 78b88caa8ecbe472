use gbc_m4::cpu::inner::{
    Fault, Flag, Flagd, Flags, Instruction, Operand, Register, Register16, Register8, Timing,
};
use gbc_m4::cpu::CPU;

fn cpu() -> CPU {
    let mut cpu = CPU::new();
    cpu.write8(Register8::A, 0).unwrap();
    cpu.write8(Register8::F, 0b0000_0000).unwrap();
    cpu.write8(Register8::B, 1).unwrap();
    cpu.write8(Register8::C, 2).unwrap();
    cpu.write8(Register8::D, 3).unwrap();
    cpu.write8(Register8::E, 4).unwrap();
    cpu.write8(Register8::H, 5).unwrap();
    cpu.write8(Register8::L, 6).unwrap();
    cpu.set_pc(0);
    cpu.set_sp(0);
    cpu
}

fn reg(r: Register) -> Operand {
    Operand::Reg(r)
}

fn clear() -> Flags {
    Flags { zero: false, subtract: false, half_carry: false, carry: false }
}

/// Puts a program at 0xC000 and points the program counter at it.
fn load(cpu: &mut CPU, program: &[u8]) {
    let mut addr = 0xC000u16;
    for byte in program {
        cpu.write_mem(addr, *byte).unwrap();
        addr += 1;
    }
    cpu.set_pc(0xC000);
    cpu.set_sp(0xD000);
}

#[test]
fn test_add_8() {
    let mut cpu = cpu();

    for _i in 0..2 {
        cpu.execute(Instruction::ADD(Operand::Reg(Register::D))).unwrap();
    }

    assert_eq!(cpu.a(), 6);
}

#[test]
fn registers_after_reset() {
    let mut cpu = CPU::new();
    assert_eq!(cpu.read8(Register8::A), Ok(0x11));
    assert_eq!(cpu.read8(Register8::F), Ok(0x00));
    assert_eq!(cpu.read16(Register16::BC), Ok(0x0000));
    assert_eq!(cpu.read16(Register16::DE), Ok(0xFF56));
    assert_eq!(cpu.read16(Register16::HL), Ok(0x000D));
    assert_eq!(cpu.pc(), 0);
    assert_eq!(cpu.sp(), 0);
    assert!(!cpu.halted());
    assert!(!cpu.ime());
    assert_eq!(cpu.read_mem(0xC000), Ok(0));
    assert_eq!(cpu.read_mem(0xFFFE), Ok(0));
    assert_eq!(cpu.read_mem(0xFFFF), Ok(0));
    assert_eq!(cpu.read_mem(0xFF0F), Ok(0));
}

#[test]
fn pair_write_shows_in_halves() {
    let mut cpu = cpu();
    cpu.write16(Register16::HL, 0xBEEF).unwrap();
    assert_eq!(cpu.read8(Register8::H), Ok(0xBE));
    assert_eq!(cpu.read8(Register8::L), Ok(0xEF));
    cpu.write16(Register16::BC, 0x1234).unwrap();
    assert_eq!(cpu.read8(Register8::B), Ok(0x12));
    assert_eq!(cpu.read8(Register8::C), Ok(0x34));
    cpu.write16(Register16::DE, 0xA55A).unwrap();
    assert_eq!(cpu.read8(Register8::D), Ok(0xA5));
    assert_eq!(cpu.read8(Register8::E), Ok(0x5A));
}

#[test]
fn half_writes_show_in_pair() {
    let mut cpu = cpu();
    cpu.write8(Register8::H, 0xCA).unwrap();
    cpu.write8(Register8::L, 0xFE).unwrap();
    assert_eq!(cpu.read16(Register16::HL), Ok(0xCAFE));
    assert_eq!(cpu.read16(Register16::HLi), Ok(0xCAFE));
    assert_eq!(cpu.read16(Register16::HLd), Ok(0xCAFE));
    cpu.write8(Register8::B, 0x01).unwrap();
    cpu.write8(Register8::C, 0x02).unwrap();
    assert_eq!(cpu.read16(Register16::BC), Ok(0x0102));
}

#[test]
fn flag_register_low_nibble_reads_zero() {
    let mut cpu = cpu();
    cpu.write8(Register8::F, 0xFF).unwrap();
    assert_eq!(cpu.read8(Register8::F), Ok(0xF0));
    cpu.write16(Register16::AF, 0x12AB).unwrap();
    assert_eq!(cpu.read16(Register16::AF), Ok(0x12A0));
    assert_eq!(cpu.a(), 0x12);
    assert_eq!(
        cpu.get_flags(),
        Flags { zero: true, subtract: false, half_carry: true, carry: false }
    );
}

#[test]
fn immediates_cannot_be_written() {
    let mut cpu = cpu();
    assert_eq!(cpu.write8(Register8::D8, 1), Err(Fault::BadOperand));
    assert_eq!(cpu.write16(Register16::D16, 1), Err(Fault::BadOperand));
}

#[test]
fn width_mismatch_is_a_fault() {
    let mut cpu = cpu();
    assert_eq!(cpu.load8(reg(Register::SP)), Err(Fault::BadOperand));
    assert_eq!(cpu.load8(reg(Register::HL)), Err(Fault::BadOperand));
    assert_eq!(cpu.load16(reg(Register::A)), Err(Fault::BadOperand));
    assert_eq!(cpu.store8(reg(Register::BC), 1), Err(Fault::BadOperand));
    assert_eq!(cpu.store16(reg(Register::L), 1), Err(Fault::BadOperand));
    assert_eq!(cpu.load8(Operand::Mem(Register::A)), Err(Fault::BadOperand));
    assert_eq!(cpu.load8(Operand::ZMem(Register::HL)), Err(Fault::BadOperand));
    assert_eq!(cpu.load16(Operand::Mem(Register::HL)), Err(Fault::BadOperand));
    assert_eq!(cpu.store16(Operand::ZMem(Register::C), 1), Err(Fault::BadOperand));
    assert_eq!(cpu.execute(Instruction::PUSH(reg(Register::A))), Err(Fault::BadOperand));
    assert_eq!(cpu.execute(Instruction::JP(Flag::HC, reg(Register::HL))), Err(Fault::BadOperand));
    assert_eq!(cpu.execute(Instruction::RET(Flag::S)), Err(Fault::BadOperand));
    assert_eq!(cpu.execute(Instruction::BIT(8, reg(Register::A))), Err(Fault::BadOperand));
}

#[test]
fn is_virtual_names_the_pairs() {
    assert!(Register::AF.is_virtual());
    assert!(Register::BC.is_virtual());
    assert!(Register::DE.is_virtual());
    assert!(Register::HL.is_virtual());
    assert!(Register::HLi.is_virtual());
    assert!(Register::HLd.is_virtual());
    assert!(!Register::SP.is_virtual());
    assert!(!Register::D16.is_virtual());
    assert!(!Register::D8.is_virtual());
    assert!(!Register::A.is_virtual());
    assert!(!Register::F.is_virtual());
    assert!(!Register::L.is_virtual());
}

#[test]
fn selectors_have_one_width() {
    assert_eq!(Register::A.as_8(), Some(Register8::A));
    assert_eq!(Register::A.as_16(), None);
    assert_eq!(Register::D8.as_8(), Some(Register8::D8));
    assert_eq!(Register::SP.as_16(), Some(Register16::SP));
    assert_eq!(Register::SP.as_8(), None);
    assert_eq!(Register::HLi.as_16(), Some(Register16::HLi));
    assert_eq!(Register::D16.as_16(), Some(Register16::D16));
}

#[test]
fn status_tests_zero_and_carry() {
    let mut cpu = cpu();
    cpu.set_flags(true, false, false, false);
    assert!(cpu.status(Flag::NF));
    assert!(cpu.status(Flag::Z));
    assert!(!cpu.status(Flag::NZ));
    assert!(!cpu.status(Flag::CY));
    assert!(cpu.status(Flag::NC));
    cpu.set_flags(false, true, true, true);
    assert!(cpu.status(Flag::NF));
    assert!(!cpu.status(Flag::Z));
    assert!(cpu.status(Flag::NZ));
    assert!(cpu.status(Flag::CY));
    assert!(!cpu.status(Flag::NC));
}

#[test]
fn single_flag_setters_touch_one_bit() {
    let mut cpu = cpu();
    cpu.zero(true);
    assert_eq!(cpu.read8(Register8::F), Ok(0x80));
    cpu.subtract(true);
    assert_eq!(cpu.read8(Register8::F), Ok(0xC0));
    cpu.half_carry(true);
    assert_eq!(cpu.read8(Register8::F), Ok(0xE0));
    cpu.carry(true);
    assert_eq!(cpu.read8(Register8::F), Ok(0xF0));
    cpu.zero(false);
    assert_eq!(cpu.read8(Register8::F), Ok(0x70));
    cpu.half_carry(false);
    assert_eq!(cpu.read8(Register8::F), Ok(0x50));
    cpu.subtract(false);
    assert_eq!(cpu.read8(Register8::F), Ok(0x10));
    cpu.carry(false);
    assert_eq!(cpu.read8(Register8::F), Ok(0x00));
}

#[test]
fn flags_on_a_byte() {
    let mut f: u8 = 0x0F;
    f.set_flags(true, false, true, false);
    assert_eq!(f, 0xAF);
    assert!(f.status(Flag::Z));
    assert!(f.status(Flag::NC));
    f.carry(true);
    assert_eq!(f, 0xBF);
    assert!(f.status(Flag::CY));
    assert_eq!(Flags::from_byte(0xBF), Flags { zero: true, subtract: false, half_carry: true, carry: true });
    assert_eq!(Flags { zero: false, subtract: true, half_carry: false, carry: true }.to_byte(), 0x50);
}

#[test]
fn add_sets_flags() {
    let mut cpu = cpu();
    cpu.set_a(0x3A);
    cpu.write8(Register8::B, 0xC6).unwrap();
    assert_eq!(cpu.execute(Instruction::ADD(reg(Register::B))), Ok(Timing::Default));
    assert_eq!(cpu.a(), 0x00);
    assert_eq!(cpu.get_flags(), Flags { zero: true, subtract: false, half_carry: true, carry: true });
}

#[test]
fn cp_leaves_the_accumulator() {
    let mut cpu = cpu();
    cpu.set_a(0x3C);
    cpu.write8(Register8::B, 0x2F).unwrap();
    cpu.execute(Instruction::CP(reg(Register::B))).unwrap();
    assert_eq!(cpu.a(), 0x3C);
    assert_eq!(cpu.get_flags(), Flags { zero: false, subtract: true, half_carry: true, carry: false });
    cpu.write8(Register8::B, 0x3C).unwrap();
    cpu.execute(Instruction::CP(reg(Register::B))).unwrap();
    assert_eq!(cpu.a(), 0x3C);
    assert_eq!(cpu.get_flags(), Flags { zero: true, subtract: true, half_carry: false, carry: false });
    cpu.write8(Register8::B, 0x40).unwrap();
    cpu.execute(Instruction::CP(reg(Register::B))).unwrap();
    assert_eq!(cpu.a(), 0x3C);
    assert_eq!(cpu.get_flags(), Flags { zero: false, subtract: true, half_carry: false, carry: true });
}

#[test]
fn inc_0xff_wraps_and_keeps_carry() {
    for carry in [false, true] {
        let mut cpu = cpu();
        cpu.set_flags(false, true, false, carry);
        cpu.write8(Register8::B, 0xFF).unwrap();
        assert_eq!(cpu.execute(Instruction::INC(reg(Register::B))), Ok(Timing::Default));
        assert_eq!(cpu.read8(Register8::B), Ok(0x00));
        assert_eq!(
            cpu.get_flags(),
            Flags { zero: true, subtract: false, half_carry: true, carry }
        );
    }
}

#[test]
fn dec_sets_subtract_and_keeps_carry() {
    let mut cpu = cpu();
    cpu.set_flags(false, false, false, true);
    cpu.write8(Register8::C, 0x10).unwrap();
    cpu.execute(Instruction::DEC(reg(Register::C))).unwrap();
    assert_eq!(cpu.read8(Register8::C), Ok(0x0F));
    assert_eq!(cpu.get_flags(), Flags { zero: false, subtract: true, half_carry: true, carry: true });
    cpu.write8(Register8::C, 0x01).unwrap();
    cpu.execute(Instruction::DEC(reg(Register::C))).unwrap();
    assert_eq!(cpu.read8(Register8::C), Ok(0x00));
    assert_eq!(cpu.get_flags(), Flags { zero: true, subtract: true, half_carry: false, carry: true });
}

#[test]
fn sixteen_bit_inc_and_dec_leave_flags() {
    let mut cpu = cpu();
    cpu.set_flags(true, true, true, true);
    cpu.write16(Register16::BC, 0xFFFF).unwrap();
    cpu.execute(Instruction::INC(reg(Register::BC))).unwrap();
    assert_eq!(cpu.read16(Register16::BC), Ok(0x0000));
    cpu.execute(Instruction::DEC(reg(Register::BC))).unwrap();
    assert_eq!(cpu.read16(Register16::BC), Ok(0xFFFF));
    cpu.set_sp(0x00FF);
    cpu.execute(Instruction::INC(reg(Register::SP))).unwrap();
    assert_eq!(cpu.sp(), 0x0100);
    assert_eq!(cpu.get_flags(), Flags { zero: true, subtract: true, half_carry: true, carry: true });
}

#[test]
fn add_hl_carries_out_of_bit_11_and_15() {
    let mut cpu = cpu();
    cpu.set_flags(true, true, false, false);
    cpu.write16(Register16::HL, 0x8A23).unwrap();
    cpu.write16(Register16::BC, 0x0605).unwrap();
    cpu.execute(Instruction::ADD(reg(Register::BC))).unwrap();
    assert_eq!(cpu.read16(Register16::HL), Ok(0x9028));
    assert_eq!(cpu.get_flags(), Flags { zero: true, subtract: false, half_carry: true, carry: false });
    cpu.write16(Register16::HL, 0x8A23).unwrap();
    cpu.execute(Instruction::ADD(reg(Register::HL))).unwrap();
    assert_eq!(cpu.read16(Register16::HL), Ok(0x1446));
    assert_eq!(cpu.get_flags(), Flags { zero: true, subtract: false, half_carry: true, carry: true });
}

#[test]
fn echo_ram_mirrors_work_ram() {
    let mut cpu = cpu();
    assert_eq!(cpu.write_mem(0xC010, 0x5A), Ok(()));
    assert_eq!(cpu.read_mem(0xE010), Ok(0x5A));
    assert_eq!(cpu.write_mem(0xE010, 0xA5), Ok(()));
    assert_eq!(cpu.read_mem(0xC010), Ok(0xA5));
    assert_eq!(cpu.write_mem(0xFDFF, 0x77), Ok(()));
    assert_eq!(cpu.read_mem(0xDDFF), Ok(0x77));
    assert_eq!(cpu.write_mem(0xDFFF, 0x11), Ok(()));
    assert_eq!(cpu.read_mem(0xDFFF), Ok(0x11));
}

#[test]
fn high_ram_boundaries() {
    let mut cpu = cpu();
    assert_eq!(cpu.write_mem(0xFF80, 0x01), Ok(()));
    assert_eq!(cpu.write_mem(0xFFFE, 0x02), Ok(()));
    assert_eq!(cpu.write_mem(0xFFFF, 0x1F), Ok(()));
    assert_eq!(cpu.read_mem(0xFF80), Ok(0x01));
    assert_eq!(cpu.read_mem(0xFFFE), Ok(0x02));
    assert_eq!(cpu.read_mem(0xFFFF), Ok(0x1F));
    assert_eq!(cpu.write_mem(0xFFFF, 0x00), Ok(()));
    assert_eq!(cpu.read_mem(0xFF80), Ok(0x01));
    assert_eq!(cpu.read_mem(0xFFFE), Ok(0x02));
}

#[test]
fn interrupt_flags_register_reads_back() {
    let mut cpu = cpu();
    assert_eq!(cpu.write_mem(0xFF0F, 0xE5), Ok(()));
    assert_eq!(cpu.read_mem(0xFF0F), Ok(0xE5));
    assert_eq!(cpu.read_mem(0xFFFF), Ok(0x00));
}

#[test]
fn regions_that_are_not_built_in() {
    let mut cpu = cpu();
    for addr in [
        0x0000u16, 0x7FFF, 0x8000, 0x9FFF, 0xA000, 0xBFFF, 0xFF00, 0xFF01, 0xFF02, 0xFF04, 0xFF07,
        0xFF10, 0xFF3F, 0xFF40, 0xFF45, 0xFF47, 0xFF4B, 0xFF4F, 0xFF68, 0xFF69, 0xFF46, 0xFF70,
    ] {
        assert_eq!(cpu.read_mem(addr), Err(Fault::Unimplemented(addr)));
        assert_eq!(cpu.write_mem(addr, 1), Err(Fault::Unimplemented(addr)));
    }
}

#[test]
fn addresses_out_of_range() {
    let mut cpu = cpu();
    for addr in [
        0xFE00u16, 0xFE9F, 0xFEFF, 0xFF03, 0xFF08, 0xFF0E, 0xFF4C, 0xFF4E, 0xFF50, 0xFF67, 0xFF6A,
        0xFF6F, 0xFF71, 0xFF7E,
    ] {
        assert_eq!(cpu.read_mem(addr), Err(Fault::OutOfRange(addr)));
        assert_eq!(cpu.write_mem(addr, 1), Err(Fault::OutOfRange(addr)));
    }
}

#[test]
fn speed_switch_reads_zero() {
    let mut cpu = cpu();
    assert_eq!(cpu.write_mem(0xFF4D, 0xFF), Ok(()));
    assert_eq!(cpu.read_mem(0xFF4D), Ok(0));
}

#[test]
fn tolerated_address_takes_writes_only() {
    let mut cpu = cpu();
    assert_eq!(cpu.write_mem(0xFF7F, 0xFF), Ok(()));
    assert_eq!(cpu.read_mem(0xFF7F), Err(Fault::OutOfRange(0xFF7F)));
}

#[test]
fn push_then_pop_restores_value_and_stack_pointer() {
    let mut cpu = cpu();
    cpu.set_sp(0xDFF0);
    cpu.write16(Register16::BC, 0x1234).unwrap();
    assert_eq!(cpu.execute(Instruction::PUSH(reg(Register::BC))), Ok(Timing::Default));
    assert_eq!(cpu.sp(), 0xDFEE);
    assert_eq!(cpu.read_mem(0xDFEF), Ok(0x12));
    assert_eq!(cpu.read_mem(0xDFEE), Ok(0x34));
    cpu.write16(Register16::BC, 0).unwrap();
    assert_eq!(cpu.execute(Instruction::POP(reg(Register::BC))), Ok(Timing::Default));
    assert_eq!(cpu.read16(Register16::BC), Ok(0x1234));
    assert_eq!(cpu.sp(), 0xDFF0);
}

#[test]
fn pop_af_restores_the_flags() {
    let mut cpu = cpu();
    cpu.set_sp(0xFFFE);
    cpu.write16(Register16::DE, 0x99FF).unwrap();
    cpu.execute(Instruction::PUSH(reg(Register::DE))).unwrap();
    cpu.execute(Instruction::POP(reg(Register::AF))).unwrap();
    assert_eq!(cpu.a(), 0x99);
    assert_eq!(cpu.read8(Register8::F), Ok(0xF0));
    assert_eq!(cpu.sp(), 0xFFFE);
}

#[test]
fn push_into_unmapped_memory_is_a_fault() {
    let mut cpu = cpu();
    cpu.set_sp(0xA001);
    assert_eq!(
        cpu.execute(Instruction::PUSH(reg(Register::BC))),
        Err(Fault::Unimplemented(0xA000))
    );
    assert_eq!(cpu.sp(), 0xA001);
    cpu.set_sp(0xFF00);
    assert_eq!(
        cpu.execute(Instruction::PUSH(reg(Register::BC))),
        Err(Fault::OutOfRange(0xFEFF))
    );
}

#[test]
fn decode_nop() {
    assert_eq!(Instruction::from_memory(false, 0x00), Some(Instruction::NOP));
    let mut cpu = cpu();
    load(&mut cpu, &[0x00]);
    assert_eq!(cpu.cycle(), Ok(4));
    assert_eq!(cpu.pc(), 0xC001);
    assert_eq!(cpu.sp(), 0xD000);
    assert_eq!(cpu.a(), 0);
    assert_eq!(cpu.read16(Register16::BC), Ok(0x0102));
    assert_eq!(cpu.read16(Register16::DE), Ok(0x0304));
    assert_eq!(cpu.read16(Register16::HL), Ok(0x0506));
    assert_eq!(cpu.get_flags(), clear());
}

#[test]
fn decode_and_run_load_immediate() {
    assert_eq!(
        Instruction::from_memory(false, 0x3E),
        Some(Instruction::LD(reg(Register::A), reg(Register::D8)))
    );
    let mut cpu = cpu();
    load(&mut cpu, &[0x3E, 0x42]);
    assert_eq!(cpu.cycle(), Ok(8));
    assert_eq!(cpu.a(), 0x42);
    assert_eq!(cpu.pc(), 0xC002);
}

#[test]
fn execute_load_immediate_reads_at_pc() {
    let mut cpu = cpu();
    load(&mut cpu, &[0x42]);
    assert_eq!(
        cpu.execute(Instruction::LD(reg(Register::A), reg(Register::D8))),
        Ok(Timing::Default)
    );
    assert_eq!(cpu.a(), 0x42);
    assert_eq!(cpu.pc(), 0xC001);
}
