use gbc_m4::cpu::inner::{
    Fault, Flag, Flagd, Flags, Instruction, Operand, Register, Register16, Register8, Timing,
};
use gbc_m4::cpu::instructions;
use gbc_m4::cpu::CPU;

fn reg(r: Register) -> Operand {
    Operand::Reg(r)
}

fn flags(zero: bool, subtract: bool, half_carry: bool, carry: bool) -> Flags {
    Flags { zero, subtract, half_carry, carry }
}

/// A processor with a program at 0xC000, the program counter on it, and the stack
/// pointer at the top of high RAM.
fn machine(program: &[u8]) -> CPU {
    let mut cpu = CPU::new();
    let mut addr = 0xC000u16;
    for byte in program {
        cpu.write_mem(addr, *byte).unwrap();
        addr += 1;
    }
    cpu.set_pc(0xC000);
    cpu.set_sp(0xFFFE);
    cpu.set_a(0);
    cpu.write16(Register16::BC, 0).unwrap();
    cpu.write16(Register16::DE, 0).unwrap();
    cpu.write16(Register16::HL, 0).unwrap();
    cpu
}

#[test]
fn jump_absolute() {
    let mut cpu = machine(&[0xC3, 0x34, 0xD2]);
    assert_eq!(cpu.cycle(), Ok(16));
    assert_eq!(cpu.pc(), 0xD234);
}

#[test]
fn jump_conditional_not_taken_consumes_the_operand() {
    let mut cpu = machine(&[0xCA, 0x34, 0xD2]);
    cpu.set_flags(false, false, false, false);
    assert_eq!(cpu.cycle(), Ok(12));
    assert_eq!(cpu.pc(), 0xC003);
}

#[test]
fn jump_conditional_taken() {
    let mut cpu = machine(&[0xCA, 0x34, 0xD2]);
    cpu.set_flags(true, false, false, false);
    assert_eq!(cpu.cycle(), Ok(16));
    assert_eq!(cpu.pc(), 0xD234);
}

#[test]
fn jump_to_hl() {
    let mut cpu = machine(&[0xE9]);
    cpu.write16(Register16::HL, 0xC123).unwrap();
    assert_eq!(cpu.cycle(), Ok(4));
    assert_eq!(cpu.pc(), 0xC123);
}

#[test]
fn relative_jumps_are_signed() {
    let mut cpu = machine(&[0x18, 0x05]);
    assert_eq!(cpu.cycle(), Ok(12));
    assert_eq!(cpu.pc(), 0xC007);
    let mut cpu = machine(&[0x18, 0xFE]);
    assert_eq!(cpu.cycle(), Ok(12));
    assert_eq!(cpu.pc(), 0xC000);
    let mut cpu = machine(&[0x38, 0x10]);
    cpu.set_flags(false, false, false, false);
    assert_eq!(cpu.cycle(), Ok(8));
    assert_eq!(cpu.pc(), 0xC002);
    let mut cpu = machine(&[0x30, 0x80]);
    cpu.set_flags(false, false, false, false);
    assert_eq!(cpu.cycle(), Ok(12));
    assert_eq!(cpu.pc(), 0xBF82);
}

#[test]
fn call_and_return() {
    let mut cpu = machine(&[0xCD, 0x00, 0xC1]);
    cpu.write_mem(0xC100, 0xC9).unwrap();
    assert_eq!(cpu.cycle(), Ok(24));
    assert_eq!(cpu.pc(), 0xC100);
    assert_eq!(cpu.sp(), 0xFFFC);
    assert_eq!(cpu.read_mem(0xFFFD), Ok(0xC0));
    assert_eq!(cpu.read_mem(0xFFFC), Ok(0x03));
    assert_eq!(cpu.cycle(), Ok(16));
    assert_eq!(cpu.pc(), 0xC003);
    assert_eq!(cpu.sp(), 0xFFFE);
}

#[test]
fn conditional_call_and_return() {
    let mut cpu = machine(&[0xC4, 0x00, 0xC1, 0xC0]);
    cpu.set_flags(true, false, false, false);
    assert_eq!(cpu.cycle(), Ok(12));
    assert_eq!(cpu.pc(), 0xC003);
    assert_eq!(cpu.sp(), 0xFFFE);
    assert_eq!(cpu.cycle(), Ok(8));
    assert_eq!(cpu.pc(), 0xC004);
    let mut cpu = machine(&[0xC4, 0x00, 0xC1]);
    cpu.write_mem(0xC100, 0xC0).unwrap();
    cpu.set_flags(false, false, false, false);
    assert_eq!(cpu.cycle(), Ok(24));
    assert_eq!(cpu.pc(), 0xC100);
    assert_eq!(cpu.cycle(), Ok(20));
    assert_eq!(cpu.pc(), 0xC003);
}

#[test]
fn restart_pushes_and_jumps_to_the_vector() {
    let mut cpu = machine(&[0xEF]);
    assert_eq!(cpu.cycle(), Ok(16));
    assert_eq!(cpu.pc(), 0x0028);
    assert_eq!(cpu.sp(), 0xFFFC);
    assert_eq!(cpu.read_mem(0xFFFD), Ok(0xC0));
    assert_eq!(cpu.read_mem(0xFFFC), Ok(0x01));
    let mut cpu = machine(&[]);
    assert_eq!(instructions::rst(&mut cpu, 0x38), Ok(Timing::Default));
    assert_eq!(cpu.pc(), 0x0038);
}

#[test]
fn reti_enables_interrupts() {
    let mut cpu = machine(&[0xD9]);
    cpu.set_sp(0xFFFC);
    cpu.write_mem(0xFFFC, 0x50).unwrap();
    cpu.write_mem(0xFFFD, 0xC0).unwrap();
    assert_eq!(cpu.cycle(), Ok(16));
    assert!(cpu.ime());
    assert_eq!(cpu.pc(), 0xC050);
    assert_eq!(cpu.sp(), 0xFFFE);
}

#[test]
fn ei_di_halt() {
    let mut cpu = machine(&[0xFB, 0xF3, 0x76]);
    assert_eq!(cpu.cycle(), Ok(4));
    assert!(cpu.ime());
    assert_eq!(cpu.cycle(), Ok(4));
    assert!(!cpu.ime());
    assert!(!cpu.halted());
    assert_eq!(cpu.cycle(), Ok(4));
    assert!(cpu.halted());
    assert_eq!(cpu.pc(), 0xC003);
}

#[test]
fn halted_processor_idles_until_an_interrupt_is_pending() {
    let mut cpu = machine(&[0x76, 0x3C]);
    cpu.cycle().unwrap();
    assert!(cpu.halted());
    assert_eq!(cpu.cycle(), Ok(4));
    assert_eq!(cpu.cycle(), Ok(4));
    assert_eq!(cpu.pc(), 0xC001);
    assert_eq!(cpu.a(), 0);
    // pending but not enabled: still halted
    cpu.write_mem(0xFF0F, 0x04).unwrap();
    assert_eq!(cpu.cycle(), Ok(4));
    assert!(cpu.halted());
    // enabled and pending wakes the processor even with the master enable clear
    cpu.write_mem(0xFFFF, 0x04).unwrap();
    assert_eq!(cpu.cycle(), Ok(4));
    assert!(!cpu.halted());
    assert_eq!(cpu.a(), 1);
    assert_eq!(cpu.pc(), 0xC002);
    assert_eq!(cpu.int_flags(), 0x04);
}

#[test]
fn interrupt_dispatch_serves_the_lowest_bit() {
    let mut cpu = machine(&[0x00]);
    cpu.set_ime(true);
    cpu.write_mem(0xFFFF, 0x1F).unwrap();
    cpu.write_mem(0xFF0F, 0x14).unwrap();
    assert_eq!(cpu.handle_interrupt(), Ok(20));
    assert!(!cpu.ime());
    assert_eq!(cpu.pc(), 0x0050);
    assert_eq!(cpu.int_flags(), 0x10);
    assert_eq!(cpu.int_enable(), 0x1F);
    assert_eq!(cpu.sp(), 0xFFFC);
    assert_eq!(cpu.read_mem(0xFFFD), Ok(0xC0));
    assert_eq!(cpu.read_mem(0xFFFC), Ok(0x00));
    // the master enable is clear now: nothing more is served
    assert_eq!(cpu.handle_interrupt(), Ok(0));
    assert_eq!(cpu.int_flags(), 0x10);
}

#[test]
fn interrupt_vectors() {
    for (bit, vector) in [(0u8, 0x40u16), (1, 0x48), (2, 0x50), (3, 0x58), (4, 0x60)] {
        let mut cpu = machine(&[]);
        cpu.set_ime(true);
        cpu.write_mem(0xFFFF, 0xFF).unwrap();
        cpu.write_mem(0xFF0F, 0xFFu8 << bit).unwrap();
        assert_eq!(cpu.handle_interrupt(), Ok(20));
        assert_eq!(cpu.pc(), vector);
        assert_eq!(cpu.int_flags(), (0xFFu8 << bit) & !(1 << bit));
    }
}

#[test]
fn interrupt_needs_enable_and_master_enable() {
    let mut cpu = machine(&[]);
    cpu.write_mem(0xFFFF, 0x01).unwrap();
    cpu.write_mem(0xFF0F, 0x01).unwrap();
    assert_eq!(cpu.handle_interrupt(), Ok(0));
    assert_eq!(cpu.pc(), 0xC000);
    cpu.set_ime(true);
    cpu.write_mem(0xFFFF, 0x02).unwrap();
    assert_eq!(cpu.handle_interrupt(), Ok(0));
    assert!(cpu.ime());
    assert_eq!(cpu.int_flags(), 0x01);
}

#[test]
fn interrupt_bit_without_a_source_is_a_fault() {
    let mut cpu = machine(&[]);
    cpu.set_ime(true);
    cpu.write_mem(0xFFFF, 0xE0).unwrap();
    cpu.write_mem(0xFF0F, 0xC0).unwrap();
    assert_eq!(cpu.handle_interrupt(), Err(Fault::InvalidInterrupt(6)));
    cpu.set_ime(true);
    cpu.write_mem(0xFF0F, 0x20).unwrap();
    assert_eq!(cpu.cycle(), Err(Fault::InvalidInterrupt(5)));
}

#[test]
fn interrupt_then_instruction_in_one_cycle() {
    let mut cpu = machine(&[]);
    cpu.set_sp(0xD000);
    cpu.set_ime(true);
    cpu.write_mem(0xFFFF, 0x01).unwrap();
    cpu.write_mem(0xFF0F, 0x01).unwrap();
    assert_eq!(cpu.cycle(), Err(Fault::Unimplemented(0x0040)));
    assert_eq!(cpu.pc(), 0x0040);
    assert_eq!(cpu.sp(), 0xCFFE);
}

#[test]
fn invalid_opcode_is_a_fault() {
    let mut cpu = machine(&[0xD3]);
    assert_eq!(cpu.cycle(), Err(Fault::InvalidOpcode(0xD3)));
    assert_eq!(cpu.pc(), 0xC001);
    let mut cpu = machine(&[]);
    assert_eq!(cpu.execute_instruction(0xFD), Err(Fault::InvalidOpcode(0xFD)));
    assert_eq!(cpu.pc(), 0xC000);
}

#[test]
fn fetch_from_unmapped_memory_is_a_fault() {
    let mut cpu = machine(&[]);
    cpu.set_pc(0x0100);
    assert_eq!(cpu.cycle(), Err(Fault::Unimplemented(0x0100)));
    assert_eq!(cpu.pc(), 0x0100);
    cpu.set_pc(0xFEA0);
    assert_eq!(cpu.step(), Err(Fault::OutOfRange(0xFEA0)));
}

#[test]
fn step_reads_the_prefix() {
    let mut cpu = machine(&[0x3E, 0xCB, 0x37]);
    assert_eq!(cpu.step(), Ok((false, 0x3E)));
    assert_eq!(cpu.pc(), 0xC001);
    assert_eq!(cpu.step(), Ok((true, 0x37)));
    assert_eq!(cpu.pc(), 0xC003);
}

#[test]
fn prefixed_instruction_in_a_cycle() {
    let mut cpu = machine(&[0xCB, 0x37, 0xCB, 0x46, 0xCB, 0xC6]);
    cpu.set_a(0xF1);
    assert_eq!(cpu.cycle(), Ok(8));
    assert_eq!(cpu.a(), 0x1F);
    assert_eq!(cpu.pc(), 0xC002);
    cpu.write16(Register16::HL, 0xC100).unwrap();
    cpu.write_mem(0xC100, 0xFE).unwrap();
    assert_eq!(cpu.cycle(), Ok(12));
    assert_eq!(cpu.get_flags(), flags(true, false, true, false));
    assert_eq!(cpu.cycle(), Ok(16));
    assert_eq!(cpu.read_mem(0xC100), Ok(0xFF));
    assert_eq!(cpu.pc(), 0xC006);
}

#[test]
fn prefix_through_execute() {
    let mut cpu = machine(&[0x11]);
    cpu.write8(Register8::C, 0x80).unwrap();
    cpu.set_flags(false, false, false, true);
    assert_eq!(cpu.execute(Instruction::CB_INSTRUCTION), Ok(Timing::Cb(2)));
    assert_eq!(cpu.read8(Register8::C), Ok(0x01));
    assert_eq!(cpu.get_flags(), flags(false, false, false, true));
    assert_eq!(cpu.pc(), 0xC001);
    let mut cpu = machine(&[0x11]);
    assert_eq!(cpu.execute_instruction(0xCB), Ok(8));
    let mut cpu = machine(&[]);
    assert_eq!(cpu.execute_cb_instruction(0x86), Err(Fault::Unimplemented(0x0000)));
    cpu.write16(Register16::HL, 0xC000).unwrap();
    assert_eq!(cpu.execute_cb_instruction(0x86), Ok(Timing::Cb(4)));
    assert_eq!(cpu.execute_cb_instruction(0x46), Ok(Timing::Cb(3)));
}

#[test]
fn load_and_step() {
    let mut cpu = machine(&[0x22, 0x22, 0x3A, 0x2A]);
    cpu.write16(Register16::HL, 0xC100).unwrap();
    cpu.set_a(0x77);
    assert_eq!(cpu.cycle(), Ok(8));
    assert_eq!(cpu.read_mem(0xC100), Ok(0x77));
    assert_eq!(cpu.read16(Register16::HL), Ok(0xC101));
    cpu.set_a(0x88);
    cpu.cycle().unwrap();
    assert_eq!(cpu.read_mem(0xC101), Ok(0x88));
    assert_eq!(cpu.read16(Register16::HL), Ok(0xC102));
    cpu.write16(Register16::HL, 0xC101).unwrap();
    cpu.set_a(0);
    assert_eq!(cpu.cycle(), Ok(8));
    assert_eq!(cpu.a(), 0x88);
    assert_eq!(cpu.read16(Register16::HL), Ok(0xC100));
    cpu.cycle().unwrap();
    assert_eq!(cpu.a(), 0x77);
    assert_eq!(cpu.read16(Register16::HL), Ok(0xC101));
}

#[test]
fn loads_of_words() {
    let mut cpu = machine(&[0x21, 0x34, 0x12, 0xF9, 0x08, 0x00, 0xC1, 0x31, 0xFE, 0xFF]);
    assert_eq!(cpu.cycle(), Ok(12));
    assert_eq!(cpu.read16(Register16::HL), Ok(0x1234));
    assert_eq!(cpu.cycle(), Ok(8));
    assert_eq!(cpu.sp(), 0x1234);
    assert_eq!(cpu.cycle(), Ok(20));
    assert_eq!(cpu.read_mem(0xC100), Ok(0x34));
    assert_eq!(cpu.read_mem(0xC101), Ok(0x12));
    assert_eq!(cpu.cycle(), Ok(12));
    assert_eq!(cpu.sp(), 0xFFFE);
    assert_eq!(cpu.pc(), 0xC00A);
}

#[test]
fn zero_page_loads() {
    let mut cpu = machine(&[0xE0, 0x80, 0xF0, 0x80, 0xE2, 0xF2, 0xE0, 0x00]);
    cpu.set_a(0x5A);
    assert_eq!(cpu.cycle(), Ok(12));
    assert_eq!(cpu.read_mem(0xFF80), Ok(0x5A));
    cpu.set_a(0);
    assert_eq!(cpu.cycle(), Ok(12));
    assert_eq!(cpu.a(), 0x5A);
    cpu.write8(Register8::C, 0xFE).unwrap();
    assert_eq!(cpu.cycle(), Ok(8));
    assert_eq!(cpu.read_mem(0xFFFE), Ok(0x5A));
    cpu.set_a(0);
    assert_eq!(cpu.cycle(), Ok(8));
    assert_eq!(cpu.a(), 0x5A);
    assert_eq!(cpu.cycle(), Err(Fault::Unimplemented(0xFF00)));
}

#[test]
fn absolute_loads() {
    let mut cpu = machine(&[0xEA, 0x00, 0xD0, 0xFA, 0x00, 0xD0]);
    cpu.set_a(0x99);
    assert_eq!(cpu.cycle(), Ok(16));
    assert_eq!(cpu.read_mem(0xD000), Ok(0x99));
    cpu.set_a(0);
    assert_eq!(cpu.cycle(), Ok(16));
    assert_eq!(cpu.a(), 0x99);
}

#[test]
fn memory_operand_arithmetic() {
    let mut cpu = machine(&[0x34, 0x35, 0x86, 0xBE, 0x36, 0x7F]);
    cpu.write16(Register16::HL, 0xC200).unwrap();
    cpu.write_mem(0xC200, 0xFF).unwrap();
    assert_eq!(cpu.cycle(), Ok(12));
    assert_eq!(cpu.read_mem(0xC200), Ok(0x00));
    assert_eq!(cpu.get_flags(), flags(true, false, true, false));
    assert_eq!(cpu.cycle(), Ok(12));
    assert_eq!(cpu.read_mem(0xC200), Ok(0xFF));
    cpu.set_a(0x02);
    assert_eq!(cpu.cycle(), Ok(8));
    assert_eq!(cpu.a(), 0x01);
    assert_eq!(cpu.get_flags(), flags(false, false, true, true));
    assert_eq!(cpu.cycle(), Ok(8));
    assert_eq!(cpu.a(), 0x01);
    assert_eq!(cpu.get_flags(), flags(false, true, true, true));
    assert_eq!(cpu.cycle(), Ok(12));
    assert_eq!(cpu.read_mem(0xC200), Ok(0x7F));
}

#[test]
fn immediate_arithmetic() {
    let mut cpu = machine(&[0xC6, 0x0F, 0xCE, 0xF0, 0xD6, 0x01, 0xDE, 0x00, 0xE6, 0x0F, 0xF6, 0xA0, 0xEE, 0xFF, 0xFE, 0x50]);
    cpu.set_a(0x01);
    cpu.set_flags(false, false, false, false);
    assert_eq!(cpu.cycle(), Ok(8));
    assert_eq!(cpu.a(), 0x10);
    assert_eq!(cpu.cycle(), Ok(8));
    assert_eq!(cpu.a(), 0x00);
    assert_eq!(cpu.get_flags(), flags(true, false, false, true));
    cpu.cycle().unwrap();
    assert_eq!(cpu.a(), 0xFF);
    assert_eq!(cpu.get_flags(), flags(false, true, true, true));
    cpu.cycle().unwrap();
    assert_eq!(cpu.a(), 0xFE);
    assert_eq!(cpu.get_flags(), flags(false, true, false, false));
    cpu.cycle().unwrap();
    assert_eq!(cpu.a(), 0x0E);
    assert_eq!(cpu.get_flags(), flags(false, false, true, false));
    cpu.cycle().unwrap();
    assert_eq!(cpu.a(), 0xAE);
    assert_eq!(cpu.get_flags(), flags(false, false, false, false));
    cpu.cycle().unwrap();
    assert_eq!(cpu.a(), 0x51);
    cpu.cycle().unwrap();
    assert_eq!(cpu.a(), 0x51);
    assert_eq!(cpu.get_flags(), flags(false, true, false, false));
    assert_eq!(cpu.pc(), 0xC010);
}

#[test]
fn accumulator_rotates_clear_zero() {
    let mut cpu = machine(&[0x07, 0x17, 0x0F, 0x1F]);
    cpu.set_a(0x00);
    cpu.set_flags(true, true, true, false);
    assert_eq!(cpu.cycle(), Ok(4));
    assert_eq!(cpu.a(), 0x00);
    assert_eq!(cpu.get_flags(), flags(false, false, false, false));
    cpu.set_a(0x80);
    cpu.cycle().unwrap();
    assert_eq!(cpu.a(), 0x00);
    assert_eq!(cpu.get_flags(), flags(false, false, false, true));
    cpu.set_a(0x01);
    cpu.cycle().unwrap();
    assert_eq!(cpu.a(), 0x80);
    assert_eq!(cpu.get_flags(), flags(false, false, false, true));
    cpu.set_a(0x00);
    cpu.cycle().unwrap();
    assert_eq!(cpu.a(), 0x80);
    assert_eq!(cpu.get_flags(), flags(false, false, false, false));
}

#[test]
fn decimal_adjust_in_a_program() {
    let mut cpu = machine(&[0x3E, 0x45, 0xC6, 0x38, 0x27, 0xD6, 0x38, 0x27]);
    cpu.cycle().unwrap();
    cpu.cycle().unwrap();
    assert_eq!(cpu.a(), 0x7D);
    assert_eq!(cpu.cycle(), Ok(4));
    assert_eq!(cpu.a(), 0x83);
    cpu.cycle().unwrap();
    assert_eq!(cpu.a(), 0x4B);
    cpu.cycle().unwrap();
    assert_eq!(cpu.a(), 0x45);
}

#[test]
fn stack_pointer_arithmetic() {
    let mut cpu = machine(&[0xE8, 0x02, 0xF8, 0xFE, 0xE8, 0xF8]);
    cpu.set_sp(0xFFF8);
    cpu.set_flags(true, true, false, false);
    assert_eq!(cpu.cycle(), Ok(16));
    assert_eq!(cpu.sp(), 0xFFFA);
    assert_eq!(cpu.get_flags(), flags(false, false, false, false));
    assert_eq!(cpu.cycle(), Ok(12));
    assert_eq!(cpu.read16(Register16::HL), Ok(0xFFF8));
    assert_eq!(cpu.sp(), 0xFFFA);
    assert_eq!(cpu.get_flags(), flags(false, false, true, true));
    cpu.cycle().unwrap();
    assert_eq!(cpu.sp(), 0xFFF2);
}

#[test]
fn hl_arithmetic() {
    let mut cpu = machine(&[0x09, 0x29, 0x39]);
    cpu.write16(Register16::HL, 0x0FFF).unwrap();
    cpu.write16(Register16::BC, 0x0001).unwrap();
    cpu.set_flags(true, true, false, true);
    assert_eq!(cpu.cycle(), Ok(8));
    assert_eq!(cpu.read16(Register16::HL), Ok(0x1000));
    assert_eq!(cpu.get_flags(), flags(true, false, true, false));
    cpu.write16(Register16::HL, 0x8000).unwrap();
    cpu.cycle().unwrap();
    assert_eq!(cpu.read16(Register16::HL), Ok(0x0000));
    assert_eq!(cpu.get_flags(), flags(true, false, false, true));
    cpu.set_sp(0x00FF);
    cpu.write16(Register16::HL, 0x0001).unwrap();
    cpu.cycle().unwrap();
    assert_eq!(cpu.read16(Register16::HL), Ok(0x0100));
}

#[test]
fn stop_does_nothing() {
    let mut cpu = machine(&[0x10, 0x00]);
    assert_eq!(cpu.cycle(), Ok(4));
    assert_eq!(cpu.pc(), 0xC001);
    assert!(!cpu.halted());
    assert_eq!(instructions::stop(), Timing::Default);
}

#[test]
fn dma_and_bank_writes_are_recorded_before_the_fault() {
    let mut cpu = machine(&[]);
    assert_eq!(cpu.write_mem(0xFF46, 0xC1), Err(Fault::Unimplemented(0xFF46)));
    assert_eq!(cpu.ppu_dma(), 0xC1);
    assert_eq!(cpu.write_mem(0xFF70, 0xFD), Err(Fault::Unimplemented(0xFF70)));
    assert_eq!(cpu.svbk(), 0x05);
}

#[test]
fn instruction_functions_directly() {
    let mut cpu = machine(&[0x34, 0x12]);
    assert_eq!(instructions::ld(&mut cpu, reg(Register::BC), reg(Register::D16)), Ok(Timing::Default));
    assert_eq!(cpu.read16(Register16::BC), Ok(0x1234));
    assert_eq!(instructions::push(&mut cpu, reg(Register::BC)), Ok(Timing::Default));
    assert_eq!(instructions::pop(&mut cpu, reg(Register::DE)), Ok(Timing::Default));
    assert_eq!(cpu.read16(Register16::DE), Ok(0x1234));
    assert_eq!(instructions::push_u8(&mut cpu, 0xAB), Ok(()));
    assert_eq!(cpu.sp(), 0xFFFD);
    assert_eq!(instructions::pop_u8(&mut cpu), Ok(0xAB));
    assert_eq!(instructions::push_u16(&mut cpu, 0xBEEF), Ok(()));
    assert_eq!(instructions::pop_u16(&mut cpu), Ok(0xBEEF));
    assert_eq!(instructions::add_16(&mut cpu, reg(Register::HL), reg(Register::BC)), Ok(Timing::Default));
    assert_eq!(cpu.read16(Register16::HL), Ok(0x1234));
    assert_eq!(instructions::inc_16(&mut cpu, reg(Register::HL)), Ok(Timing::Default));
    assert_eq!(instructions::dec_16(&mut cpu, reg(Register::BC)), Ok(Timing::Default));
    assert_eq!(cpu.read16(Register16::HL), Ok(0x1235));
    assert_eq!(cpu.read16(Register16::BC), Ok(0x1233));
    assert_eq!(instructions::jp(&mut cpu, Flag::NF, reg(Register::HL)), Ok(Timing::Flag));
    assert_eq!(cpu.pc(), 0x1235);
    assert_eq!(instructions::halt(&mut cpu), Timing::Default);
    assert!(cpu.halted());
}

#[test]
fn no_decoded_instruction_has_a_bad_operand() {
    for prefixed in [false, true] {
        for byte in 0u8..=255 {
            let Some(instr) = Instruction::from_memory(prefixed, byte) else {
                continue;
            };
            for hl in [0x0000u16, 0xC800, 0xFF80, 0xFF7F, 0xFEA0] {
                let mut cpu = machine(&[0x01, 0xC0, 0x02]);
                cpu.write16(Register16::HL, hl).unwrap();
                cpu.write16(Register16::BC, hl).unwrap();
                cpu.write16(Register16::DE, hl).unwrap();
                assert_ne!(cpu.execute(instr), Err(Fault::BadOperand));
            }
        }
    }
}

#[test]
fn cycles_never_report_a_bad_operand() {
    for first in 0u8..=255 {
        for second in [0x00u8, 0x46, 0x86, 0xC6, 0xFF] {
            let mut cpu = machine(&[first, second, 0xC1]);
            cpu.write16(Register16::HL, 0xC900).unwrap();
            assert_ne!(cpu.cycle(), Err(Fault::BadOperand));
        }
    }
}
