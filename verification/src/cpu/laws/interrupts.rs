//! The dispatch of interrupts, and the cycle as a whole.

use vstd::prelude::*;
use crate::cpu::alu;
use crate::cpu::inner::instructions::{decode_prefixed, decode_raw};
use crate::cpu::inner::{Fault, Operand, Register};
use crate::cpu::laws::decoder::{law_decoded_is_well_formed, law_operand_access, law_unassigned_opcodes, law_well_formed_runs};
use crate::cpu::machine::Machine;

verus! {

/// The source that is served is the first that is pending and enabled: its bit is set
/// and no lower bit is. No source is found exactly when nothing is pending and enabled.
pub proof fn law_lowest_bit(x: u8)
    ensures
        crate::cpu::lowest_bit(x) <= 8,
        crate::cpu::lowest_bit(x) == 8 <==> x == 0,
        crate::cpu::lowest_bit(x) < 8 ==> alu::bit_set(x, crate::cpu::lowest_bit(x)),
        forall|k: u8| k < crate::cpu::lowest_bit(x) ==> !#[trigger] alu::bit_set(x, k),
{
    assert(x == 0 <==> !alu::bit_set(x, 0) && !alu::bit_set(x, 1) && !alu::bit_set(x, 2)
        && !alu::bit_set(x, 3) && !alu::bit_set(x, 4) && !alu::bit_set(x, 5) && !alu::bit_set(x, 6)
        && !alu::bit_set(x, 7)) by (bit_vector);
}

/// The machine on which the interrupt that is due is served: woken if it was halted, the
/// master enable and the pending bit of the source cleared.
pub open spec fn served(m: Machine) -> Machine {
    Machine {
        halted: m.halted && m.pending() == 0,
        ime: false,
        int_flags: alu::res8_of(crate::cpu::lowest_bit(m.pending()), m.int_flags),
        ..m
    }
}

/// An interrupt is dispatched exactly when the master enable is set and a source is
/// pending and enabled. The source dispatched is the first such one; it is no longer
/// pending when the program counter is pushed, and the program goes on at its vector.
pub proof fn law_interrupt_dispatch(m: Machine)
    ensures
        ({
            let n = crate::cpu::lowest_bit(m.pending());
            let woken = Machine { halted: m.halted && m.pending() == 0, ..m };
            let (pushed, w) = served(m).push_u16(m.pc);
            if !m.ime || m.pending() == 0 {
                m.handle_interrupt() == (woken, Ok::<u32, Fault>(0u32))
            } else if n >= 5 {
                m.handle_interrupt() == (
                    Machine { ime: false, ..woken },
                    Err::<u32, Fault>(Fault::InvalidInterrupt(n)),
                )
            } else {
                &&& alu::bit_set(m.pending(), n)
                &&& !alu::bit_set(served(m).pending(), n)
                &&& !served(m).ime && !served(m).halted
                &&& w is Ok ==> m.handle_interrupt() == (
                    Machine { pc: crate::cpu::vector(n), ..pushed },
                    Ok::<u32, Fault>(20u32),
                )
                &&& w matches Err(e) ==> m.handle_interrupt() == (pushed, Err::<u32, Fault>(e))
            }
        }),
{
    law_lowest_bit(m.pending());
    let n = crate::cpu::lowest_bit(m.pending());
    let f = m.int_flags;
    let e = m.int_enable;
    assert(n < 8 ==> !alu::bit_set(alu::res8_of(n, f) & e, n)) by (bit_vector);
}

/// A cycle never fails for a bad operand.
pub proof fn law_cycle_runs(m: Machine)
    ensures
        m.handle_interrupt().1 != Err::<u32, Fault>(Fault::BadOperand),
        m.cycle().1 != Err::<u32, Fault>(Fault::BadOperand),
{
    let a = Operand::Reg(Register::A);
    law_operand_access(served(m), a, 0, m.pc);
    let (m1, spent) = m.handle_interrupt();
    if spent is Ok && !m1.halted {
        law_operand_access(m1, a, 0, 0);
        let (m2, fetched) = m1.step();
        if fetched is Ok {
            let (prefixed, byte) = fetched->Ok_0;
            law_decoded_is_well_formed(prefixed, byte);
            law_unassigned_opcodes(byte);
            if prefixed {
                law_well_formed_runs(m2, decode_prefixed(byte));
            } else if decode_raw(byte) is Some {
                let instr = decode_raw(byte)->0;
                if instr is CB_INSTRUCTION {
                    law_operand_access(m2, a, 0, 0);
                    let (m3, b) = m2.d8();
                    if b is Ok {
                        law_decoded_is_well_formed(true, b->Ok_0);
                        law_well_formed_runs(m3, decode_prefixed(b->Ok_0));
                    }
                } else {
                    law_well_formed_runs(m2, instr);
                }
            }
        }
    }
}

} // verus!
