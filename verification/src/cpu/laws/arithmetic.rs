//! Additions, comparisons and decimal adjustment.

use vstd::prelude::*;
use crate::cpu::alu;
use crate::cpu::inner::register::{low};
use crate::cpu::inner::{Fault, Flags, Instruction, Operand, Register8, Timing};
use crate::cpu::instructions::is_wide;
use crate::cpu::laws::registers::{wide_name};
use crate::cpu::machine::Machine;

verus! {

/// The sum of two bytes: zero is set if and only if the sum is zero modulo 256, carry
/// if and only if it is over 255, half carry if and only if the low nibbles add to over
/// 15; subtract is cleared.
pub proof fn law_add_flags(a: u8, b: u8)
    ensures
        ({
            let (r, flags) = alu::add8_of(a, b);
            &&& r == (a + b) % 256
            &&& flags.zero <==> (a + b) % 256 == 0
            &&& flags.carry <==> a + b > 255
            &&& flags.half_carry <==> (a & 0xf) + (b & 0xf) > 0xf
            &&& !flags.subtract
        }),
{
    assert(a & 0xf == a % 16) by (bit_vector);
    assert(b & 0xf == b % 16) by (bit_vector);
}

/// A read of an operand as a byte changes the program counter at most: no register, no
/// flag and no memory.
pub proof fn law_load_frame(m: Machine, src: Operand)
    ensures
        m.load8(src).0 == (Machine { pc: m.load8(src).0.pc, ..m }),
{
    reveal(Machine::load8);
}

/// ADD with any operand of 8 bits that can be read: A takes the sum of A and the byte
/// read, the flags are those of the sum, and nothing else changes but the program counter
/// where the operand is an immediate.
pub proof fn law_add_operand(m: Machine, src: Operand)
    requires
        !is_wide(src),
        m.load8(src).1 is Ok,
    ensures
        ({
            let (m1, b) = m.load8(src);
            let (sum, flags) = alu::add8_of(m.a, b->Ok_0);
            &&& m.perform(Instruction::ADD(src)) == (
                Machine { a: sum, flags: flags, ..m1 },
                Ok::<Timing, Fault>(Timing::Default),
            )
            &&& sum == (m.a + b->Ok_0) % 256
            &&& flags.zero <==> (m.a + b->Ok_0) % 256 == 0
            &&& flags.carry <==> m.a + b->Ok_0 > 255
        }),
{
    reveal(Machine::load8);
    reveal(Machine::store8);
    reveal(Machine::perform);
    law_load_frame(m, src);
}

/// ADD with a register as its operand puts the sum of A and the register in A and sets
/// the flags of the sum; nothing else changes.
pub proof fn law_add_register(m: Machine, r: Register8)
    requires
        !(r is D8),
    ensures
        ({
            let b = m.read8(r).1->Ok_0;
            let src = Operand::Reg(wide_name(r));
            let (sum, flags) = alu::add8_of(m.a, b);
            m.perform(Instruction::ADD(src)) == (
                Machine { a: sum, flags: flags, ..m },
                Ok::<Timing, Fault>(Timing::Default),
            )
        }),
{
    reveal(Machine::load8);
    reveal(Machine::store8);
    reveal(Machine::perform);
}

/// The comparison of two bytes: zero is set if and only if they are equal, carry if and
/// only if the first is less than the second; subtract is set.
pub proof fn law_cp_flags(a: u8, b: u8)
    ensures
        alu::cp8_of(a, b).zero <==> a == b,
        alu::cp8_of(a, b).carry <==> a < b,
        alu::cp8_of(a, b).half_carry <==> (a & 0xf) < (b & 0xf),
        alu::cp8_of(a, b).subtract,
        alu::cp8_of(a, b) == alu::sub8_of(a, b).1,
{
    assert(a & 0xf == a % 16) by (bit_vector);
    assert(b & 0xf == b % 16) by (bit_vector);
}

/// CP with any operand of 8 bits that can be read: the flags are those of the comparison
/// of A with the byte read, and A keeps its value. Where the operand cannot be read, the
/// flags keep their values too.
pub proof fn law_cp_operand(m: Machine, src: Operand)
    ensures
        ({
            let (m1, b) = m.load8(src);
            let (m2, t) = m.perform(Instruction::CP(src));
            &&& m2.a == m.a
            &&& b matches Ok(b) ==> t == Ok::<Timing, Fault>(Timing::Default) && m2 == (Machine {
                flags: alu::cp8_of(m.a, b),
                ..m1
            }) && (m2.flags.zero <==> m.a == b) && (m2.flags.carry <==> m.a < b)
            &&& b matches Err(e) ==> t == Err::<Timing, Fault>(e) && m2 == m1
        }),
{
    reveal(Machine::perform);
    law_load_frame(m, src);
    if m.load8(src).1 is Ok {
        law_cp_flags(m.a, m.load8(src).1->Ok_0);
    }
}

/// CP with a register as its operand sets the flags of the comparison of A with the
/// register and changes nothing else: A keeps its value.
pub proof fn law_cp_register(m: Machine, r: Register8)
    requires
        !(r is D8),
    ensures
        ({
            let b = m.read8(r).1->Ok_0;
            let (m1, t) = m.perform(Instruction::CP(Operand::Reg(wide_name(r))));
            &&& t == Ok::<Timing, Fault>(Timing::Default)
            &&& m1 == Machine { flags: alu::cp8_of(m.a, b), ..m }
            &&& m1.a == m.a
            &&& m1.flags.zero <==> m.a == b
            &&& m1.flags.carry <==> m.a < b
        }),
{
    reveal(Machine::load8);
    reveal(Machine::perform);
    law_cp_flags(m.a, m.read8(r).1->Ok_0);
}

/// INC of 0xFF gives 0x00 with zero and half carry set and subtract cleared; the carry
/// keeps its value.
pub proof fn law_inc_wraps(flags: Flags)
    ensures
        alu::inc8_of(0xff, flags) == (
            0x00u8,
            Flags { zero: true, subtract: false, half_carry: true, carry: flags.carry },
        ),
{
}

/// The byte that holds the two decimal digits of a number below 100, one in each nibble.
pub open spec fn bcd(n: int) -> u8 {
    ((n / 10) * 16 + n % 10) as u8
}

proof fn lemma_decimal_sum(x: u16, y: u16)
    by (bit_vector)
    requires
        x < 100,
        y < 100,
    ensures
        ({
            let a = ((x / 10u16) * 16u16 + x % 10u16) as u16;
            let b = ((y / 10u16) * 16u16 + y % 10u16) as u16;
            let s = ((a + b) % 256) as u16;
            let h = a % 16u16 + b % 16u16 > 15u16;
            let c = a + b > 255u16;
            let hi = if c || s > 0x99u16 { 0x60u16 } else { 0u16 };
            let lo = if h || s % 16u16 > 0x09u16 { 0x06u16 } else { 0u16 };
            let r = ((s + hi + lo) % 256) as u16;
            let t = ((x + y) % 100) as u16;
            &&& a < 256u16 && b < 256u16
            &&& r == ((t / 10u16) * 16u16 + t % 10u16) as u16
            &&& (c || s > 0x99u16) == (x + y >= 100u16)
        }),
{
}

proof fn lemma_decimal_difference(x: u16, y: u16)
    by (bit_vector)
    requires
        x < 100,
        y < 100,
    ensures
        ({
            let a = ((x / 10u16) * 16u16 + x % 10u16) as u16;
            let b = ((y / 10u16) * 16u16 + y % 10u16) as u16;
            let s = ((a - b) % 256) as u16;
            let h = a % 16u16 - b % 16u16 < 0;
            let c = a - b < 0;
            let hi = if c { 0x60u16 } else { 0u16 };
            let lo = if h { 0x06u16 } else { 0u16 };
            let r = ((s - hi - lo) % 256) as u16;
            let t = ((x - y) % 100) as u16;
            &&& a < 256u16 && b < 256u16 && s < 256u16 && t < 100u16
            &&& r == ((t / 10u16) * 16u16 + t % 10u16) as u16
            &&& c == (x < y)
        }),
{
}

/// DAA after ADD: the sum of two bytes that hold the decimal digits of `x` and `y`,
/// adjusted, holds the decimal digits of `x + y` modulo 100; the carry tells whether the
/// sum reached 100.
pub proof fn law_daa_after_add(x: int, y: int)
    requires
        0 <= x < 100,
        0 <= y < 100,
    ensures
        ({
            let (sum, flags) = alu::add8_of(bcd(x), bcd(y));
            let (r, adjusted) = alu::daa8_of(sum, flags);
            &&& r == bcd((x + y) % 100)
            &&& adjusted.carry <==> x + y >= 100
            &&& adjusted.zero <==> (x + y) % 100 == 0
            &&& !adjusted.half_carry && !adjusted.subtract
        }),
{
    lemma_decimal_sum(x as u16, y as u16);
    let t = (x + y) % 100;
    assert(bcd(t) == 0 <==> t == 0);
}

/// DAA after SUB: the difference of two bytes that hold the decimal digits of `x` and
/// `y`, adjusted, holds the decimal digits of `x - y` modulo 100; the carry tells whether
/// `x` was less than `y`.
pub proof fn law_daa_after_sub(x: int, y: int)
    requires
        0 <= x < 100,
        0 <= y < 100,
    ensures
        ({
            let (difference, flags) = alu::sub8_of(bcd(x), bcd(y));
            let (r, adjusted) = alu::daa8_of(difference, flags);
            &&& r == bcd((x - y) % 100)
            &&& adjusted.carry <==> x < y
            &&& !adjusted.half_carry && adjusted.subtract
        }),
{
    lemma_decimal_difference(x as u16, y as u16);
}

} // verus!
