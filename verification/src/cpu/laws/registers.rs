//! Register pairs and their halves.

use vstd::prelude::*;
use crate::cpu::inner::register::{high, low, pair};
use crate::cpu::inner::{Fault, Flags, Register, Register16, Register8};
use crate::cpu::machine::Machine;

verus! {

/// The two 8-bit registers that a pair is made of, the high one first.
pub open spec fn halves(r: Register16) -> Option<(Register8, Register8)> {
    match r {
        Register16::HL | Register16::HLi | Register16::HLd => Some((Register8::H, Register8::L)),
        Register16::AF => Some((Register8::A, Register8::F)),
        Register16::BC => Some((Register8::B, Register8::C)),
        Register16::DE => Some((Register8::D, Register8::E)),
        _ => None,
    }
}

/// The byte that a register keeps of a byte written to it: all of it, but for F, which
/// keeps the four status bits.
pub open spec fn kept(r: Register8, v: u8) -> u8 {
    if r is F {
        Flags::of_byte(v).byte()
    } else {
        v
    }
}

/// The values of the two registers of a pair, the high one first.
pub open spec fn halves_value(m: Machine, r: Register16) -> (u8, u8) {
    match r {
        Register16::AF => (m.a, m.flags.byte()),
        Register16::BC => (m.b, m.c),
        Register16::DE => (m.d, m.e),
        _ => (m.h, m.l),
    }
}

/// The selector of either width that names an 8-bit selector.
pub open spec fn wide_name(r: Register8) -> Register {
    match r {
        Register8::D8 => Register::D8,
        Register8::A => Register::A,
        Register8::F => Register::F,
        Register8::B => Register::B,
        Register8::C => Register::C,
        Register8::D => Register::D,
        Register8::E => Register::E,
        Register8::H => Register::H,
        Register8::L => Register::L,
    }
}

/// The selector of either width that names a 16-bit selector.
pub open spec fn wide_pair(r: Register16) -> Register {
    match r {
        Register16::HL => Register::HL,
        Register16::HLi => Register::HLi,
        Register16::HLd => Register::HLd,
        Register16::AF => Register::AF,
        Register16::BC => Register::BC,
        Register16::DE => Register::DE,
        Register16::SP => Register::SP,
        Register16::D16 => Register::D16,
    }
}

/// A word written to a register pair is read back from its two registers as its high and
/// its low byte.
pub proof fn law_pair_shows_in_halves(m: Machine, r: Register16, v: u16)
    requires
        halves(r) is Some,
    ensures
        ({
            let (hi, lo) = halves(r)->0;
            let (m1, w) = m.write16(r, v);
            &&& w is Ok
            &&& m1.read8(hi) == (m1, Ok::<u8, Fault>(high(v)))
            &&& m1.read8(lo) == (m1, Ok::<u8, Fault>(kept(lo, low(v))))
            &&& !(r is AF) ==> m1.read16(r) == (m1, Ok::<u16, Fault>(v))
        }),
{
}

/// Two bytes written to the two registers of a pair are read back from the pair as one
/// word, whichever is written first.
pub proof fn law_halves_show_in_pair(m: Machine, r: Register16, x: u8, y: u8)
    requires
        halves(r) is Some,
    ensures
        ({
            let (hi, lo) = halves(r)->0;
            let m1 = m.write8(hi, x).0.write8(lo, y).0;
            let m2 = m.write8(lo, y).0.write8(hi, x).0;
            &&& m1 == m2
            &&& m1.read16(r) == (m1, Ok::<u16, Fault>(pair(x, kept(lo, y))))
        }),
{
}

/// The flag register always reads with a zero low nibble.
pub proof fn law_flag_register_low_nibble(m: Machine)
    ensures
        m.read8(Register8::F).1 matches Ok(f) && f % 16 == 0,
        m.read16(Register16::AF).1 matches Ok(af) && af % 16 == 0,
{
    let f = m.flags.byte();
    assert(f % 16 == 0);
    assert(pair(m.a, f) % 16 == 0);
}

} // verus!
