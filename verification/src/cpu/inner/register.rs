//! The selectors of registers and operands, and the bytes of a word.

use vstd::prelude::*;

verus! {

/// The selectors that are read and written as one byte.
#[derive(Clone, Copy, Debug, PartialEq, Eq, Structural)]
pub enum Register8 {
    /// Pseudo-register: the byte at the program counter, which then moves on by one.
    D8,
    /// The accumulator.
    A,
    /// The flag register; its low nibble reads as zero.
    F,
    /// General-purpose register B.
    B,
    /// General-purpose register C.
    C,
    /// General-purpose register D.
    D,
    /// General-purpose register E.
    E,
    /// General-purpose register H.
    H,
    /// General-purpose register L.
    L,
}

/// The selectors that are read and written as one word.
#[derive(Clone, Copy, Debug, PartialEq, Eq, Structural)]
pub enum Register16 {
    /// The pair of H (high) and L (low).
    HL,
    /// HL, where a load steps it up by one after the transfer.
    HLi,
    /// HL, where a load steps it down by one after the transfer.
    HLd,
    /// The pair of A (high) and F (low).
    AF,
    /// The pair of B (high) and C (low).
    BC,
    /// The pair of D (high) and E (low).
    DE,
    /// The stack pointer.
    SP,
    /// Pseudo-register: the little-endian word at the program counter, which then moves on
    /// by two.
    D16,
}

/// Every selector an instruction can name, of either width.
#[derive(Clone, Copy, Debug, PartialEq, Eq, Structural)]
pub enum Register {
    /// Pseudo-register: the byte at the program counter.
    D8,
    /// The accumulator.
    A,
    /// The flag register.
    F,
    /// General-purpose register B.
    B,
    /// General-purpose register C.
    C,
    /// General-purpose register D.
    D,
    /// General-purpose register E.
    E,
    /// General-purpose register H.
    H,
    /// General-purpose register L.
    L,
    /// The pair of H and L.
    HL,
    /// HL with a step up after the transfer.
    HLi,
    /// HL with a step down after the transfer.
    HLd,
    /// The pair of A and F.
    AF,
    /// The pair of B and C.
    BC,
    /// The pair of D and E.
    DE,
    /// The stack pointer.
    SP,
    /// Pseudo-register: the word at the program counter.
    D16,
}

/// Where an instruction finds or puts a value.
#[derive(Clone, Copy, Debug, PartialEq, Eq, Structural)]
pub enum Operand {
    /// The register itself.
    Reg(Register),
    /// The memory cell whose address is the value of a 16-bit selector.
    Mem(Register),
    /// The zero-page cell at 0xFF00 plus the value of an 8-bit selector.
    ZMem(Register),
}

impl Register {
    /// The selector as one of the 8-bit ones, if it is one.
    pub open spec fn narrow(self) -> Option<Register8> {
        match self {
            Register::D8 => Some(Register8::D8),
            Register::A => Some(Register8::A),
            Register::F => Some(Register8::F),
            Register::B => Some(Register8::B),
            Register::C => Some(Register8::C),
            Register::D => Some(Register8::D),
            Register::E => Some(Register8::E),
            Register::H => Some(Register8::H),
            Register::L => Some(Register8::L),
            _ => None,
        }
    }

    /// The selector as one of the 16-bit ones, if it is one.
    pub open spec fn wide(self) -> Option<Register16> {
        match self {
            Register::HL => Some(Register16::HL),
            Register::HLi => Some(Register16::HLi),
            Register::HLd => Some(Register16::HLd),
            Register::AF => Some(Register16::AF),
            Register::BC => Some(Register16::BC),
            Register::DE => Some(Register16::DE),
            Register::SP => Some(Register16::SP),
            Register::D16 => Some(Register16::D16),
            _ => None,
        }
    }

    /// Whether the selector names a pair made of two 8-bit registers.
    pub open spec fn spec_is_virtual(&self) -> bool {
        *self is AF || *self is BC || *self is DE || *self is HL || *self is HLi || *self is HLd
    }

    /// Whether the selector names a pair made of two 8-bit registers, which has no storage
    /// of its own.
    #[verifier::when_used_as_spec(spec_is_virtual)]
    pub fn is_virtual(&self) -> (r: bool)
        ensures
            r == self.spec_is_virtual(),
            r ==> self.wide() is Some,
    {
        match self {
            Self::AF | Self::BC | Self::DE => true,
            Self::HL | Self::HLi | Self::HLd => true,
            _ => false,
        }
    }

    /// Narrows the selector to an 8-bit one.
    pub fn as_8(&self) -> (r: Option<Register8>)
        ensures
            r == self.narrow(),
    {
        match self {
            Register::D8 => Some(Register8::D8),
            Register::A => Some(Register8::A),
            Register::F => Some(Register8::F),
            Register::B => Some(Register8::B),
            Register::C => Some(Register8::C),
            Register::D => Some(Register8::D),
            Register::E => Some(Register8::E),
            Register::H => Some(Register8::H),
            Register::L => Some(Register8::L),
            _ => None,
        }
    }

    /// Narrows the selector to a 16-bit one.
    pub fn as_16(&self) -> (r: Option<Register16>)
        ensures
            r == self.wide(),
    {
        match self {
            Register::HL => Some(Register16::HL),
            Register::HLi => Some(Register16::HLi),
            Register::HLd => Some(Register16::HLd),
            Register::AF => Some(Register16::AF),
            Register::BC => Some(Register16::BC),
            Register::DE => Some(Register16::DE),
            Register::SP => Some(Register16::SP),
            Register::D16 => Some(Register16::D16),
            _ => None,
        }
    }
}

/// Each selector has exactly one width.
pub proof fn lemma_one_width(r: Register)
    ensures
        r.narrow() is Some <==> r.wide() is None,
{
}

/// The word whose high byte is `hi` and whose low byte is `lo`.
pub open spec fn pair(hi: u8, lo: u8) -> u16 {
    (hi * 256 + lo) as u16
}

/// The high byte of a word.
pub open spec fn high(v: u16) -> u8 {
    (v / 256) as u8
}

/// The low byte of a word.
pub open spec fn low(v: u16) -> u8 {
    (v % 256) as u8
}

proof fn lemma_bytes(hi: u8, lo: u8, v: u16)
    by (bit_vector)
    ensures
        ({
            &&& (((hi as u16) << 8u16) | (lo as u16)) == (hi as u16) * 256u16 + (lo as u16)
            &&& (v >> 8u16) == v / 256u16
            &&& (v & 0x00ffu16) == v % 256u16
        }),
{
}

/// Joins two bytes into a word.
pub fn make_pair(hi: u8, lo: u8) -> (v: u16)
    ensures
        v == pair(hi, lo),
        high(v) == hi,
        low(v) == lo,
{
    proof {
        lemma_bytes(hi, lo, 0);
    }
    ((hi as u16) << 8) | (lo as u16)
}

/// Takes the high byte of a word.
pub fn high_byte(v: u16) -> (b: u8)
    ensures
        b == high(v),
{
    proof {
        lemma_bytes(0, 0, v);
    }
    (v >> 8) as u8
}

/// Takes the low byte of a word.
pub fn low_byte(v: u16) -> (b: u8)
    ensures
        b == low(v),
{
    proof {
        lemma_bytes(0, 0, v);
    }
    (v & 0x00ff) as u8
}

/// Splitting a word and joining the halves gives the word back, and joining two bytes and
/// splitting the word gives the bytes back.
pub proof fn lemma_pair_round_trip(hi: u8, lo: u8, v: u16)
    ensures
        high(pair(hi, lo)) == hi,
        low(pair(hi, lo)) == lo,
        pair(high(v), low(v)) == v,
{
}

} // verus!
