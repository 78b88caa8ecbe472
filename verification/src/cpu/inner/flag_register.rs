//! The flag register: four status bits in the top nibble of a byte.

use vstd::prelude::*;

verus! {

/// The conditions and status bits an opcode can name.
#[derive(Clone, Copy, Debug, PartialEq, Eq, Structural)]
pub enum Flag {
    /// No condition: always holds.
    NF,
    /// Zero flag set.
    Z,
    /// Zero flag clear.
    NZ,
    /// Carry flag set.
    CY,
    /// Carry flag clear.
    NC,
    /// Half-carry flag. Names a bit; no instruction tests it.
    HC,
    /// Subtract flag. Names a bit; no instruction tests it.
    S,
}

/// The four status bits, as the contracts speak of them.
#[derive(Clone, Copy, Debug, PartialEq, Eq, Structural)]
pub struct Flags {
    pub zero: bool,
    pub subtract: bool,
    pub half_carry: bool,
    pub carry: bool,
}

/// Bit 7 of the flag byte.
pub open spec fn zero_bit(f: u8) -> bool {
    f >= 128
}

/// Bit 6 of the flag byte.
pub open spec fn subtract_bit(f: u8) -> bool {
    f % 128 >= 64
}

/// Bit 5 of the flag byte.
pub open spec fn half_carry_bit(f: u8) -> bool {
    f % 64 >= 32
}

/// Bit 4 of the flag byte.
pub open spec fn carry_bit(f: u8) -> bool {
    f % 32 >= 16
}

impl Flags {
    /// The status bits held in the top nibble of `f`.
    pub open spec fn of_byte(f: u8) -> Flags {
        Flags {
            zero: zero_bit(f),
            subtract: subtract_bit(f),
            half_carry: half_carry_bit(f),
            carry: carry_bit(f),
        }
    }

    /// The flag byte that holds these bits and a zero low nibble.
    pub open spec fn byte(self) -> u8 {
        ((if self.zero { 128int } else { 0 })
            + (if self.subtract { 64int } else { 0 })
            + (if self.half_carry { 32int } else { 0 })
            + (if self.carry { 16int } else { 0 })) as u8
    }

    /// Reads the status bits out of a flag byte.
    pub fn from_byte(f: u8) -> (r: Flags)
        ensures
            r == Flags::of_byte(f),
    {
        proof {
            lemma_masks(f);
        }
        Flags {
            zero: f & 0b1000_0000 != 0,
            subtract: f & 0b0100_0000 != 0,
            half_carry: f & 0b0010_0000 != 0,
            carry: f & 0b0001_0000 != 0,
        }
    }

    /// Packs the status bits into a flag byte with a zero low nibble.
    pub fn to_byte(self) -> (r: u8)
        ensures
            r == self.byte(),
            r % 16 == 0,
            Flags::of_byte(r) == self,
    {
        let z: u8 = if self.zero { 0b1000_0000 } else { 0 };
        let s: u8 = if self.subtract { 0b0100_0000 } else { 0 };
        let h: u8 = if self.half_carry { 0b0010_0000 } else { 0 };
        let c: u8 = if self.carry { 0b0001_0000 } else { 0 };
        z + s + h + c
    }
}

impl Flag {
    /// Whether an instruction may test this condition.
    pub open spec fn is_condition(self) -> bool {
        self is NF || self is Z || self is NZ || self is CY || self is NC
    }

    /// Whether the condition holds of the given status bits.
    pub open spec fn holds(self, flags: Flags) -> bool {
        match self {
            Flag::NF => true,
            Flag::Z => flags.zero,
            Flag::NZ => !flags.zero,
            Flag::CY => flags.carry,
            Flag::NC => !flags.carry,
            Flag::HC => flags.half_carry,
            Flag::S => flags.subtract,
        }
    }
}

/// What the mask tests and the or / and-not updates do to each bit of a flag byte.
pub proof fn lemma_masks(f: u8)
    by (bit_vector)
    ensures
        (f & 0x80 != 0) == zero_bit(f),
        (f & 0x40 != 0) == subtract_bit(f),
        (f & 0x20 != 0) == half_carry_bit(f),
        (f & 0x10 != 0) == carry_bit(f),
        zero_bit(f | 0x80) && !zero_bit(f & 0x7f),
        subtract_bit(f | 0x80) == subtract_bit(f) && subtract_bit(f & 0x7f) == subtract_bit(f),
        half_carry_bit(f | 0x80) == half_carry_bit(f) && half_carry_bit(f & 0x7f) == half_carry_bit(f),
        carry_bit(f | 0x80) == carry_bit(f) && carry_bit(f & 0x7f) == carry_bit(f),
        (f | 0x80) % 16 == f % 16 && (f & 0x7f) % 16 == f % 16,
        subtract_bit(f | 0x40) && !subtract_bit(f & 0xbf),
        zero_bit(f | 0x40) == zero_bit(f) && zero_bit(f & 0xbf) == zero_bit(f),
        half_carry_bit(f | 0x40) == half_carry_bit(f) && half_carry_bit(f & 0xbf) == half_carry_bit(f),
        carry_bit(f | 0x40) == carry_bit(f) && carry_bit(f & 0xbf) == carry_bit(f),
        (f | 0x40) % 16 == f % 16 && (f & 0xbf) % 16 == f % 16,
        half_carry_bit(f | 0x20) && !half_carry_bit(f & 0xdf),
        zero_bit(f | 0x20) == zero_bit(f) && zero_bit(f & 0xdf) == zero_bit(f),
        subtract_bit(f | 0x20) == subtract_bit(f) && subtract_bit(f & 0xdf) == subtract_bit(f),
        carry_bit(f | 0x20) == carry_bit(f) && carry_bit(f & 0xdf) == carry_bit(f),
        (f | 0x20) % 16 == f % 16 && (f & 0xdf) % 16 == f % 16,
        carry_bit(f | 0x10) && !carry_bit(f & 0xef),
        zero_bit(f | 0x10) == zero_bit(f) && zero_bit(f & 0xef) == zero_bit(f),
        subtract_bit(f | 0x10) == subtract_bit(f) && subtract_bit(f & 0xef) == subtract_bit(f),
        half_carry_bit(f | 0x10) == half_carry_bit(f) && half_carry_bit(f & 0xef) == half_carry_bit(f),
        (f | 0x10) % 16 == f % 16 && (f & 0xef) % 16 == f % 16,
        (f & 0xf0) % 16 == 0,
        zero_bit(f & 0xf0) == zero_bit(f),
        subtract_bit(f & 0xf0) == subtract_bit(f),
        half_carry_bit(f & 0xf0) == half_carry_bit(f),
        carry_bit(f & 0xf0) == carry_bit(f),
{
}

/// A holder of the four status bits.
pub trait Flagd {
    /// The status bits held.
    spec fn flags(&self) -> Flags;

    /// Tests a condition against the status bits.
    fn status(&self, f: Flag) -> (r: bool)
        requires
            f.is_condition(),
        ensures
            r == f.holds(self.flags()),
    ;

    /// Sets or clears the zero flag.
    fn zero(&mut self, b: bool)
        ensures
            final(self).flags() == (Flags { zero: b, ..old(self).flags() }),
    ;

    /// Sets or clears the subtract flag.
    fn subtract(&mut self, b: bool)
        ensures
            final(self).flags() == (Flags { subtract: b, ..old(self).flags() }),
    ;

    /// Sets or clears the half-carry flag.
    fn half_carry(&mut self, b: bool)
        ensures
            final(self).flags() == (Flags { half_carry: b, ..old(self).flags() }),
    ;

    /// Sets or clears the carry flag.
    fn carry(&mut self, b: bool)
        ensures
            final(self).flags() == (Flags { carry: b, ..old(self).flags() }),
    ;

    /// Sets all four flags at once.
    fn set_flags(&mut self, zero: bool, subtract: bool, half_carry: bool, carry: bool)
        ensures
            final(self).flags() == (Flags { zero, subtract, half_carry, carry }),
    ;
}

impl Flagd for u8 {
    open spec fn flags(&self) -> Flags {
        Flags::of_byte(*self)
    }

    fn status(&self, f: Flag) -> (r: bool) {
        proof {
            lemma_masks(*self);
        }
        match f {
            Flag::NF => true,
            Flag::Z => *self & 0b1000_0000 != 0,
            Flag::NZ => *self & 0b1000_0000 == 0,
            Flag::CY => *self & 0b0001_0000 != 0,
            Flag::NC => *self & 0b0001_0000 == 0,
            _ => false,
        }
    }

    fn zero(&mut self, b: bool)
        ensures
            *final(self) % 16 == *old(self) % 16,
    {
        proof {
            lemma_masks(*self);
        }
        if b {
            *self |= 0b1000_0000
        } else {
            *self &= 0b0111_1111
        }
    }

    fn subtract(&mut self, b: bool)
        ensures
            *final(self) % 16 == *old(self) % 16,
    {
        proof {
            lemma_masks(*self);
        }
        if b {
            *self |= 0b0100_0000
        } else {
            *self &= 0b1011_1111
        }
    }

    fn half_carry(&mut self, b: bool)
        ensures
            *final(self) % 16 == *old(self) % 16,
    {
        proof {
            lemma_masks(*self);
        }
        if b {
            *self |= 0b0010_0000
        } else {
            *self &= 0b1101_1111
        }
    }

    fn carry(&mut self, b: bool)
        ensures
            *final(self) % 16 == *old(self) % 16,
    {
        proof {
            lemma_masks(*self);
        }
        if b {
            *self |= 0b0001_0000
        } else {
            *self &= 0b1110_1111
        }
    }

    fn set_flags(&mut self, zero: bool, subtract: bool, half_carry: bool, carry: bool)
        ensures
            *final(self) % 16 == *old(self) % 16,
    {
        self.zero(zero);
        self.subtract(subtract);
        self.half_carry(half_carry);
        self.carry(carry);
    }
}

} // verus!
