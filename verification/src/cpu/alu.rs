//! The arithmetic and logic of the processor on plain bytes and words, each operation
//! with the status bits that it leaves.

use vstd::prelude::*;
use crate::cpu::inner::Flags;

verus! {

/// One if the bit is set, zero if not.
pub open spec fn bit_value(b: bool) -> int {
    if b {
        1
    } else {
        0
    }
}

/// An operand byte read as a signed displacement.
pub open spec fn displacement(o: u8) -> i16 {
    if o < 128 {
        o as i16
    } else {
        (o - 256) as i16
    }
}

/// The status bits after an 8-bit addition of `a`, `b` and an incoming carry.
pub open spec fn sum_flags(a: u8, b: u8, c: bool) -> Flags {
    Flags {
        zero: (a + b + bit_value(c)) % 256 == 0,
        subtract: false,
        half_carry: a % 16 + b % 16 + bit_value(c) > 15,
        carry: a + b + bit_value(c) > 255,
    }
}

/// The status bits after an 8-bit subtraction of `b` and an incoming borrow from `a`.
pub open spec fn difference_flags(a: u8, b: u8, c: bool) -> Flags {
    Flags {
        zero: (a - b - bit_value(c)) % 256 == 0,
        subtract: true,
        half_carry: a % 16 - b % 16 - bit_value(c) < 0,
        carry: a - b - bit_value(c) < 0,
    }
}

proof fn lemma_sum(a: u8, b: u8, c: u8)
    by (bit_vector)
    requires
        c <= 1,
    ensures
        ({
            let x = a as u16;
            let y = b as u16;
            let r = (x + y + c as u16) as u16;
            let k = x ^ y ^ r;
            &&& r as u8 == (a + b + c) % 256
            &&& (r as u8 == 0) == ((a + b + c) % 256 == 0)
            &&& ((k & 0x0010) != 0) == (a % 16 + b % 16 + c > 15)
            &&& ((k & 0x0100) != 0) == (a + b + c > 255)
            &&& (((x & 0x0f) + (y & 0x0f) + c as u16) > 0x0f) == (a % 16 + b % 16 + c > 15)
            &&& (r > 0x00ff) == (a + b + c > 255)
            &&& (x & 0x0f) <= 0x0f && (y & 0x0f) <= 0x0f
        }),
{
}

proof fn lemma_difference(a: u8, b: u8, c: u8)
    by (bit_vector)
    requires
        c <= 1,
    ensures
        ({
            let x = a as u16;
            let y = b as u16;
            let r = x.wrapping_sub(y).wrapping_sub(c as u16);
            let k = x ^ y ^ r;
            &&& r as u8 == (a - b - c) % 256
            &&& (r as u8 == 0) == ((a - b - c) % 256 == 0)
            &&& ((k & 0x0010) != 0) == (a % 16 - b % 16 - c < 0)
            &&& ((k & 0x0100) != 0) == (a - b - c < 0)
            &&& (r > 0x00ff) == (a - b - c < 0)
            &&& ((a.wrapping_sub(b) & 0x0f) > (a & 0x0f)) == (a % 16 - b % 16 < 0)
        }),
{
}

/// Adds two bytes.
pub open spec fn add8_of(a: u8, b: u8) -> (u8, Flags) {
    let v = ((a + b) % 256) as u8;
    (v, sum_flags(a, b, false))
}

/// Computes [`add8_of`].
pub fn add8(a: u8, b: u8) -> (out: (u8, Flags))
    ensures
        out == add8_of(a, b),
{
    let x = a as u16;
    let y = b as u16;
    let r = x + y;
    let k = x ^ y ^ r;
    proof {
        lemma_sum(a, b, 0);
    }
    let v = #[verifier::truncate] (r as u8);
    (v, Flags { zero: v == 0, subtract: false, half_carry: (k & 0x0010) != 0, carry: (k & 0x0100) != 0 })
}

/// Adds two bytes and the incoming carry.
pub open spec fn adc8_of(a: u8, b: u8, c: bool) -> (u8, Flags) {
    let v = ((a + b + bit_value(c)) % 256) as u8;
    (v, sum_flags(a, b, c))
}

/// Computes [`adc8_of`].
pub fn adc8(a: u8, b: u8, c: bool) -> (out: (u8, Flags))
    ensures
        out == adc8_of(a, b, c),
{
    let x = a as u16;
    let y = b as u16;
    let z: u16 = if c { 1 } else { 0 };
    let r = x + y + z;
    proof {
        lemma_sum(a, b, z as u8);
    }
    let v = #[verifier::truncate] (r as u8);
    (
        v,
        Flags {
            zero: v == 0,
            subtract: false,
            half_carry: ((x & 0x0f) + (y & 0x0f) + z) > 0x0f,
            carry: r > 0x00ff,
        },
    )
}

/// Subtracts `b` from `a`.
pub open spec fn sub8_of(a: u8, b: u8) -> (u8, Flags) {
    let v = ((a - b) % 256) as u8;
    (v, difference_flags(a, b, false))
}

/// Computes [`sub8_of`].
pub fn sub8(a: u8, b: u8) -> (out: (u8, Flags))
    ensures
        out == sub8_of(a, b),
{
    let x = a as u16;
    let y = b as u16;
    let r = x.wrapping_sub(y);
    let k = x ^ y ^ r;
    proof {
        lemma_difference(a, b, 0);
    }
    let v = #[verifier::truncate] (r as u8);
    (v, Flags { zero: v == 0, subtract: true, half_carry: (k & 0x0010) != 0, carry: (k & 0x0100) != 0 })
}

/// Subtracts `b` and the incoming carry from `a`.
pub open spec fn sbc8_of(a: u8, b: u8, c: bool) -> (u8, Flags) {
    let v = ((a - b - bit_value(c)) % 256) as u8;
    (v, difference_flags(a, b, c))
}

/// Computes [`sbc8_of`].
pub fn sbc8(a: u8, b: u8, c: bool) -> (out: (u8, Flags))
    ensures
        out == sbc8_of(a, b, c),
{
    let x = a as u16;
    let y = b as u16;
    let z: u16 = if c { 1 } else { 0 };
    let r = x.wrapping_sub(y).wrapping_sub(z);
    let k = x ^ y ^ r;
    proof {
        lemma_difference(a, b, z as u8);
    }
    let v = #[verifier::truncate] (r as u8);
    (v, Flags { zero: v == 0, subtract: true, half_carry: (k & 0x0010) != 0, carry: r > 0x00ff })
}

/// Compares `a` with `b`: the status bits of `a - b`, the difference itself dropped.
pub open spec fn cp8_of(a: u8, b: u8) -> Flags {
    difference_flags(a, b, false)
}

/// Computes [`cp8_of`].
pub fn cp8(a: u8, b: u8) -> (out: Flags)
    ensures
        out == cp8_of(a, b),
        out.zero == (a == b),
        out.carry == (a < b),
{
    proof {
        lemma_difference(a, b, 0);
    }
    Flags {
        zero: a == b,
        subtract: true,
        half_carry: (a.wrapping_sub(b) & 0x0f) > (a & 0x0f),
        carry: a < b,
    }
}

proof fn lemma_step(a: u8)
    by (bit_vector)
    ensures
        ({
            &&& ((a.wrapping_add(1u8) & 0x0fu8) == 0x00u8) == (a % 16u8 == 15u8)
            &&& ((a.wrapping_sub(1u8) & 0x0fu8) == 0x0fu8) == (a % 16u8 == 0u8)
            &&& a.wrapping_add(1u8) == (a + 1u8) % 256
            &&& a.wrapping_sub(1u8) == (a - 1u8) % 256
            &&& (a.wrapping_add(1u8) == 0u8) == (a == 255u8)
            &&& (a.wrapping_sub(1u8) == 0u8) == (a == 1u8)
        }),
{
}

/// Adds one to a byte. The carry flag keeps its value.
pub open spec fn inc8_of(a: u8, flags: Flags) -> (u8, Flags) {
    let v = ((a + 1) % 256) as u8;
    (v, Flags { zero: a == 255, subtract: false, half_carry: a % 16 == 15, carry: flags.carry })
}

/// Computes [`inc8_of`].
pub fn inc8(a: u8, flags: Flags) -> (out: (u8, Flags))
    ensures
        out == inc8_of(a, flags),
{
    let r = a.wrapping_add(1);
    proof {
        lemma_step(a);
    }
    (r, Flags { zero: r == 0, subtract: false, half_carry: (r & 0x0f) == 0x00, carry: flags.carry })
}

/// Takes one from a byte. The carry flag keeps its value.
pub open spec fn dec8_of(a: u8, flags: Flags) -> (u8, Flags) {
    let v = ((a - 1) % 256) as u8;
    (v, Flags { zero: a == 1, subtract: true, half_carry: a % 16 == 0, carry: flags.carry })
}

/// Computes [`dec8_of`].
pub fn dec8(a: u8, flags: Flags) -> (out: (u8, Flags))
    ensures
        out == dec8_of(a, flags),
{
    let r = a.wrapping_sub(1);
    proof {
        lemma_step(a);
    }
    (r, Flags { zero: r == 0, subtract: true, half_carry: (r & 0x0f) == 0x0f, carry: flags.carry })
}

proof fn lemma_sum16(a: u16, b: u16)
    by (bit_vector)
    ensures
        ({
            let x = a as u32;
            let y = b as u32;
            let r = (x + y) as u32;
            &&& r as u16 == (a + b) % 65536
            &&& ((r & 0x10000) != 0) == (a + b > 65535)
            &&& (((x ^ y ^ (r & 0xffff)) & 0x1000) != 0) == (a % 4096 + b % 4096 > 4095)
        }),
{
}

/// Adds two words. The zero flag keeps its value; the half carry is the carry out of bit 11
/// and the carry that out of bit 15.
pub open spec fn add16_of(a: u16, b: u16, flags: Flags) -> (u16, Flags) {
    let v = ((a + b) % 65536) as u16;
    (v, Flags { zero: flags.zero, subtract: false, half_carry: a % 4096 + b % 4096 > 4095, carry: a + b > 65535 })
}

/// Computes [`add16_of`].
pub fn add16(a: u16, b: u16, flags: Flags) -> (out: (u16, Flags))
    ensures
        out == add16_of(a, b, flags),
{
    let x = a as u32;
    let y = b as u32;
    let r = x + y;
    proof {
        lemma_sum16(a, b);
    }
    (
        #[verifier::truncate] (r as u16),
        Flags {
            zero: flags.zero,
            subtract: false,
            half_carry: ((x ^ y ^ (r & 0xffff)) & 0x1000) != 0,
            carry: (r & 0x10000) != 0,
        },
    )
}

proof fn lemma_offset(sp: u16, o: u8)
    by (bit_vector)
    ensures
        ({
            let w = o as u16;
            let e: u16 = if w < 128 {
                w
            } else {
                (0xff00 + w) as u16
            };
            let r = sp.wrapping_add(e);
            let k = sp ^ e ^ r;
            &&& w < 128 ==> r == (sp + w) % 65536
            &&& w >= 128 ==> r == (sp + w - 256) % 65536
            &&& ((k & 0x0010) == 0x0010) == (sp % 16 + w % 16 > 15)
            &&& ((k & 0x0100) == 0x0100) == (sp % 256 + w > 255)
        }),
{
}

/// Moves a stack pointer by a signed displacement. The carries are those of adding the
/// displacement byte, unsigned, to the low byte of the pointer.
pub open spec fn offset16_of(sp: u16, o: u8) -> (u16, Flags) {
    let v = ((sp + displacement(o)) % 65536) as u16;
    (v, Flags { zero: false, subtract: false, half_carry: sp % 16 + o % 16 > 15, carry: sp % 256 + o > 255 })
}

/// Computes [`offset16_of`].
pub fn offset16(sp: u16, o: u8) -> (out: (u16, Flags))
    ensures
        out == offset16_of(sp, o),
{
    let e: u16 = if o < 128 {
        o as u16
    } else {
        0xff00 + o as u16
    };
    let r = sp.wrapping_add(e);
    let k = sp ^ e ^ r;
    proof {
        lemma_offset(sp, o);
    }
    (
        r,
        Flags {
            zero: false,
            subtract: false,
            half_carry: (k & 0x0010) == 0x0010,
            carry: (k & 0x0100) == 0x0100,
        },
    )
}

/// A program counter moved by a signed displacement.
pub open spec fn relative_of(pc: u16, o: u8) -> u16 {
    ((pc + displacement(o)) % 65536) as u16
}

/// Computes [`relative_of`].
pub fn relative(pc: u16, o: u8) -> (r: u16)
    ensures
        r == relative_of(pc, o),
{
    proof {
        lemma_offset(pc, o);
    }
    if o < 128 {
        pc.wrapping_add(o as u16)
    } else {
        pc.wrapping_add(0xff00 + o as u16)
    }
}

/// The bitwise and of two bytes. The half carry is always set.
pub open spec fn and8_of(a: u8, b: u8) -> (u8, Flags) {
    let v = (a & b) as u8;
    (v, (Flags { zero: a & b == 0, subtract: false, half_carry: true, carry: false }))
}

/// Computes [`and8_of`].
pub fn and8(a: u8, b: u8) -> (out: (u8, Flags))
    ensures
        out == and8_of(a, b),
{
    let r = a & b;
    (r, Flags { zero: r == 0, subtract: false, half_carry: true, carry: false })
}

/// The bitwise or of two bytes.
pub open spec fn or8_of(a: u8, b: u8) -> (u8, Flags) {
    let v = (a | b) as u8;
    (v, (Flags { zero: a | b == 0, subtract: false, half_carry: false, carry: false }))
}

/// Computes [`or8_of`].
pub fn or8(a: u8, b: u8) -> (out: (u8, Flags))
    ensures
        out == or8_of(a, b),
{
    let r = a | b;
    (r, Flags { zero: r == 0, subtract: false, half_carry: false, carry: false })
}

/// The bitwise exclusive or of two bytes.
pub open spec fn xor8_of(a: u8, b: u8) -> (u8, Flags) {
    let v = (a ^ b) as u8;
    (v, (Flags { zero: a ^ b == 0, subtract: false, half_carry: false, carry: false }))
}

/// Computes [`xor8_of`].
pub fn xor8(a: u8, b: u8) -> (out: (u8, Flags))
    ensures
        out == xor8_of(a, b),
{
    let r = a ^ b;
    (r, Flags { zero: r == 0, subtract: false, half_carry: false, carry: false })
}

/// The one's complement of a byte. Zero and carry keep their values.
pub open spec fn cpl8_of(a: u8, flags: Flags) -> (u8, Flags) {
    let v = (255 - a) as u8;
    (v, (Flags { subtract: true, half_carry: true, ..flags }))
}

/// Computes [`cpl8_of`].
pub fn cpl8(a: u8, flags: Flags) -> (out: (u8, Flags))
    ensures
        out == cpl8_of(a, flags),
{
    assert(!a == 255 - a) by (bit_vector);
    (!a, Flags { zero: flags.zero, subtract: true, half_carry: true, carry: flags.carry })
}

/// The status bits after the carry flag is set: subtract and half carry are cleared.
pub open spec fn scf_of(flags: Flags) -> Flags {
    Flags { zero: flags.zero, subtract: false, half_carry: false, carry: true }
}

/// Computes [`scf_of`].
pub fn scf_flags(flags: Flags) -> (out: Flags)
    ensures
        out == scf_of(flags),
{
    Flags { zero: flags.zero, subtract: false, half_carry: false, carry: true }
}

/// The status bits after the carry flag is flipped: subtract and half carry are cleared.
pub open spec fn ccf_of(flags: Flags) -> Flags {
    Flags { zero: flags.zero, subtract: false, half_carry: false, carry: !flags.carry }
}

/// Computes [`ccf_of`].
pub fn ccf_flags(flags: Flags) -> (out: Flags)
    ensures
        out == ccf_of(flags),
{
    Flags { zero: flags.zero, subtract: false, half_carry: false, carry: !flags.carry }
}

/// The status bits after a rotate or shift that gave `r` and moved `out_bit` out.
pub open spec fn shift_flags(r: u8, out_bit: bool) -> Flags {
    Flags { zero: r == 0, subtract: false, half_carry: false, carry: out_bit }
}

proof fn lemma_shifts(a: u8, c: u8)
    by (bit_vector)
    requires
        c <= 1,
    ensures
        ({
            &&& ((a << 1u8) | (a >> 7u8)) == (a * 2u8) % 256 + a / 128u8
            &&& ((a >> 1u8) | (a << 7u8)) == a / 2u8 + (a % 2u8) * 128u8
            &&& ((a << 1u8) | c) == (a * 2u8) % 256 + c
            &&& (a << 1u8) == (a * 2u8) % 256
            &&& ((a >> 1u8) | (c << 7u8)) == a / 2u8 + c * 128u8
            &&& ((a >> 1u8) | 0x80u8) == a / 2u8 + 128u8
            &&& (a >> 1u8) == a / 2u8
            &&& ((a & 0x80u8) | (a >> 1u8)) == a / 2u8 + (a / 128u8) * 128u8
            &&& ((a << 4u8) | (a >> 4u8)) == (a % 16u8) * 16u8 + a / 16u8
            &&& ((a & 0x80u8) != 0u8) == (a >= 128u8)
            &&& ((a & 0x01u8) != 0u8) == (a % 2u8 == 1u8)
            &&& (((a << 4u8) | (a >> 4u8)) == 0u8) == (a == 0u8)
        }),
{
}

/// Rotates a byte left; bit 7 goes to bit 0 and to the carry.
pub open spec fn rlc8_of(a: u8) -> (u8, Flags) {
    let v = ((a * 2) % 256 + a / 128) as u8;
    (v, shift_flags(v, a >= 128))
}

/// Computes [`rlc8_of`].
pub fn rlc8(a: u8) -> (out: (u8, Flags))
    ensures
        out == rlc8_of(a),
{
    proof {
        lemma_shifts(a, 0);
    }
    let r = (a << 1) | (a >> 7);
    (r, Flags { zero: r == 0, subtract: false, half_carry: false, carry: (a & 0x80) != 0 })
}

/// Rotates a byte right; bit 0 goes to bit 7 and to the carry.
pub open spec fn rrc8_of(a: u8) -> (u8, Flags) {
    let v = (a / 2 + (a % 2) * 128) as u8;
    (v, shift_flags(v, a % 2 == 1))
}

/// Computes [`rrc8_of`].
pub fn rrc8(a: u8) -> (out: (u8, Flags))
    ensures
        out == rrc8_of(a),
{
    proof {
        lemma_shifts(a, 0);
    }
    let r = (a >> 1) | (a << 7);
    (r, Flags { zero: r == 0, subtract: false, half_carry: false, carry: (a & 0x01) != 0 })
}

/// Rotates a byte left through the carry: the old carry comes in at bit 0.
pub open spec fn rl8_of(a: u8, c: bool) -> (u8, Flags) {
    let v = ((a * 2) % 256 + bit_value(c)) as u8;
    (v, shift_flags(v, a >= 128))
}

/// Computes [`rl8_of`].
pub fn rl8(a: u8, c: bool) -> (out: (u8, Flags))
    ensures
        out == rl8_of(a, c),
{
    proof {
        lemma_shifts(a, 1);
    }
    let r = a << 1;
    let r = if c {
        r | 0x01
    } else {
        r
    };
    (r, Flags { zero: r == 0, subtract: false, half_carry: false, carry: (a & 0x80) != 0 })
}

/// Rotates a byte right through the carry: the old carry comes in at bit 7.
pub open spec fn rr8_of(a: u8, c: bool) -> (u8, Flags) {
    let v = (a / 2 + bit_value(c) * 128) as u8;
    (v, shift_flags(v, a % 2 == 1))
}

/// Computes [`rr8_of`].
pub fn rr8(a: u8, c: bool) -> (out: (u8, Flags))
    ensures
        out == rr8_of(a, c),
{
    proof {
        lemma_shifts(a, 1);
    }
    let r = a >> 1;
    let r = if c {
        r | 0x80
    } else {
        r
    };
    (r, Flags { zero: r == 0, subtract: false, half_carry: false, carry: (a & 0x01) != 0 })
}

/// Shifts a byte left; bit 0 becomes zero.
pub open spec fn sla8_of(a: u8) -> (u8, Flags) {
    let v = ((a * 2) % 256) as u8;
    (v, shift_flags(v, a >= 128))
}

/// Computes [`sla8_of`].
pub fn sla8(a: u8) -> (out: (u8, Flags))
    ensures
        out == sla8_of(a),
{
    proof {
        lemma_shifts(a, 0);
    }
    let r = a << 1;
    (r, Flags { zero: r == 0, subtract: false, half_carry: false, carry: (a & 0x80) != 0 })
}

/// Shifts a byte right; bit 7 keeps its value.
pub open spec fn sra8_of(a: u8) -> (u8, Flags) {
    let v = (a / 2 + (a / 128) * 128) as u8;
    (v, shift_flags(v, a % 2 == 1))
}

/// Computes [`sra8_of`].
pub fn sra8(a: u8) -> (out: (u8, Flags))
    ensures
        out == sra8_of(a),
{
    proof {
        lemma_shifts(a, 0);
    }
    let r = a >> 1;
    let r = (a & 0x80) | r;
    (r, Flags { zero: r == 0, subtract: false, half_carry: false, carry: (a & 0x01) != 0 })
}

/// Shifts a byte right; bit 7 becomes zero.
pub open spec fn srl8_of(a: u8) -> (u8, Flags) {
    let v = (a / 2) as u8;
    (v, shift_flags(v, a % 2 == 1))
}

/// Computes [`srl8_of`].
pub fn srl8(a: u8) -> (out: (u8, Flags))
    ensures
        out == srl8_of(a),
{
    proof {
        lemma_shifts(a, 0);
    }
    let r = a >> 1;
    (r, Flags { zero: r == 0, subtract: false, half_carry: false, carry: (a & 0x01) != 0 })
}

/// Swaps the two nibbles of a byte.
pub open spec fn swap8_of(a: u8) -> (u8, Flags) {
    let v = ((a % 16) * 16 + a / 16) as u8;
    (v, shift_flags(v, false))
}

/// Computes [`swap8_of`].
pub fn swap8(a: u8) -> (out: (u8, Flags))
    ensures
        out == swap8_of(a),
        out.1.zero == (a == 0),
{
    proof {
        lemma_shifts(a, 0);
    }
    let r = (a << 4) | (a >> 4);
    (r, Flags { zero: r == 0, subtract: false, half_carry: false, carry: false })
}

/// Whether bit `n` of `a` is set.
pub open spec fn bit_set(a: u8, n: u8) -> bool {
    (a >> n) & 0x01 == 0x01
}

proof fn lemma_bits(a: u8, n: u8, m: u8)
    by (bit_vector)
    requires
        n < 8,
        m < 8,
    ensures
        !bit_set(a & !(0x01u8 << n), n),
        bit_set(a | (0x01u8 << n), n),
        m != n ==> bit_set(a & !(0x01u8 << n), m) == bit_set(a, m),
        m != n ==> bit_set(a | (0x01u8 << n), m) == bit_set(a, m),
        (((a >> n) & 0x01) == 0) == !bit_set(a, n),
{
}

/// Tests bit `n` of a byte: zero is set when the bit is clear. The carry keeps its value.
pub open spec fn bit8_of(n: u8, a: u8, flags: Flags) -> Flags {
    Flags { zero: !bit_set(a, n), subtract: false, half_carry: true, carry: flags.carry }
}

/// Computes [`bit8_of`].
pub fn bit8(n: u8, a: u8, flags: Flags) -> (out: Flags)
    requires
        n < 8,
    ensures
        out == bit8_of(n, a, flags),
{
    proof {
        lemma_bits(a, n, n);
    }
    let v = a >> n;
    Flags { zero: (v & 0x01) == 0, subtract: false, half_carry: true, carry: flags.carry }
}

/// A byte with bit `n` cleared.
pub open spec fn res8_of(n: u8, a: u8) -> u8 {
    a & !(0x01u8 << n)
}

/// Clears bit `n` of a byte and leaves the others.
pub fn res8(n: u8, a: u8) -> (r: u8)
    requires
        n < 8,
    ensures
        r == res8_of(n, a),
        !bit_set(r, n),
        forall|m: u8| m < 8 && m != n ==> bit_set(r, m) == #[trigger] bit_set(a, m),
{
    assert forall|m: u8| m < 8 && m != n implies bit_set(a & !(0x01u8 << n), m) == #[trigger] bit_set(
        a,
        m,
    ) by {
        lemma_bits(a, n, m);
    }
    proof {
        lemma_bits(a, n, n);
    }
    a & !(0x01u8 << n)
}

/// A byte with bit `n` set.
pub open spec fn set8_of(n: u8, a: u8) -> u8 {
    a | (0x01u8 << n)
}

/// Sets bit `n` of a byte and leaves the others.
pub fn set8(n: u8, a: u8) -> (r: u8)
    requires
        n < 8,
    ensures
        r == set8_of(n, a),
        bit_set(r, n),
        forall|m: u8| m < 8 && m != n ==> bit_set(r, m) == #[trigger] bit_set(a, m),
{
    assert forall|m: u8| m < 8 && m != n implies bit_set(a | (0x01u8 << n), m) == #[trigger] bit_set(
        a,
        m,
    ) by {
        lemma_bits(a, n, m);
    }
    proof {
        lemma_bits(a, n, n);
    }
    a | (0x01u8 << n)
}

/// The accumulator after decimal adjustment.
pub open spec fn daa_value(a: u8, flags: Flags) -> int {
    if flags.subtract {
        (a - (if flags.carry { 0x60int } else { 0 }) - (if flags.half_carry { 0x06int } else { 0 })) % 256
    } else {
        (a + (if flags.carry || a > 0x99 { 0x60int } else { 0 })
            + (if flags.half_carry || a % 16 > 0x09 { 0x06int } else { 0 })) % 256
    }
}

/// The carry flag after decimal adjustment: an addition that needed the high correction sets it.
pub open spec fn daa_carry(a: u8, flags: Flags) -> bool {
    flags.carry || (!flags.subtract && a > 0x99)
}

proof fn lemma_daa(a: u8, hi: u16, lo: u16)
    by (bit_vector)
    requires
        hi == 0 || hi == 0x60,
        lo == 0 || lo == 0x06,
    ensures
        ({
            let x = a as u16;
            &&& x.wrapping_sub(hi).wrapping_sub(lo) as u8 == (x - hi - lo) % 256
            &&& (x + hi + lo) as u16 as u8 == (x + hi + lo) % 256
            &&& ((x & 0xff) > 0x99) == (x > 0x99)
            &&& (((x + hi) as u16 & 0x0f) > 0x09) == (x % 16 > 0x09)
        }),
{
}

/// Adjusts the accumulator to binary-coded decimal after an addition or a subtraction of two
/// binary-coded decimal bytes, as the subtract, half-carry and carry flags record it.
pub open spec fn daa8_of(a: u8, flags: Flags) -> (u8, Flags) {
    let v = (daa_value(a, flags)) as u8;
    (v, Flags { zero: daa_value(a, flags) == 0, subtract: flags.subtract, half_carry: false, carry: daa_carry(a, flags) })
}

/// Computes [`daa8_of`].
pub fn daa8(a: u8, flags: Flags) -> (out: (u8, Flags))
    ensures
        out == daa8_of(a, flags),
{
    let mut x = a as u16;
    let mut carry = flags.carry;
    let ghost hi: u16 = if flags.carry || (!flags.subtract && a > 0x99) { 0x60 } else { 0 };
    let ghost lo: u16 = if flags.half_carry || (!flags.subtract && a % 16 > 0x09) { 0x06 } else { 0 };
    proof {
        lemma_daa(a, hi, lo);
        lemma_daa(a, hi, 0);
        lemma_daa(a, 0, lo);
        lemma_daa(a, 0, 0);
    }
    if flags.subtract {
        if flags.carry {
            x = x.wrapping_sub(0x60)
        }
        if flags.half_carry {
            x = x.wrapping_sub(0x06)
        }
    } else {
        if flags.carry || ((x & 0xff) > 0x99) {
            x = x + 0x60;
            carry = true
        }
        if flags.half_carry || ((x & 0x0f) > 0x09) {
            x = x + 0x06
        }
    }
    let v = #[verifier::truncate] (x as u8);
    (v, Flags { zero: v == 0, subtract: flags.subtract, half_carry: false, carry })
}

} // verus!
