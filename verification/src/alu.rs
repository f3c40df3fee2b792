//! Arithmetic, logic and shift semantics, with their flag computation.
//!
//! All arithmetic is unsigned and modular.  The carry flag is the unsigned
//! carry (for addition) or borrow (for subtraction) out of the operation; the
//! overflow flag is the signed overflow, computed from the sign bits of the
//! operands and the result; the zero and signed flags follow the result.
//!
//! A shift immediate of zero is architecturally undefined by the encoding
//! table's flag formulas; the rule adopted here is explicit: the result is
//! the operand unchanged and the carry flag is cleared (for rotate, whose
//! carry formula stays well defined, the carry still follows bit 15 of the
//! result).

use vstd::prelude::*;

use crate::flags::Flags;

verus! {

/// 1 for true, 0 for false: a carry or borrow as a summand.
pub open spec fn carry_in_val(b: bool) -> int {
    if b {
        1
    } else {
        0
    }
}

/// The flags every bitwise operation leaves: carry and overflow cleared,
/// zero and signed following the result.
pub open spec fn logic_flags(r: u16) -> Flags {
    Flags { carry: false, overflow: false, zero: r == 0, signed: r & 0x8000 != 0 }
}

/// The 16-bit sum of `a`, `b` and an incoming carry, modulo 2^16.
pub open spec fn add_result(a: u16, b: u16, carry_in: bool) -> u16 {
    (((a + b + carry_in_val(carry_in)) % 0x10000) as u16)
}

/// The flags of a 16-bit addition: carry when the true sum does not fit in
/// 16 bits, overflow when the operands agree in sign and the result does
/// not.
pub open spec fn add_flags(a: u16, b: u16, carry_in: bool) -> Flags {
    let r = add_result(a, b, carry_in);
    Flags {
        carry: a + b + carry_in_val(carry_in) >= 0x10000,
        overflow: ((a ^ r) & (b ^ r)) & 0x8000 != 0,
        zero: r == 0,
        signed: r & 0x8000 != 0,
    }
}

/// The 16-bit difference of `a`, `b` and an incoming borrow, modulo 2^16.
pub open spec fn sub_result(a: u16, b: u16, borrow_in: bool) -> u16 {
    (((a + 0x10000 - b - carry_in_val(borrow_in)) % 0x10000) as u16)
}

/// The flags of a 16-bit subtraction: carry when a borrow was required,
/// overflow when the operands differ in sign and the result leaves the sign
/// of the minuend.
pub open spec fn sub_flags(a: u16, b: u16, borrow_in: bool) -> Flags {
    let r = sub_result(a, b, borrow_in);
    Flags {
        carry: a < b + carry_in_val(borrow_in),
        overflow: ((a ^ b) & (a ^ r)) & 0x8000 != 0,
        zero: r == 0,
        signed: r & 0x8000 != 0,
    }
}

/// The 8-bit difference of `a` and `b`, modulo 2^8: the subtraction behind
/// the byte-wide compares.
pub open spec fn sub8_result(a: u8, b: u8) -> u8 {
    (((a + 0x100 - b) % 0x100) as u8)
}

/// The flags of an 8-bit compare: as [`sub_flags`], with the 8-bit sign bit
/// mask 0x80.
pub open spec fn sub8_flags(a: u8, b: u8) -> Flags {
    let r = sub8_result(a, b);
    Flags {
        carry: a < b,
        overflow: ((a ^ b) & (a ^ r)) & 0x80 != 0,
        zero: r == 0,
        signed: r & 0x80 != 0,
    }
}

/// The result of a logical left shift by `imm` bits: shifted-out bits are
/// discarded.
pub open spec fn lsl_result(a: u16, imm: u16) -> u16
    recommends
        imm < 16,
{
    a << imm
}

/// The carry of a logical left shift: the last bit shifted out, bit
/// `16 - imm` of the operand; cleared when the shift count is zero.
pub open spec fn lsl_carry(a: u16, imm: u16) -> bool
    recommends
        imm < 16,
{
    imm != 0 && (a >> ((16 - imm) as u16)) & 1 != 0
}

/// The result of a logical right shift by `imm` bits: vacated high bits are
/// zero.
pub open spec fn lsr_result(a: u16, imm: u16) -> u16
    recommends
        imm < 16,
{
    a >> imm
}

/// The carry of a right shift (logical or arithmetic): the last bit shifted
/// out, bit `imm - 1` of the unsigned operand pattern; cleared when the
/// shift count is zero.
pub open spec fn shr_carry(a: u16, imm: u16) -> bool
    recommends
        imm < 16,
{
    imm != 0 && (a >> ((imm - 1) as u16)) & 1 != 0
}

/// The result of an arithmetic right shift by `imm` bits: vacated high bits
/// repeat the sign bit of the operand.
pub open spec fn asr_result(a: u16, imm: u16) -> u16
    recommends
        imm < 16,
{
    if a & 0x8000 == 0 {
        a >> imm
    } else {
        (a >> imm) | !(0xFFFFu16 >> imm)
    }
}

/// The result of a 16-bit cyclic rotation right by `imm` bits.
pub open spec fn ror_result(a: u16, imm: u16) -> u16
    recommends
        imm < 16,
{
    if imm == 0 {
        a
    } else {
        (a >> imm) | (a << ((16 - imm) as u16))
    }
}

/// The carry of a rotation: bit 15 of the result.
pub open spec fn ror_carry(a: u16, imm: u16) -> bool
    recommends
        imm < 16,
{
    (ror_result(a, imm) >> 15) & 1 != 0
}

/// Computes a 16-bit addition with incoming carry, returning the result and
/// the four flags.
pub fn alu_add(a: u16, b: u16, carry_in: bool) -> (out: (u16, Flags))
    ensures
        out.0 == add_result(a, b, carry_in),
        out.1 == add_flags(a, b, carry_in),
{
    let cin: u32 = if carry_in {
        1
    } else {
        0
    };
    let sum: u32 = a as u32 + b as u32 + cin;
    let result: u16 = (sum % 0x10000) as u16;
    let carry = sum >= 0x10000;
    let overflow = ((a ^ result) & (b ^ result)) & 0x8000 != 0;
    (result, Flags { carry, overflow, zero: result == 0, signed: result & 0x8000 != 0 })
}

/// Computes a 16-bit subtraction with incoming borrow, returning the result
/// and the four flags.
pub fn alu_sub(a: u16, b: u16, borrow_in: bool) -> (out: (u16, Flags))
    ensures
        out.0 == sub_result(a, b, borrow_in),
        out.1 == sub_flags(a, b, borrow_in),
{
    let bin: u32 = if borrow_in {
        1
    } else {
        0
    };
    let diff: u32 = a as u32 + 0x10000 - b as u32 - bin;
    let result: u16 = (diff % 0x10000) as u16;
    let carry = (a as u32) < b as u32 + bin;
    let overflow = ((a ^ b) & (a ^ result)) & 0x8000 != 0;
    (result, Flags { carry, overflow, zero: result == 0, signed: result & 0x8000 != 0 })
}

/// Computes the flags of an 8-bit compare: the byte subtraction whose
/// difference is discarded.
pub fn alu_compare8(a: u8, b: u8) -> (flags: Flags)
    ensures
        flags == sub8_flags(a, b),
{
    let diff: u32 = a as u32 + 0x100 - b as u32;
    let result: u8 = (diff % 0x100) as u8;
    let carry = a < b;
    let overflow = ((a ^ b) & (a ^ result)) & 0x80 != 0;
    Flags { carry, overflow, zero: result == 0, signed: result & 0x80 != 0 }
}

} // verus!
