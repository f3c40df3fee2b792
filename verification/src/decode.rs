//! The decoder: a pure function from a 16-bit instruction word to a tagged
//! operation, or a decode error.
//!
//! The top nibble of the word selects the major class; within a class a
//! low-order function field of 1, 2 or 3 bits selects the instruction.
//! Register fields are 3 bits wide, shift immediates 4 bits, byte immediates
//! 8 bits.  Branch offsets are 9 bits and absolute-jump offsets 12 bits, both
//! signed and sign-extended here to 16-bit two's-complement patterns.

use vstd::prelude::*;

use crate::cpu::Cpu;
use crate::instruction::{DecodeError, Instruction};

verus! {

/// The 3-bit register field of `w` that starts at bit `shift`.
pub open spec fn spec_reg(w: u16, shift: u16) -> usize {
    ((w >> shift) & 7) as usize
}

/// The 8-bit immediate field of `w`, bits 8..=1.
pub open spec fn spec_imm8(w: u16) -> u16 {
    (w >> 1) & 0xFF
}

/// The 4-bit shift-immediate field of `w`, bits 5..=2.
pub open spec fn spec_imm4(w: u16) -> u16 {
    (w >> 2) & 0xF
}

/// Sign extension of a 9-bit field to a 16-bit two's-complement pattern: if
/// the high bit of the field is set, the high seven bits are filled with
/// ones.
pub open spec fn spec_sign_extend9(x: u16) -> u16 {
    if x & 0x100 != 0 {
        x | 0xFE00
    } else {
        x
    }
}

/// Sign extension of a 12-bit field to a 16-bit two's-complement pattern: if
/// the high bit of the field is set, the high four bits are filled with ones.
pub open spec fn spec_sign_extend12(x: u16) -> u16 {
    if x & 0x800 != 0 {
        x | 0xF000
    } else {
        x
    }
}

/// The sign-extended 9-bit branch offset of `w`, encoded in bits 11..=3.
pub open spec fn spec_offset9(w: u16) -> u16 {
    spec_sign_extend9((w >> 3) & 0x1FF)
}

/// The sign-extended 12-bit jump offset of `w`, encoded in bits 11..=0.
pub open spec fn spec_offset12(w: u16) -> u16 {
    spec_sign_extend12(w & 0xFFF)
}

/// What the decoder returns for each 16-bit word: the encoding table of the
/// instruction set.  Every unlisted top-nibble value and reserved sub-opcode
/// decodes to an error carrying the word.
pub open spec fn spec_decode(w: u16) -> Result<Instruction, DecodeError> {
    let class = w >> 12;
    if class == 0x0 {
        let rd = spec_reg(w, 9);
        let ra = spec_reg(w, 6);
        let rb = spec_reg(w, 3);
        let func = w & 7;
        if func == 0b000 {
            Ok(Instruction::Add { rd, ra, rb })
        } else if func == 0b001 {
            Ok(Instruction::AddWithCarry { rd, ra, rb })
        } else if func == 0b010 {
            Ok(Instruction::Subtract { rd, ra, rb })
        } else if func == 0b011 {
            Ok(Instruction::SubtractWithBorrow { rd, ra, rb })
        } else if func == 0b100 {
            Ok(Instruction::And { rd, ra, rb })
        } else if func == 0b101 {
            Ok(Instruction::Or { rd, ra, rb })
        } else if func == 0b110 {
            Ok(Instruction::Xor { rd, ra, rb })
        } else {
            Ok(Instruction::Not { rd, ra })
        }
    } else if class == 0x1 {
        let rd = spec_reg(w, 9);
        let rs = spec_reg(w, 6);
        let imm = spec_imm4(w);
        let func = w & 3;
        if func == 0b00 {
            Ok(Instruction::LogicalLeftShift { rd, rs, imm })
        } else if func == 0b01 {
            Ok(Instruction::LogicalRightShift { rd, rs, imm })
        } else if func == 0b10 {
            Ok(Instruction::ArithmeticRightShift { rd, rs, imm })
        } else {
            Ok(Instruction::RotateRight { rd, rs, imm })
        }
    } else if class == 0x2 {
        let rd = spec_reg(w, 9);
        let imm = spec_imm8(w);
        if w & 1 == 0 {
            Ok(Instruction::AddImmediate { rd, imm })
        } else {
            Ok(Instruction::SubImmediate { rd, imm })
        }
    } else if class == 0x3 {
        let ra = spec_reg(w, 9);
        let rb = spec_reg(w, 6);
        let func = w & 3;
        if func == 0b00 {
            Ok(Instruction::Compare { ra, rb })
        } else if func == 0b10 {
            Ok(Instruction::CompareLowBytes { ra, rb })
        } else if func == 0b11 {
            Ok(Instruction::CompareHighBytes { ra, rb })
        } else {
            Err(DecodeError::Unknown(w))
        }
    } else if class == 0x4 {
        let rs = spec_reg(w, 9);
        let imm = spec_imm8(w);
        if w & 1 == 0 {
            Ok(Instruction::CompareImmediateWithLowByte { rs, imm })
        } else {
            Ok(Instruction::CompareImmediateWithHighByte { rs, imm })
        }
    } else if class == 0x5 {
        let rd = spec_reg(w, 9);
        let imm = spec_imm8(w);
        if w & 1 == 0 {
            Ok(Instruction::MoveImmediateToLowByte { rd, imm })
        } else {
            Ok(Instruction::MoveImmediateToHighByte { rd, imm })
        }
    } else if class == 0x6 {
        let rd = spec_reg(w, 9);
        let rs = spec_reg(w, 6);
        let func = w & 3;
        if func == 0b00 {
            Ok(Instruction::LoadWord { rd, rs })
        } else if func == 0b10 {
            Ok(Instruction::LoadToLowByte { rd, rs })
        } else if func == 0b11 {
            Ok(Instruction::LoadToHighByte { rd, rs })
        } else {
            Err(DecodeError::Unknown(w))
        }
    } else if class == 0x7 {
        let rs = spec_reg(w, 9);
        let rd = spec_reg(w, 6);
        let func = w & 3;
        if func == 0b00 {
            Ok(Instruction::StoreWord { rs, rd })
        } else if func == 0b10 {
            Ok(Instruction::StoreFromLowByte { rs, rd })
        } else if func == 0b11 {
            Ok(Instruction::StoreFromHighByte { rs, rd })
        } else {
            Err(DecodeError::Unknown(w))
        }
    } else if class == 0x8 {
        Ok(Instruction::JumpToOffset { offset: spec_offset12(w) })
    } else if class == 0x9 {
        Ok(Instruction::JumpToPointer { rs: spec_reg(w, 9) })
    } else if class == 0xa {
        let offset = spec_offset9(w);
        let func = w & 7;
        if func == 0b000 {
            Ok(Instruction::BranchIfCarry { offset })
        } else if func == 0b001 {
            Ok(Instruction::BranchIfNotCarry { offset })
        } else if func == 0b010 {
            Ok(Instruction::BranchIfOverflow { offset })
        } else if func == 0b011 {
            Ok(Instruction::BranchIfNotOverflow { offset })
        } else if func == 0b100 {
            Ok(Instruction::BranchIfZero { offset })
        } else if func == 0b101 {
            Ok(Instruction::BranchIfNotZero { offset })
        } else if func == 0b110 {
            Ok(Instruction::BranchIfSigned { offset })
        } else {
            Ok(Instruction::BranchIfNotSigned { offset })
        }
    } else if class == 0xf {
        Ok(Instruction::Halt)
    } else {
        Err(DecodeError::Unknown(w))
    }
}

/// Every instruction the encoding table yields is well formed: register
/// fields are 3 bits, shift immediates 4 bits, byte immediates 8 bits.
pub proof fn lemma_decode_wf(w: u16)
    ensures
        spec_decode(w) matches Ok(i) ==> i.wf(),
{
    assert(((w >> 9) & 7) < 8 && ((w >> 6) & 7) < 8 && ((w >> 3) & 7) < 8 && ((w >> 1) & 0xFF)
        < 256 && ((w >> 2) & 0xF) < 16) by (bit_vector);
}

/// Reads the 3-bit register field of `w` that starts at bit `shift`.
fn reg_field(w: u16, shift: u16) -> (r: usize)
    requires
        shift <= 12,
    ensures
        r == spec_reg(w, shift),
        r < 8,
{
    assert(((w >> shift) & 7) < 8) by (bit_vector);
    ((w >> shift) & 7) as usize
}

/// Reads the 8-bit immediate field of `w`.
fn imm8_field(w: u16) -> (imm: u16)
    ensures
        imm == spec_imm8(w),
        imm < 256,
{
    assert(((w >> 1) & 0xFF) < 256) by (bit_vector);
    (w >> 1) & 0xFF
}

/// Reads the 4-bit shift-immediate field of `w`.
fn imm4_field(w: u16) -> (imm: u16)
    ensures
        imm == spec_imm4(w),
        imm < 16,
{
    assert(((w >> 2) & 0xF) < 16) by (bit_vector);
    (w >> 2) & 0xF
}

/// Reads and sign-extends the 9-bit branch offset of `w`.
fn offset9_field(w: u16) -> (offset: u16)
    ensures
        offset == spec_offset9(w),
{
    let x = (w >> 3) & 0x1FF;
    if x & 0x100 != 0 {
        x | 0xFE00
    } else {
        x
    }
}

/// Reads and sign-extends the 12-bit jump offset of `w`.
fn offset12_field(w: u16) -> (offset: u16)
    ensures
        offset == spec_offset12(w),
{
    let x = w & 0xFFF;
    if x & 0x800 != 0 {
        x | 0xF000
    } else {
        x
    }
}

impl Cpu {
    /// Decodes a 16-bit instruction word by the encoding table
    /// ([`spec_decode`]).  Pure: the machine state plays no part.  Every
    /// decoded instruction is well formed; every undecodable word yields the
    /// error carrying that word.
    pub fn decode(&self, instruction: u16) -> (result: Result<Instruction, DecodeError>)
        ensures
            result == spec_decode(instruction),
            result matches Ok(i) ==> i.wf(),
    {
        let w = instruction;
        match w >> 12 {
            0x0 => {
                let rd = reg_field(w, 9);
                let ra = reg_field(w, 6);
                let rb = reg_field(w, 3);
                match w & 7 {
                    0b000 => Ok(Instruction::Add { rd, ra, rb }),
                    0b001 => Ok(Instruction::AddWithCarry { rd, ra, rb }),
                    0b010 => Ok(Instruction::Subtract { rd, ra, rb }),
                    0b011 => Ok(Instruction::SubtractWithBorrow { rd, ra, rb }),
                    0b100 => Ok(Instruction::And { rd, ra, rb }),
                    0b101 => Ok(Instruction::Or { rd, ra, rb }),
                    0b110 => Ok(Instruction::Xor { rd, ra, rb }),
                    _ => Ok(Instruction::Not { rd, ra }),
                }
            },
            0x1 => {
                let rd = reg_field(w, 9);
                let rs = reg_field(w, 6);
                let imm = imm4_field(w);
                match w & 3 {
                    0b00 => Ok(Instruction::LogicalLeftShift { rd, rs, imm }),
                    0b01 => Ok(Instruction::LogicalRightShift { rd, rs, imm }),
                    0b10 => Ok(Instruction::ArithmeticRightShift { rd, rs, imm }),
                    _ => Ok(Instruction::RotateRight { rd, rs, imm }),
                }
            },
            0x2 => {
                let rd = reg_field(w, 9);
                let imm = imm8_field(w);
                if w & 1 == 0 {
                    Ok(Instruction::AddImmediate { rd, imm })
                } else {
                    Ok(Instruction::SubImmediate { rd, imm })
                }
            },
            0x3 => {
                let ra = reg_field(w, 9);
                let rb = reg_field(w, 6);
                match w & 3 {
                    0b00 => Ok(Instruction::Compare { ra, rb }),
                    0b10 => Ok(Instruction::CompareLowBytes { ra, rb }),
                    0b11 => Ok(Instruction::CompareHighBytes { ra, rb }),
                    _ => Err(DecodeError::Unknown(w)),
                }
            },
            0x4 => {
                let rs = reg_field(w, 9);
                let imm = imm8_field(w);
                if w & 1 == 0 {
                    Ok(Instruction::CompareImmediateWithLowByte { rs, imm })
                } else {
                    Ok(Instruction::CompareImmediateWithHighByte { rs, imm })
                }
            },
            0x5 => {
                let rd = reg_field(w, 9);
                let imm = imm8_field(w);
                if w & 1 == 0 {
                    Ok(Instruction::MoveImmediateToLowByte { rd, imm })
                } else {
                    Ok(Instruction::MoveImmediateToHighByte { rd, imm })
                }
            },
            0x6 => {
                let rd = reg_field(w, 9);
                let rs = reg_field(w, 6);
                match w & 3 {
                    0b00 => Ok(Instruction::LoadWord { rd, rs }),
                    0b10 => Ok(Instruction::LoadToLowByte { rd, rs }),
                    0b11 => Ok(Instruction::LoadToHighByte { rd, rs }),
                    _ => Err(DecodeError::Unknown(w)),
                }
            },
            0x7 => {
                let rs = reg_field(w, 9);
                let rd = reg_field(w, 6);
                match w & 3 {
                    0b00 => Ok(Instruction::StoreWord { rs, rd }),
                    0b10 => Ok(Instruction::StoreFromLowByte { rs, rd }),
                    0b11 => Ok(Instruction::StoreFromHighByte { rs, rd }),
                    _ => Err(DecodeError::Unknown(w)),
                }
            },
            0x8 => Ok(Instruction::JumpToOffset { offset: offset12_field(w) }),
            0x9 => Ok(Instruction::JumpToPointer { rs: reg_field(w, 9) }),
            0xa => {
                let offset = offset9_field(w);
                match w & 7 {
                    0b000 => Ok(Instruction::BranchIfCarry { offset }),
                    0b001 => Ok(Instruction::BranchIfNotCarry { offset }),
                    0b010 => Ok(Instruction::BranchIfOverflow { offset }),
                    0b011 => Ok(Instruction::BranchIfNotOverflow { offset }),
                    0b100 => Ok(Instruction::BranchIfZero { offset }),
                    0b101 => Ok(Instruction::BranchIfNotZero { offset }),
                    0b110 => Ok(Instruction::BranchIfSigned { offset }),
                    _ => Ok(Instruction::BranchIfNotSigned { offset }),
                }
            },
            0xf => Ok(Instruction::Halt),
            _ => Err(DecodeError::Unknown(w)),
        }
    }
}

} // verus!
