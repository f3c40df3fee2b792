//! The operation set: one tagged variant per mnemonic, carrying only the
//! operands it needs, and the decode-error type.
//!
//! Register indices are always in `0..=7`; immediates are unsigned and
//! 4 or 8 bits wide depending on the form.  Branch and jump offsets are kept
//! as 16-bit two's-complement bit patterns, already sign-extended from their
//! 9- or 12-bit encoded fields; the executor scales them by two (one shift
//! left) before adding them to the program counter.

use vstd::prelude::*;

use crate::cpu::NUM_REGISTERS;

verus! {

/// A decoded instruction.
#[derive(Clone, Copy, Debug, PartialEq, Eq, Structural)]
pub enum Instruction {
    Add { rd: usize, ra: usize, rb: usize },
    AddWithCarry { rd: usize, ra: usize, rb: usize },
    Subtract { rd: usize, ra: usize, rb: usize },
    SubtractWithBorrow { rd: usize, ra: usize, rb: usize },
    And { rd: usize, ra: usize, rb: usize },
    Or { rd: usize, ra: usize, rb: usize },
    Xor { rd: usize, ra: usize, rb: usize },
    Not { rd: usize, ra: usize },
    LogicalLeftShift { rd: usize, rs: usize, imm: u16 },
    LogicalRightShift { rd: usize, rs: usize, imm: u16 },
    ArithmeticRightShift { rd: usize, rs: usize, imm: u16 },
    RotateRight { rd: usize, rs: usize, imm: u16 },
    AddImmediate { rd: usize, imm: u16 },
    SubImmediate { rd: usize, imm: u16 },
    Compare { ra: usize, rb: usize },
    CompareLowBytes { ra: usize, rb: usize },
    CompareHighBytes { ra: usize, rb: usize },
    CompareImmediateWithLowByte { rs: usize, imm: u16 },
    CompareImmediateWithHighByte { rs: usize, imm: u16 },
    MoveImmediateToLowByte { rd: usize, imm: u16 },
    MoveImmediateToHighByte { rd: usize, imm: u16 },
    LoadWord { rd: usize, rs: usize },
    LoadToLowByte { rd: usize, rs: usize },
    LoadToHighByte { rd: usize, rs: usize },
    StoreWord { rs: usize, rd: usize },
    StoreFromLowByte { rs: usize, rd: usize },
    StoreFromHighByte { rs: usize, rd: usize },
    JumpToOffset { offset: u16 },
    JumpToPointer { rs: usize },
    BranchIfCarry { offset: u16 },
    BranchIfNotCarry { offset: u16 },
    BranchIfOverflow { offset: u16 },
    BranchIfNotOverflow { offset: u16 },
    BranchIfZero { offset: u16 },
    BranchIfNotZero { offset: u16 },
    BranchIfSigned { offset: u16 },
    BranchIfNotSigned { offset: u16 },
    Halt,
}

impl Instruction {
    /// Well-formedness of the operands: every register index below 8, shift
    /// immediates below 16, byte immediates below 256.  The decoder only ever
    /// produces well-formed instructions.
    pub open spec fn wf(self) -> bool {
        match self {
            Instruction::Add { rd, ra, rb } => rd < NUM_REGISTERS && ra < NUM_REGISTERS && rb < NUM_REGISTERS,
            Instruction::AddWithCarry { rd, ra, rb } => rd < NUM_REGISTERS && ra < NUM_REGISTERS && rb < NUM_REGISTERS,
            Instruction::Subtract { rd, ra, rb } => rd < NUM_REGISTERS && ra < NUM_REGISTERS && rb < NUM_REGISTERS,
            Instruction::SubtractWithBorrow { rd, ra, rb } => rd < NUM_REGISTERS && ra < NUM_REGISTERS && rb < NUM_REGISTERS,
            Instruction::And { rd, ra, rb } => rd < NUM_REGISTERS && ra < NUM_REGISTERS && rb < NUM_REGISTERS,
            Instruction::Or { rd, ra, rb } => rd < NUM_REGISTERS && ra < NUM_REGISTERS && rb < NUM_REGISTERS,
            Instruction::Xor { rd, ra, rb } => rd < NUM_REGISTERS && ra < NUM_REGISTERS && rb < NUM_REGISTERS,
            Instruction::Not { rd, ra } => rd < NUM_REGISTERS && ra < NUM_REGISTERS,
            Instruction::LogicalLeftShift { rd, rs, imm } => rd < NUM_REGISTERS && rs < NUM_REGISTERS && imm < 16,
            Instruction::LogicalRightShift { rd, rs, imm } => rd < NUM_REGISTERS && rs < NUM_REGISTERS && imm < 16,
            Instruction::ArithmeticRightShift { rd, rs, imm } => rd < NUM_REGISTERS && rs < NUM_REGISTERS && imm < 16,
            Instruction::RotateRight { rd, rs, imm } => rd < NUM_REGISTERS && rs < NUM_REGISTERS && imm < 16,
            Instruction::AddImmediate { rd, imm } => rd < NUM_REGISTERS && imm < 256,
            Instruction::SubImmediate { rd, imm } => rd < NUM_REGISTERS && imm < 256,
            Instruction::Compare { ra, rb } => ra < NUM_REGISTERS && rb < NUM_REGISTERS,
            Instruction::CompareLowBytes { ra, rb } => ra < NUM_REGISTERS && rb < NUM_REGISTERS,
            Instruction::CompareHighBytes { ra, rb } => ra < NUM_REGISTERS && rb < NUM_REGISTERS,
            Instruction::CompareImmediateWithLowByte { rs, imm } => rs < NUM_REGISTERS && imm < 256,
            Instruction::CompareImmediateWithHighByte { rs, imm } => rs < NUM_REGISTERS && imm < 256,
            Instruction::MoveImmediateToLowByte { rd, imm } => rd < NUM_REGISTERS && imm < 256,
            Instruction::MoveImmediateToHighByte { rd, imm } => rd < NUM_REGISTERS && imm < 256,
            Instruction::LoadWord { rd, rs } => rd < NUM_REGISTERS && rs < NUM_REGISTERS,
            Instruction::LoadToLowByte { rd, rs } => rd < NUM_REGISTERS && rs < NUM_REGISTERS,
            Instruction::LoadToHighByte { rd, rs } => rd < NUM_REGISTERS && rs < NUM_REGISTERS,
            Instruction::StoreWord { rs, rd } => rs < NUM_REGISTERS && rd < NUM_REGISTERS,
            Instruction::StoreFromLowByte { rs, rd } => rs < NUM_REGISTERS && rd < NUM_REGISTERS,
            Instruction::StoreFromHighByte { rs, rd } => rs < NUM_REGISTERS && rd < NUM_REGISTERS,
            Instruction::JumpToOffset { offset } => true,
            Instruction::JumpToPointer { rs } => rs < NUM_REGISTERS,
            Instruction::BranchIfCarry { offset } => true,
            Instruction::BranchIfNotCarry { offset } => true,
            Instruction::BranchIfOverflow { offset } => true,
            Instruction::BranchIfNotOverflow { offset } => true,
            Instruction::BranchIfZero { offset } => true,
            Instruction::BranchIfNotZero { offset } => true,
            Instruction::BranchIfSigned { offset } => true,
            Instruction::BranchIfNotSigned { offset } => true,
            Instruction::Halt => true,
        }
    }
}

/// The one runtime failure of the core: an instruction word that matches no
/// pattern of the encoding table, reported with the offending word.
#[derive(Clone, Copy, Debug, PartialEq, Eq, Structural)]
pub enum DecodeError {
    Unknown(u16),
}

impl DecodeError {
    /// The offending instruction word.
    pub fn word(&self) -> (word: u16)
        ensures
            self == DecodeError::Unknown(word),
    {
        match self {
            DecodeError::Unknown(word) => *word,
        }
    }
}

} // verus!
