//! The executor: applies a decoded instruction to the machine state.
//!
//! [`spec_execute`] is the mathematical semantics of every instruction;
//! [`Cpu::execute`] is proved to implement it exactly.  Address arithmetic
//! wraps at 2^16; loads and stores never touch flags; immediate moves never
//! touch flags; branches apply their word-scaled displacement to the
//! already-advanced program counter when their condition holds and change
//! nothing otherwise.

use vstd::prelude::*;

use crate::alu::{
    add_flags, add_result, alu_add, alu_compare8, alu_sub, asr_result, logic_flags, lsl_carry,
    lsl_result, lsr_result, ror_carry, ror_result, shr_carry, sub8_flags, sub_flags, sub_result,
};
use crate::cpu::{Cpu, CpuView};
use crate::flags::Flags;
use crate::instruction::Instruction;
use crate::memory::{high_byte, low_byte, word_at, word_written, wrap_add16, Memory};

verus! {

/// A 16-bit register value with its low byte replaced by `v`.
pub open spec fn with_low_byte(r: u16, v: u16) -> u16
    recommends
        v < 256,
{
    (r & 0xFF00) | v
}

/// A 16-bit register value with its high byte replaced by `v`.
pub open spec fn with_high_byte(r: u16, v: u16) -> u16
    recommends
        v < 256,
{
    (r & 0x00FF) | (v << 8u16)
}

/// The program counter a taken branch or jump lands on: the offset pattern,
/// scaled to bytes by one left shift, added modulo 2^16.
pub open spec fn branch_target(pc: u16, offset: u16) -> u16 {
    wrap_add16(pc, offset << 1u16)
}

/// The machine state after a conditional branch or an unconditional jump:
/// when `taken`, the program counter moves to the branch target; otherwise
/// nothing changes.
pub open spec fn spec_branch(s: CpuView, taken: bool, offset: u16) -> CpuView {
    if taken {
        CpuView { pc: branch_target(s.pc, offset), ..s }
    } else {
        s
    }
}

/// The machine state after executing one decoded instruction.  The program
/// counter has already been advanced past the instruction by fetch; a halt
/// only sets the latch.
pub open spec fn spec_execute(s: CpuView, i: Instruction) -> CpuView
    recommends
        s.wf(),
        i.wf(),
{
    match i {
        Instruction::Add { rd, ra, rb } => {
            let a = s.regs[ra as int];
            let b = s.regs[rb as int];
            CpuView {
                regs: s.regs.update(rd as int, add_result(a, b, false)),
                flags: add_flags(a, b, false),
                ..s
            }
        },
        Instruction::AddWithCarry { rd, ra, rb } => {
            let a = s.regs[ra as int];
            let b = s.regs[rb as int];
            CpuView {
                regs: s.regs.update(rd as int, add_result(a, b, s.flags.carry)),
                flags: add_flags(a, b, s.flags.carry),
                ..s
            }
        },
        Instruction::Subtract { rd, ra, rb } => {
            let a = s.regs[ra as int];
            let b = s.regs[rb as int];
            CpuView {
                regs: s.regs.update(rd as int, sub_result(a, b, false)),
                flags: sub_flags(a, b, false),
                ..s
            }
        },
        Instruction::SubtractWithBorrow { rd, ra, rb } => {
            let a = s.regs[ra as int];
            let b = s.regs[rb as int];
            CpuView {
                regs: s.regs.update(rd as int, sub_result(a, b, s.flags.carry)),
                flags: sub_flags(a, b, s.flags.carry),
                ..s
            }
        },
        Instruction::And { rd, ra, rb } => {
            let r = s.regs[ra as int] & s.regs[rb as int];
            CpuView { regs: s.regs.update(rd as int, r), flags: logic_flags(r), ..s }
        },
        Instruction::Or { rd, ra, rb } => {
            let r = s.regs[ra as int] | s.regs[rb as int];
            CpuView { regs: s.regs.update(rd as int, r), flags: logic_flags(r), ..s }
        },
        Instruction::Xor { rd, ra, rb } => {
            let r = s.regs[ra as int] ^ s.regs[rb as int];
            CpuView { regs: s.regs.update(rd as int, r), flags: logic_flags(r), ..s }
        },
        Instruction::Not { rd, ra } => {
            let r = !s.regs[ra as int];
            CpuView { regs: s.regs.update(rd as int, r), flags: logic_flags(r), ..s }
        },
        Instruction::LogicalLeftShift { rd, rs, imm } => {
            let a = s.regs[rs as int];
            let r = lsl_result(a, imm);
            CpuView {
                regs: s.regs.update(rd as int, r),
                flags: Flags {
                    carry: lsl_carry(a, imm),
                    overflow: false,
                    zero: r == 0,
                    signed: r & 0x8000 != 0,
                },
                ..s
            }
        },
        Instruction::LogicalRightShift { rd, rs, imm } => {
            let a = s.regs[rs as int];
            let r = lsr_result(a, imm);
            CpuView {
                regs: s.regs.update(rd as int, r),
                flags: Flags {
                    carry: shr_carry(a, imm),
                    overflow: false,
                    zero: r == 0,
                    signed: r & 0x8000 != 0,
                },
                ..s
            }
        },
        Instruction::ArithmeticRightShift { rd, rs, imm } => {
            let a = s.regs[rs as int];
            let r = asr_result(a, imm);
            CpuView {
                regs: s.regs.update(rd as int, r),
                flags: Flags {
                    carry: shr_carry(a, imm),
                    overflow: false,
                    zero: r == 0,
                    signed: r & 0x8000 != 0,
                },
                ..s
            }
        },
        Instruction::RotateRight { rd, rs, imm } => {
            let a = s.regs[rs as int];
            let r = ror_result(a, imm);
            CpuView {
                regs: s.regs.update(rd as int, r),
                flags: Flags {
                    carry: ror_carry(a, imm),
                    overflow: false,
                    zero: r == 0,
                    signed: r & 0x8000 != 0,
                },
                ..s
            }
        },
        Instruction::AddImmediate { rd, imm } => {
            let a = s.regs[rd as int];
            CpuView {
                regs: s.regs.update(rd as int, add_result(a, imm, false)),
                flags: add_flags(a, imm, false),
                ..s
            }
        },
        Instruction::SubImmediate { rd, imm } => {
            let a = s.regs[rd as int];
            CpuView {
                regs: s.regs.update(rd as int, sub_result(a, imm, false)),
                flags: sub_flags(a, imm, false),
                ..s
            }
        },
        Instruction::Compare { ra, rb } => {
            CpuView { flags: sub_flags(s.regs[ra as int], s.regs[rb as int], false), ..s }
        },
        Instruction::CompareLowBytes { ra, rb } => {
            CpuView {
                flags: sub8_flags(low_byte(s.regs[ra as int]), low_byte(s.regs[rb as int])),
                ..s
            }
        },
        Instruction::CompareHighBytes { ra, rb } => {
            CpuView {
                flags: sub8_flags(high_byte(s.regs[ra as int]), high_byte(s.regs[rb as int])),
                ..s
            }
        },
        Instruction::CompareImmediateWithLowByte { rs, imm } => {
            CpuView { flags: sub8_flags(low_byte(s.regs[rs as int]), imm as u8), ..s }
        },
        Instruction::CompareImmediateWithHighByte { rs, imm } => {
            CpuView { flags: sub8_flags(high_byte(s.regs[rs as int]), imm as u8), ..s }
        },
        Instruction::MoveImmediateToLowByte { rd, imm } => {
            CpuView { regs: s.regs.update(rd as int, with_low_byte(s.regs[rd as int], imm)), ..s }
        },
        Instruction::MoveImmediateToHighByte { rd, imm } => {
            CpuView { regs: s.regs.update(rd as int, with_high_byte(s.regs[rd as int], imm)), ..s }
        },
        Instruction::LoadWord { rd, rs } => {
            CpuView { regs: s.regs.update(rd as int, word_at(s.mem, s.regs[rs as int])), ..s }
        },
        Instruction::LoadToLowByte { rd, rs } => {
            let v = s.mem[s.regs[rs as int] as int] as u16;
            CpuView { regs: s.regs.update(rd as int, with_low_byte(s.regs[rd as int], v)), ..s }
        },
        Instruction::LoadToHighByte { rd, rs } => {
            let v = s.mem[s.regs[rs as int] as int] as u16;
            CpuView { regs: s.regs.update(rd as int, with_high_byte(s.regs[rd as int], v)), ..s }
        },
        Instruction::StoreWord { rs, rd } => {
            CpuView { mem: word_written(s.mem, s.regs[rd as int], s.regs[rs as int]), ..s }
        },
        Instruction::StoreFromLowByte { rs, rd } => {
            CpuView {
                mem: s.mem.update(s.regs[rd as int] as int, low_byte(s.regs[rs as int])),
                ..s
            }
        },
        Instruction::StoreFromHighByte { rs, rd } => {
            CpuView {
                mem: s.mem.update(s.regs[rd as int] as int, high_byte(s.regs[rs as int])),
                ..s
            }
        },
        Instruction::JumpToOffset { offset } => {
            CpuView { pc: branch_target(s.pc, offset), ..s }
        },
        Instruction::JumpToPointer { rs } => CpuView { pc: s.regs[rs as int], ..s },
        Instruction::BranchIfCarry { offset } => spec_branch(s, s.flags.carry, offset),
        Instruction::BranchIfNotCarry { offset } => spec_branch(s, !s.flags.carry, offset),
        Instruction::BranchIfOverflow { offset } => spec_branch(s, s.flags.overflow, offset),
        Instruction::BranchIfNotOverflow { offset } => spec_branch(s, !s.flags.overflow, offset),
        Instruction::BranchIfZero { offset } => spec_branch(s, s.flags.zero, offset),
        Instruction::BranchIfNotZero { offset } => spec_branch(s, !s.flags.zero, offset),
        Instruction::BranchIfSigned { offset } => spec_branch(s, s.flags.signed, offset),
        Instruction::BranchIfNotSigned { offset } => spec_branch(s, !s.flags.signed, offset),
        Instruction::Halt => CpuView { halted: true, ..s },
    }
}


/// Moves a program counter to its branch target: the offset pattern scaled
/// by one left shift, added with wrap.
fn branch_pc(pc: u16, offset: u16) -> (target: u16)
    ensures
        target == branch_target(pc, offset),
{
    pc.wrapping_add(offset << 1)
}

impl Cpu {
    /// Register-to-register and immediate addition and subtraction, with or
    /// without the incoming carry or borrow.
    fn execute_arith(&mut self, instruction: Instruction)
        requires
            old(self).wf(),
            instruction.wf(),
            instruction is Add || instruction is AddWithCarry || instruction is Subtract
                || instruction is SubtractWithBorrow || instruction is AddImmediate
                || instruction is SubImmediate,
        ensures
            final(self).wf(),
            final(self)@ == spec_execute(old(self)@, instruction),
    {
        match instruction {
            Instruction::Add { rd, ra, rb } => {
                let a = self.registers[ra];
                let b = self.registers[rb];
                let (result, flags) = alu_add(a, b, false);
                self.registers[rd] = result;
                self.flags = flags;
            },
            Instruction::AddWithCarry { rd, ra, rb } => {
                let a = self.registers[ra];
                let b = self.registers[rb];
                let (result, flags) = alu_add(a, b, self.flags.carry);
                self.registers[rd] = result;
                self.flags = flags;
            },
            Instruction::Subtract { rd, ra, rb } => {
                let a = self.registers[ra];
                let b = self.registers[rb];
                let (result, flags) = alu_sub(a, b, false);
                self.registers[rd] = result;
                self.flags = flags;
            },
            Instruction::SubtractWithBorrow { rd, ra, rb } => {
                let a = self.registers[ra];
                let b = self.registers[rb];
                let (result, flags) = alu_sub(a, b, self.flags.carry);
                self.registers[rd] = result;
                self.flags = flags;
            },
            Instruction::AddImmediate { rd, imm } => {
                let a = self.registers[rd];
                let (result, flags) = alu_add(a, imm, false);
                self.registers[rd] = result;
                self.flags = flags;
            },
            Instruction::SubImmediate { rd, imm } => {
                let a = self.registers[rd];
                let (result, flags) = alu_sub(a, imm, false);
                self.registers[rd] = result;
                self.flags = flags;
            },
            _ => {
                proof {
                    assert(false);
                }
            },
        }
        proof {
            assert(self@ =~= spec_execute(old(self)@, instruction));
        }
    }

    /// The bitwise operations: carry and overflow cleared, zero and signed
    /// following the result.
    fn execute_logic(&mut self, instruction: Instruction)
        requires
            old(self).wf(),
            instruction.wf(),
            instruction is And || instruction is Or || instruction is Xor || instruction is Not,
        ensures
            final(self).wf(),
            final(self)@ == spec_execute(old(self)@, instruction),
    {
        let result = match instruction {
            Instruction::And { rd, ra, rb } => {
                let result = self.registers[ra] & self.registers[rb];
                self.registers[rd] = result;
                result
            },
            Instruction::Or { rd, ra, rb } => {
                let result = self.registers[ra] | self.registers[rb];
                self.registers[rd] = result;
                result
            },
            Instruction::Xor { rd, ra, rb } => {
                let result = self.registers[ra] ^ self.registers[rb];
                self.registers[rd] = result;
                result
            },
            Instruction::Not { rd, ra } => {
                let result = !self.registers[ra];
                self.registers[rd] = result;
                result
            },
            _ => {
                proof {
                    assert(false);
                }
                0
            },
        };
        self.flags = Flags {
            carry: false,
            overflow: false,
            zero: result == 0,
            signed: result & 0x8000 != 0,
        };
        proof {
            assert(self@ =~= spec_execute(old(self)@, instruction));
        }
    }

    /// The shifts and the rotation.  A shift count of zero leaves the operand
    /// unchanged and clears the carry (for rotate the carry follows bit 15 of
    /// the result, which equals the operand).
    fn execute_shift(&mut self, instruction: Instruction)
        requires
            old(self).wf(),
            instruction.wf(),
            instruction is LogicalLeftShift || instruction is LogicalRightShift
                || instruction is ArithmeticRightShift || instruction is RotateRight,
        ensures
            final(self).wf(),
            final(self)@ == spec_execute(old(self)@, instruction),
    {
        match instruction {
            Instruction::LogicalLeftShift { rd, rs, imm } => {
                let a = self.registers[rs];
                let result = a << imm;
                let carry = imm != 0 && (a >> (16 - imm)) & 1 != 0;
                self.registers[rd] = result;
                self.flags = Flags {
                    carry,
                    overflow: false,
                    zero: result == 0,
                    signed: result & 0x8000 != 0,
                };
            },
            Instruction::LogicalRightShift { rd, rs, imm } => {
                let a = self.registers[rs];
                let result = a >> imm;
                let carry = imm != 0 && (a >> (imm - 1)) & 1 != 0;
                self.registers[rd] = result;
                self.flags = Flags {
                    carry,
                    overflow: false,
                    zero: result == 0,
                    signed: result & 0x8000 != 0,
                };
            },
            Instruction::ArithmeticRightShift { rd, rs, imm } => {
                let a = self.registers[rs];
                let result = if a & 0x8000 == 0 {
                    a >> imm
                } else {
                    (a >> imm) | !(0xFFFFu16 >> imm)
                };
                let carry = imm != 0 && (a >> (imm - 1)) & 1 != 0;
                self.registers[rd] = result;
                self.flags = Flags {
                    carry,
                    overflow: false,
                    zero: result == 0,
                    signed: result & 0x8000 != 0,
                };
            },
            Instruction::RotateRight { rd, rs, imm } => {
                let a = self.registers[rs];
                let result = if imm == 0 {
                    a
                } else {
                    (a >> imm) | (a << (16 - imm))
                };
                let carry = (result >> 15) & 1 != 0;
                self.registers[rd] = result;
                self.flags = Flags {
                    carry,
                    overflow: false,
                    zero: result == 0,
                    signed: result & 0x8000 != 0,
                };
            },
            _ => {
                proof {
                    assert(false);
                }
            },
        }
        proof {
            assert(self@ =~= spec_execute(old(self)@, instruction));
        }
    }

    /// The compare family: the subtraction of the selected operand widths,
    /// its difference discarded, its flags kept.
    fn execute_compare(&mut self, instruction: Instruction)
        requires
            old(self).wf(),
            instruction.wf(),
            instruction is Compare || instruction is CompareLowBytes
                || instruction is CompareHighBytes || instruction is CompareImmediateWithLowByte
                || instruction is CompareImmediateWithHighByte,
        ensures
            final(self).wf(),
            final(self)@ == spec_execute(old(self)@, instruction),
    {
        match instruction {
            Instruction::Compare { ra, rb } => {
                let a = self.registers[ra];
                let b = self.registers[rb];
                let (_, flags) = alu_sub(a, b, false);
                self.flags = flags;
            },
            Instruction::CompareLowBytes { ra, rb } => {
                let a = (self.registers[ra] % 0x100) as u8;
                let b = (self.registers[rb] % 0x100) as u8;
                self.flags = alu_compare8(a, b);
            },
            Instruction::CompareHighBytes { ra, rb } => {
                let a = (self.registers[ra] / 0x100) as u8;
                let b = (self.registers[rb] / 0x100) as u8;
                self.flags = alu_compare8(a, b);
            },
            Instruction::CompareImmediateWithLowByte { rs, imm } => {
                let a = (self.registers[rs] % 0x100) as u8;
                self.flags = alu_compare8(a, imm as u8);
            },
            Instruction::CompareImmediateWithHighByte { rs, imm } => {
                let a = (self.registers[rs] / 0x100) as u8;
                self.flags = alu_compare8(a, imm as u8);
            },
            _ => {
                proof {
                    assert(false);
                }
            },
        }
        proof {
            assert(self@ =~= spec_execute(old(self)@, instruction));
        }
    }

    /// The immediate moves and the loads: a byte or word replaces the
    /// selected part of the destination register, the other part untouched;
    /// flags untouched.
    fn execute_move_load(&mut self, instruction: Instruction)
        requires
            old(self).wf(),
            instruction.wf(),
            instruction is MoveImmediateToLowByte || instruction is MoveImmediateToHighByte
                || instruction is LoadWord || instruction is LoadToLowByte
                || instruction is LoadToHighByte,
        ensures
            final(self).wf(),
            final(self)@ == spec_execute(old(self)@, instruction),
    {
        match instruction {
            Instruction::MoveImmediateToLowByte { rd, imm } => {
                self.registers[rd] = (self.registers[rd] & 0xFF00) | imm;
            },
            Instruction::MoveImmediateToHighByte { rd, imm } => {
                self.registers[rd] = (self.registers[rd] & 0x00FF) | (imm << 8);
            },
            Instruction::LoadWord { rd, rs } => {
                let value = self.memory.read_word(self.registers[rs]);
                self.registers[rd] = value;
            },
            Instruction::LoadToLowByte { rd, rs } => {
                let value = self.memory.read_byte(self.registers[rs]);
                self.registers[rd] = (self.registers[rd] & 0xFF00) | value as u16;
            },
            Instruction::LoadToHighByte { rd, rs } => {
                let value = self.memory.read_byte(self.registers[rs]);
                self.registers[rd] = (self.registers[rd] & 0x00FF) | ((value as u16) << 8);
            },
            _ => {
                proof {
                    assert(false);
                }
            },
        }
        proof {
            assert(self@ =~= spec_execute(old(self)@, instruction));
        }
    }

    /// The stores: the selected byte, or the whole word little-endian, lands
    /// at the byte address held in the destination register; flags and
    /// registers untouched.
    fn execute_store(&mut self, instruction: Instruction)
        requires
            old(self).wf(),
            instruction.wf(),
            instruction is StoreWord || instruction is StoreFromLowByte
                || instruction is StoreFromHighByte,
        ensures
            final(self).wf(),
            final(self)@ == spec_execute(old(self)@, instruction),
    {
        match instruction {
            Instruction::StoreWord { rs, rd } => {
                let value = self.registers[rs];
                self.memory.write_word(self.registers[rd], value);
            },
            Instruction::StoreFromLowByte { rs, rd } => {
                let value = (self.registers[rs] % 0x100) as u8;
                self.memory.write_byte(self.registers[rd], value);
            },
            Instruction::StoreFromHighByte { rs, rd } => {
                let value = (self.registers[rs] / 0x100) as u8;
                self.memory.write_byte(self.registers[rd], value);
            },
            _ => {
                proof {
                    assert(false);
                }
            },
        }
        proof {
            assert(self@ =~= spec_execute(old(self)@, instruction));
        }
    }

    /// Jumps and the halt: an unconditional jump retargets the program
    /// counter, a register-indirect jump loads it from a register, and a halt
    /// only sets the latch.
    fn execute_jump(&mut self, instruction: Instruction)
        requires
            old(self).wf(),
            instruction.wf(),
            instruction is JumpToOffset || instruction is JumpToPointer || instruction is Halt,
        ensures
            final(self).wf(),
            final(self)@ == spec_execute(old(self)@, instruction),
    {
        match instruction {
            Instruction::JumpToOffset { offset } => {
                self.program_counter = branch_pc(self.program_counter, offset);
            },
            Instruction::JumpToPointer { rs } => {
                self.program_counter = self.registers[rs];
            },
            Instruction::Halt => {
                self.halted = true;
            },
            _ => {
                proof {
                    assert(false);
                }
            },
        }
        proof {
            assert(self@ =~= spec_execute(old(self)@, instruction));
        }
    }

    /// Conditional branches: the program counter moves by the word-scaled
    /// offset exactly when the selected flag condition holds; nothing else
    /// changes, and nothing at all changes when it does not hold.
    fn execute_branch(&mut self, instruction: Instruction)
        requires
            old(self).wf(),
            instruction.wf(),
            instruction is BranchIfCarry || instruction is BranchIfNotCarry
                || instruction is BranchIfOverflow || instruction is BranchIfNotOverflow
                || instruction is BranchIfZero || instruction is BranchIfNotZero
                || instruction is BranchIfSigned || instruction is BranchIfNotSigned,
        ensures
            final(self).wf(),
            final(self)@ == spec_execute(old(self)@, instruction),
    {
        let (taken, offset) = match instruction {
            Instruction::BranchIfCarry { offset } => (self.flags.carry, offset),
            Instruction::BranchIfNotCarry { offset } => (!self.flags.carry, offset),
            Instruction::BranchIfOverflow { offset } => (self.flags.overflow, offset),
            Instruction::BranchIfNotOverflow { offset } => (!self.flags.overflow, offset),
            Instruction::BranchIfZero { offset } => (self.flags.zero, offset),
            Instruction::BranchIfNotZero { offset } => (!self.flags.zero, offset),
            Instruction::BranchIfSigned { offset } => (self.flags.signed, offset),
            Instruction::BranchIfNotSigned { offset } => (!self.flags.signed, offset),
            _ => {
                proof {
                    assert(false);
                }
                (false, 0)
            },
        };
        if taken {
            self.program_counter = branch_pc(self.program_counter, offset);
        }
        proof {
            assert(self@ =~= spec_execute(old(self)@, instruction));
        }
    }

    /// Applies one decoded, well-formed instruction to the machine state,
    /// exactly as [`spec_execute`] describes.
    pub fn execute(&mut self, instruction: Instruction)
        requires
            old(self).wf(),
            instruction.wf(),
        ensures
            final(self).wf(),
            final(self)@ == spec_execute(old(self)@, instruction),
    {
        match instruction {
            Instruction::Add { .. } | Instruction::AddWithCarry { .. }
            | Instruction::Subtract { .. } | Instruction::SubtractWithBorrow { .. }
            | Instruction::AddImmediate { .. } | Instruction::SubImmediate { .. } => {
                self.execute_arith(instruction);
            },
            Instruction::And { .. } | Instruction::Or { .. } | Instruction::Xor { .. }
            | Instruction::Not { .. } => {
                self.execute_logic(instruction);
            },
            Instruction::LogicalLeftShift { .. } | Instruction::LogicalRightShift { .. }
            | Instruction::ArithmeticRightShift { .. } | Instruction::RotateRight { .. } => {
                self.execute_shift(instruction);
            },
            Instruction::Compare { .. } | Instruction::CompareLowBytes { .. }
            | Instruction::CompareHighBytes { .. }
            | Instruction::CompareImmediateWithLowByte { .. }
            | Instruction::CompareImmediateWithHighByte { .. } => {
                self.execute_compare(instruction);
            },
            Instruction::MoveImmediateToLowByte { .. }
            | Instruction::MoveImmediateToHighByte { .. } | Instruction::LoadWord { .. }
            | Instruction::LoadToLowByte { .. } | Instruction::LoadToHighByte { .. } => {
                self.execute_move_load(instruction);
            },
            Instruction::StoreWord { .. } | Instruction::StoreFromLowByte { .. }
            | Instruction::StoreFromHighByte { .. } => {
                self.execute_store(instruction);
            },
            Instruction::JumpToOffset { .. } | Instruction::JumpToPointer { .. }
            | Instruction::Halt => {
                self.execute_jump(instruction);
            },
            Instruction::BranchIfCarry { .. } | Instruction::BranchIfNotCarry { .. }
            | Instruction::BranchIfOverflow { .. } | Instruction::BranchIfNotOverflow { .. }
            | Instruction::BranchIfZero { .. } | Instruction::BranchIfNotZero { .. }
            | Instruction::BranchIfSigned { .. } | Instruction::BranchIfNotSigned { .. } => {
                self.execute_branch(instruction);
            },
        }
    }
}

} // verus!
