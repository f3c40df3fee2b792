//! The quantified laws of the machine, each stated over the specification
//! semantics and proved for every input.

use vstd::prelude::*;

use crate::alu::{add_flags, add_result, sub_flags, sub_result};
use crate::cpu::CpuView;
use crate::execute::{branch_target, spec_execute};
use crate::flags::Flags;
use crate::instruction::Instruction;
use crate::memory::{high_byte, low_byte, word_at, word_written, MEMORY_SIZE};
use crate::run::steps_to;

verus! {

/// Executing any well-formed instruction preserves well-formedness of the
/// machine state: the memory keeps its 65 536 bytes and the register file
/// its eight words.
pub proof fn lemma_execute_preserves_wf(s: CpuView, i: Instruction)
    requires
        s.wf(),
        i.wf(),
    ensures
        spec_execute(s, i).wf(),
{
}

/// Every state reachable from a well-formed state is well formed: the
/// instruction loop never leaves the 2^16 address space or the eight
/// registers.
pub proof fn lemma_steps_preserve_wf(s: CpuView, t: CpuView, n: nat)
    requires
        s.wf(),
        steps_to(s, t, n),
    ensures
        t.wf(),
    decreases n,
{
    if n > 0 {
        crate::decode::lemma_decode_wf(crate::run::fetch_word(s));
        lemma_execute_preserves_wf(
            crate::run::fetched(s),
            crate::decode::spec_decode(crate::run::fetch_word(s))->Ok_0,
        );
        lemma_steps_preserve_wf(crate::run::spec_step(s), t, (n - 1) as nat);
    }
}

/// A byte written to memory is the byte read back at the same address.
pub proof fn lemma_byte_round_trip(mem: Seq<u8>, address: u16, value: u8)
    requires
        mem.len() == MEMORY_SIZE,
    ensures
        mem.update(address as int, value)[address as int] == value,
{
}

/// A word written little-endian is the word read back at the same address,
/// for every address and value, including a write that wraps at the top of
/// the address space.
pub proof fn lemma_word_round_trip(mem: Seq<u8>, address: u16, value: u16)
    requires
        mem.len() == MEMORY_SIZE,
    ensures
        word_at(word_written(mem, address, value), address) == value,
{
}

/// A `StoreWord` through one register followed by a `LoadWord` through a
/// register holding the same address puts the stored word in the load's
/// destination.
pub proof fn lemma_store_load_word(s: CpuView, rs: usize, rd: usize, rd2: usize)
    requires
        s.wf(),
        rs < 8,
        rd < 8,
        rd2 < 8,
    ensures
        ({
            let stored = spec_execute(s, Instruction::StoreWord { rs, rd });
            let loaded = spec_execute(stored, Instruction::LoadWord { rd: rd2, rs: rd });
            loaded.regs[rd2 as int] == s.regs[rs as int]
        }),
{
    lemma_word_round_trip(s.mem, s.regs[rd as int], s.regs[rs as int]);
}

/// A `StoreFromLowByte` followed by a `LoadToLowByte` through the same
/// address register round-trips the low byte of the source register, and
/// the load preserves the high byte of its destination.
pub proof fn lemma_store_load_low_byte(s: CpuView, rs: usize, rd: usize, rd2: usize)
    requires
        s.wf(),
        rs < 8,
        rd < 8,
        rd2 < 8,
    ensures
        ({
            let stored = spec_execute(s, Instruction::StoreFromLowByte { rs, rd });
            let loaded = spec_execute(stored, Instruction::LoadToLowByte { rd: rd2, rs: rd });
            &&& low_byte(loaded.regs[rd2 as int]) == low_byte(s.regs[rs as int])
            &&& high_byte(loaded.regs[rd2 as int]) == high_byte(stored.regs[rd2 as int])
        }),
{
    let b = low_byte(s.regs[rs as int]);
    let r = spec_execute(s, Instruction::StoreFromLowByte { rs, rd }).regs[rd2 as int];
    assert(((r & 0xFF00) | (b as u16)) % 0x100 == b && ((r & 0xFF00) | (b as u16)) / 0x100 == r
        / 0x100) by (bit_vector)
        requires
            b < 0x100,
    ;
}

/// A `StoreFromHighByte` followed by a `LoadToHighByte` through the same
/// address register round-trips the high byte of the source register, and
/// the load preserves the low byte of its destination.
pub proof fn lemma_store_load_high_byte(s: CpuView, rs: usize, rd: usize, rd2: usize)
    requires
        s.wf(),
        rs < 8,
        rd < 8,
        rd2 < 8,
    ensures
        ({
            let stored = spec_execute(s, Instruction::StoreFromHighByte { rs, rd });
            let loaded = spec_execute(stored, Instruction::LoadToHighByte { rd: rd2, rs: rd });
            &&& high_byte(loaded.regs[rd2 as int]) == high_byte(s.regs[rs as int])
            &&& low_byte(loaded.regs[rd2 as int]) == low_byte(stored.regs[rd2 as int])
        }),
{
    let b = high_byte(s.regs[rs as int]);
    let r = spec_execute(s, Instruction::StoreFromHighByte { rs, rd }).regs[rd2 as int];
    assert(((r & 0x00FF) | ((b as u16) << 8u16)) / 0x100 == b && ((r & 0x00FF) | ((b as u16)
        << 8u16)) % 0x100 == r % 0x100) by (bit_vector)
        requires
            b < 0x100,
    ;
}

/// The textbook reading of the addition flags: carry exactly when the true
/// sum reaches 2^16; overflow exactly when the operands agree in sign and
/// the result does not; zero exactly when the result is zero; signed exactly
/// when the result's high bit is set.
pub proof fn lemma_add_flags_textbook(a: u16, b: u16)
    ensures
        ({
            let r = add_result(a, b, false);
            let f = add_flags(a, b, false);
            &&& f.carry == (a + b >= 0x10000)
            &&& f.overflow == (((a >= 0x8000) == (b >= 0x8000)) && ((r >= 0x8000) != (a
                >= 0x8000)))
            &&& f.zero == (r == 0)
            &&& f.signed == (r >= 0x8000)
        }),
{
    let r = add_result(a, b, false);
    assert((((a ^ r) & (b ^ r)) & 0x8000 != 0 <==> (((a >= 0x8000) == (b >= 0x8000)) && ((r
        >= 0x8000) != (a >= 0x8000)))) && (r & 0x8000 != 0 <==> r >= 0x8000)) by (bit_vector)
        requires
            r == ((a + b) % 0x10000) as u16,
    ;
}

/// The textbook reading of the subtraction flags: carry exactly when a
/// borrow was required, that is when `a < b`; overflow exactly when the
/// operands differ in sign and the result leaves the sign of the minuend;
/// zero and signed follow the result.
pub proof fn lemma_sub_flags_textbook(a: u16, b: u16)
    ensures
        ({
            let r = sub_result(a, b, false);
            let f = sub_flags(a, b, false);
            &&& f.carry == (a < b)
            &&& f.overflow == (((a >= 0x8000) != (b >= 0x8000)) && ((r >= 0x8000) != (a
                >= 0x8000)))
            &&& f.zero == (r == 0)
            &&& f.signed == (r >= 0x8000)
        }),
{
    let r = sub_result(a, b, false);
    assert((((a ^ b) & (a ^ r)) & 0x8000 != 0 <==> (((a >= 0x8000) != (b >= 0x8000)) && ((r
        >= 0x8000) != (a >= 0x8000)))) && (r & 0x8000 != 0 <==> r >= 0x8000)) by (bit_vector)
        requires
            r == ((a + 0x10000 - b) % 0x10000) as u16,
    ;
}

/// An immediate move to the low byte writes exactly that byte and preserves
/// the high byte; an immediate move to the high byte writes exactly that
/// byte and preserves the low byte.  Neither touches flags, memory, the
/// program counter, other registers, or the halt latch.
pub proof fn lemma_move_immediate_bytes(s: CpuView, rd: usize, imm: u16)
    requires
        s.wf(),
        rd < 8,
        imm < 256,
    ensures
        ({
            let lo = spec_execute(s, Instruction::MoveImmediateToLowByte { rd, imm });
            let hi = spec_execute(s, Instruction::MoveImmediateToHighByte { rd, imm });
            &&& low_byte(lo.regs[rd as int]) == imm
            &&& high_byte(lo.regs[rd as int]) == high_byte(s.regs[rd as int])
            &&& high_byte(hi.regs[rd as int]) == imm
            &&& low_byte(hi.regs[rd as int]) == low_byte(s.regs[rd as int])
            &&& lo == (CpuView { regs: lo.regs, ..s })
            &&& hi == (CpuView { regs: hi.regs, ..s })
            &&& forall|j: int| 0 <= j < 8 && j != rd ==> lo.regs[j] == s.regs[j]
            &&& forall|j: int| 0 <= j < 8 && j != rd ==> hi.regs[j] == s.regs[j]
        }),
{
    let r = s.regs[rd as int];
    assert(((r & 0xFF00) | imm) % 0x100 == imm && ((r & 0xFF00) | imm) / 0x100 == r / 0x100 && ((r
        & 0x00FF) | (imm << 8u16)) / 0x100 == imm && ((r & 0x00FF) | (imm << 8u16)) % 0x100 == r
        % 0x100) by (bit_vector)
        requires
            imm < 256,
    ;
}

/// The flag a conditional branch tests, with its polarity.
pub open spec fn branch_condition(f: Flags, i: Instruction) -> bool {
    match i {
        Instruction::BranchIfCarry { .. } => f.carry,
        Instruction::BranchIfNotCarry { .. } => !f.carry,
        Instruction::BranchIfOverflow { .. } => f.overflow,
        Instruction::BranchIfNotOverflow { .. } => !f.overflow,
        Instruction::BranchIfZero { .. } => f.zero,
        Instruction::BranchIfNotZero { .. } => !f.zero,
        Instruction::BranchIfSigned { .. } => f.signed,
        Instruction::BranchIfNotSigned { .. } => !f.signed,
        _ => false,
    }
}

/// The offset pattern a conditional branch carries.
pub open spec fn branch_offset(i: Instruction) -> u16 {
    match i {
        Instruction::BranchIfCarry { offset } => offset,
        Instruction::BranchIfNotCarry { offset } => offset,
        Instruction::BranchIfOverflow { offset } => offset,
        Instruction::BranchIfNotOverflow { offset } => offset,
        Instruction::BranchIfZero { offset } => offset,
        Instruction::BranchIfNotZero { offset } => offset,
        Instruction::BranchIfSigned { offset } => offset,
        Instruction::BranchIfNotSigned { offset } => offset,
        _ => 0,
    }
}

/// Whether an instruction is one of the eight conditional branches.
pub open spec fn is_branch(i: Instruction) -> bool {
    ||| i is BranchIfCarry
    ||| i is BranchIfNotCarry
    ||| i is BranchIfOverflow
    ||| i is BranchIfNotOverflow
    ||| i is BranchIfZero
    ||| i is BranchIfNotZero
    ||| i is BranchIfSigned
    ||| i is BranchIfNotSigned
}

/// A conditional branch moves the program counter to its target exactly when
/// its condition holds, and changes nothing else; a branch whose condition
/// does not hold changes nothing at all.
pub proof fn lemma_branch_condition(s: CpuView, i: Instruction)
    requires
        s.wf(),
        is_branch(i),
    ensures
        ({
            let t = spec_execute(s, i);
            &&& t == (CpuView {
                pc: if branch_condition(s.flags, i) {
                    branch_target(s.pc, branch_offset(i))
                } else {
                    s.pc
                },
                ..s
            })
            &&& !branch_condition(s.flags, i) ==> t == s
        }),
{
    assert(spec_execute(s, i) =~= (CpuView {
        pc: if branch_condition(s.flags, i) {
            branch_target(s.pc, branch_offset(i))
        } else {
            s.pc
        },
        ..s
    }));
    if !branch_condition(s.flags, i) {
        assert(spec_execute(s, i) =~= s);
    }
}

/// A halt only sets the latch, and a second halt changes nothing: halting is
/// idempotent.
pub proof fn lemma_halt_idempotent(s: CpuView)
    ensures
        spec_execute(s, Instruction::Halt) == (CpuView { halted: true, ..s }),
        spec_execute(spec_execute(s, Instruction::Halt), Instruction::Halt) == spec_execute(
            s,
            Instruction::Halt,
        ),
{
    assert(spec_execute(spec_execute(s, Instruction::Halt), Instruction::Halt) =~= spec_execute(
        s,
        Instruction::Halt,
    ));
}

} // verus!
