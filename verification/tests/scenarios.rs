//! End-to-end programs: each is a sequence of 16-bit little-endian words
//! loaded at address 0 and run to halt.

use risc16::loader::{emulate_image, EmulateError};
use risc16::instruction::DecodeError;

fn image(words: &[u16]) -> Vec<u8> {
    let mut bytes = Vec::new();
    for w in words {
        bytes.push((w & 0xFF) as u8);
        bytes.push((w >> 8) as u8);
    }
    bytes
}

#[test]
fn immediate_load_and_halt() {
    // Move immediate 0x50 to the low byte of r1, then halt.
    let cpu = emulate_image(&image(&[0x52A0, 0xF000])).unwrap();
    assert_eq!(cpu.registers[1], 0x0050);
    for i in [0usize, 2, 3, 4, 5, 6, 7] {
        assert_eq!(cpu.registers[i], 0);
    }
    assert!(cpu.halted);
}

#[test]
fn add_two_immediates() {
    // r1 = 3, r2 = 5, r3 = r1 + r2, halt.
    let cpu = emulate_image(&image(&[0x5206, 0x540A, 0x0650, 0xF000])).unwrap();
    assert_eq!(cpu.registers[3], 8);
    assert!(!cpu.flags.carry);
    assert!(!cpu.flags.zero);
}

#[test]
fn unsigned_overflow_sets_carry() {
    // r1 = 0xFFFF (low byte then high byte), r2 = r1 + r1, halt.
    let cpu = emulate_image(&image(&[0x53FE, 0x53FF, 0x0448, 0xF000])).unwrap();
    assert_eq!(cpu.registers[1], 0xFFFF);
    assert_eq!(cpu.registers[2], 0xFFFE);
    assert!(cpu.flags.carry);
    assert!(cpu.flags.signed);
    assert!(!cpu.flags.overflow);
}

#[test]
fn store_load_round_trip() {
    // r1 = 0x1234, r2 = 0x0100, [r2] = r1 (word), r3 = [r2] (word), halt.
    let cpu = emulate_image(&image(&[0x5268, 0x5225, 0x5400, 0x5403, 0x7280, 0x6680, 0xF000]))
        .unwrap();
    assert_eq!(cpu.registers[1], 0x1234);
    assert_eq!(cpu.registers[2], 0x0100);
    assert_eq!(cpu.registers[3], 0x1234);
    assert_eq!(cpu.memory[0x0100], 0x34);
    assert_eq!(cpu.memory[0x0101], 0x12);
}

#[test]
fn conditional_branch_taken() {
    // r1 = 0, compare r1 with r1 (sets zero), branch if zero over the next
    // word, a sentinel move into r7 that must not execute, halt.
    let cpu = emulate_image(&image(&[0x5200, 0x3240, 0xA00C, 0x5F54, 0xF000])).unwrap();
    assert_eq!(cpu.registers[7], 0);
    assert!(cpu.halted);
    // The halt word sits at address 8; the program counter has been advanced
    // past it by the fetch that read it.
    assert_eq!(cpu.program_counter, 10);
}

#[test]
fn conditional_branch_not_taken() {
    // r1 = 1, compare r1 with r0 (clears zero), branch if zero over the next
    // word: not taken, so the sentinel move into r7 executes.
    let cpu = emulate_image(&image(&[0x5202, 0x3200, 0xA00C, 0x5F54, 0xF000])).unwrap();
    assert_eq!(cpu.registers[7], 0x00AA);
    assert!(cpu.halted);
}

#[test]
fn decode_failure_surfaces_word() {
    // Class 0xB is unallocated: the run fails with the offending word.
    let result = emulate_image(&image(&[0xB000]));
    assert_eq!(result.err(), Some(EmulateError::Decode(DecodeError::Unknown(0xB000))));
}

#[test]
fn reserved_sub_opcode_fails_decode() {
    // Class 3 sub-01 is reserved.
    let result = emulate_image(&image(&[0x3001]));
    assert_eq!(result.err(), Some(EmulateError::Decode(DecodeError::Unknown(0x3001))));
}

#[test]
fn image_longer_than_memory_is_rejected() {
    let image = vec![0u8; 65537];
    let result = emulate_image(&image);
    assert_eq!(result.err(), Some(EmulateError::ImageTooLarge { length: 65537 }));
}

#[test]
fn image_of_full_memory_size_is_accepted() {
    // 65 536 halt instructions: the machine halts on the first.
    let mut image = Vec::new();
    for _ in 0..32768 {
        image.push(0x00);
        image.push(0xF0);
    }
    let cpu = emulate_image(&image).unwrap();
    assert!(cpu.halted);
    assert_eq!(cpu.program_counter, 2);
}

#[test]
fn zero_word_executes_as_add() {
    // The zero word decodes as Add r0, r0, r0; the unallocated word after it
    // then fails decode at a nonzero address.
    let result = emulate_image(&image(&[0x0000, 0xB001]));
    assert_eq!(result.err(), Some(EmulateError::Decode(DecodeError::Unknown(0xB001))));
}

#[test]
fn jump_to_pointer_retargets_pc() {
    // r1 = 8, jump to the address in r1, sentinel at 4..6 skipped, halt at 8.
    let cpu = emulate_image(&image(&[0x5210, 0x9200, 0x5F54, 0x5F54, 0xF000])).unwrap();
    assert_eq!(cpu.registers[7], 0);
    assert!(cpu.halted);
    assert_eq!(cpu.program_counter, 10);
}

#[test]
fn unconditional_jump_skips_words() {
    // JumpToOffset +2: the program counter, already advanced to 2, moves by
    // four bytes to the halt at address 6; the sentinels never run.
    let cpu = emulate_image(&image(&[0x8002, 0x5F54, 0x5F54, 0xF000])).unwrap();
    assert_eq!(cpu.registers[7], 0);
    assert!(cpu.halted);
}

#[test]
fn backward_jump_reaches_earlier_halt() {
    // Layout: address 0 jumps +1 (over the halt, to address 4); address 4
    // holds 0x8FFE, the sign-extended 12-bit offset -2, which moves the
    // advanced counter 6 back by four bytes to the halt at address 2.
    let cpu = emulate_image(&image(&[0x8001, 0xF000, 0x8FFE])).unwrap();
    assert!(cpu.halted);
    assert_eq!(cpu.program_counter, 4);
}
