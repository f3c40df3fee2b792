//! Component-level checks: the decoder against the encoding table, the
//! executor's arithmetic, flag, shift, move and memory semantics, the memory
//! word primitives including wrap at the top address, number parsing, and
//! the format names.

use risc16::cpu::Cpu;
use risc16::instruction::{DecodeError, Instruction};
use risc16::memory::Memory;
use risc16::options::{InputFormat, MemoryFormat};
use risc16::utils::{parse_u16, str_eq, ParseU16Error};

#[test]
fn decode_follows_encoding_table() {
    let cpu = Cpu::new();
    assert_eq!(cpu.decode(0x0650), Ok(Instruction::Add { rd: 3, ra: 1, rb: 2 }));
    assert_eq!(cpu.decode(0x0651), Ok(Instruction::AddWithCarry { rd: 3, ra: 1, rb: 2 }));
    assert_eq!(cpu.decode(0x0652), Ok(Instruction::Subtract { rd: 3, ra: 1, rb: 2 }));
    assert_eq!(cpu.decode(0x0653), Ok(Instruction::SubtractWithBorrow { rd: 3, ra: 1, rb: 2 }));
    assert_eq!(cpu.decode(0x0654), Ok(Instruction::And { rd: 3, ra: 1, rb: 2 }));
    assert_eq!(cpu.decode(0x0655), Ok(Instruction::Or { rd: 3, ra: 1, rb: 2 }));
    assert_eq!(cpu.decode(0x0656), Ok(Instruction::Xor { rd: 3, ra: 1, rb: 2 }));
    assert_eq!(cpu.decode(0x0657), Ok(Instruction::Not { rd: 3, ra: 1 }));
    // Shift by immediate: rd = 2, rs = 1, imm = 5.
    assert_eq!(cpu.decode(0x1454), Ok(Instruction::LogicalLeftShift { rd: 2, rs: 1, imm: 5 }));
    assert_eq!(cpu.decode(0x1455), Ok(Instruction::LogicalRightShift { rd: 2, rs: 1, imm: 5 }));
    assert_eq!(cpu.decode(0x1456),
        Ok(Instruction::ArithmeticRightShift { rd: 2, rs: 1, imm: 5 }));
    assert_eq!(cpu.decode(0x1457), Ok(Instruction::RotateRight { rd: 2, rs: 1, imm: 5 }));
    // Add/Sub immediate: rd = 1, imm = 0xFF.
    assert_eq!(cpu.decode(0x23FE), Ok(Instruction::AddImmediate { rd: 1, imm: 0xFF }));
    assert_eq!(cpu.decode(0x23FF), Ok(Instruction::SubImmediate { rd: 1, imm: 0xFF }));
    // Compares.
    assert_eq!(cpu.decode(0x3240), Ok(Instruction::Compare { ra: 1, rb: 1 }));
    assert_eq!(cpu.decode(0x3242), Ok(Instruction::CompareLowBytes { ra: 1, rb: 1 }));
    assert_eq!(cpu.decode(0x3243), Ok(Instruction::CompareHighBytes { ra: 1, rb: 1 }));
    assert_eq!(cpu.decode(0x4202),
        Ok(Instruction::CompareImmediateWithLowByte { rs: 1, imm: 1 }));
    assert_eq!(cpu.decode(0x4203),
        Ok(Instruction::CompareImmediateWithHighByte { rs: 1, imm: 1 }));
    // Moves.
    assert_eq!(cpu.decode(0x5250), Ok(Instruction::MoveImmediateToLowByte { rd: 1, imm: 0x28 }));
    assert_eq!(cpu.decode(0x5251), Ok(Instruction::MoveImmediateToHighByte { rd: 1, imm: 0x28 }));
    // Loads and stores.
    assert_eq!(cpu.decode(0x6680), Ok(Instruction::LoadWord { rd: 3, rs: 2 }));
    assert_eq!(cpu.decode(0x6682), Ok(Instruction::LoadToLowByte { rd: 3, rs: 2 }));
    assert_eq!(cpu.decode(0x6683), Ok(Instruction::LoadToHighByte { rd: 3, rs: 2 }));
    assert_eq!(cpu.decode(0x7280), Ok(Instruction::StoreWord { rs: 1, rd: 2 }));
    assert_eq!(cpu.decode(0x7282), Ok(Instruction::StoreFromLowByte { rs: 1, rd: 2 }));
    assert_eq!(cpu.decode(0x7283), Ok(Instruction::StoreFromHighByte { rs: 1, rd: 2 }));
    // Control flow: sign extension of the 12- and 9-bit offsets.
    assert_eq!(cpu.decode(0x8FFF), Ok(Instruction::JumpToOffset { offset: 0xFFFF }));
    assert_eq!(cpu.decode(0x8001), Ok(Instruction::JumpToOffset { offset: 0x0001 }));
    assert_eq!(cpu.decode(0x9200), Ok(Instruction::JumpToPointer { rs: 1 }));
    assert_eq!(cpu.decode(0xA008), Ok(Instruction::BranchIfCarry { offset: 1 }));
    assert_eq!(cpu.decode(0xA009), Ok(Instruction::BranchIfNotCarry { offset: 1 }));
    assert_eq!(cpu.decode(0xA00A), Ok(Instruction::BranchIfOverflow { offset: 1 }));
    assert_eq!(cpu.decode(0xA00B), Ok(Instruction::BranchIfNotOverflow { offset: 1 }));
    assert_eq!(cpu.decode(0xA00C), Ok(Instruction::BranchIfZero { offset: 1 }));
    assert_eq!(cpu.decode(0xA00D), Ok(Instruction::BranchIfNotZero { offset: 1 }));
    assert_eq!(cpu.decode(0xA00E), Ok(Instruction::BranchIfSigned { offset: 1 }));
    assert_eq!(cpu.decode(0xA00F), Ok(Instruction::BranchIfNotSigned { offset: 1 }));
    assert_eq!(cpu.decode(0xAFF8), Ok(Instruction::BranchIfCarry { offset: 0xFFFF }));
    assert_eq!(cpu.decode(0xF000), Ok(Instruction::Halt));
    // Reserved sub-opcodes and unallocated classes.
    assert_eq!(cpu.decode(0x3001), Err(DecodeError::Unknown(0x3001)));
    assert_eq!(cpu.decode(0x6001), Err(DecodeError::Unknown(0x6001)));
    assert_eq!(cpu.decode(0x7001), Err(DecodeError::Unknown(0x7001)));
    assert_eq!(cpu.decode(0xB000), Err(DecodeError::Unknown(0xB000)));
    assert_eq!(cpu.decode(0xC000), Err(DecodeError::Unknown(0xC000)));
    assert_eq!(cpu.decode(0xE123), Err(DecodeError::Unknown(0xE123)));
}

#[test]
fn decode_error_reports_word() {
    let cpu = Cpu::new();
    let error = cpu.decode(0xB000).unwrap_err();
    assert_eq!(error.word(), 0xB000);
}

#[test]
fn add_sets_textbook_flags() {
    let mut cpu = Cpu::new();
    cpu.registers[1] = 0x7FFF;
    cpu.registers[2] = 0x0001;
    cpu.execute(Instruction::Add { rd: 3, ra: 1, rb: 2 });
    assert_eq!(cpu.registers[3], 0x8000);
    assert!(!cpu.flags.carry);
    assert!(cpu.flags.overflow); // positive + positive gave a negative
    assert!(!cpu.flags.zero);
    assert!(cpu.flags.signed);

    cpu.registers[1] = 0xFFFF;
    cpu.registers[2] = 0x0001;
    cpu.execute(Instruction::Add { rd: 3, ra: 1, rb: 2 });
    assert_eq!(cpu.registers[3], 0);
    assert!(cpu.flags.carry); // 0xFFFF + 1 = 0x10000
    assert!(!cpu.flags.overflow); // negative + positive never overflows
    assert!(cpu.flags.zero);
    assert!(!cpu.flags.signed);
}

#[test]
fn add_with_carry_chains() {
    let mut cpu = Cpu::new();
    cpu.registers[1] = 0xFFFF;
    cpu.registers[2] = 0x0001;
    cpu.execute(Instruction::Add { rd: 3, ra: 1, rb: 2 }); // sets carry
    cpu.registers[4] = 0x0010;
    cpu.registers[5] = 0x0020;
    cpu.execute(Instruction::AddWithCarry { rd: 6, ra: 4, rb: 5 });
    assert_eq!(cpu.registers[6], 0x0031); // 0x10 + 0x20 + carry
    assert!(!cpu.flags.carry);
}

#[test]
fn subtract_borrow_is_unsigned_less_than() {
    let mut cpu = Cpu::new();
    cpu.registers[1] = 2;
    cpu.registers[2] = 3;
    cpu.execute(Instruction::Subtract { rd: 3, ra: 1, rb: 2 });
    assert_eq!(cpu.registers[3], 0xFFFF);
    assert!(cpu.flags.carry); // 2 < 3: borrow
    assert!(cpu.flags.signed);
    assert!(!cpu.flags.zero);

    cpu.registers[1] = 7;
    cpu.registers[2] = 7;
    cpu.execute(Instruction::Subtract { rd: 3, ra: 1, rb: 2 });
    assert_eq!(cpu.registers[3], 0);
    assert!(!cpu.flags.carry);
    assert!(cpu.flags.zero);
}

#[test]
fn subtract_with_borrow_chains() {
    let mut cpu = Cpu::new();
    cpu.registers[1] = 2;
    cpu.registers[2] = 3;
    cpu.execute(Instruction::Subtract { rd: 3, ra: 1, rb: 2 }); // borrow set
    cpu.registers[4] = 0x10;
    cpu.registers[5] = 0x01;
    cpu.execute(Instruction::SubtractWithBorrow { rd: 6, ra: 4, rb: 5 });
    assert_eq!(cpu.registers[6], 0x0E); // 0x10 - 0x01 - borrow
    assert!(!cpu.flags.carry);
}

#[test]
fn bitwise_operations_clear_carry_and_overflow() {
    let mut cpu = Cpu::new();
    cpu.flags.carry = true;
    cpu.flags.overflow = true;
    cpu.registers[1] = 0xF0F0;
    cpu.registers[2] = 0x0FF0;
    cpu.execute(Instruction::And { rd: 3, ra: 1, rb: 2 });
    assert_eq!(cpu.registers[3], 0x00F0);
    assert!(!cpu.flags.carry && !cpu.flags.overflow && !cpu.flags.zero && !cpu.flags.signed);
    cpu.execute(Instruction::Or { rd: 3, ra: 1, rb: 2 });
    assert_eq!(cpu.registers[3], 0xFFF0);
    assert!(cpu.flags.signed);
    cpu.execute(Instruction::Xor { rd: 3, ra: 1, rb: 2 });
    assert_eq!(cpu.registers[3], 0xFF00);
    cpu.execute(Instruction::Not { rd: 3, ra: 1 });
    assert_eq!(cpu.registers[3], 0x0F0F);
    cpu.execute(Instruction::Xor { rd: 3, ra: 1, rb: 1 });
    assert_eq!(cpu.registers[3], 0);
    assert!(cpu.flags.zero);
}

#[test]
fn logical_left_shift_carry_is_last_bit_out() {
    let mut cpu = Cpu::new();
    cpu.registers[1] = 0x8001;
    cpu.execute(Instruction::LogicalLeftShift { rd: 2, rs: 1, imm: 1 });
    assert_eq!(cpu.registers[2], 0x0002);
    assert!(cpu.flags.carry); // bit 15 of the operand left last
    assert!(!cpu.flags.signed);

    cpu.registers[1] = 0x4000;
    cpu.execute(Instruction::LogicalLeftShift { rd: 2, rs: 1, imm: 1 });
    assert_eq!(cpu.registers[2], 0x8000);
    assert!(!cpu.flags.carry);
    assert!(cpu.flags.signed);
}

#[test]
fn shift_by_zero_leaves_operand_and_clears_carry() {
    let mut cpu = Cpu::new();
    cpu.flags.carry = true;
    cpu.registers[1] = 0xABCD;
    cpu.execute(Instruction::LogicalLeftShift { rd: 2, rs: 1, imm: 0 });
    assert_eq!(cpu.registers[2], 0xABCD);
    assert!(!cpu.flags.carry);
    cpu.flags.carry = true;
    cpu.execute(Instruction::LogicalRightShift { rd: 2, rs: 1, imm: 0 });
    assert_eq!(cpu.registers[2], 0xABCD);
    assert!(!cpu.flags.carry);
    cpu.flags.carry = true;
    cpu.execute(Instruction::ArithmeticRightShift { rd: 2, rs: 1, imm: 0 });
    assert_eq!(cpu.registers[2], 0xABCD);
    assert!(!cpu.flags.carry);
    cpu.execute(Instruction::RotateRight { rd: 2, rs: 1, imm: 0 });
    assert_eq!(cpu.registers[2], 0xABCD);
    assert!(cpu.flags.carry); // bit 15 of the rotate result is set
}

#[test]
fn logical_right_shift_carry_is_last_bit_out() {
    let mut cpu = Cpu::new();
    cpu.registers[1] = 0x0003;
    cpu.execute(Instruction::LogicalRightShift { rd: 2, rs: 1, imm: 1 });
    assert_eq!(cpu.registers[2], 0x0001);
    assert!(cpu.flags.carry); // bit 0 left last
}

#[test]
fn arithmetic_right_shift_preserves_sign() {
    let mut cpu = Cpu::new();
    cpu.registers[1] = 0x8000;
    cpu.execute(Instruction::ArithmeticRightShift { rd: 2, rs: 1, imm: 4 });
    assert_eq!(cpu.registers[2], 0xF800);
    assert!(!cpu.flags.carry);
    assert!(cpu.flags.signed);

    cpu.registers[1] = 0x4000;
    cpu.execute(Instruction::ArithmeticRightShift { rd: 2, rs: 1, imm: 4 });
    assert_eq!(cpu.registers[2], 0x0400);
}

#[test]
fn rotate_right_is_cyclic() {
    let mut cpu = Cpu::new();
    cpu.registers[1] = 0x0001;
    cpu.execute(Instruction::RotateRight { rd: 2, rs: 1, imm: 1 });
    assert_eq!(cpu.registers[2], 0x8000);
    assert!(cpu.flags.carry); // bit 15 of the result
    assert!(cpu.flags.signed);

    cpu.registers[1] = 0x1234;
    cpu.execute(Instruction::RotateRight { rd: 2, rs: 1, imm: 4 });
    assert_eq!(cpu.registers[2], 0x4123);
}

#[test]
fn add_and_sub_immediate_use_destination() {
    let mut cpu = Cpu::new();
    cpu.registers[1] = 100;
    cpu.execute(Instruction::AddImmediate { rd: 1, imm: 55 });
    assert_eq!(cpu.registers[1], 155);
    cpu.execute(Instruction::SubImmediate { rd: 1, imm: 200 });
    assert_eq!(cpu.registers[1], 0xFFD3); // 155 - 200 wraps
    assert!(cpu.flags.carry);
}

#[test]
fn compare_discards_difference() {
    let mut cpu = Cpu::new();
    cpu.registers[1] = 5;
    cpu.registers[2] = 9;
    cpu.execute(Instruction::Compare { ra: 1, rb: 2 });
    assert_eq!(cpu.registers[1], 5);
    assert_eq!(cpu.registers[2], 9);
    assert!(cpu.flags.carry); // 5 < 9
    assert!(!cpu.flags.zero);
}

#[test]
fn byte_compares_use_byte_sign_bit() {
    let mut cpu = Cpu::new();
    cpu.registers[1] = 0x1210;
    cpu.registers[2] = 0x3410;
    cpu.execute(Instruction::CompareLowBytes { ra: 1, rb: 2 });
    assert!(cpu.flags.zero); // 0x10 == 0x10
    assert!(!cpu.flags.carry);
    cpu.execute(Instruction::CompareHighBytes { ra: 1, rb: 2 });
    assert!(!cpu.flags.zero);
    assert!(cpu.flags.carry); // 0x12 < 0x34
    assert!(cpu.flags.signed); // 0x12 - 0x34 = 0xDE, bit 7 set
    assert!(!cpu.flags.overflow);
}

#[test]
fn immediate_byte_compares() {
    let mut cpu = Cpu::new();
    cpu.registers[1] = 0xAB42;
    cpu.execute(Instruction::CompareImmediateWithLowByte { rs: 1, imm: 0x42 });
    assert!(cpu.flags.zero);
    cpu.execute(Instruction::CompareImmediateWithHighByte { rs: 1, imm: 0xAB });
    assert!(cpu.flags.zero);
    cpu.execute(Instruction::CompareImmediateWithHighByte { rs: 1, imm: 0xAC });
    assert!(cpu.flags.carry); // 0xAB < 0xAC
}

#[test]
fn moves_preserve_the_other_byte() {
    let mut cpu = Cpu::new();
    cpu.registers[5] = 0xABCD;
    cpu.flags.carry = true;
    cpu.execute(Instruction::MoveImmediateToLowByte { rd: 5, imm: 0x12 });
    assert_eq!(cpu.registers[5], 0xAB12);
    cpu.execute(Instruction::MoveImmediateToHighByte { rd: 5, imm: 0x34 });
    assert_eq!(cpu.registers[5], 0x3412);
    assert!(cpu.flags.carry); // moves never touch flags
}

#[test]
fn loads_splice_bytes_and_leave_flags() {
    let mut cpu = Cpu::new();
    cpu.memory[0x0200] = 0x7E;
    cpu.registers[1] = 0x0200;
    cpu.registers[2] = 0xAABB;
    cpu.execute(Instruction::LoadToLowByte { rd: 2, rs: 1 });
    assert_eq!(cpu.registers[2], 0xAA7E);
    cpu.execute(Instruction::LoadToHighByte { rd: 2, rs: 1 });
    assert_eq!(cpu.registers[2], 0x7E7E);
    cpu.memory[0x0300] = 0x34;
    cpu.memory[0x0301] = 0x12;
    cpu.registers[3] = 0x0300;
    cpu.execute(Instruction::LoadWord { rd: 4, rs: 3 });
    assert_eq!(cpu.registers[4], 0x1234);
    assert!(!cpu.flags.carry && !cpu.flags.zero);
}

#[test]
fn stores_write_selected_bytes() {
    let mut cpu = Cpu::new();
    cpu.registers[1] = 0xCAFE;
    cpu.registers[2] = 0x0400;
    cpu.execute(Instruction::StoreFromLowByte { rs: 1, rd: 2 });
    assert_eq!(cpu.memory[0x0400], 0xFE);
    cpu.registers[2] = 0x0401;
    cpu.execute(Instruction::StoreFromHighByte { rs: 1, rd: 2 });
    assert_eq!(cpu.memory[0x0401], 0xCA);
    cpu.registers[2] = 0x0500;
    cpu.execute(Instruction::StoreWord { rs: 1, rd: 2 });
    assert_eq!(cpu.memory[0x0500], 0xFE);
    assert_eq!(cpu.memory[0x0501], 0xCA);
}

#[test]
fn word_access_wraps_at_top_address() {
    let mut memory = vec![0u8; 0x10000];
    memory.write_word(0xFFFF, 0xABCD);
    assert_eq!(memory[0xFFFF], 0xCD);
    assert_eq!(memory[0x0000], 0xAB);
    assert_eq!(memory.read_word(0xFFFF), 0xABCD);
}

#[test]
fn word_write_then_read_round_trips() {
    let mut memory = vec![0u8; 0x10000];
    memory.write_word(0x1234, 0xBEEF);
    assert_eq!(memory.read_word(0x1234), 0xBEEF);
    memory.write_byte(0x2000, 0x99);
    assert_eq!(memory.read_byte(0x2000), 0x99);
}

#[test]
fn fetch_wraps_the_program_counter() {
    let mut cpu = Cpu::new();
    cpu.memory[0xFFFF] = 0x34;
    cpu.memory[0x0000] = 0x12;
    cpu.program_counter = 0xFFFF;
    let word = cpu.fetch();
    assert_eq!(word, 0x1234);
    assert_eq!(cpu.program_counter, 0x0001);
}

#[test]
fn run_on_halted_machine_returns_at_once() {
    let mut cpu = Cpu::new();
    cpu.halted = true;
    cpu.registers[1] = 7;
    cpu.program_counter = 0x1000;
    // The word at the program counter would not even decode.
    cpu.memory[0x1000] = 0x00;
    cpu.memory[0x1001] = 0xB0;
    assert_eq!(cpu.run(), Ok(()));
    assert!(cpu.halted);
    assert_eq!(cpu.registers[1], 7);
    assert_eq!(cpu.program_counter, 0x1000);
}

#[test]
fn run_for_respects_the_cycle_bound() {
    let mut cpu = Cpu::new();
    // A jump to itself: offset -1 brings the advanced counter back.
    cpu.memory[0] = 0xFF;
    cpu.memory[1] = 0x8F;
    let executed = cpu.run_for(100).unwrap();
    assert_eq!(executed, 100);
    assert!(!cpu.halted);
    assert_eq!(cpu.program_counter, 0);
}

#[test]
fn halt_executes_and_latches() {
    let mut cpu = Cpu::new();
    cpu.execute(Instruction::Halt);
    assert!(cpu.halted);
    cpu.execute(Instruction::Halt);
    assert!(cpu.halted);
}

#[test]
fn memory_window_copies_the_range() {
    let mut cpu = Cpu::new();
    cpu.memory[0x0100] = 1;
    cpu.memory[0x0101] = 2;
    cpu.memory[0x0102] = 3;
    assert_eq!(cpu.memory_window(0x0100, 0x0103), vec![1, 2, 3]);
    assert_eq!(cpu.memory_window(0x0100, 0x0100), Vec::<u8>::new());
}

#[test]
fn new_machine_is_all_zero() {
    let cpu = Cpu::default();
    assert_eq!(cpu.memory.len(), 0x10000);
    assert!(cpu.memory.iter().all(|b| *b == 0));
    assert_eq!(cpu.registers, vec![0u16; 8]);
    assert!(!cpu.flags.carry && !cpu.flags.overflow && !cpu.flags.zero && !cpu.flags.signed);
    assert_eq!(cpu.program_counter, 0);
    assert!(!cpu.halted);
}

#[test]
fn parse_u16_reads_all_three_radixes() {
    assert_eq!(parse_u16("123"), Ok(123));
    assert_eq!(parse_u16("0"), Ok(0));
    assert_eq!(parse_u16("65535"), Ok(65535));
    assert_eq!(parse_u16("+42"), Ok(42));
    assert_eq!(parse_u16("0x1234"), Ok(0x1234));
    assert_eq!(parse_u16("0xabCD"), Ok(0xABCD));
    assert_eq!(parse_u16("0xFFFF"), Ok(0xFFFF));
    assert_eq!(parse_u16("0b1010"), Ok(10));
    assert_eq!(parse_u16("0b0000000000000000"), Ok(0));
}

#[test]
fn parse_u16_rejects_bad_numerals() {
    assert_eq!(parse_u16(""), Err(ParseU16Error::Invalid));
    assert_eq!(parse_u16("+"), Err(ParseU16Error::Invalid));
    assert_eq!(parse_u16("0x"), Err(ParseU16Error::Invalid));
    assert_eq!(parse_u16("12a"), Err(ParseU16Error::Invalid));
    assert_eq!(parse_u16("0b2"), Err(ParseU16Error::Invalid));
    assert_eq!(parse_u16("0X12"), Err(ParseU16Error::Invalid));
    assert_eq!(parse_u16("-1"), Err(ParseU16Error::Invalid));
    assert_eq!(parse_u16(" 1"), Err(ParseU16Error::Invalid));
}

#[test]
fn parse_u16_rejects_values_over_16_bits() {
    assert_eq!(parse_u16("65536"), Err(ParseU16Error::TooLarge));
    assert_eq!(parse_u16("0x10000"), Err(ParseU16Error::TooLarge));
    assert_eq!(parse_u16("0b10000000000000000"), Err(ParseU16Error::TooLarge));
    assert_eq!(parse_u16("99999999"), Err(ParseU16Error::TooLarge));
}

#[test]
fn format_names_parse_exactly() {
    assert_eq!(InputFormat::from_str("asm"), Ok(InputFormat::Asm));
    assert_eq!(InputFormat::from_str("bin"), Ok(InputFormat::Bin));
    assert!(InputFormat::from_str("elf").is_err());
    assert!(InputFormat::from_str("").is_err());
    assert_eq!(MemoryFormat::from_str("hex"), Ok(MemoryFormat::Hex));
    assert_eq!(MemoryFormat::from_str("dec"), Ok(MemoryFormat::Dec));
    assert_eq!(MemoryFormat::from_str("bin"), Ok(MemoryFormat::Bin));
    assert!(MemoryFormat::from_str("oct").is_err());
}

#[test]
fn load_image_writes_prefix_and_rejects_oversize() {
    let mut cpu = Cpu::new();
    cpu.registers[1] = 7;
    assert!(cpu.load_image(&vec![9, 8, 7]).is_ok());
    assert_eq!(&cpu.memory[0..4], &[9, 8, 7, 0]);
    assert_eq!(cpu.registers[1], 7);
    assert!(!cpu.halted);
    let before = cpu.memory.clone();
    assert!(cpu.load_image(&vec![1u8; 65537]).is_err());
    assert_eq!(cpu.memory, before);
}

#[test]
fn str_eq_compares_characters() {
    assert!(str_eq("", ""));
    assert!(str_eq("abc", "abc"));
    assert!(!str_eq("abc", "abd"));
    assert!(!str_eq("abc", "ab"));
}
