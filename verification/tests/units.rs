//! Unit tests for the address arithmetic, the status byte, the decoder
//! rows, the operand resolver, and the failure cases.

use mos6502::cpu::{CPU6502, MEMORY_SIZE};
use mos6502::flags::CPUFlags;
use mos6502::instruction::{AddressingMode, CpuError, Instruction, Opcode};
use mos6502::utils::{
    is_negative, is_zero, to_address_from_bytes, to_bytes_from_address, was_page_boundary_crossed,
};

fn boot(program: &[(usize, u8)]) -> CPU6502 {
    let mut memory = vec![0u8; MEMORY_SIZE];
    for &(address, byte) in program {
        memory[address] = byte;
    }
    CPU6502::new(memory)
}

#[test]
fn word_assembly_is_little_endian() {
    assert_eq!(to_address_from_bytes((0x34, 0x12)), 0x1234);
    assert_eq!(to_address_from_bytes((0x00, 0x00)), 0);
    assert_eq!(to_address_from_bytes((0xFF, 0xFF)), 0xFFFF);
}

#[test]
fn word_splits_back_into_bytes() {
    assert_eq!(to_bytes_from_address(0x1234), (0x34, 0x12));
    for &w in &[0u16, 1, 0x00FF, 0x0100, 0xABCD, 0xFFFF] {
        let (lo, hi) = to_bytes_from_address(w);
        assert_eq!(to_address_from_bytes((lo, hi)), w as usize);
    }
}

#[test]
fn page_crossing_compares_high_bytes() {
    assert!(was_page_boundary_crossed(0x01FF, 0x0200));
    assert!(!was_page_boundary_crossed(0x0100, 0x01FF));
    assert!(!was_page_boundary_crossed(0x0000, 0x0000));
    assert!(was_page_boundary_crossed(0xC0FF, 0xC100));
}

#[test]
fn sign_and_zero_helpers() {
    assert!(is_negative(0x80));
    assert!(is_negative(0xFF));
    assert!(!is_negative(0x7F));
    assert!(is_zero(0));
    assert!(!is_zero(1));
}

#[test]
fn status_byte_round_trip() {
    for &byte in &[0x00u8, 0x01, 0x24, 0x6F, 0xB0, 0xFF] {
        let expected = byte | 0x20;
        assert_eq!(CPUFlags::from_byte(expected).as_byte(), expected);
    }
}

#[test]
fn status_byte_layout() {
    let flags = CPUFlags::from_byte(0x24);
    assert!(flags.interrupt_disable);
    assert!(!flags.carry);
    assert!(!flags.zero);
    assert!(!flags.decimal_mode);
    assert!(!flags.break_command);
    assert!(!flags.overflow);
    assert!(!flags.negative);
    let mut all = CPUFlags::new();
    assert_eq!(all.as_byte(), 0x20);
    all.carry = true;
    all.negative = true;
    assert_eq!(all.as_byte(), 0xA1);
}

#[test]
fn reset_state() {
    let cpu = boot(&[]);
    assert_eq!(cpu.pc, 0xC000);
    assert_eq!(cpu.a, 0);
    assert_eq!(cpu.x, 0);
    assert_eq!(cpu.y, 0);
    assert_eq!(cpu.sp, 0xFD);
    assert_eq!(cpu.cycles, 7);
    assert_eq!(cpu.flags.as_byte(), 0x24);
    assert_eq!(cpu.memory.len(), MEMORY_SIZE);
}

#[test]
fn decoder_pins_canonical_rows() {
    let mut memory = vec![0u8; MEMORY_SIZE];
    memory[0] = 0xA9;
    memory[1] = 0x42;
    memory[2] = 0x77;
    let i = Instruction::decode(&memory, 0).unwrap();
    assert_eq!(i.opcode, Opcode::LDA);
    assert_eq!(i.addressing_mode, AddressingMode::Immediate);
    assert_eq!(i.width, 2);
    assert_eq!(i.cycles, 2);
    assert_eq!(i.data, (0x42, 0x77));
    assert_eq!(i.opcode_byte, 0xA9);

    let rows: &[(u8, Opcode, AddressingMode, usize, usize)] = &[
        (0x6C, Opcode::JMP, AddressingMode::Indirect, 3, 5),
        (0x4C, Opcode::JMP, AddressingMode::Absolute, 3, 3),
        (0x20, Opcode::JSR, AddressingMode::Absolute, 3, 6),
        (0xF0, Opcode::BEQ, AddressingMode::Relative, 2, 2),
        (0x00, Opcode::BRK, AddressingMode::Implied, 1, 7),
        (0xDE, Opcode::DEC, AddressingMode::AbsoluteIndexedX, 3, 7),
        (0xEC, Opcode::CPX, AddressingMode::Absolute, 3, 4),
        (0xED, Opcode::SBC, AddressingMode::Absolute, 3, 4),
        (0xF5, Opcode::SBC, AddressingMode::ZeroPageIndexedX, 2, 4),
        (0xBC, Opcode::LDY, AddressingMode::AbsoluteIndexedX, 3, 4),
        (0xBE, Opcode::LDX, AddressingMode::AbsoluteIndexedY, 3, 4),
        (0x91, Opcode::STA, AddressingMode::IndirectIndexed, 2, 6),
        (0x0A, Opcode::ASL, AddressingMode::Accumulator, 1, 2),
        (0xEA, Opcode::NOP, AddressingMode::Implied, 1, 2),
    ];
    for &(byte, opcode, mode, width, cycles) in rows {
        memory[0] = byte;
        let i = Instruction::decode(&memory, 0).unwrap();
        assert_eq!(i.opcode, opcode);
        assert_eq!(i.addressing_mode, mode);
        assert_eq!(i.width, width);
        assert_eq!(i.cycles, cycles);
    }
}

#[test]
fn decoder_rejects_undefined_bytes() {
    let mut memory = vec![0u8; MEMORY_SIZE];
    memory[0x1000] = 0x02;
    let r = Instruction::decode(&memory, 0x1000);
    assert_eq!(r.unwrap_err(), CpuError::UnsupportedOpcode(0x02, 0x1000));
}

#[test]
fn step_on_undefined_byte_leaves_state_unchanged() {
    let mut cpu = boot(&[(0xC000, 0xFF)]);
    let r = cpu.load_and_execute();
    assert_eq!(r.unwrap_err(), CpuError::UnsupportedOpcode(0xFF, 0xC000));
    assert_eq!(cpu.pc, 0xC000);
    assert_eq!(cpu.cycles, 7);
}

#[test]
fn hand_built_descriptor_without_operand_fails() {
    let mut cpu = boot(&[]);
    let instruction = Instruction {
        opcode: Opcode::ADC,
        addressing_mode: AddressingMode::Implied,
        cycles: 2,
        data: (0, 0),
        width: 1,
        opcode_byte: 0xEA,
    };
    let r = cpu.execute_instruction(instruction);
    assert_eq!(r.unwrap_err(), CpuError::UnresolvableOperand(AddressingMode::Implied));
    assert_eq!(cpu.pc, 0xC000);
    assert_eq!(cpu.cycles, 7);
}

#[test]
fn stack_push_pop_wraps() {
    let mut cpu = boot(&[]);
    cpu.push_on_stack(0xAB);
    assert_eq!(cpu.memory[0x01FD], 0xAB);
    assert_eq!(cpu.sp, 0xFC);
    assert_eq!(cpu.pop_from_stack(), 0xAB);
    assert_eq!(cpu.sp, 0xFD);
    cpu.sp = 0x00;
    cpu.push_on_stack(0x11);
    assert_eq!(cpu.memory[0x0100], 0x11);
    assert_eq!(cpu.sp, 0xFF);
    assert_eq!(cpu.pop_from_stack(), 0x11);
    assert_eq!(cpu.sp, 0x00);
}

#[test]
fn adc_carry_chain() {
    let mut cpu = boot(&[(0xC000, 0x69), (0xC001, 0x01)]);
    cpu.a = 0xFF;
    cpu.flags.carry = true;
    cpu.load_and_execute().unwrap();
    // 0xFF + 0x01 + 1 = 0x101
    assert_eq!(cpu.a, 0x01);
    assert!(cpu.flags.carry);
    assert!(!cpu.flags.zero);
    assert!(!cpu.flags.overflow);
}

#[test]
fn sbc_binary_subtraction() {
    let mut cpu = boot(&[(0xC000, 0xE9), (0xC001, 0x10)]);
    cpu.a = 0x50;
    cpu.flags.carry = true;  // no borrow
    cpu.load_and_execute().unwrap();
    assert_eq!(cpu.a, 0x40);
    assert!(cpu.flags.carry);
}

#[test]
fn cmp_sets_carry_zero_negative() {
    let mut cpu = boot(&[(0xC000, 0xC9), (0xC001, 0x20)]);
    cpu.a = 0x10;
    cpu.load_and_execute().unwrap();
    assert!(!cpu.flags.carry);
    assert!(!cpu.flags.zero);
    assert!(cpu.flags.negative);  // 0x10 - 0x20 = 0xF0

    let mut cpu = boot(&[(0xC000, 0xC9), (0xC001, 0x10)]);
    cpu.a = 0x10;
    cpu.load_and_execute().unwrap();
    assert!(cpu.flags.carry);
    assert!(cpu.flags.zero);
}

#[test]
fn bit_copies_top_bits() {
    let mut cpu = boot(&[(0xC000, 0x24), (0xC001, 0x10), (0x0010, 0xC0)]);
    cpu.a = 0x00;
    cpu.load_and_execute().unwrap();
    assert!(cpu.flags.negative);
    assert!(cpu.flags.overflow);
    assert!(cpu.flags.zero);
}

#[test]
fn shifts_and_rotates() {
    // ASL A: 0x81 -> 0x02, carry out
    let mut cpu = boot(&[(0xC000, 0x0A)]);
    cpu.a = 0x81;
    cpu.load_and_execute().unwrap();
    assert_eq!(cpu.a, 0x02);
    assert!(cpu.flags.carry);

    // ROR A with carry in: 0x01 -> 0x80, carry out
    let mut cpu = boot(&[(0xC000, 0x6A)]);
    cpu.a = 0x01;
    cpu.flags.carry = true;
    cpu.load_and_execute().unwrap();
    assert_eq!(cpu.a, 0x80);
    assert!(cpu.flags.carry);
    assert!(cpu.flags.negative);

    // LSR on memory: 0x01 -> 0x00, carry out, zero set
    let mut cpu = boot(&[(0xC000, 0x46), (0xC001, 0x10), (0x0010, 0x01)]);
    cpu.load_and_execute().unwrap();
    assert_eq!(cpu.memory[0x0010], 0x00);
    assert!(cpu.flags.carry);
    assert!(cpu.flags.zero);

    // ROL on memory with carry in: 0x80 -> 0x01, carry out
    let mut cpu = boot(&[(0xC000, 0x26), (0xC001, 0x10), (0x0010, 0x80)]);
    cpu.flags.carry = true;
    cpu.load_and_execute().unwrap();
    assert_eq!(cpu.memory[0x0010], 0x01);
    assert!(cpu.flags.carry);
}

#[test]
fn increments_and_decrements_wrap() {
    let mut cpu = boot(&[(0xC000, 0xE6), (0xC001, 0x10), (0x0010, 0xFF)]);
    cpu.load_and_execute().unwrap();
    assert_eq!(cpu.memory[0x0010], 0x00);
    assert!(cpu.flags.zero);
    assert_eq!(cpu.cycles, 7 + 5);

    let mut cpu = boot(&[(0xC000, 0xCA)]);
    cpu.x = 0;
    cpu.load_and_execute().unwrap();
    assert_eq!(cpu.x, 0xFF);
    assert!(cpu.flags.negative);
}

#[test]
fn transfers_set_flags_except_txs() {
    let mut cpu = boot(&[(0xC000, 0x9A), (0xC001, 0xBA)]);
    cpu.x = 0x00;
    cpu.flags.zero = false;
    cpu.load_and_execute().unwrap();  // TXS
    assert_eq!(cpu.sp, 0x00);
    assert!(!cpu.flags.zero);  // TXS sets no flags
    cpu.x = 0x55;
    cpu.load_and_execute().unwrap();  // TSX
    assert_eq!(cpu.x, 0x00);
    assert!(cpu.flags.zero);
}

#[test]
fn zero_page_indexed_wraps() {
    let mut cpu = boot(&[(0xC000, 0xB5), (0xC001, 0xFF), (0x0001, 0x99)]);
    cpu.x = 0x02;
    cpu.load_and_execute().unwrap();
    assert_eq!(cpu.a, 0x99);
    assert_eq!(cpu.cycles, 7 + 4);
}

#[test]
fn indexed_indirect_wraps_on_zero_page() {
    // LDA ($FE,X) with X = 3: pointer at 0x01/0x02
    let mut cpu = boot(&[
        (0xC000, 0xA1),
        (0xC001, 0xFE),
        (0x0001, 0x34),
        (0x0002, 0x12),
        (0x1234, 0x5A),
    ]);
    cpu.x = 0x03;
    cpu.load_and_execute().unwrap();
    assert_eq!(cpu.a, 0x5A);
    assert_eq!(cpu.cycles, 7 + 6);
}

#[test]
fn indirect_indexed_pays_page_cross() {
    // LDA ($80),Y with base 0x12FF and Y = 1 crosses into page 0x13
    let mut cpu = boot(&[
        (0xC000, 0xB1),
        (0xC001, 0x80),
        (0x0080, 0xFF),
        (0x0081, 0x12),
        (0x1300, 0x77),
    ]);
    cpu.y = 0x01;
    cpu.load_and_execute().unwrap();
    assert_eq!(cpu.a, 0x77);
    assert_eq!(cpu.cycles, 7 + 5 + 1);
}

#[test]
fn absolute_indexed_page_cross_penalty_on_reads_only() {
    // LDA $C0FF,X with X = 1: 4 + 1 cycles
    let mut cpu = boot(&[(0xC000, 0xBD), (0xC001, 0xFF), (0xC002, 0xC0), (0xC100, 0x0B)]);
    cpu.x = 0x01;
    cpu.load_and_execute().unwrap();
    assert_eq!(cpu.a, 0x0B);
    assert_eq!(cpu.cycles, 7 + 5);

    // STA $C0FF,X pays no variable penalty: 5 cycles flat
    let mut cpu = boot(&[(0xC000, 0x9D), (0xC001, 0xFF), (0xC002, 0xC0)]);
    cpu.x = 0x01;
    cpu.a = 0x42;
    cpu.load_and_execute().unwrap();
    assert_eq!(cpu.memory[0xC100], 0x42);
    assert_eq!(cpu.cycles, 7 + 5);
}

#[test]
fn load_memory_places_block() {
    let mut cpu = boot(&[]);
    cpu.load_memory(0x8000, &[1, 2, 3]);
    assert_eq!(cpu.memory[0x8000], 1);
    assert_eq!(cpu.memory[0x8001], 2);
    assert_eq!(cpu.memory[0x8002], 3);
    assert_eq!(cpu.memory[0x8003], 0);
}

#[test]
fn flag_only_ops_toggle_their_flag() {
    let mut cpu = boot(&[(0xC000, 0x38), (0xC001, 0xF8), (0xC002, 0x18), (0xC003, 0xD8)]);
    cpu.load_and_execute().unwrap();
    assert!(cpu.flags.carry);
    cpu.load_and_execute().unwrap();
    assert!(cpu.flags.decimal_mode);
    cpu.load_and_execute().unwrap();
    assert!(!cpu.flags.carry);
    cpu.load_and_execute().unwrap();
    assert!(!cpu.flags.decimal_mode);
    assert_eq!(cpu.cycles, 7 + 8);
}
