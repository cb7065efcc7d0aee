//! End-to-end scenarios: each boots the CPU in the documented reset state,
//! plants a few bytes in memory, steps the interpreter and checks every
//! observable register, flag and cycle count.

use mos6502::cpu::{CPU6502, MEMORY_SIZE};

fn boot(program: &[(usize, u8)]) -> CPU6502 {
    let mut memory = vec![0u8; MEMORY_SIZE];
    for &(address, byte) in program {
        memory[address] = byte;
    }
    CPU6502::new(memory)
}

#[test]
fn lda_immediate_zero() {
    let mut cpu = boot(&[(0xC000, 0xA9), (0xC001, 0x00)]);
    cpu.load_and_execute().unwrap();
    assert_eq!(cpu.a, 0);
    assert!(cpu.flags.zero);
    assert!(!cpu.flags.negative);
    assert_eq!(cpu.pc, 0xC002);
    assert_eq!(cpu.cycles, 9);
}

#[test]
fn adc_immediate_overflow() {
    let mut cpu = boot(&[(0xC000, 0x69), (0xC001, 0x50)]);
    cpu.a = 0x50;
    cpu.flags.carry = false;
    cpu.load_and_execute().unwrap();
    assert_eq!(cpu.a, 0xA0);
    assert!(!cpu.flags.carry);
    assert!(cpu.flags.overflow);
    assert!(cpu.flags.negative);
    assert!(!cpu.flags.zero);
    assert_eq!(cpu.pc, 0xC002);
    assert_eq!(cpu.cycles, 9);
}

#[test]
fn branch_taken_same_page() {
    let mut cpu = boot(&[(0xC000, 0xF0), (0xC001, 0x04)]);
    cpu.flags.zero = true;
    cpu.load_and_execute().unwrap();
    assert_eq!(cpu.pc, 0xC006);
    assert_eq!(cpu.cycles, 10);
}

#[test]
fn branch_taken_page_cross() {
    // The penalty is measured against PC + 2: from 0xC0F2 the target
    // 0xC112 sits on the next page, so the branch costs 2 + 1 + 1.
    let mut cpu = boot(&[(0xC0F0, 0xF0), (0xC0F1, 0x20)]);
    cpu.pc = 0xC0F0;
    cpu.flags.zero = true;
    cpu.load_and_execute().unwrap();
    assert_eq!(cpu.pc, 0xC112);
    assert_eq!(cpu.cycles, 11);
}

#[test]
fn branch_taken_after_page_boundary_is_not_a_cross() {
    // A branch at 0xC0FE has PC + 2 = 0xC100 already on the new page, so
    // landing at 0xC102 pays only the taken cycle.
    let mut cpu = boot(&[(0xC0FE, 0xF0), (0xC0FF, 0x02)]);
    cpu.pc = 0xC0FE;
    cpu.flags.zero = true;
    cpu.load_and_execute().unwrap();
    assert_eq!(cpu.pc, 0xC102);
    assert_eq!(cpu.cycles, 10);
}

#[test]
fn jsr_rts_round_trip() {
    let mut cpu = boot(&[(0xC000, 0x20), (0xC001, 0x34), (0xC002, 0x12), (0x1234, 0x60)]);
    cpu.load_and_execute().unwrap();
    // Between the steps the stack holds the return address PC + 2 =
    // 0xC002, high byte then low byte.
    assert_eq!(cpu.pc, 0x1234);
    assert_eq!(cpu.sp, 0xFB);
    assert_eq!(cpu.memory[0x01FD], 0xC0);
    assert_eq!(cpu.memory[0x01FC], 0x02);
    cpu.load_and_execute().unwrap();
    assert_eq!(cpu.pc, 0xC003);
    assert_eq!(cpu.sp, 0xFD);
    assert_eq!(cpu.cycles, 7 + 6 + 6);
}

#[test]
fn indirect_jmp_page_wrap_bug() {
    let mut cpu = boot(&[
        (0xC000, 0x6C),
        (0xC001, 0xFF),
        (0xC002, 0x02),
        (0x02FF, 0x00),
        (0x0200, 0x80),
        (0x0300, 0xFF),
    ]);
    cpu.load_and_execute().unwrap();
    // The high byte comes from 0x0200, not 0x0300
    assert_eq!(cpu.pc, 0x8000);
    assert_eq!(cpu.cycles, 7 + 5);
}

#[test]
fn pha_pla_restores_accumulator() {
    let mut cpu = boot(&[(0xC000, 0x48), (0xC001, 0x68)]);
    cpu.a = 0x80;
    cpu.load_and_execute().unwrap();
    assert_eq!(cpu.sp, 0xFC);
    cpu.a = 0x00;
    cpu.load_and_execute().unwrap();
    assert_eq!(cpu.a, 0x80);
    assert_eq!(cpu.sp, 0xFD);
    assert!(cpu.flags.negative);
    assert!(!cpu.flags.zero);
    assert_eq!(cpu.cycles, 7 + 3 + 4);
}

#[test]
fn php_plp_restores_flags_except_break() {
    let mut cpu = boot(&[(0xC000, 0x08), (0xC001, 0x28)]);
    cpu.flags.carry = true;
    cpu.flags.negative = true;
    cpu.flags.break_command = true;
    cpu.load_and_execute().unwrap();
    // The pushed byte carries the break bit
    assert_eq!(cpu.memory[0x01FD] & 0x10, 0x10);
    cpu.flags.carry = false;
    cpu.flags.negative = false;
    cpu.load_and_execute().unwrap();
    assert!(cpu.flags.carry);
    assert!(cpu.flags.negative);
    assert!(cpu.flags.interrupt_disable);
    assert!(!cpu.flags.break_command);
    assert_eq!(cpu.sp, 0xFD);
}

#[test]
fn branch_not_taken_costs_two_cycles() {
    let mut cpu = boot(&[(0xC000, 0xD0), (0xC001, 0x10)]);
    cpu.flags.zero = true;  // BNE falls through
    let a = cpu.a;
    let sp = cpu.sp;
    cpu.load_and_execute().unwrap();
    assert_eq!(cpu.pc, 0xC002);
    assert_eq!(cpu.cycles, 9);
    assert_eq!(cpu.a, a);
    assert_eq!(cpu.sp, sp);
}

#[test]
fn brk_pushes_state_and_jumps_through_vector() {
    let mut cpu = boot(&[(0xC000, 0x00), (0xFFFE, 0x00), (0xFFFF, 0x80)]);
    cpu.flags.carry = true;
    cpu.load_and_execute().unwrap();
    assert_eq!(cpu.pc, 0x8000);
    assert!(cpu.flags.interrupt_disable);
    assert_eq!(cpu.sp, 0xFA);
    // Return address PC + 2 = 0xC002, high then low, then the status
    // with the break bit forced on (0x24 reset status plus carry)
    assert_eq!(cpu.memory[0x01FD], 0xC0);
    assert_eq!(cpu.memory[0x01FC], 0x02);
    assert_eq!(cpu.memory[0x01FB], 0x24 | 0x10 | 0x01);
    assert_eq!(cpu.cycles, 7 + 7);
}

#[test]
fn rti_restores_flags_and_return_address() {
    let mut cpu = boot(&[(0xC000, 0x40), (0x01FB, 0xC1 | 0x20), (0x01FC, 0x34), (0x01FD, 0x12)]);
    cpu.sp = 0xFA;
    cpu.load_and_execute().unwrap();
    // Status 0xC1 | 0x20: negative, overflow and carry set
    assert!(cpu.flags.negative);
    assert!(cpu.flags.overflow);
    assert!(cpu.flags.carry);
    assert!(!cpu.flags.break_command);
    // RTI jumps to the popped address exactly, with no + 1
    assert_eq!(cpu.pc, 0x1234);
    assert_eq!(cpu.sp, 0xFD);
}
