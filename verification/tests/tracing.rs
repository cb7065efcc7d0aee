//! Trace-line rendering: each case checks one whole line byte for byte,
//! including the padded bytes block, the mode-specific operand form, the
//! column-48 state block, and the decimal cycle counter.

use mos6502::cpu::{CPU6502, MEMORY_SIZE};
use mos6502::instruction::CpuError;

fn boot(program: &[(usize, u8)]) -> CPU6502 {
    let mut memory = vec![0u8; MEMORY_SIZE];
    for &(address, byte) in program {
        memory[address] = byte;
    }
    CPU6502::new(memory)
}

#[test]
fn trace_jmp_absolute() {
    let cpu = boot(&[(0xC000, 0x4C), (0xC001, 0xF5), (0xC002, 0xC5)]);
    assert_eq!(
        cpu.trace_line().unwrap(),
        "C000  4C F5 C5  JMP $C5F5                       A:00 X:00 Y:00 P:24 SP:FD PPU:  0, 00 CYC:7"
    );
}

#[test]
fn trace_lda_immediate() {
    let cpu = boot(&[(0xC000, 0xA9), (0xC001, 0x00)]);
    assert_eq!(
        cpu.trace_line().unwrap(),
        "C000  A9 00     LDA #$00                        A:00 X:00 Y:00 P:24 SP:FD PPU:  0, 00 CYC:7"
    );
}

#[test]
fn trace_zero_page_shows_value() {
    let cpu = boot(&[(0xC000, 0xA5), (0xC001, 0x10), (0x0010, 0x42)]);
    assert_eq!(
        cpu.trace_line().unwrap(),
        "C000  A5 10     LDA $10 = 42                    A:00 X:00 Y:00 P:24 SP:FD PPU:  0, 00 CYC:7"
    );
}

#[test]
fn trace_implied_and_accumulator() {
    let cpu = boot(&[(0xC000, 0xEA)]);
    assert_eq!(
        cpu.trace_line().unwrap(),
        "C000  EA        NOP                             A:00 X:00 Y:00 P:24 SP:FD PPU:  0, 00 CYC:7"
    );
    let mut cpu = boot(&[(0xC000, 0x0A)]);
    cpu.a = 0x81;
    assert_eq!(
        cpu.trace_line().unwrap(),
        "C000  0A        ASL A                           A:81 X:00 Y:00 P:24 SP:FD PPU:  0, 00 CYC:7"
    );
}

#[test]
fn trace_absolute_indexed_shows_effective_address() {
    let mut cpu = boot(&[(0xC000, 0xBD), (0xC001, 0x00), (0xC002, 0x03), (0x0301, 0x89)]);
    cpu.x = 0x01;
    assert_eq!(
        cpu.trace_line().unwrap(),
        "C000  BD 00 03  LDA $00,X @ 0301 = 89           A:00 X:01 Y:00 P:24 SP:FD PPU:  0, 00 CYC:7"
    );
}

#[test]
fn trace_tracks_state_after_steps() {
    let mut cpu = boot(&[(0xC000, 0xA9), (0xC001, 0x33), (0xC002, 0xEA)]);
    cpu.load_and_execute().unwrap();
    assert_eq!(
        cpu.trace_line().unwrap(),
        "C002  EA        NOP                             A:33 X:00 Y:00 P:24 SP:FD PPU:  0, 00 CYC:9"
    );
}

#[test]
fn trace_fails_on_undefined_byte() {
    let cpu = boot(&[(0xC000, 0x02)]);
    assert_eq!(cpu.trace_line().unwrap_err(), CpuError::UnsupportedOpcode(0x02, 0xC000));
}
