//! The instruction decoder: the total map from the 151 official 6502
//! opcode bytes to fully populated instruction descriptors. Every defined
//! byte fixes one `(mnemonic, addressing mode, width, base cycles)` row;
//! undefined bytes are decode errors.

use vstd::prelude::*;

verus! {

/// The thirteen addressing modes of the 6502.
#[derive(PartialEq, Eq, Structural, Clone, Copy, Debug)]
pub enum AddressingMode {
    /// The target is the A register
    Accumulator,
    /// The operand is the byte after the opcode
    Immediate,
    /// The affected data is implied by the instruction itself
    Implied,
    /// The target is the next instruction address plus a signed offset given by the byte after the opcode
    Relative,
    /// The address is given by the next two bytes, low byte first
    Absolute,
    /// The address is given by the next two bytes plus the X register
    AbsoluteIndexedX,
    /// The address is given by the next two bytes plus the Y register
    AbsoluteIndexedY,
    /// The address on the zero page is given by the next byte
    ZeroPage,
    /// The address is the next byte plus X, wrapping on the zero page
    ZeroPageIndexedX,
    /// The address is the next byte plus Y, wrapping on the zero page
    ZeroPageIndexedY,
    /// The target address is stored at the address given by the next two bytes
    Indirect,
    /// The target address is stored on the zero page at the next byte plus X
    IndexedIndirect,
    /// The target address is stored on the zero page at the next byte, then indexed by Y
    IndirectIndexed,
}

/// The 56 official instruction mnemonics.
#[derive(PartialEq, Eq, Structural, Clone, Copy, Debug)]
pub enum Opcode {
    /// Add memory to accumulator with carry
    ADC,
    /// And memory with accumulator
    AND,
    /// Arithmetic shift left
    ASL,
    /// Branch if carry flag clear
    BCC,
    /// Branch if carry flag set
    BCS,
    /// Branch if zero flag set
    BEQ,
    /// Bit test
    BIT,
    /// Branch if negative flag set
    BMI,
    /// Branch if zero flag clear
    BNE,
    /// Branch if negative flag clear
    BPL,
    /// Force break (software interrupt)
    BRK,
    /// Branch if overflow flag clear
    BVC,
    /// Branch if overflow flag set
    BVS,
    /// Clear carry flag
    CLC,
    /// Clear decimal flag
    CLD,
    /// Clear interrupt-disable flag
    CLI,
    /// Clear overflow flag
    CLV,
    /// Compare memory with accumulator
    CMP,
    /// Compare memory with index X
    CPX,
    /// Compare memory with index Y
    CPY,
    /// Decrement memory by one
    DEC,
    /// Decrement X by one
    DEX,
    /// Decrement Y by one
    DEY,
    /// Exclusive-or memory with accumulator
    EOR,
    /// Increment memory by one
    INC,
    /// Increment X by one
    INX,
    /// Increment Y by one
    INY,
    /// Jump to new address
    JMP,
    /// Jump to subroutine, saving the return address
    JSR,
    /// Load accumulator from memory
    LDA,
    /// Load X from memory
    LDX,
    /// Load Y from memory
    LDY,
    /// Logical shift right
    LSR,
    /// No operation
    NOP,
    /// Or memory with accumulator
    ORA,
    /// Push accumulator onto the stack
    PHA,
    /// Push processor status onto the stack
    PHP,
    /// Pull accumulator from the stack
    PLA,
    /// Pull processor status from the stack
    PLP,
    /// Rotate one bit left through carry
    ROL,
    /// Rotate one bit right through carry
    ROR,
    /// Return from interrupt
    RTI,
    /// Return from subroutine
    RTS,
    /// Subtract memory from accumulator with borrow
    SBC,
    /// Set carry flag
    SEC,
    /// Set decimal flag
    SED,
    /// Set interrupt-disable flag
    SEI,
    /// Store accumulator in memory
    STA,
    /// Store X in memory
    STX,
    /// Store Y in memory
    STY,
    /// Transfer accumulator to X
    TAX,
    /// Transfer accumulator to Y
    TAY,
    /// Transfer stack pointer to X
    TSX,
    /// Transfer X to accumulator
    TXA,
    /// Transfer X to stack pointer
    TXS,
    /// Transfer Y to accumulator
    TYA,
}

/// The two failure kinds of the core, both fatal to the current run.
#[derive(PartialEq, Eq, Structural, Clone, Copy, Debug)]
pub enum CpuError {
    /// Decoding met a byte that is not an official opcode; carries the
    /// byte and the program counter it was fetched from.
    UnsupportedOpcode(u8, u16),
    /// The resolver was asked for a value from `Implied` or for an address
    /// from a register-only mode. This cannot happen for decoded
    /// instructions; it guards against descriptors built by hand.
    UnresolvableOperand(AddressingMode),
}

/// One decoded instruction: the opcode row from the table plus the two
/// bytes following the opcode byte (captured unconditionally; the resolver
/// consumes only what the mode needs) and the opcode byte itself, kept for
/// trace rendering.
#[derive(Clone, Copy, Debug)]
pub struct Instruction {
    pub opcode: Opcode,
    pub addressing_mode: AddressingMode,
    pub cycles: usize,
    pub data: (u8, u8),
    pub width: usize,
    pub opcode_byte: u8,
}

/// Every descriptor the decoder builds occupies 1 to 3 bytes and costs
/// 2 to 7 base cycles.
pub open spec fn spec_instruction_wf(instruction: Instruction) -> bool {
    &&& 1 <= instruction.width <= 3
    &&& 2 <= instruction.cycles <= 7
}

/// The canonical opcode table: for each defined byte, its mnemonic,
/// addressing mode, width in bytes, and base cycle cost.
pub open spec fn spec_opcode_table(byte: u8) -> Option<(Opcode, AddressingMode, usize, usize)> {
    match byte {
        // ADC
        0x61 => Some((Opcode::ADC, AddressingMode::IndexedIndirect, 2, 6)),
        0x65 => Some((Opcode::ADC, AddressingMode::ZeroPage, 2, 3)),
        0x69 => Some((Opcode::ADC, AddressingMode::Immediate, 2, 2)),
        0x6D => Some((Opcode::ADC, AddressingMode::Absolute, 3, 4)),
        0x71 => Some((Opcode::ADC, AddressingMode::IndirectIndexed, 2, 5)),
        0x75 => Some((Opcode::ADC, AddressingMode::ZeroPageIndexedX, 2, 4)),
        0x79 => Some((Opcode::ADC, AddressingMode::AbsoluteIndexedY, 3, 4)),
        0x7D => Some((Opcode::ADC, AddressingMode::AbsoluteIndexedX, 3, 4)),
        // AND
        0x21 => Some((Opcode::AND, AddressingMode::IndexedIndirect, 2, 6)),
        0x25 => Some((Opcode::AND, AddressingMode::ZeroPage, 2, 3)),
        0x29 => Some((Opcode::AND, AddressingMode::Immediate, 2, 2)),
        0x2D => Some((Opcode::AND, AddressingMode::Absolute, 3, 4)),
        0x31 => Some((Opcode::AND, AddressingMode::IndirectIndexed, 2, 5)),
        0x35 => Some((Opcode::AND, AddressingMode::ZeroPageIndexedX, 2, 4)),
        0x39 => Some((Opcode::AND, AddressingMode::AbsoluteIndexedY, 3, 4)),
        0x3D => Some((Opcode::AND, AddressingMode::AbsoluteIndexedX, 3, 4)),
        // ASL
        0x06 => Some((Opcode::ASL, AddressingMode::ZeroPage, 2, 5)),
        0x0A => Some((Opcode::ASL, AddressingMode::Accumulator, 1, 2)),
        0x0E => Some((Opcode::ASL, AddressingMode::Absolute, 3, 6)),
        0x16 => Some((Opcode::ASL, AddressingMode::ZeroPageIndexedX, 2, 6)),
        0x1E => Some((Opcode::ASL, AddressingMode::AbsoluteIndexedX, 3, 7)),
        // BCC
        0x90 => Some((Opcode::BCC, AddressingMode::Relative, 2, 2)),
        // BCS
        0xB0 => Some((Opcode::BCS, AddressingMode::Relative, 2, 2)),
        // BEQ
        0xF0 => Some((Opcode::BEQ, AddressingMode::Relative, 2, 2)),
        // BIT
        0x24 => Some((Opcode::BIT, AddressingMode::ZeroPage, 2, 3)),
        0x2C => Some((Opcode::BIT, AddressingMode::Absolute, 3, 4)),
        // BMI
        0x30 => Some((Opcode::BMI, AddressingMode::Relative, 2, 2)),
        // BNE
        0xD0 => Some((Opcode::BNE, AddressingMode::Relative, 2, 2)),
        // BPL
        0x10 => Some((Opcode::BPL, AddressingMode::Relative, 2, 2)),
        // BRK
        0x00 => Some((Opcode::BRK, AddressingMode::Implied, 1, 7)),
        // BVC
        0x50 => Some((Opcode::BVC, AddressingMode::Relative, 2, 2)),
        // BVS
        0x70 => Some((Opcode::BVS, AddressingMode::Relative, 2, 2)),
        // CLC
        0x18 => Some((Opcode::CLC, AddressingMode::Implied, 1, 2)),
        // CLD
        0xD8 => Some((Opcode::CLD, AddressingMode::Implied, 1, 2)),
        // CLI
        0x58 => Some((Opcode::CLI, AddressingMode::Implied, 1, 2)),
        // CLV
        0xB8 => Some((Opcode::CLV, AddressingMode::Implied, 1, 2)),
        // CMP
        0xC1 => Some((Opcode::CMP, AddressingMode::IndexedIndirect, 2, 6)),
        0xC5 => Some((Opcode::CMP, AddressingMode::ZeroPage, 2, 3)),
        0xC9 => Some((Opcode::CMP, AddressingMode::Immediate, 2, 2)),
        0xCD => Some((Opcode::CMP, AddressingMode::Absolute, 3, 4)),
        0xD1 => Some((Opcode::CMP, AddressingMode::IndirectIndexed, 2, 5)),
        0xD5 => Some((Opcode::CMP, AddressingMode::ZeroPageIndexedX, 2, 4)),
        0xD9 => Some((Opcode::CMP, AddressingMode::AbsoluteIndexedY, 3, 4)),
        0xDD => Some((Opcode::CMP, AddressingMode::AbsoluteIndexedX, 3, 4)),
        // CPX
        0xE0 => Some((Opcode::CPX, AddressingMode::Immediate, 2, 2)),
        0xE4 => Some((Opcode::CPX, AddressingMode::ZeroPage, 2, 3)),
        0xEC => Some((Opcode::CPX, AddressingMode::Absolute, 3, 4)),
        // CPY
        0xC0 => Some((Opcode::CPY, AddressingMode::Immediate, 2, 2)),
        0xC4 => Some((Opcode::CPY, AddressingMode::ZeroPage, 2, 3)),
        0xCC => Some((Opcode::CPY, AddressingMode::Absolute, 3, 4)),
        // DEC
        0xC6 => Some((Opcode::DEC, AddressingMode::ZeroPage, 2, 5)),
        0xCE => Some((Opcode::DEC, AddressingMode::Absolute, 3, 6)),
        0xD6 => Some((Opcode::DEC, AddressingMode::ZeroPageIndexedX, 2, 6)),
        0xDE => Some((Opcode::DEC, AddressingMode::AbsoluteIndexedX, 3, 7)),
        // DEX
        0xCA => Some((Opcode::DEX, AddressingMode::Implied, 1, 2)),
        // DEY
        0x88 => Some((Opcode::DEY, AddressingMode::Implied, 1, 2)),
        // EOR
        0x41 => Some((Opcode::EOR, AddressingMode::IndexedIndirect, 2, 6)),
        0x45 => Some((Opcode::EOR, AddressingMode::ZeroPage, 2, 3)),
        0x49 => Some((Opcode::EOR, AddressingMode::Immediate, 2, 2)),
        0x4D => Some((Opcode::EOR, AddressingMode::Absolute, 3, 4)),
        0x51 => Some((Opcode::EOR, AddressingMode::IndirectIndexed, 2, 5)),
        0x55 => Some((Opcode::EOR, AddressingMode::ZeroPageIndexedX, 2, 4)),
        0x59 => Some((Opcode::EOR, AddressingMode::AbsoluteIndexedY, 3, 4)),
        0x5D => Some((Opcode::EOR, AddressingMode::AbsoluteIndexedX, 3, 4)),
        // INC
        0xE6 => Some((Opcode::INC, AddressingMode::ZeroPage, 2, 5)),
        0xEE => Some((Opcode::INC, AddressingMode::Absolute, 3, 6)),
        0xF6 => Some((Opcode::INC, AddressingMode::ZeroPageIndexedX, 2, 6)),
        0xFE => Some((Opcode::INC, AddressingMode::AbsoluteIndexedX, 3, 7)),
        // INX
        0xE8 => Some((Opcode::INX, AddressingMode::Implied, 1, 2)),
        // INY
        0xC8 => Some((Opcode::INY, AddressingMode::Implied, 1, 2)),
        // JMP
        0x4C => Some((Opcode::JMP, AddressingMode::Absolute, 3, 3)),
        0x6C => Some((Opcode::JMP, AddressingMode::Indirect, 3, 5)),
        // JSR
        0x20 => Some((Opcode::JSR, AddressingMode::Absolute, 3, 6)),
        // LDA
        0xA1 => Some((Opcode::LDA, AddressingMode::IndexedIndirect, 2, 6)),
        0xA5 => Some((Opcode::LDA, AddressingMode::ZeroPage, 2, 3)),
        0xA9 => Some((Opcode::LDA, AddressingMode::Immediate, 2, 2)),
        0xAD => Some((Opcode::LDA, AddressingMode::Absolute, 3, 4)),
        0xB1 => Some((Opcode::LDA, AddressingMode::IndirectIndexed, 2, 5)),
        0xB5 => Some((Opcode::LDA, AddressingMode::ZeroPageIndexedX, 2, 4)),
        0xB9 => Some((Opcode::LDA, AddressingMode::AbsoluteIndexedY, 3, 4)),
        0xBD => Some((Opcode::LDA, AddressingMode::AbsoluteIndexedX, 3, 4)),
        // LDX
        0xA2 => Some((Opcode::LDX, AddressingMode::Immediate, 2, 2)),
        0xA6 => Some((Opcode::LDX, AddressingMode::ZeroPage, 2, 3)),
        0xAE => Some((Opcode::LDX, AddressingMode::Absolute, 3, 4)),
        0xB6 => Some((Opcode::LDX, AddressingMode::ZeroPageIndexedY, 2, 4)),
        0xBE => Some((Opcode::LDX, AddressingMode::AbsoluteIndexedY, 3, 4)),
        // LDY
        0xA0 => Some((Opcode::LDY, AddressingMode::Immediate, 2, 2)),
        0xA4 => Some((Opcode::LDY, AddressingMode::ZeroPage, 2, 3)),
        0xAC => Some((Opcode::LDY, AddressingMode::Absolute, 3, 4)),
        0xB4 => Some((Opcode::LDY, AddressingMode::ZeroPageIndexedX, 2, 4)),
        0xBC => Some((Opcode::LDY, AddressingMode::AbsoluteIndexedX, 3, 4)),
        // LSR
        0x46 => Some((Opcode::LSR, AddressingMode::ZeroPage, 2, 5)),
        0x4A => Some((Opcode::LSR, AddressingMode::Accumulator, 1, 2)),
        0x4E => Some((Opcode::LSR, AddressingMode::Absolute, 3, 6)),
        0x56 => Some((Opcode::LSR, AddressingMode::ZeroPageIndexedX, 2, 6)),
        0x5E => Some((Opcode::LSR, AddressingMode::AbsoluteIndexedX, 3, 7)),
        // NOP
        0xEA => Some((Opcode::NOP, AddressingMode::Implied, 1, 2)),
        // ORA
        0x01 => Some((Opcode::ORA, AddressingMode::IndexedIndirect, 2, 6)),
        0x05 => Some((Opcode::ORA, AddressingMode::ZeroPage, 2, 3)),
        0x09 => Some((Opcode::ORA, AddressingMode::Immediate, 2, 2)),
        0x0D => Some((Opcode::ORA, AddressingMode::Absolute, 3, 4)),
        0x11 => Some((Opcode::ORA, AddressingMode::IndirectIndexed, 2, 5)),
        0x15 => Some((Opcode::ORA, AddressingMode::ZeroPageIndexedX, 2, 4)),
        0x19 => Some((Opcode::ORA, AddressingMode::AbsoluteIndexedY, 3, 4)),
        0x1D => Some((Opcode::ORA, AddressingMode::AbsoluteIndexedX, 3, 4)),
        // PHA
        0x48 => Some((Opcode::PHA, AddressingMode::Implied, 1, 3)),
        // PHP
        0x08 => Some((Opcode::PHP, AddressingMode::Implied, 1, 3)),
        // PLA
        0x68 => Some((Opcode::PLA, AddressingMode::Implied, 1, 4)),
        // PLP
        0x28 => Some((Opcode::PLP, AddressingMode::Implied, 1, 4)),
        // ROL
        0x26 => Some((Opcode::ROL, AddressingMode::ZeroPage, 2, 5)),
        0x2A => Some((Opcode::ROL, AddressingMode::Accumulator, 1, 2)),
        0x2E => Some((Opcode::ROL, AddressingMode::Absolute, 3, 6)),
        0x36 => Some((Opcode::ROL, AddressingMode::ZeroPageIndexedX, 2, 6)),
        0x3E => Some((Opcode::ROL, AddressingMode::AbsoluteIndexedX, 3, 7)),
        // ROR
        0x66 => Some((Opcode::ROR, AddressingMode::ZeroPage, 2, 5)),
        0x6A => Some((Opcode::ROR, AddressingMode::Accumulator, 1, 2)),
        0x6E => Some((Opcode::ROR, AddressingMode::Absolute, 3, 6)),
        0x76 => Some((Opcode::ROR, AddressingMode::ZeroPageIndexedX, 2, 6)),
        0x7E => Some((Opcode::ROR, AddressingMode::AbsoluteIndexedX, 3, 7)),
        // RTI
        0x40 => Some((Opcode::RTI, AddressingMode::Implied, 1, 6)),
        // RTS
        0x60 => Some((Opcode::RTS, AddressingMode::Implied, 1, 6)),
        // SBC
        0xE1 => Some((Opcode::SBC, AddressingMode::IndexedIndirect, 2, 6)),
        0xE5 => Some((Opcode::SBC, AddressingMode::ZeroPage, 2, 3)),
        0xE9 => Some((Opcode::SBC, AddressingMode::Immediate, 2, 2)),
        0xED => Some((Opcode::SBC, AddressingMode::Absolute, 3, 4)),
        0xF1 => Some((Opcode::SBC, AddressingMode::IndirectIndexed, 2, 5)),
        0xF5 => Some((Opcode::SBC, AddressingMode::ZeroPageIndexedX, 2, 4)),
        0xF9 => Some((Opcode::SBC, AddressingMode::AbsoluteIndexedY, 3, 4)),
        0xFD => Some((Opcode::SBC, AddressingMode::AbsoluteIndexedX, 3, 4)),
        // SEC
        0x38 => Some((Opcode::SEC, AddressingMode::Implied, 1, 2)),
        // SED
        0xF8 => Some((Opcode::SED, AddressingMode::Implied, 1, 2)),
        // SEI
        0x78 => Some((Opcode::SEI, AddressingMode::Implied, 1, 2)),
        // STA
        0x81 => Some((Opcode::STA, AddressingMode::IndexedIndirect, 2, 6)),
        0x85 => Some((Opcode::STA, AddressingMode::ZeroPage, 2, 3)),
        0x8D => Some((Opcode::STA, AddressingMode::Absolute, 3, 4)),
        0x91 => Some((Opcode::STA, AddressingMode::IndirectIndexed, 2, 6)),
        0x95 => Some((Opcode::STA, AddressingMode::ZeroPageIndexedX, 2, 4)),
        0x99 => Some((Opcode::STA, AddressingMode::AbsoluteIndexedY, 3, 5)),
        0x9D => Some((Opcode::STA, AddressingMode::AbsoluteIndexedX, 3, 5)),
        // STX
        0x86 => Some((Opcode::STX, AddressingMode::ZeroPage, 2, 3)),
        0x8E => Some((Opcode::STX, AddressingMode::Absolute, 3, 4)),
        0x96 => Some((Opcode::STX, AddressingMode::ZeroPageIndexedY, 2, 4)),
        // STY
        0x84 => Some((Opcode::STY, AddressingMode::ZeroPage, 2, 3)),
        0x8C => Some((Opcode::STY, AddressingMode::Absolute, 3, 4)),
        0x94 => Some((Opcode::STY, AddressingMode::ZeroPageIndexedX, 2, 4)),
        // TAX
        0xAA => Some((Opcode::TAX, AddressingMode::Implied, 1, 2)),
        // TAY
        0xA8 => Some((Opcode::TAY, AddressingMode::Implied, 1, 2)),
        // TSX
        0xBA => Some((Opcode::TSX, AddressingMode::Implied, 1, 2)),
        // TXA
        0x8A => Some((Opcode::TXA, AddressingMode::Implied, 1, 2)),
        // TXS
        0x9A => Some((Opcode::TXS, AddressingMode::Implied, 1, 2)),
        // TYA
        0x98 => Some((Opcode::TYA, AddressingMode::Implied, 1, 2)),
        _ => None,
    }
}

/// Look one byte up in the opcode table.
pub fn opcode_table(byte: u8) -> (entry: Option<(Opcode, AddressingMode, usize, usize)>)
    ensures
        entry == spec_opcode_table(byte),
        entry matches Some(row) ==> 1 <= row.2 <= 3 && 2 <= row.3 <= 7,
{
    match byte {
        // ADC
        0x61 => Some((Opcode::ADC, AddressingMode::IndexedIndirect, 2, 6)),
        0x65 => Some((Opcode::ADC, AddressingMode::ZeroPage, 2, 3)),
        0x69 => Some((Opcode::ADC, AddressingMode::Immediate, 2, 2)),
        0x6D => Some((Opcode::ADC, AddressingMode::Absolute, 3, 4)),
        0x71 => Some((Opcode::ADC, AddressingMode::IndirectIndexed, 2, 5)),
        0x75 => Some((Opcode::ADC, AddressingMode::ZeroPageIndexedX, 2, 4)),
        0x79 => Some((Opcode::ADC, AddressingMode::AbsoluteIndexedY, 3, 4)),
        0x7D => Some((Opcode::ADC, AddressingMode::AbsoluteIndexedX, 3, 4)),
        // AND
        0x21 => Some((Opcode::AND, AddressingMode::IndexedIndirect, 2, 6)),
        0x25 => Some((Opcode::AND, AddressingMode::ZeroPage, 2, 3)),
        0x29 => Some((Opcode::AND, AddressingMode::Immediate, 2, 2)),
        0x2D => Some((Opcode::AND, AddressingMode::Absolute, 3, 4)),
        0x31 => Some((Opcode::AND, AddressingMode::IndirectIndexed, 2, 5)),
        0x35 => Some((Opcode::AND, AddressingMode::ZeroPageIndexedX, 2, 4)),
        0x39 => Some((Opcode::AND, AddressingMode::AbsoluteIndexedY, 3, 4)),
        0x3D => Some((Opcode::AND, AddressingMode::AbsoluteIndexedX, 3, 4)),
        // ASL
        0x06 => Some((Opcode::ASL, AddressingMode::ZeroPage, 2, 5)),
        0x0A => Some((Opcode::ASL, AddressingMode::Accumulator, 1, 2)),
        0x0E => Some((Opcode::ASL, AddressingMode::Absolute, 3, 6)),
        0x16 => Some((Opcode::ASL, AddressingMode::ZeroPageIndexedX, 2, 6)),
        0x1E => Some((Opcode::ASL, AddressingMode::AbsoluteIndexedX, 3, 7)),
        // BCC
        0x90 => Some((Opcode::BCC, AddressingMode::Relative, 2, 2)),
        // BCS
        0xB0 => Some((Opcode::BCS, AddressingMode::Relative, 2, 2)),
        // BEQ
        0xF0 => Some((Opcode::BEQ, AddressingMode::Relative, 2, 2)),
        // BIT
        0x24 => Some((Opcode::BIT, AddressingMode::ZeroPage, 2, 3)),
        0x2C => Some((Opcode::BIT, AddressingMode::Absolute, 3, 4)),
        // BMI
        0x30 => Some((Opcode::BMI, AddressingMode::Relative, 2, 2)),
        // BNE
        0xD0 => Some((Opcode::BNE, AddressingMode::Relative, 2, 2)),
        // BPL
        0x10 => Some((Opcode::BPL, AddressingMode::Relative, 2, 2)),
        // BRK
        0x00 => Some((Opcode::BRK, AddressingMode::Implied, 1, 7)),
        // BVC
        0x50 => Some((Opcode::BVC, AddressingMode::Relative, 2, 2)),
        // BVS
        0x70 => Some((Opcode::BVS, AddressingMode::Relative, 2, 2)),
        // CLC
        0x18 => Some((Opcode::CLC, AddressingMode::Implied, 1, 2)),
        // CLD
        0xD8 => Some((Opcode::CLD, AddressingMode::Implied, 1, 2)),
        // CLI
        0x58 => Some((Opcode::CLI, AddressingMode::Implied, 1, 2)),
        // CLV
        0xB8 => Some((Opcode::CLV, AddressingMode::Implied, 1, 2)),
        // CMP
        0xC1 => Some((Opcode::CMP, AddressingMode::IndexedIndirect, 2, 6)),
        0xC5 => Some((Opcode::CMP, AddressingMode::ZeroPage, 2, 3)),
        0xC9 => Some((Opcode::CMP, AddressingMode::Immediate, 2, 2)),
        0xCD => Some((Opcode::CMP, AddressingMode::Absolute, 3, 4)),
        0xD1 => Some((Opcode::CMP, AddressingMode::IndirectIndexed, 2, 5)),
        0xD5 => Some((Opcode::CMP, AddressingMode::ZeroPageIndexedX, 2, 4)),
        0xD9 => Some((Opcode::CMP, AddressingMode::AbsoluteIndexedY, 3, 4)),
        0xDD => Some((Opcode::CMP, AddressingMode::AbsoluteIndexedX, 3, 4)),
        // CPX
        0xE0 => Some((Opcode::CPX, AddressingMode::Immediate, 2, 2)),
        0xE4 => Some((Opcode::CPX, AddressingMode::ZeroPage, 2, 3)),
        0xEC => Some((Opcode::CPX, AddressingMode::Absolute, 3, 4)),
        // CPY
        0xC0 => Some((Opcode::CPY, AddressingMode::Immediate, 2, 2)),
        0xC4 => Some((Opcode::CPY, AddressingMode::ZeroPage, 2, 3)),
        0xCC => Some((Opcode::CPY, AddressingMode::Absolute, 3, 4)),
        // DEC
        0xC6 => Some((Opcode::DEC, AddressingMode::ZeroPage, 2, 5)),
        0xCE => Some((Opcode::DEC, AddressingMode::Absolute, 3, 6)),
        0xD6 => Some((Opcode::DEC, AddressingMode::ZeroPageIndexedX, 2, 6)),
        0xDE => Some((Opcode::DEC, AddressingMode::AbsoluteIndexedX, 3, 7)),
        // DEX
        0xCA => Some((Opcode::DEX, AddressingMode::Implied, 1, 2)),
        // DEY
        0x88 => Some((Opcode::DEY, AddressingMode::Implied, 1, 2)),
        // EOR
        0x41 => Some((Opcode::EOR, AddressingMode::IndexedIndirect, 2, 6)),
        0x45 => Some((Opcode::EOR, AddressingMode::ZeroPage, 2, 3)),
        0x49 => Some((Opcode::EOR, AddressingMode::Immediate, 2, 2)),
        0x4D => Some((Opcode::EOR, AddressingMode::Absolute, 3, 4)),
        0x51 => Some((Opcode::EOR, AddressingMode::IndirectIndexed, 2, 5)),
        0x55 => Some((Opcode::EOR, AddressingMode::ZeroPageIndexedX, 2, 4)),
        0x59 => Some((Opcode::EOR, AddressingMode::AbsoluteIndexedY, 3, 4)),
        0x5D => Some((Opcode::EOR, AddressingMode::AbsoluteIndexedX, 3, 4)),
        // INC
        0xE6 => Some((Opcode::INC, AddressingMode::ZeroPage, 2, 5)),
        0xEE => Some((Opcode::INC, AddressingMode::Absolute, 3, 6)),
        0xF6 => Some((Opcode::INC, AddressingMode::ZeroPageIndexedX, 2, 6)),
        0xFE => Some((Opcode::INC, AddressingMode::AbsoluteIndexedX, 3, 7)),
        // INX
        0xE8 => Some((Opcode::INX, AddressingMode::Implied, 1, 2)),
        // INY
        0xC8 => Some((Opcode::INY, AddressingMode::Implied, 1, 2)),
        // JMP
        0x4C => Some((Opcode::JMP, AddressingMode::Absolute, 3, 3)),
        0x6C => Some((Opcode::JMP, AddressingMode::Indirect, 3, 5)),
        // JSR
        0x20 => Some((Opcode::JSR, AddressingMode::Absolute, 3, 6)),
        // LDA
        0xA1 => Some((Opcode::LDA, AddressingMode::IndexedIndirect, 2, 6)),
        0xA5 => Some((Opcode::LDA, AddressingMode::ZeroPage, 2, 3)),
        0xA9 => Some((Opcode::LDA, AddressingMode::Immediate, 2, 2)),
        0xAD => Some((Opcode::LDA, AddressingMode::Absolute, 3, 4)),
        0xB1 => Some((Opcode::LDA, AddressingMode::IndirectIndexed, 2, 5)),
        0xB5 => Some((Opcode::LDA, AddressingMode::ZeroPageIndexedX, 2, 4)),
        0xB9 => Some((Opcode::LDA, AddressingMode::AbsoluteIndexedY, 3, 4)),
        0xBD => Some((Opcode::LDA, AddressingMode::AbsoluteIndexedX, 3, 4)),
        // LDX
        0xA2 => Some((Opcode::LDX, AddressingMode::Immediate, 2, 2)),
        0xA6 => Some((Opcode::LDX, AddressingMode::ZeroPage, 2, 3)),
        0xAE => Some((Opcode::LDX, AddressingMode::Absolute, 3, 4)),
        0xB6 => Some((Opcode::LDX, AddressingMode::ZeroPageIndexedY, 2, 4)),
        0xBE => Some((Opcode::LDX, AddressingMode::AbsoluteIndexedY, 3, 4)),
        // LDY
        0xA0 => Some((Opcode::LDY, AddressingMode::Immediate, 2, 2)),
        0xA4 => Some((Opcode::LDY, AddressingMode::ZeroPage, 2, 3)),
        0xAC => Some((Opcode::LDY, AddressingMode::Absolute, 3, 4)),
        0xB4 => Some((Opcode::LDY, AddressingMode::ZeroPageIndexedX, 2, 4)),
        0xBC => Some((Opcode::LDY, AddressingMode::AbsoluteIndexedX, 3, 4)),
        // LSR
        0x46 => Some((Opcode::LSR, AddressingMode::ZeroPage, 2, 5)),
        0x4A => Some((Opcode::LSR, AddressingMode::Accumulator, 1, 2)),
        0x4E => Some((Opcode::LSR, AddressingMode::Absolute, 3, 6)),
        0x56 => Some((Opcode::LSR, AddressingMode::ZeroPageIndexedX, 2, 6)),
        0x5E => Some((Opcode::LSR, AddressingMode::AbsoluteIndexedX, 3, 7)),
        // NOP
        0xEA => Some((Opcode::NOP, AddressingMode::Implied, 1, 2)),
        // ORA
        0x01 => Some((Opcode::ORA, AddressingMode::IndexedIndirect, 2, 6)),
        0x05 => Some((Opcode::ORA, AddressingMode::ZeroPage, 2, 3)),
        0x09 => Some((Opcode::ORA, AddressingMode::Immediate, 2, 2)),
        0x0D => Some((Opcode::ORA, AddressingMode::Absolute, 3, 4)),
        0x11 => Some((Opcode::ORA, AddressingMode::IndirectIndexed, 2, 5)),
        0x15 => Some((Opcode::ORA, AddressingMode::ZeroPageIndexedX, 2, 4)),
        0x19 => Some((Opcode::ORA, AddressingMode::AbsoluteIndexedY, 3, 4)),
        0x1D => Some((Opcode::ORA, AddressingMode::AbsoluteIndexedX, 3, 4)),
        // PHA
        0x48 => Some((Opcode::PHA, AddressingMode::Implied, 1, 3)),
        // PHP
        0x08 => Some((Opcode::PHP, AddressingMode::Implied, 1, 3)),
        // PLA
        0x68 => Some((Opcode::PLA, AddressingMode::Implied, 1, 4)),
        // PLP
        0x28 => Some((Opcode::PLP, AddressingMode::Implied, 1, 4)),
        // ROL
        0x26 => Some((Opcode::ROL, AddressingMode::ZeroPage, 2, 5)),
        0x2A => Some((Opcode::ROL, AddressingMode::Accumulator, 1, 2)),
        0x2E => Some((Opcode::ROL, AddressingMode::Absolute, 3, 6)),
        0x36 => Some((Opcode::ROL, AddressingMode::ZeroPageIndexedX, 2, 6)),
        0x3E => Some((Opcode::ROL, AddressingMode::AbsoluteIndexedX, 3, 7)),
        // ROR
        0x66 => Some((Opcode::ROR, AddressingMode::ZeroPage, 2, 5)),
        0x6A => Some((Opcode::ROR, AddressingMode::Accumulator, 1, 2)),
        0x6E => Some((Opcode::ROR, AddressingMode::Absolute, 3, 6)),
        0x76 => Some((Opcode::ROR, AddressingMode::ZeroPageIndexedX, 2, 6)),
        0x7E => Some((Opcode::ROR, AddressingMode::AbsoluteIndexedX, 3, 7)),
        // RTI
        0x40 => Some((Opcode::RTI, AddressingMode::Implied, 1, 6)),
        // RTS
        0x60 => Some((Opcode::RTS, AddressingMode::Implied, 1, 6)),
        // SBC
        0xE1 => Some((Opcode::SBC, AddressingMode::IndexedIndirect, 2, 6)),
        0xE5 => Some((Opcode::SBC, AddressingMode::ZeroPage, 2, 3)),
        0xE9 => Some((Opcode::SBC, AddressingMode::Immediate, 2, 2)),
        0xED => Some((Opcode::SBC, AddressingMode::Absolute, 3, 4)),
        0xF1 => Some((Opcode::SBC, AddressingMode::IndirectIndexed, 2, 5)),
        0xF5 => Some((Opcode::SBC, AddressingMode::ZeroPageIndexedX, 2, 4)),
        0xF9 => Some((Opcode::SBC, AddressingMode::AbsoluteIndexedY, 3, 4)),
        0xFD => Some((Opcode::SBC, AddressingMode::AbsoluteIndexedX, 3, 4)),
        // SEC
        0x38 => Some((Opcode::SEC, AddressingMode::Implied, 1, 2)),
        // SED
        0xF8 => Some((Opcode::SED, AddressingMode::Implied, 1, 2)),
        // SEI
        0x78 => Some((Opcode::SEI, AddressingMode::Implied, 1, 2)),
        // STA
        0x81 => Some((Opcode::STA, AddressingMode::IndexedIndirect, 2, 6)),
        0x85 => Some((Opcode::STA, AddressingMode::ZeroPage, 2, 3)),
        0x8D => Some((Opcode::STA, AddressingMode::Absolute, 3, 4)),
        0x91 => Some((Opcode::STA, AddressingMode::IndirectIndexed, 2, 6)),
        0x95 => Some((Opcode::STA, AddressingMode::ZeroPageIndexedX, 2, 4)),
        0x99 => Some((Opcode::STA, AddressingMode::AbsoluteIndexedY, 3, 5)),
        0x9D => Some((Opcode::STA, AddressingMode::AbsoluteIndexedX, 3, 5)),
        // STX
        0x86 => Some((Opcode::STX, AddressingMode::ZeroPage, 2, 3)),
        0x8E => Some((Opcode::STX, AddressingMode::Absolute, 3, 4)),
        0x96 => Some((Opcode::STX, AddressingMode::ZeroPageIndexedY, 2, 4)),
        // STY
        0x84 => Some((Opcode::STY, AddressingMode::ZeroPage, 2, 3)),
        0x8C => Some((Opcode::STY, AddressingMode::Absolute, 3, 4)),
        0x94 => Some((Opcode::STY, AddressingMode::ZeroPageIndexedX, 2, 4)),
        // TAX
        0xAA => Some((Opcode::TAX, AddressingMode::Implied, 1, 2)),
        // TAY
        0xA8 => Some((Opcode::TAY, AddressingMode::Implied, 1, 2)),
        // TSX
        0xBA => Some((Opcode::TSX, AddressingMode::Implied, 1, 2)),
        // TXA
        0x8A => Some((Opcode::TXA, AddressingMode::Implied, 1, 2)),
        // TXS
        0x9A => Some((Opcode::TXS, AddressingMode::Implied, 1, 2)),
        // TYA
        0x98 => Some((Opcode::TYA, AddressingMode::Implied, 1, 2)),
        _ => None,
    }
}

/// The descriptor decoded at `pc`, or the unsupported byte found there.
/// The two data bytes are read from the following addresses, wrapping at
/// the top of memory.
pub open spec fn spec_decode(mem: Seq<u8>, pc: u16) -> Result<Instruction, CpuError> {
    let byte = mem[pc as int];
    match spec_opcode_table(byte) {
        None => Err(CpuError::UnsupportedOpcode(byte, pc)),
        Some(row) => Ok(Instruction {
            opcode: row.0,
            addressing_mode: row.1,
            cycles: row.3,
            data: (mem[(pc + 1) % 0x10000], mem[(pc + 2) % 0x10000]),
            width: row.2,
            opcode_byte: byte,
        }),
    }
}

impl Instruction {
    /// Decode the instruction whose opcode byte sits at `memory_position`.
    /// The two bytes after it are always captured as operand data, which
    /// keeps construction uniform across widths.
    pub fn decode(memory: &Vec<u8>, memory_position: u16) -> (result: Result<Instruction, CpuError>)
        requires
            memory@.len() == 0x10000,
        ensures
            result == spec_decode(memory@, memory_position),
            result matches Ok(instruction) ==> spec_instruction_wf(instruction),
    {
        let index = memory_position as usize;
        let opcode_byte = memory[index];
        let data = (memory[(index + 1) % 0x10000], memory[(index + 2) % 0x10000]);
        match opcode_table(opcode_byte) {
            None => Err(CpuError::UnsupportedOpcode(opcode_byte, memory_position)),
            Some((opcode, addressing_mode, width, cycles)) => Ok(Instruction {
                opcode,
                addressing_mode,
                cycles,
                data,
                width,
                opcode_byte,
            }),
        }
    }
}

} // verus!
