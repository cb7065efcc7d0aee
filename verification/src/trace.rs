//! The trace-log renderer: a byte-exact line for each retired
//! instruction, carrying the program counter, the raw instruction bytes,
//! the disassembled operand, and the register state. The rendering is
//! specified character by character and the builder is proved to match.

use vstd::prelude::*;
use crate::cpu::{spec_address_operand, CpuState, CPU6502};
use crate::flags::spec_flags_byte;
use crate::instruction::{spec_decode, AddressingMode, CpuError, Instruction, Opcode};
use crate::utils::{spec_word, to_address_from_bytes};

verus! {

/// Every byte of the sequence is ASCII.
pub open spec fn spec_is_ascii(s: Seq<u8>) -> bool {
    forall|j: int| 0 <= j < s.len() ==> s[j] < 0x80
}

/// The characters spelled by a sequence of ASCII bytes.
pub open spec fn spec_chars_of(s: Seq<u8>) -> Seq<char> {
    Seq::new(s.len(), |j: int| s[j] as char)
}

/// `count` spaces.
pub open spec fn spec_spaces(count: nat) -> Seq<u8> {
    Seq::new(count, |j: int| (' ' as u8))
}

/// The ASCII digit for one hex nibble, upper case.
pub open spec fn spec_hex_digit(nibble: u8) -> u8 {
    if nibble < 10 {
        (0x30 + nibble) as u8
    } else {
        (0x41 + (nibble - 10)) as u8
    }
}

/// A byte as two upper-case hex digits.
pub open spec fn spec_hex2(byte: u8) -> Seq<u8> {
    seq![spec_hex_digit(byte / 16), spec_hex_digit(byte % 16)]
}

/// A 16-bit word as four upper-case hex digits.
pub open spec fn spec_hex4(word: u16) -> Seq<u8> {
    spec_hex2((word / 256) as u8) + spec_hex2((word % 256) as u8)
}

/// A number in decimal, most significant digit first, no leading zeros
/// except for the number 0 itself.
pub open spec fn spec_dec(n: nat) -> Seq<u8>
    decreases n,
{
    if n < 10 {
        seq![(0x30 + n) as u8]
    } else {
        spec_dec(n / 10) + seq![(0x30 + n % 10) as u8]
    }
}

/// The three-letter mnemonic of an opcode.
pub open spec fn spec_mnemonic(opcode: Opcode) -> Seq<u8> {
    match opcode {
        Opcode::ADC => seq![('A' as u8), ('D' as u8), ('C' as u8)],
        Opcode::AND => seq![('A' as u8), ('N' as u8), ('D' as u8)],
        Opcode::ASL => seq![('A' as u8), ('S' as u8), ('L' as u8)],
        Opcode::BCC => seq![('B' as u8), ('C' as u8), ('C' as u8)],
        Opcode::BCS => seq![('B' as u8), ('C' as u8), ('S' as u8)],
        Opcode::BEQ => seq![('B' as u8), ('E' as u8), ('Q' as u8)],
        Opcode::BIT => seq![('B' as u8), ('I' as u8), ('T' as u8)],
        Opcode::BMI => seq![('B' as u8), ('M' as u8), ('I' as u8)],
        Opcode::BNE => seq![('B' as u8), ('N' as u8), ('E' as u8)],
        Opcode::BPL => seq![('B' as u8), ('P' as u8), ('L' as u8)],
        Opcode::BRK => seq![('B' as u8), ('R' as u8), ('K' as u8)],
        Opcode::BVC => seq![('B' as u8), ('V' as u8), ('C' as u8)],
        Opcode::BVS => seq![('B' as u8), ('V' as u8), ('S' as u8)],
        Opcode::CLC => seq![('C' as u8), ('L' as u8), ('C' as u8)],
        Opcode::CLD => seq![('C' as u8), ('L' as u8), ('D' as u8)],
        Opcode::CLI => seq![('C' as u8), ('L' as u8), ('I' as u8)],
        Opcode::CLV => seq![('C' as u8), ('L' as u8), ('V' as u8)],
        Opcode::CMP => seq![('C' as u8), ('M' as u8), ('P' as u8)],
        Opcode::CPX => seq![('C' as u8), ('P' as u8), ('X' as u8)],
        Opcode::CPY => seq![('C' as u8), ('P' as u8), ('Y' as u8)],
        Opcode::DEC => seq![('D' as u8), ('E' as u8), ('C' as u8)],
        Opcode::DEX => seq![('D' as u8), ('E' as u8), ('X' as u8)],
        Opcode::DEY => seq![('D' as u8), ('E' as u8), ('Y' as u8)],
        Opcode::EOR => seq![('E' as u8), ('O' as u8), ('R' as u8)],
        Opcode::INC => seq![('I' as u8), ('N' as u8), ('C' as u8)],
        Opcode::INX => seq![('I' as u8), ('N' as u8), ('X' as u8)],
        Opcode::INY => seq![('I' as u8), ('N' as u8), ('Y' as u8)],
        Opcode::JMP => seq![('J' as u8), ('M' as u8), ('P' as u8)],
        Opcode::JSR => seq![('J' as u8), ('S' as u8), ('R' as u8)],
        Opcode::LDA => seq![('L' as u8), ('D' as u8), ('A' as u8)],
        Opcode::LDX => seq![('L' as u8), ('D' as u8), ('X' as u8)],
        Opcode::LDY => seq![('L' as u8), ('D' as u8), ('Y' as u8)],
        Opcode::LSR => seq![('L' as u8), ('S' as u8), ('R' as u8)],
        Opcode::NOP => seq![('N' as u8), ('O' as u8), ('P' as u8)],
        Opcode::ORA => seq![('O' as u8), ('R' as u8), ('A' as u8)],
        Opcode::PHA => seq![('P' as u8), ('H' as u8), ('A' as u8)],
        Opcode::PHP => seq![('P' as u8), ('H' as u8), ('P' as u8)],
        Opcode::PLA => seq![('P' as u8), ('L' as u8), ('A' as u8)],
        Opcode::PLP => seq![('P' as u8), ('L' as u8), ('P' as u8)],
        Opcode::ROL => seq![('R' as u8), ('O' as u8), ('L' as u8)],
        Opcode::ROR => seq![('R' as u8), ('O' as u8), ('R' as u8)],
        Opcode::RTI => seq![('R' as u8), ('T' as u8), ('I' as u8)],
        Opcode::RTS => seq![('R' as u8), ('T' as u8), ('S' as u8)],
        Opcode::SBC => seq![('S' as u8), ('B' as u8), ('C' as u8)],
        Opcode::SEC => seq![('S' as u8), ('E' as u8), ('C' as u8)],
        Opcode::SED => seq![('S' as u8), ('E' as u8), ('D' as u8)],
        Opcode::SEI => seq![('S' as u8), ('E' as u8), ('I' as u8)],
        Opcode::STA => seq![('S' as u8), ('T' as u8), ('A' as u8)],
        Opcode::STX => seq![('S' as u8), ('T' as u8), ('X' as u8)],
        Opcode::STY => seq![('S' as u8), ('T' as u8), ('Y' as u8)],
        Opcode::TAX => seq![('T' as u8), ('A' as u8), ('X' as u8)],
        Opcode::TAY => seq![('T' as u8), ('A' as u8), ('Y' as u8)],
        Opcode::TSX => seq![('T' as u8), ('S' as u8), ('X' as u8)],
        Opcode::TXA => seq![('T' as u8), ('X' as u8), ('A' as u8)],
        Opcode::TXS => seq![('T' as u8), ('X' as u8), ('S' as u8)],
        Opcode::TYA => seq![('T' as u8), ('Y' as u8), ('A' as u8)],
    }
}

/// The absolute-mode operands whose trace shows the byte at the address:
/// loads, stores, read-modify-writes, compares and `BIT`; jumps do not.
pub open spec fn spec_absolute_shows_value(opcode: Opcode) -> bool {
    match opcode {
        Opcode::STX | Opcode::STY | Opcode::STA | Opcode::LDA | Opcode::LDX | Opcode::LDY
            | Opcode::BIT | Opcode::ORA | Opcode::AND | Opcode::EOR | Opcode::ADC | Opcode::SBC
            | Opcode::CMP | Opcode::CPX | Opcode::CPY | Opcode::LSR | Opcode::ASL | Opcode::ROR
            | Opcode::ROL | Opcode::INC | Opcode::DEC => true,
        _ => false,
    }
}

/// The raw-bytes block: the instruction's one to three bytes as hex
/// pairs separated by single spaces, space-padded to ten characters.
pub open spec fn spec_bytes_fragment(i: Instruction) -> Seq<u8> {
    if i.width == 1 {
        spec_hex2(i.opcode_byte) + spec_spaces(8)
    } else if i.width == 2 {
        spec_hex2(i.opcode_byte) + seq![(' ' as u8)] + spec_hex2(i.data.0) + spec_spaces(5)
    } else {
        spec_hex2(i.opcode_byte) + seq![(' ' as u8)] + spec_hex2(i.data.0) + seq![(' ' as u8)]
            + spec_hex2(i.data.1) + spec_spaces(2)
    }
}

/// The disassembled operand, in the exact form of the log: mode-specific
/// punctuation, resolved addresses, and the memory byte where the form
/// shows one.
pub open spec fn spec_operand_fragment(m: CpuState, i: Instruction) -> Seq<u8> {
    match i.addressing_mode {
        AddressingMode::Implied => spec_mnemonic(i.opcode),
        AddressingMode::Immediate => spec_mnemonic(i.opcode)
            + seq![(' ' as u8), ('#' as u8), ('$' as u8)] + spec_hex2(i.data.0),
        AddressingMode::Accumulator => spec_mnemonic(i.opcode) + seq![(' ' as u8), ('A' as u8)],
        AddressingMode::Absolute => {
            let head = spec_mnemonic(i.opcode) + seq![(' ' as u8), ('$' as u8)] + spec_hex2(
                i.data.1,
            ) + spec_hex2(i.data.0);
            if spec_absolute_shows_value(i.opcode) {
                head + seq![(' ' as u8), ('=' as u8), (' ' as u8)] + spec_hex2(
                    m.mem[spec_word(i.data.0, i.data.1)],
                )
            } else {
                head
            }
        },
        AddressingMode::ZeroPage => spec_mnemonic(i.opcode) + seq![(' ' as u8), ('$' as u8)]
            + spec_hex2(i.data.0) + seq![(' ' as u8), ('=' as u8), (' ' as u8)] + spec_hex2(
            m.mem[i.data.0 as int],
        ),
        AddressingMode::ZeroPageIndexedX => {
            let effective = i.data.0.wrapping_add(m.x);
            spec_mnemonic(i.opcode) + seq![(' ' as u8), ('$' as u8)] + spec_hex2(i.data.0)
                + seq![(',' as u8), ('X' as u8), (' ' as u8), ('@' as u8), (' ' as u8)]
                + spec_hex2(effective) + seq![(' ' as u8), ('=' as u8), (' ' as u8)] + spec_hex2(
                m.mem[effective as int],
            )
        },
        AddressingMode::ZeroPageIndexedY => {
            let effective = i.data.0.wrapping_add(m.y);
            spec_mnemonic(i.opcode) + seq![(' ' as u8), ('$' as u8)] + spec_hex2(i.data.0)
                + seq![(',' as u8), ('Y' as u8), (' ' as u8), ('@' as u8), (' ' as u8)]
                + spec_hex2(effective) + seq![(' ' as u8), ('=' as u8), (' ' as u8)] + spec_hex2(
                m.mem[effective as int],
            )
        },
        AddressingMode::AbsoluteIndexedX => {
            let effective = spec_address_operand(m, i.data, i.addressing_mode)->Some_0.0;
            spec_mnemonic(i.opcode) + seq![(' ' as u8), ('$' as u8)] + spec_hex2(i.data.0)
                + seq![(',' as u8), ('X' as u8), (' ' as u8), ('@' as u8), (' ' as u8)]
                + spec_hex4(effective) + seq![(' ' as u8), ('=' as u8), (' ' as u8)] + spec_hex2(
                m.mem[effective as int],
            )
        },
        AddressingMode::AbsoluteIndexedY => {
            let effective = spec_address_operand(m, i.data, i.addressing_mode)->Some_0.0;
            spec_mnemonic(i.opcode) + seq![(' ' as u8), ('$' as u8)] + spec_hex2(i.data.0)
                + seq![(',' as u8), ('Y' as u8), (' ' as u8), ('@' as u8), (' ' as u8)]
                + spec_hex4(effective) + seq![(' ' as u8), ('=' as u8), (' ' as u8)] + spec_hex2(
                m.mem[effective as int],
            )
        },
        AddressingMode::IndexedIndirect => {
            let pointer = i.data.0.wrapping_add(m.x);
            let effective = spec_address_operand(m, i.data, i.addressing_mode)->Some_0.0;
            spec_mnemonic(i.opcode) + seq![(' ' as u8), ('(' as u8), ('$' as u8)] + spec_hex2(
                i.data.0,
            ) + seq![(',' as u8), ('X' as u8), (')' as u8), (' ' as u8), ('@' as u8), (' ' as u8)]
                + spec_hex2(pointer) + seq![(' ' as u8), ('=' as u8), (' ' as u8)] + spec_hex4(
                effective,
            ) + seq![(' ' as u8), ('=' as u8), (' ' as u8)] + spec_hex2(m.mem[effective as int])
        },
        AddressingMode::IndirectIndexed => {
            let base = spec_word(m.mem[i.data.0 as int], m.mem[i.data.0.wrapping_add(1) as int]);
            let effective = spec_address_operand(m, i.data, i.addressing_mode)->Some_0.0;
            spec_mnemonic(i.opcode) + seq![(' ' as u8), ('(' as u8), ('$' as u8)] + spec_hex2(
                i.data.0,
            ) + seq![(')' as u8), (',' as u8), ('Y' as u8), (' ' as u8), ('=' as u8), (' ' as u8)]
                + spec_hex4(base as u16) + seq![(' ' as u8), ('@' as u8), (' ' as u8)] + spec_hex4(
                effective,
            ) + seq![(' ' as u8), ('=' as u8), (' ' as u8)] + spec_hex2(m.mem[effective as int])
        },
        AddressingMode::Relative => {
            let target = spec_address_operand(m, i.data, i.addressing_mode)->Some_0.0;
            spec_mnemonic(i.opcode) + seq![(' ' as u8), ('$' as u8)] + spec_hex4(target)
        },
        AddressingMode::Indirect => {
            let target = spec_address_operand(m, i.data, i.addressing_mode)->Some_0.0;
            spec_mnemonic(i.opcode) + seq![(' ' as u8), ('(' as u8), ('$' as u8)] + spec_hex2(
                i.data.1,
            ) + spec_hex2(i.data.0) + seq![(')' as u8), (' ' as u8), ('=' as u8), (' ' as u8)]
                + spec_hex4(target)
        },
    }
}

/// The first half of a line: the program counter, two spaces, the raw
/// bytes block, and the disassembled operand.
pub open spec fn spec_first_half(m: CpuState, i: Instruction) -> Seq<u8> {
    spec_hex4(m.pc) + seq![(' ' as u8), (' ' as u8)] + spec_bytes_fragment(i)
        + spec_operand_fragment(m, i)
}

/// The first half padded with spaces to the state column at 48.
pub open spec fn spec_pad48(s: Seq<u8>) -> Seq<u8> {
    if s.len() < 48 {
        s + spec_spaces((48 - s.len()) as nat)
    } else {
        s
    }
}

/// The register-state block: `A`, `X`, `Y`, the packed status byte, the
/// stack pointer, the fixed peripheral placeholder, and the cycle count
/// in decimal.
pub open spec fn spec_state_fragment(m: CpuState) -> Seq<u8> {
    seq![('A' as u8), (':' as u8)] + spec_hex2(m.a) + seq![(' ' as u8), ('X' as u8), (':' as u8)]
        + spec_hex2(m.x) + seq![(' ' as u8), ('Y' as u8), (':' as u8)] + spec_hex2(m.y)
        + seq![(' ' as u8), ('P' as u8), (':' as u8)] + spec_hex2(spec_flags_byte(m.flags))
        + seq![(' ' as u8), ('S' as u8), ('P' as u8), (':' as u8)] + spec_hex2(m.sp) + seq![
        (' ' as u8),
        ('P' as u8),
        ('P' as u8),
        ('U' as u8),
        (':' as u8),
        (' ' as u8),
        (' ' as u8),
        ('0' as u8),
        (',' as u8),
        (' ' as u8),
        ('0' as u8),
        ('0' as u8),
        (' ' as u8),
        ('C' as u8),
        ('Y' as u8),
        ('C' as u8),
        (':' as u8),
    ] + spec_dec(m.cycles)
}

/// One whole trace line for the instruction at the program counter, or
/// the decode error met there.
pub open spec fn spec_trace_line(m: CpuState) -> Result<Seq<u8>, CpuError> {
    match spec_decode(m.mem, m.pc) {
        Err(e) => Err(e),
        Ok(i) => Ok(spec_pad48(spec_first_half(m, i)) + spec_state_fragment(m)),
    }
}

/// The ASCII digit for one hex nibble, upper case.
fn hex_digit(nibble: u8) -> (digit: u8)
    requires
        nibble < 16,
    ensures
        digit == spec_hex_digit(nibble),
        digit < 0x80,
{
    if nibble < 10 {
        0x30 + nibble
    } else {
        0x41 + (nibble - 10)
    }
}

/// Append a byte as two upper-case hex digits.
fn push_hex2(out: &mut Vec<u8>, byte: u8)
    requires
        spec_is_ascii(old(out)@),
    ensures
        final(out)@ == old(out)@ + spec_hex2(byte),
        spec_is_ascii(final(out)@),
{
    out.push(hex_digit(byte / 16));
    out.push(hex_digit(byte % 16));
    assert(out@ =~= old(out)@ + spec_hex2(byte));
}

/// Append a 16-bit word as four upper-case hex digits.
fn push_hex4(out: &mut Vec<u8>, word: u16)
    requires
        spec_is_ascii(old(out)@),
    ensures
        final(out)@ == old(out)@ + spec_hex4(word),
        spec_is_ascii(final(out)@),
{
    push_hex2(out, (word / 256) as u8);
    push_hex2(out, (word % 256) as u8);
    assert(out@ =~= old(out)@ + spec_hex4(word));
}

/// Append a number in decimal, most significant digit first.
fn push_dec(out: &mut Vec<u8>, n: usize)
    requires
        spec_is_ascii(old(out)@),
    ensures
        final(out)@ == old(out)@ + spec_dec(n as nat),
        spec_is_ascii(final(out)@),
    decreases n,
{
    if n < 10 {
        out.push(0x30 + n as u8);
        assert(out@ =~= old(out)@ + spec_dec(n as nat));
    } else {
        push_dec(out, n / 10);
        out.push(0x30 + (n % 10) as u8);
        assert(out@ =~= old(out)@ + spec_dec(n as nat));
    }
}

/// Append `count` spaces.
fn push_spaces(out: &mut Vec<u8>, count: usize)
    requires
        spec_is_ascii(old(out)@),
    ensures
        final(out)@ == old(out)@ + spec_spaces(count as nat),
        spec_is_ascii(final(out)@),
{
    let mut pushed: usize = 0;
    while pushed < count
        invariant
            pushed <= count,
            out@ == old(out)@ + spec_spaces(pushed as nat),
            spec_is_ascii(out@),
        decreases count - pushed,
    {
        out.push((' ' as u8));
        pushed += 1;
        assert(out@ =~= old(out)@ + spec_spaces(pushed as nat));
    }
}

/// Append the three-letter mnemonic of an opcode.
fn push_mnemonic(out: &mut Vec<u8>, opcode: Opcode)
    requires
        spec_is_ascii(old(out)@),
    ensures
        final(out)@ == old(out)@ + spec_mnemonic(opcode),
        spec_is_ascii(final(out)@),
{
    match opcode {
        Opcode::ADC => {
            out.push(('A' as u8));
            out.push(('D' as u8));
            out.push(('C' as u8));
        },
        Opcode::AND => {
            out.push(('A' as u8));
            out.push(('N' as u8));
            out.push(('D' as u8));
        },
        Opcode::ASL => {
            out.push(('A' as u8));
            out.push(('S' as u8));
            out.push(('L' as u8));
        },
        Opcode::BCC => {
            out.push(('B' as u8));
            out.push(('C' as u8));
            out.push(('C' as u8));
        },
        Opcode::BCS => {
            out.push(('B' as u8));
            out.push(('C' as u8));
            out.push(('S' as u8));
        },
        Opcode::BEQ => {
            out.push(('B' as u8));
            out.push(('E' as u8));
            out.push(('Q' as u8));
        },
        Opcode::BIT => {
            out.push(('B' as u8));
            out.push(('I' as u8));
            out.push(('T' as u8));
        },
        Opcode::BMI => {
            out.push(('B' as u8));
            out.push(('M' as u8));
            out.push(('I' as u8));
        },
        Opcode::BNE => {
            out.push(('B' as u8));
            out.push(('N' as u8));
            out.push(('E' as u8));
        },
        Opcode::BPL => {
            out.push(('B' as u8));
            out.push(('P' as u8));
            out.push(('L' as u8));
        },
        Opcode::BRK => {
            out.push(('B' as u8));
            out.push(('R' as u8));
            out.push(('K' as u8));
        },
        Opcode::BVC => {
            out.push(('B' as u8));
            out.push(('V' as u8));
            out.push(('C' as u8));
        },
        Opcode::BVS => {
            out.push(('B' as u8));
            out.push(('V' as u8));
            out.push(('S' as u8));
        },
        Opcode::CLC => {
            out.push(('C' as u8));
            out.push(('L' as u8));
            out.push(('C' as u8));
        },
        Opcode::CLD => {
            out.push(('C' as u8));
            out.push(('L' as u8));
            out.push(('D' as u8));
        },
        Opcode::CLI => {
            out.push(('C' as u8));
            out.push(('L' as u8));
            out.push(('I' as u8));
        },
        Opcode::CLV => {
            out.push(('C' as u8));
            out.push(('L' as u8));
            out.push(('V' as u8));
        },
        Opcode::CMP => {
            out.push(('C' as u8));
            out.push(('M' as u8));
            out.push(('P' as u8));
        },
        Opcode::CPX => {
            out.push(('C' as u8));
            out.push(('P' as u8));
            out.push(('X' as u8));
        },
        Opcode::CPY => {
            out.push(('C' as u8));
            out.push(('P' as u8));
            out.push(('Y' as u8));
        },
        Opcode::DEC => {
            out.push(('D' as u8));
            out.push(('E' as u8));
            out.push(('C' as u8));
        },
        Opcode::DEX => {
            out.push(('D' as u8));
            out.push(('E' as u8));
            out.push(('X' as u8));
        },
        Opcode::DEY => {
            out.push(('D' as u8));
            out.push(('E' as u8));
            out.push(('Y' as u8));
        },
        Opcode::EOR => {
            out.push(('E' as u8));
            out.push(('O' as u8));
            out.push(('R' as u8));
        },
        Opcode::INC => {
            out.push(('I' as u8));
            out.push(('N' as u8));
            out.push(('C' as u8));
        },
        Opcode::INX => {
            out.push(('I' as u8));
            out.push(('N' as u8));
            out.push(('X' as u8));
        },
        Opcode::INY => {
            out.push(('I' as u8));
            out.push(('N' as u8));
            out.push(('Y' as u8));
        },
        Opcode::JMP => {
            out.push(('J' as u8));
            out.push(('M' as u8));
            out.push(('P' as u8));
        },
        Opcode::JSR => {
            out.push(('J' as u8));
            out.push(('S' as u8));
            out.push(('R' as u8));
        },
        Opcode::LDA => {
            out.push(('L' as u8));
            out.push(('D' as u8));
            out.push(('A' as u8));
        },
        Opcode::LDX => {
            out.push(('L' as u8));
            out.push(('D' as u8));
            out.push(('X' as u8));
        },
        Opcode::LDY => {
            out.push(('L' as u8));
            out.push(('D' as u8));
            out.push(('Y' as u8));
        },
        Opcode::LSR => {
            out.push(('L' as u8));
            out.push(('S' as u8));
            out.push(('R' as u8));
        },
        Opcode::NOP => {
            out.push(('N' as u8));
            out.push(('O' as u8));
            out.push(('P' as u8));
        },
        Opcode::ORA => {
            out.push(('O' as u8));
            out.push(('R' as u8));
            out.push(('A' as u8));
        },
        Opcode::PHA => {
            out.push(('P' as u8));
            out.push(('H' as u8));
            out.push(('A' as u8));
        },
        Opcode::PHP => {
            out.push(('P' as u8));
            out.push(('H' as u8));
            out.push(('P' as u8));
        },
        Opcode::PLA => {
            out.push(('P' as u8));
            out.push(('L' as u8));
            out.push(('A' as u8));
        },
        Opcode::PLP => {
            out.push(('P' as u8));
            out.push(('L' as u8));
            out.push(('P' as u8));
        },
        Opcode::ROL => {
            out.push(('R' as u8));
            out.push(('O' as u8));
            out.push(('L' as u8));
        },
        Opcode::ROR => {
            out.push(('R' as u8));
            out.push(('O' as u8));
            out.push(('R' as u8));
        },
        Opcode::RTI => {
            out.push(('R' as u8));
            out.push(('T' as u8));
            out.push(('I' as u8));
        },
        Opcode::RTS => {
            out.push(('R' as u8));
            out.push(('T' as u8));
            out.push(('S' as u8));
        },
        Opcode::SBC => {
            out.push(('S' as u8));
            out.push(('B' as u8));
            out.push(('C' as u8));
        },
        Opcode::SEC => {
            out.push(('S' as u8));
            out.push(('E' as u8));
            out.push(('C' as u8));
        },
        Opcode::SED => {
            out.push(('S' as u8));
            out.push(('E' as u8));
            out.push(('D' as u8));
        },
        Opcode::SEI => {
            out.push(('S' as u8));
            out.push(('E' as u8));
            out.push(('I' as u8));
        },
        Opcode::STA => {
            out.push(('S' as u8));
            out.push(('T' as u8));
            out.push(('A' as u8));
        },
        Opcode::STX => {
            out.push(('S' as u8));
            out.push(('T' as u8));
            out.push(('X' as u8));
        },
        Opcode::STY => {
            out.push(('S' as u8));
            out.push(('T' as u8));
            out.push(('Y' as u8));
        },
        Opcode::TAX => {
            out.push(('T' as u8));
            out.push(('A' as u8));
            out.push(('X' as u8));
        },
        Opcode::TAY => {
            out.push(('T' as u8));
            out.push(('A' as u8));
            out.push(('Y' as u8));
        },
        Opcode::TSX => {
            out.push(('T' as u8));
            out.push(('S' as u8));
            out.push(('X' as u8));
        },
        Opcode::TXA => {
            out.push(('T' as u8));
            out.push(('X' as u8));
            out.push(('A' as u8));
        },
        Opcode::TXS => {
            out.push(('T' as u8));
            out.push(('X' as u8));
            out.push(('S' as u8));
        },
        Opcode::TYA => {
            out.push(('T' as u8));
            out.push(('Y' as u8));
            out.push(('A' as u8));
        },
    }
    assert(out@ =~= old(out)@ + spec_mnemonic(opcode));
}

/// Whether the absolute-mode trace of this opcode shows the memory byte.
fn absolute_shows_value(opcode: Opcode) -> (shows: bool)
    ensures
        shows == spec_absolute_shows_value(opcode),
{
    match opcode {
        Opcode::STX | Opcode::STY | Opcode::STA | Opcode::LDA | Opcode::LDX | Opcode::LDY
            | Opcode::BIT | Opcode::ORA | Opcode::AND | Opcode::EOR | Opcode::ADC | Opcode::SBC
            | Opcode::CMP | Opcode::CPX | Opcode::CPY | Opcode::LSR | Opcode::ASL | Opcode::ROR
            | Opcode::ROL | Opcode::INC | Opcode::DEC => true,
        _ => false,
    }
}

/// Append 2 literal ASCII bytes.
fn push2(out: &mut Vec<u8>, b0: u8, b1: u8)
    requires
        spec_is_ascii(old(out)@),
        b0 < 0x80 && b1 < 0x80,
    ensures
        final(out)@ == old(out)@ + seq![b0, b1],
        spec_is_ascii(final(out)@),
{
    out.push(b0);
    out.push(b1);
    assert(out@ =~= old(out)@ + seq![b0, b1]);
}

/// Append 3 literal ASCII bytes.
fn push3(out: &mut Vec<u8>, b0: u8, b1: u8, b2: u8)
    requires
        spec_is_ascii(old(out)@),
        b0 < 0x80 && b1 < 0x80 && b2 < 0x80,
    ensures
        final(out)@ == old(out)@ + seq![b0, b1, b2],
        spec_is_ascii(final(out)@),
{
    out.push(b0);
    out.push(b1);
    out.push(b2);
    assert(out@ =~= old(out)@ + seq![b0, b1, b2]);
}

/// Append 4 literal ASCII bytes.
fn push4(out: &mut Vec<u8>, b0: u8, b1: u8, b2: u8, b3: u8)
    requires
        spec_is_ascii(old(out)@),
        b0 < 0x80 && b1 < 0x80 && b2 < 0x80 && b3 < 0x80,
    ensures
        final(out)@ == old(out)@ + seq![b0, b1, b2, b3],
        spec_is_ascii(final(out)@),
{
    out.push(b0);
    out.push(b1);
    out.push(b2);
    out.push(b3);
    assert(out@ =~= old(out)@ + seq![b0, b1, b2, b3]);
}

/// Append 5 literal ASCII bytes.
fn push5(out: &mut Vec<u8>, b0: u8, b1: u8, b2: u8, b3: u8, b4: u8)
    requires
        spec_is_ascii(old(out)@),
        b0 < 0x80 && b1 < 0x80 && b2 < 0x80 && b3 < 0x80 && b4 < 0x80,
    ensures
        final(out)@ == old(out)@ + seq![b0, b1, b2, b3, b4],
        spec_is_ascii(final(out)@),
{
    out.push(b0);
    out.push(b1);
    out.push(b2);
    out.push(b3);
    out.push(b4);
    assert(out@ =~= old(out)@ + seq![b0, b1, b2, b3, b4]);
}

/// Append 6 literal ASCII bytes.
fn push6(out: &mut Vec<u8>, b0: u8, b1: u8, b2: u8, b3: u8, b4: u8, b5: u8)
    requires
        spec_is_ascii(old(out)@),
        b0 < 0x80 && b1 < 0x80 && b2 < 0x80 && b3 < 0x80 && b4 < 0x80 && b5 < 0x80,
    ensures
        final(out)@ == old(out)@ + seq![b0, b1, b2, b3, b4, b5],
        spec_is_ascii(final(out)@),
{
    out.push(b0);
    out.push(b1);
    out.push(b2);
    out.push(b3);
    out.push(b4);
    out.push(b5);
    assert(out@ =~= old(out)@ + seq![b0, b1, b2, b3, b4, b5]);
}

/// Append the fixed peripheral placeholder and cycle-count label.
fn push_cycle_label(out: &mut Vec<u8>)
    requires
        spec_is_ascii(old(out)@),
    ensures
        final(out)@ == old(out)@ + seq![
            (' ' as u8), ('P' as u8), ('P' as u8), ('U' as u8), (':' as u8), (' ' as u8), (' ' as u8), ('0' as u8), (',' as u8), (' ' as u8), ('0' as u8), ('0' as u8), (' ' as u8), ('C' as u8), ('Y' as u8), ('C' as u8), (':' as u8),
        ],
        spec_is_ascii(final(out)@),
{
    out.push((' ' as u8));
    out.push(('P' as u8));
    out.push(('P' as u8));
    out.push(('U' as u8));
    out.push((':' as u8));
    out.push((' ' as u8));
    out.push((' ' as u8));
    out.push(('0' as u8));
    out.push((',' as u8));
    out.push((' ' as u8));
    out.push(('0' as u8));
    out.push(('0' as u8));
    out.push((' ' as u8));
    out.push(('C' as u8));
    out.push(('Y' as u8));
    out.push(('C' as u8));
    out.push((':' as u8));
    assert(out@ =~= old(out)@ + seq![(' ' as u8), ('P' as u8), ('P' as u8), ('U' as u8), (':' as u8), (' ' as u8), (' ' as u8), ('0' as u8), (',' as u8), (' ' as u8), ('0' as u8), ('0' as u8), (' ' as u8), ('C' as u8), ('Y' as u8), ('C' as u8), (':' as u8)]);
}

/// Relies on `String::from_utf8`: bytes below 0x80 are ASCII, which is
/// valid UTF-8 decoding one byte to the one character with that code.
#[verifier::external_body]
fn ascii_bytes_to_string(bytes: Vec<u8>) -> (r: String)
    requires
        spec_is_ascii(bytes@),
    ensures
        r@ == spec_chars_of(bytes@),
{
    match String::from_utf8(bytes) {
        Ok(s) => s,
        Err(_) => String::new(),
    }
}

impl CPU6502 {
    /// Append the line prefix: the program counter as four hex digits,
    /// two spaces, and the padded raw-bytes block.
    #[verifier::rlimit(50)]
    fn push_line_prefix(&self, out: &mut Vec<u8>, instruction: Instruction)
        requires
            spec_is_ascii(old(out)@),
        ensures
            final(out)@ == old(out)@ + spec_hex4(self@.pc) + seq![(' ' as u8), (' ' as u8)]
                + spec_bytes_fragment(instruction),
            spec_is_ascii(final(out)@),
    {
        let ghost m = self@;
        let ghost entry = out@;
        push_hex4(out, self.pc);
        push2(out, (' ' as u8), (' ' as u8));
        push_hex2(out, instruction.opcode_byte);
        if instruction.width == 1 {
            push_spaces(out, 8);
        } else if instruction.width == 2 {
            out.push((' ' as u8));
            push_hex2(out, instruction.data.0);
            push_spaces(out, 5);
        } else {
            out.push((' ' as u8));
            push_hex2(out, instruction.data.0);
            out.push((' ' as u8));
            push_hex2(out, instruction.data.1);
            push_spaces(out, 2);
        }
        proof {
            assert(out@ =~= entry + spec_hex4(m.pc) + seq![(' ' as u8), (' ' as u8)]
                + spec_bytes_fragment(instruction));
        }
    }

    /// Append the operand for the register, immediate, absolute and zero-page forms.
    #[verifier::rlimit(100)]
    #[verifier::spinoff_prover]
    fn push_operand_plain(&self, out: &mut Vec<u8>, instruction: Instruction)
        requires
            self.wf(),
            spec_is_ascii(old(out)@),
            instruction.addressing_mode == AddressingMode::Implied
                || instruction.addressing_mode == AddressingMode::Immediate
                || instruction.addressing_mode == AddressingMode::Accumulator
                || instruction.addressing_mode == AddressingMode::Absolute
                || instruction.addressing_mode == AddressingMode::ZeroPage,
        ensures
            final(out)@ == old(out)@ + spec_operand_fragment(self@, instruction),
            spec_is_ascii(final(out)@),
    {
        let ghost m = self@;
        let ghost pre = out@;
        match instruction.addressing_mode {
            AddressingMode::Implied => {
                push_mnemonic(out, instruction.opcode);
                proof {
                    assert(out@ =~= pre + spec_operand_fragment(m, instruction));
                }
            },
            AddressingMode::Immediate => {
                push_mnemonic(out, instruction.opcode);
                push3(out, (' ' as u8), ('#' as u8), ('$' as u8));
                push_hex2(out, instruction.data.0);
                proof {
                    assert(out@ =~= pre + spec_operand_fragment(m, instruction));
                }
            },
            AddressingMode::Accumulator => {
                push_mnemonic(out, instruction.opcode);
                push2(out, (' ' as u8), ('A' as u8));
                proof {
                    assert(out@ =~= pre + spec_operand_fragment(m, instruction));
                }
            },
            AddressingMode::Absolute => {
                push_mnemonic(out, instruction.opcode);
                push2(out, (' ' as u8), ('$' as u8));
                push_hex2(out, instruction.data.1);
                push_hex2(out, instruction.data.0);
                if absolute_shows_value(instruction.opcode) {
                    let address = to_address_from_bytes(instruction.data);
                    push3(out, (' ' as u8), ('=' as u8), (' ' as u8));
                    push_hex2(out, self.memory[address]);
                }
                proof {
                    assert(out@ =~= pre + spec_operand_fragment(m, instruction));
                }
            },
            AddressingMode::ZeroPage => {
                push_mnemonic(out, instruction.opcode);
                push2(out, (' ' as u8), ('$' as u8));
                push_hex2(out, instruction.data.0);
                push3(out, (' ' as u8), ('=' as u8), (' ' as u8));
                push_hex2(out, self.memory[instruction.data.0 as usize]);
                proof {
                    assert(out@ =~= pre + spec_operand_fragment(m, instruction));
                }
            },
            _ => (),
        }
    }

    /// Append the operand for the four indexed forms, which show the effective address.
    #[verifier::rlimit(100)]
    #[verifier::spinoff_prover]
    fn push_operand_indexed(&self, out: &mut Vec<u8>, instruction: Instruction)
        requires
            self.wf(),
            spec_is_ascii(old(out)@),
            instruction.addressing_mode == AddressingMode::ZeroPageIndexedX
                || instruction.addressing_mode == AddressingMode::ZeroPageIndexedY
                || instruction.addressing_mode == AddressingMode::AbsoluteIndexedX
                || instruction.addressing_mode == AddressingMode::AbsoluteIndexedY,
        ensures
            final(out)@ == old(out)@ + spec_operand_fragment(self@, instruction),
            spec_is_ascii(final(out)@),
    {
        let ghost m = self@;
        let ghost pre = out@;
        match instruction.addressing_mode {
            AddressingMode::ZeroPageIndexedX => {
                let effective = instruction.data.0.wrapping_add(self.x);
                push_mnemonic(out, instruction.opcode);
                push2(out, (' ' as u8), ('$' as u8));
                push_hex2(out, instruction.data.0);
                push5(out, (',' as u8), ('X' as u8), (' ' as u8), ('@' as u8), (' ' as u8));
                push_hex2(out, effective);
                push3(out, (' ' as u8), ('=' as u8), (' ' as u8));
                push_hex2(out, self.memory[effective as usize]);
                proof {
                    assert(out@ =~= pre + spec_operand_fragment(m, instruction));
                }
            },
            AddressingMode::ZeroPageIndexedY => {
                let effective = instruction.data.0.wrapping_add(self.y);
                push_mnemonic(out, instruction.opcode);
                push2(out, (' ' as u8), ('$' as u8));
                push_hex2(out, instruction.data.0);
                push5(out, (',' as u8), ('Y' as u8), (' ' as u8), ('@' as u8), (' ' as u8));
                push_hex2(out, effective);
                push3(out, (' ' as u8), ('=' as u8), (' ' as u8));
                push_hex2(out, self.memory[effective as usize]);
                proof {
                    assert(out@ =~= pre + spec_operand_fragment(m, instruction));
                }
            },
            AddressingMode::AbsoluteIndexedX => {
                let (address, _) = match self.get_address_operand(
                    instruction.data,
                    instruction.addressing_mode,
                ) {
                    Ok(p) => p,
                    Err(_) => (0, false),
                };
                push_mnemonic(out, instruction.opcode);
                push2(out, (' ' as u8), ('$' as u8));
                push_hex2(out, instruction.data.0);
                push5(out, (',' as u8), ('X' as u8), (' ' as u8), ('@' as u8), (' ' as u8));
                push_hex4(out, address as u16);
                push3(out, (' ' as u8), ('=' as u8), (' ' as u8));
                push_hex2(out, self.memory[address]);
                proof {
                    assert(out@ =~= pre + spec_operand_fragment(m, instruction));
                }
            },
            AddressingMode::AbsoluteIndexedY => {
                let (address, _) = match self.get_address_operand(
                    instruction.data,
                    instruction.addressing_mode,
                ) {
                    Ok(p) => p,
                    Err(_) => (0, false),
                };
                push_mnemonic(out, instruction.opcode);
                push2(out, (' ' as u8), ('$' as u8));
                push_hex2(out, instruction.data.0);
                push5(out, (',' as u8), ('Y' as u8), (' ' as u8), ('@' as u8), (' ' as u8));
                push_hex4(out, address as u16);
                push3(out, (' ' as u8), ('=' as u8), (' ' as u8));
                push_hex2(out, self.memory[address]);
                proof {
                    assert(out@ =~= pre + spec_operand_fragment(m, instruction));
                }
            },
            _ => (),
        }
    }

    /// Append the operand for the indirect and relative forms, which show the resolved target.
    #[verifier::rlimit(100)]
    #[verifier::spinoff_prover]
    fn push_operand_indirect(&self, out: &mut Vec<u8>, instruction: Instruction)
        requires
            self.wf(),
            spec_is_ascii(old(out)@),
            instruction.addressing_mode == AddressingMode::IndexedIndirect
                || instruction.addressing_mode == AddressingMode::IndirectIndexed
                || instruction.addressing_mode == AddressingMode::Relative
                || instruction.addressing_mode == AddressingMode::Indirect,
        ensures
            final(out)@ == old(out)@ + spec_operand_fragment(self@, instruction),
            spec_is_ascii(final(out)@),
    {
        let ghost m = self@;
        let ghost pre = out@;
        match instruction.addressing_mode {
            AddressingMode::IndexedIndirect => {
                let pointer = instruction.data.0.wrapping_add(self.x);
                let (address, _) = match self.get_address_operand(
                    instruction.data,
                    instruction.addressing_mode,
                ) {
                    Ok(p) => p,
                    Err(_) => (0, false),
                };
                push_mnemonic(out, instruction.opcode);
                push3(out, (' ' as u8), ('(' as u8), ('$' as u8));
                push_hex2(out, instruction.data.0);
                push6(out, (',' as u8), ('X' as u8), (')' as u8), (' ' as u8), ('@' as u8), (' ' as u8));
                push_hex2(out, pointer);
                push3(out, (' ' as u8), ('=' as u8), (' ' as u8));
                push_hex4(out, address as u16);
                push3(out, (' ' as u8), ('=' as u8), (' ' as u8));
                push_hex2(out, self.memory[address]);
                proof {
                    assert(out@ =~= pre + spec_operand_fragment(m, instruction));
                }
            },
            AddressingMode::IndirectIndexed => {
                let lo = self.memory[instruction.data.0 as usize];
                let hi = self.memory[instruction.data.0.wrapping_add(1) as usize];
                let base = to_address_from_bytes((lo, hi));
                let (address, _) = match self.get_address_operand(
                    instruction.data,
                    instruction.addressing_mode,
                ) {
                    Ok(p) => p,
                    Err(_) => (0, false),
                };
                push_mnemonic(out, instruction.opcode);
                push3(out, (' ' as u8), ('(' as u8), ('$' as u8));
                push_hex2(out, instruction.data.0);
                push6(out, (')' as u8), (',' as u8), ('Y' as u8), (' ' as u8), ('=' as u8), (' ' as u8));
                push_hex4(out, base as u16);
                push3(out, (' ' as u8), ('@' as u8), (' ' as u8));
                push_hex4(out, address as u16);
                push3(out, (' ' as u8), ('=' as u8), (' ' as u8));
                push_hex2(out, self.memory[address]);
                proof {
                    assert(out@ =~= pre + spec_operand_fragment(m, instruction));
                }
            },
            AddressingMode::Relative => {
                let (address, _) = match self.get_address_operand(
                    instruction.data,
                    instruction.addressing_mode,
                ) {
                    Ok(p) => p,
                    Err(_) => (0, false),
                };
                push_mnemonic(out, instruction.opcode);
                push2(out, (' ' as u8), ('$' as u8));
                push_hex4(out, address as u16);
                proof {
                    assert(out@ =~= pre + spec_operand_fragment(m, instruction));
                }
            },
            AddressingMode::Indirect => {
                let (address, _) = match self.get_address_operand(
                    instruction.data,
                    instruction.addressing_mode,
                ) {
                    Ok(p) => p,
                    Err(_) => (0, false),
                };
                push_mnemonic(out, instruction.opcode);
                push3(out, (' ' as u8), ('(' as u8), ('$' as u8));
                push_hex2(out, instruction.data.1);
                push_hex2(out, instruction.data.0);
                push4(out, (')' as u8), (' ' as u8), ('=' as u8), (' ' as u8));
                push_hex4(out, address as u16);
                proof {
                    assert(out@ =~= pre + spec_operand_fragment(m, instruction));
                }
            },
            _ => (),
        }
    }

    /// Append the disassembled operand in the exact form of the log.
    fn push_operand_fragment(&self, out: &mut Vec<u8>, instruction: Instruction)
        requires
            self.wf(),
            spec_is_ascii(old(out)@),
        ensures
            final(out)@ == old(out)@ + spec_operand_fragment(self@, instruction),
            spec_is_ascii(final(out)@),
    {
        match instruction.addressing_mode {
            AddressingMode::Implied | AddressingMode::Immediate | AddressingMode::Accumulator | AddressingMode::Absolute | AddressingMode::ZeroPage => self.push_operand_plain(out, instruction),
            AddressingMode::ZeroPageIndexedX | AddressingMode::ZeroPageIndexedY | AddressingMode::AbsoluteIndexedX | AddressingMode::AbsoluteIndexedY => self.push_operand_indexed(out, instruction),
            AddressingMode::IndexedIndirect | AddressingMode::IndirectIndexed | AddressingMode::Relative | AddressingMode::Indirect => self.push_operand_indirect(out, instruction),
        }
    }

    /// Append the register-state block.
    #[verifier::rlimit(50)]
    #[verifier::spinoff_prover]
    fn push_state_fragment(&self, out: &mut Vec<u8>)
        requires
            spec_is_ascii(old(out)@),
        ensures
            final(out)@ == old(out)@ + spec_state_fragment(self@),
            spec_is_ascii(final(out)@),
    {
        let ghost m = self@;
        let ghost entry = out@;
        push2(out, ('A' as u8), (':' as u8));
        push_hex2(out, self.a);
        push3(out, (' ' as u8), ('X' as u8), (':' as u8));
        push_hex2(out, self.x);
        push3(out, (' ' as u8), ('Y' as u8), (':' as u8));
        push_hex2(out, self.y);
        push3(out, (' ' as u8), ('P' as u8), (':' as u8));
        let status = self.flags.as_byte();
        push_hex2(out, status);
        push4(out, (' ' as u8), ('S' as u8), ('P' as u8), (':' as u8));
        push_hex2(out, self.sp);
        push_cycle_label(out);
        push_dec(out, self.cycles);
        proof {
            assert(out@ =~= entry + spec_state_fragment(m));
        }
    }

    /// Render the trace line for the instruction at the program counter:
    /// the counter in hex, the raw instruction bytes, the disassembled
    /// operand, and the register state block, byte for byte as
    /// `spec_trace_line` spells it. Decoding an undefined byte fails.
    pub fn trace_line(&self) -> (r: Result<String, CpuError>)
        requires
            self.wf(),
        ensures
            match spec_trace_line(self@) {
                Ok(s) => r matches Ok(line) && line@ == spec_chars_of(s),
                Err(e) => r == Err::<String, CpuError>(e),
            },
    {
        let instruction = match Instruction::decode(&self.memory, self.pc) {
            Ok(i) => i,
            Err(e) => {
                return Err(e);
            },
        };
        let ghost m = self@;
        let mut out: Vec<u8> = Vec::new();

        self.push_line_prefix(&mut out, instruction);
        self.push_operand_fragment(&mut out, instruction);

        let ghost first_half = spec_first_half(m, instruction);
        proof {
            assert(out@ =~= first_half);
        }
        if out.len() < 48 {
            let needed = 48 - out.len();
            push_spaces(&mut out, needed);
        }
        proof {
            assert(out@ =~= spec_pad48(first_half));
        }
        self.push_state_fragment(&mut out);
        proof {
            assert(out@ == spec_pad48(first_half) + spec_state_fragment(m));
        }
        Ok(ascii_bytes_to_string(out))
    }
}

} // verus!
