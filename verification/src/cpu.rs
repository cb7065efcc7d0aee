//! The CPU core: the register file, the flat 64 KiB memory, stack
//! discipline, the addressing-mode resolver and the per-opcode execution
//! unit. The whole observable behaviour of one step is captured by the
//! specification interpreter `spec_step`, and the executable code is
//! proved equal to it.

use vstd::prelude::*;
use crate::flags::{flag_bit, spec_flags_byte, spec_flags_from_byte, CPUFlags};
use crate::instruction::{
    spec_decode, spec_instruction_wf, AddressingMode, CpuError, Instruction, Opcode,
};
use crate::utils::{
    is_negative, is_zero, spec_page_crossed, spec_word, to_address_from_bytes,
    to_bytes_from_address, was_page_boundary_crossed,
};

verus! {

/// The 6502 addresses exactly 64 KiB of memory.
pub const MEMORY_SIZE: usize = 0x10000;

/// The stack lives in the page 0x0100..=0x01FF, addressed by `SP`.
pub const STACK_PAGE: u16 = 0x0100;

/// The mathematical state of the CPU: every register, the seven flags,
/// the cycle counter and the memory contents.
#[verifier::ext_equal]
pub ghost struct CpuState {
    pub a: u8,
    pub x: u8,
    pub y: u8,
    pub pc: u16,
    pub sp: u8,
    pub cycles: nat,
    pub flags: CPUFlags,
    pub mem: Seq<u8>,
}

/// The CPU: three general registers, program counter, stack pointer,
/// cycle counter, status flags, and the 64 KiB memory it owns.
pub struct CPU6502 {
    pub x: u8,
    pub y: u8,
    pub a: u8,
    pub pc: u16,
    pub sp: u8,
    pub cycles: usize,
    pub flags: CPUFlags,
    pub memory: Vec<u8>,
}

impl View for CPU6502 {
    type V = CpuState;

    open spec fn view(&self) -> CpuState {
        CpuState {
            a: self.a,
            x: self.x,
            y: self.y,
            pc: self.pc,
            sp: self.sp,
            cycles: self.cycles as nat,
            flags: self.flags,
            mem: self.memory@,
        }
    }
}

/// Flags with zero and negative set from a freshly computed value: zero
/// when the value is 0, negative when its top bit is set.
pub open spec fn spec_nz_flags(flags: CPUFlags, value: u8) -> CPUFlags {
    CPUFlags { zero: value == 0, negative: value >= 0x80, ..flags }
}

/// Flags after comparing a register with a memory byte: zero and negative
/// come from the wrapping difference, carry from the unsigned order.
pub open spec fn spec_compare_flags(flags: CPUFlags, register_byte: u8, memory_byte: u8) -> CPUFlags {
    CPUFlags {
        carry: register_byte >= memory_byte,
        ..spec_nz_flags(flags, register_byte.wrapping_sub(memory_byte))
    }
}

/// The state after pushing one byte: the byte lands at `0x0100 | SP` and
/// the stack pointer decrements, wrapping modulo 256.
pub open spec fn spec_push(m: CpuState, byte: u8) -> CpuState {
    CpuState { mem: m.mem.update(0x100 + m.sp, byte), sp: m.sp.wrapping_sub(1), ..m }
}

/// The state after popping one byte: only the stack pointer moves, up by
/// one with wrap-around.
pub open spec fn spec_pop_state(m: CpuState) -> CpuState {
    CpuState { sp: m.sp.wrapping_add(1), ..m }
}

/// The byte a pop returns: the one at `0x0100 | SP` after the increment.
pub open spec fn spec_pop_value(m: CpuState) -> u8 {
    m.mem[0x100 + m.sp.wrapping_add(1)]
}

/// The state after the accumulator takes `A + operand + C`: the sum is
/// truncated to 8 bits, carry reports the 8-bit overflow, and the
/// overflow flag reports signed overflow — the operands agree in sign and
/// the result disagrees.
pub open spec fn spec_add_with_carry(m: CpuState, operand: u8) -> CpuState {
    let raw = m.a + operand + flag_bit(m.flags.carry);
    let result = (raw % 256) as u8;
    CpuState {
        a: result,
        flags: CPUFlags {
            carry: raw > 255,
            overflow: (m.a ^ result) & (operand ^ result) & 0x80 == 0x80,
            ..spec_nz_flags(m.flags, result)
        },
        ..m
    }
}

/// The page-cross penalty: one extra cycle, charged only by the
/// variable-cycle read modes.
pub open spec fn spec_extra_cycles(mode: AddressingMode, page_boundary_crossed: bool) -> nat {
    match mode {
        AddressingMode::AbsoluteIndexedX | AddressingMode::AbsoluteIndexedY
            | AddressingMode::IndirectIndexed => if page_boundary_crossed {
            1
        } else {
            0
        },
        _ => 0,
    }
}

/// The effective address of an instruction together with the
/// page-crossing report, for every mode that names memory; `None` for the
/// three register-only modes.
pub open spec fn spec_address_operand(m: CpuState, data: (u8, u8), mode: AddressingMode) -> Option<
    (u16, bool),
> {
    match mode {
        AddressingMode::Absolute => Some((spec_word(data.0, data.1) as u16, false)),
        AddressingMode::AbsoluteIndexedX => {
            let base = spec_word(data.0, data.1);
            let indexed = ((base + m.x) % 0x10000) as u16;
            Some((indexed, spec_page_crossed(base, indexed as int)))
        },
        AddressingMode::AbsoluteIndexedY => {
            let base = spec_word(data.0, data.1);
            let indexed = ((base + m.y) % 0x10000) as u16;
            Some((indexed, spec_page_crossed(base, indexed as int)))
        },
        AddressingMode::ZeroPage => Some((data.0 as u16, false)),
        AddressingMode::ZeroPageIndexedX => Some((data.0.wrapping_add(m.x) as u16, false)),
        AddressingMode::ZeroPageIndexedY => Some((data.0.wrapping_add(m.y) as u16, false)),
        AddressingMode::Indirect => {
            // The hardware increments only the low pointer byte when
            // fetching the high target byte, so a pointer ending in 0xFF
            // reads its high byte from the start of the same page.
            let pointer = spec_word(data.0, data.1);
            let lo = m.mem[pointer];
            let hi = m.mem[pointer / 256 * 256 + (pointer % 256 + 1) % 256];
            Some((spec_word(lo, hi) as u16, false))
        },
        AddressingMode::IndexedIndirect => {
            let pointer = data.0.wrapping_add(m.x);
            let lo = m.mem[pointer as int];
            let hi = m.mem[pointer.wrapping_add(1) as int];
            Some((spec_word(lo, hi) as u16, false))
        },
        AddressingMode::IndirectIndexed => {
            let base = spec_word(m.mem[data.0 as int], m.mem[data.0.wrapping_add(1) as int]);
            let indexed = ((base + m.y) % 0x10000) as u16;
            Some((indexed, spec_page_crossed(base, indexed as int)))
        },
        AddressingMode::Relative => {
            let next = m.pc.wrapping_add(2);
            let target = if data.0 < 0x80 {
                next.wrapping_add(data.0 as u16)
            } else {
                next.wrapping_add(data.0 as u16).wrapping_sub(0x100)
            };
            Some((target, spec_page_crossed(next as int, target as int)))
        },
        AddressingMode::Accumulator | AddressingMode::Immediate | AddressingMode::Implied => None,
    }
}

/// A model state is well formed when its memory is the 64 KiB space.
pub open spec fn spec_state_wf(m: CpuState) -> bool {
    m.mem.len() == 0x10000
}

/// The state after a conditional branch: not taken, nothing changes (the
/// common advance happens afterwards); taken, the program counter moves
/// to the resolved target — rewound by the width the common advance will
/// re-add — at a cost of one cycle, or two when the target lies on a
/// different page than the next instruction.
pub open spec fn spec_branch(m: CpuState, i: Instruction, condition: bool) -> Option<CpuState> {
    if !condition {
        Some(m)
    } else {
        match spec_address_operand(m, i.data, i.addressing_mode) {
            None => None,
            Some((target, page_boundary_crossed)) => Some(
                CpuState {
                    pc: target.wrapping_sub(i.width as u16),
                    cycles: m.cycles + 1 + if page_boundary_crossed {
                        1nat
                    } else {
                        0
                    },
                    ..m
                },
            ),
        }
    }
}

/// The value operand of an instruction: the immediate byte, the
/// accumulator, or the byte at the effective address; `None` for
/// `Implied`, which has no operand.
pub open spec fn spec_value_operand(m: CpuState, data: (u8, u8), mode: AddressingMode) -> Option<
    (u8, bool),
> {
    match mode {
        AddressingMode::Immediate => Some((data.0, false)),
        AddressingMode::Accumulator => Some((m.a, false)),
        AddressingMode::Implied => None,
        _ => match spec_address_operand(m, data, mode) {
            Some((address, page_boundary_crossed)) => Some(
                (m.mem[address as int], page_boundary_crossed),
            ),
            None => None,
        },
    }
}

/// The per-opcode state change, before the common program-counter advance
/// and base-cycle charge. `None` marks an instruction whose operand
/// cannot be resolved, which no decoded instruction produces.
pub open spec fn spec_execute_opcode(m: CpuState, i: Instruction) -> Option<CpuState> {
    match i.opcode {
        Opcode::ADC => match spec_value_operand(m, i.data, i.addressing_mode) {
            None => None,
            Some((value, crossed)) => {
                let m1 = spec_add_with_carry(m, value);
                Some(
                    CpuState {
                        cycles: (m1.cycles + spec_extra_cycles(i.addressing_mode, crossed)) as nat,
                        ..m1
                    },
                )
            },
        },
        Opcode::SBC => match spec_value_operand(m, i.data, i.addressing_mode) {
            None => None,
            Some((value, crossed)) => {
                let m1 = spec_add_with_carry(m, value ^ 0xFF);
                Some(
                    CpuState {
                        cycles: (m1.cycles + spec_extra_cycles(i.addressing_mode, crossed)) as nat,
                        ..m1
                    },
                )
            },
        },
        Opcode::AND => match spec_value_operand(m, i.data, i.addressing_mode) {
            None => None,
            Some((value, crossed)) => {
                let result = m.a & value;
                Some(
                    CpuState {
                        a: result,
                        flags: spec_nz_flags(m.flags, result),
                        cycles: (m.cycles + spec_extra_cycles(i.addressing_mode, crossed)) as nat,
                        ..m
                    },
                )
            },
        },
        Opcode::ORA => match spec_value_operand(m, i.data, i.addressing_mode) {
            None => None,
            Some((value, crossed)) => {
                let result = m.a | value;
                Some(
                    CpuState {
                        a: result,
                        flags: spec_nz_flags(m.flags, result),
                        cycles: (m.cycles + spec_extra_cycles(i.addressing_mode, crossed)) as nat,
                        ..m
                    },
                )
            },
        },
        Opcode::EOR => match spec_value_operand(m, i.data, i.addressing_mode) {
            None => None,
            Some((value, crossed)) => {
                let result = m.a ^ value;
                Some(
                    CpuState {
                        a: result,
                        flags: spec_nz_flags(m.flags, result),
                        cycles: (m.cycles + spec_extra_cycles(i.addressing_mode, crossed)) as nat,
                        ..m
                    },
                )
            },
        },
        Opcode::ASL => {
            if i.addressing_mode == AddressingMode::Accumulator {
                let result = m.a << 1;
                Some(
                    CpuState {
                        a: result,
                        flags: CPUFlags {
                            carry: m.a & 0x80 == 0x80,
                            ..spec_nz_flags(m.flags, result)
                        },
                        ..m
                    },
                )
            } else {
                match spec_address_operand(m, i.data, i.addressing_mode) {
                    None => None,
                    Some((address, _)) => {
                        let byte = m.mem[address as int];
                        let result = byte << 1;
                        Some(
                            CpuState {
                                mem: m.mem.update(address as int, result),
                                flags: CPUFlags {
                                    carry: byte & 0x80 == 0x80,
                                    ..spec_nz_flags(m.flags, result)
                                },
                                ..m
                            },
                        )
                    },
                }
            }
        },
        Opcode::LSR => {
            if i.addressing_mode == AddressingMode::Accumulator {
                let result = m.a >> 1;
                Some(
                    CpuState {
                        a: result,
                        flags: CPUFlags {
                            carry: m.a & 0x01 == 0x01,
                            ..spec_nz_flags(m.flags, result)
                        },
                        ..m
                    },
                )
            } else {
                match spec_address_operand(m, i.data, i.addressing_mode) {
                    None => None,
                    Some((address, _)) => {
                        let byte = m.mem[address as int];
                        let result = byte >> 1;
                        Some(
                            CpuState {
                                mem: m.mem.update(address as int, result),
                                flags: CPUFlags {
                                    carry: byte & 0x01 == 0x01,
                                    ..spec_nz_flags(m.flags, result)
                                },
                                ..m
                            },
                        )
                    },
                }
            }
        },
        Opcode::ROL => {
            let carry_in: u8 = if m.flags.carry {
                1
            } else {
                0
            };
            if i.addressing_mode == AddressingMode::Accumulator {
                let result = (m.a << 1) | carry_in;
                Some(
                    CpuState {
                        a: result,
                        flags: CPUFlags {
                            carry: m.a & 0x80 == 0x80,
                            ..spec_nz_flags(m.flags, result)
                        },
                        ..m
                    },
                )
            } else {
                match spec_address_operand(m, i.data, i.addressing_mode) {
                    None => None,
                    Some((address, _)) => {
                        let byte = m.mem[address as int];
                        let result = (byte << 1) | carry_in;
                        Some(
                            CpuState {
                                mem: m.mem.update(address as int, result),
                                flags: CPUFlags {
                                    carry: byte & 0x80 == 0x80,
                                    ..spec_nz_flags(m.flags, result)
                                },
                                ..m
                            },
                        )
                    },
                }
            }
        },
        Opcode::ROR => {
            let carry_in: u8 = if m.flags.carry {
                0x80
            } else {
                0
            };
            if i.addressing_mode == AddressingMode::Accumulator {
                let result = (m.a >> 1) | carry_in;
                Some(
                    CpuState {
                        a: result,
                        flags: CPUFlags {
                            carry: m.a & 0x01 == 0x01,
                            ..spec_nz_flags(m.flags, result)
                        },
                        ..m
                    },
                )
            } else {
                match spec_address_operand(m, i.data, i.addressing_mode) {
                    None => None,
                    Some((address, _)) => {
                        let byte = m.mem[address as int];
                        let result = (byte >> 1) | carry_in;
                        Some(
                            CpuState {
                                mem: m.mem.update(address as int, result),
                                flags: CPUFlags {
                                    carry: byte & 0x01 == 0x01,
                                    ..spec_nz_flags(m.flags, result)
                                },
                                ..m
                            },
                        )
                    },
                }
            }
        },
        Opcode::BCC => spec_branch(m, i, !m.flags.carry),
        Opcode::BCS => spec_branch(m, i, m.flags.carry),
        Opcode::BEQ => spec_branch(m, i, m.flags.zero),
        Opcode::BNE => spec_branch(m, i, !m.flags.zero),
        Opcode::BMI => spec_branch(m, i, m.flags.negative),
        Opcode::BPL => spec_branch(m, i, !m.flags.negative),
        Opcode::BVS => spec_branch(m, i, m.flags.overflow),
        Opcode::BVC => spec_branch(m, i, !m.flags.overflow),
        Opcode::BIT => match spec_value_operand(m, i.data, i.addressing_mode) {
            None => None,
            Some((value, _)) => Some(
                CpuState {
                    flags: CPUFlags {
                        negative: value & 0x80 == 0x80,
                        overflow: value & 0x40 == 0x40,
                        zero: m.a & value == 0,
                        ..m.flags
                    },
                    ..m
                },
            ),
        },
        Opcode::BRK => {
            let ret = m.pc.wrapping_add(2);
            let m1 = spec_push(m, (ret / 0x100) as u8);
            let m2 = spec_push(m1, (ret % 0x100) as u8);
            let m3 = spec_push(m2, spec_flags_byte(m.flags) | 0x10);
            let target = spec_word(m3.mem[0xFFFE], m3.mem[0xFFFF]) as u16;
            Some(
                CpuState {
                    flags: CPUFlags { interrupt_disable: true, ..m.flags },
                    pc: target.wrapping_sub(i.width as u16),
                    ..m3
                },
            )
        },
        Opcode::CLC => Some(CpuState { flags: CPUFlags { carry: false, ..m.flags }, ..m }),
        Opcode::CLD => Some(CpuState { flags: CPUFlags { decimal_mode: false, ..m.flags }, ..m }),
        Opcode::CLI => Some(
            CpuState { flags: CPUFlags { interrupt_disable: false, ..m.flags }, ..m },
        ),
        Opcode::CLV => Some(CpuState { flags: CPUFlags { overflow: false, ..m.flags }, ..m }),
        Opcode::SEC => Some(CpuState { flags: CPUFlags { carry: true, ..m.flags }, ..m }),
        Opcode::SED => Some(CpuState { flags: CPUFlags { decimal_mode: true, ..m.flags }, ..m }),
        Opcode::SEI => Some(
            CpuState { flags: CPUFlags { interrupt_disable: true, ..m.flags }, ..m },
        ),
        Opcode::CMP => match spec_value_operand(m, i.data, i.addressing_mode) {
            None => None,
            Some((value, crossed)) => Some(
                CpuState {
                    flags: spec_compare_flags(m.flags, m.a, value),
                    cycles: (m.cycles + spec_extra_cycles(i.addressing_mode, crossed)) as nat,
                    ..m
                },
            ),
        },
        Opcode::CPX => match spec_value_operand(m, i.data, i.addressing_mode) {
            None => None,
            Some((value, _)) => Some(
                CpuState { flags: spec_compare_flags(m.flags, m.x, value), ..m },
            ),
        },
        Opcode::CPY => match spec_value_operand(m, i.data, i.addressing_mode) {
            None => None,
            Some((value, _)) => Some(
                CpuState { flags: spec_compare_flags(m.flags, m.y, value), ..m },
            ),
        },
        Opcode::DEC => match spec_address_operand(m, i.data, i.addressing_mode) {
            None => None,
            Some((address, _)) => {
                let result = m.mem[address as int].wrapping_sub(1);
                Some(
                    CpuState {
                        mem: m.mem.update(address as int, result),
                        flags: spec_nz_flags(m.flags, result),
                        ..m
                    },
                )
            },
        },
        Opcode::INC => match spec_address_operand(m, i.data, i.addressing_mode) {
            None => None,
            Some((address, _)) => {
                let result = m.mem[address as int].wrapping_add(1);
                Some(
                    CpuState {
                        mem: m.mem.update(address as int, result),
                        flags: spec_nz_flags(m.flags, result),
                        ..m
                    },
                )
            },
        },
        Opcode::DEX => {
            let result = m.x.wrapping_sub(1);
            Some(CpuState { x: result, flags: spec_nz_flags(m.flags, result), ..m })
        },
        Opcode::DEY => {
            let result = m.y.wrapping_sub(1);
            Some(CpuState { y: result, flags: spec_nz_flags(m.flags, result), ..m })
        },
        Opcode::INX => {
            let result = m.x.wrapping_add(1);
            Some(CpuState { x: result, flags: spec_nz_flags(m.flags, result), ..m })
        },
        Opcode::INY => {
            let result = m.y.wrapping_add(1);
            Some(CpuState { y: result, flags: spec_nz_flags(m.flags, result), ..m })
        },
        Opcode::JMP => match spec_address_operand(m, i.data, i.addressing_mode) {
            None => None,
            Some((target, _)) => Some(CpuState { pc: target.wrapping_sub(i.width as u16), ..m }),
        },
        Opcode::JSR => match spec_address_operand(m, i.data, i.addressing_mode) {
            None => None,
            Some((target, _)) => {
                // The pushed return address is PC + 2, the last byte of
                // the JSR itself; RTS compensates by adding one.
                let ret = m.pc.wrapping_add(2);
                let m1 = spec_push(m, (ret / 0x100) as u8);
                let m2 = spec_push(m1, (ret % 0x100) as u8);
                Some(CpuState { pc: target.wrapping_sub(i.width as u16), ..m2 })
            },
        },
        Opcode::LDA => match spec_value_operand(m, i.data, i.addressing_mode) {
            None => None,
            Some((value, crossed)) => Some(
                CpuState {
                    a: value,
                    flags: spec_nz_flags(m.flags, value),
                    cycles: (m.cycles + spec_extra_cycles(i.addressing_mode, crossed)) as nat,
                    ..m
                },
            ),
        },
        Opcode::LDX => match spec_value_operand(m, i.data, i.addressing_mode) {
            None => None,
            Some((value, crossed)) => Some(
                CpuState {
                    x: value,
                    flags: spec_nz_flags(m.flags, value),
                    cycles: (m.cycles + spec_extra_cycles(i.addressing_mode, crossed)) as nat,
                    ..m
                },
            ),
        },
        Opcode::LDY => match spec_value_operand(m, i.data, i.addressing_mode) {
            None => None,
            Some((value, crossed)) => Some(
                CpuState {
                    y: value,
                    flags: spec_nz_flags(m.flags, value),
                    cycles: (m.cycles + spec_extra_cycles(i.addressing_mode, crossed)) as nat,
                    ..m
                },
            ),
        },
        Opcode::NOP => Some(m),
        Opcode::PHA => Some(spec_push(m, m.a)),
        Opcode::PHP => Some(spec_push(m, spec_flags_byte(m.flags) | 0x10)),
        Opcode::PLA => {
            let value = spec_pop_value(m);
            Some(
                CpuState { a: value, flags: spec_nz_flags(m.flags, value), ..spec_pop_state(m) },
            )
        },
        Opcode::PLP => {
            let value = spec_pop_value(m);
            Some(
                CpuState {
                    flags: CPUFlags { break_command: false, ..spec_flags_from_byte(value) },
                    ..spec_pop_state(m)
                },
            )
        },
        Opcode::RTI => {
            let status = spec_pop_value(m);
            let m1 = spec_pop_state(m);
            let lo = spec_pop_value(m1);
            let m2 = spec_pop_state(m1);
            let hi = spec_pop_value(m2);
            let m3 = spec_pop_state(m2);
            Some(
                CpuState {
                    flags: CPUFlags { break_command: false, ..spec_flags_from_byte(status) },
                    pc: (spec_word(lo, hi) as u16).wrapping_sub(i.width as u16),
                    ..m3
                },
            )
        },
        Opcode::RTS => {
            // The popped address is the last byte of the JSR; the common
            // width-1 advance supplies the + 1.
            let lo = spec_pop_value(m);
            let m1 = spec_pop_state(m);
            let hi = spec_pop_value(m1);
            let m2 = spec_pop_state(m1);
            Some(CpuState { pc: spec_word(lo, hi) as u16, ..m2 })
        },
        Opcode::STA => match spec_address_operand(m, i.data, i.addressing_mode) {
            None => None,
            Some((address, _)) => Some(
                CpuState { mem: m.mem.update(address as int, m.a), ..m },
            ),
        },
        Opcode::STX => match spec_address_operand(m, i.data, i.addressing_mode) {
            None => None,
            Some((address, _)) => Some(
                CpuState { mem: m.mem.update(address as int, m.x), ..m },
            ),
        },
        Opcode::STY => match spec_address_operand(m, i.data, i.addressing_mode) {
            None => None,
            Some((address, _)) => Some(
                CpuState { mem: m.mem.update(address as int, m.y), ..m },
            ),
        },
        Opcode::TAX => Some(CpuState { x: m.a, flags: spec_nz_flags(m.flags, m.a), ..m }),
        Opcode::TAY => Some(CpuState { y: m.a, flags: spec_nz_flags(m.flags, m.a), ..m }),
        Opcode::TSX => Some(CpuState { x: m.sp, flags: spec_nz_flags(m.flags, m.sp), ..m }),
        Opcode::TXA => Some(CpuState { a: m.x, flags: spec_nz_flags(m.flags, m.x), ..m }),
        Opcode::TXS => Some(CpuState { sp: m.x, ..m }),
        Opcode::TYA => Some(CpuState { a: m.y, flags: spec_nz_flags(m.flags, m.y), ..m }),
    }
}

/// The common end of every instruction: the program counter advances by
/// the instruction width modulo 65536 and the base cycles are charged.
/// Control-flow opcodes pre-rewind the counter so this advance lands them
/// exactly on their target.
pub open spec fn spec_finish(m: CpuState, i: Instruction) -> CpuState {
    CpuState { pc: m.pc.wrapping_add(i.width as u16), cycles: (m.cycles + i.cycles) as nat, ..m }
}

/// One retired instruction: the per-opcode change followed by the common
/// advance and base-cycle charge.
pub open spec fn spec_execute(m: CpuState, i: Instruction) -> Option<CpuState> {
    match spec_execute_opcode(m, i) {
        None => None,
        Some(m1) => Some(spec_finish(m1, i)),
    }
}

/// One full step: decode at the program counter, then execute. Errors
/// leave the state untouched.
pub open spec fn spec_step(m: CpuState) -> Result<CpuState, CpuError> {
    match spec_decode(m.mem, m.pc) {
        Err(e) => Err(e),
        Ok(i) => match spec_execute(m, i) {
            Some(m2) => Ok(m2),
            None => Err(CpuError::UnresolvableOperand(i.addressing_mode)),
        },
    }
}

impl CPU6502 {
    /// The memory is exactly the 64 KiB address space.
    pub open spec fn wf(&self) -> bool {
        self.memory@.len() == 0x10000
    }

    /// A CPU in the documented reset state, owning the given memory:
    /// `PC = 0xC000`, registers clear, `SP = 0xFD`, status byte 0x24
    /// (interrupt-disable set), cycle counter seeded at 7.
    pub fn new(memory: Vec<u8>) -> (cpu: Self)
        requires
            memory@.len() == 0x10000,
        ensures
            cpu.wf(),
            cpu@ == (CpuState {
                a: 0,
                x: 0,
                y: 0,
                pc: 0xC000,
                sp: 0xFD,
                cycles: 7,
                flags: spec_flags_from_byte(0x24),
                mem: memory@,
            }),
    {
        Self {
            x: 0,
            y: 0,
            a: 0,
            pc: 0xC000,
            cycles: 7,
            sp: 0xFD,
            flags: CPUFlags::from_byte(0x24),
            memory,
        }
    }

    /// Copy a block of bytes into memory starting at `location`. The block
    /// must fit below the top of the address space.
    pub fn load_memory(&mut self, location: u16, data: &[u8])
        requires
            old(self).wf(),
            location + data@.len() <= 0x10000,
        ensures
            final(self).wf(),
            final(self)@ == (CpuState {
                mem: final(self)@.mem,
                ..old(self)@
            }),
            final(self)@.mem.len() == 0x10000,
            forall|i: int|
                0 <= i < 0x10000
                    ==> final(self)@.mem[i] == if location <= i < location + data@.len() {
                    data@[i - location]
                } else {
                    old(self)@.mem[i]
                },
    {
        let mut index: usize = 0;
        while index < data.len()
            invariant
                self.wf(),
                0 <= index <= data@.len(),
                location + data@.len() <= 0x10000,
                self@ == (CpuState { mem: self@.mem, ..old(self)@ }),
                forall|i: int|
                    0 <= i < 0x10000
                        ==> self@.mem[i] == if location <= i < location + index {
                        data@[i - location]
                    } else {
                        old(self)@.mem[i]
                    },
            decreases data@.len() - index,
        {
            self.memory[location as usize + index] = data[index];
            index += 1;
        }
    }

    /// Push one byte: it lands at `0x0100 | SP`, then the stack pointer
    /// decrements, wrapping modulo 256.
    pub fn push_on_stack(&mut self, byte: u8)
        requires
            old(self).wf(),
        ensures
            final(self).wf(),
            final(self)@ == spec_push(old(self)@, byte),
    {
        let address = STACK_PAGE + self.sp as u16;
        self.memory[address as usize] = byte;
        self.sp = self.sp.wrapping_sub(1);
    }

    /// Pop one byte: the stack pointer increments, wrapping modulo 256,
    /// and the byte at the new `0x0100 | SP` is returned.
    pub fn pop_from_stack(&mut self) -> (byte: u8)
        requires
            old(self).wf(),
        ensures
            final(self).wf(),
            final(self)@ == spec_pop_state(old(self)@),
            byte == spec_pop_value(old(self)@),
    {
        self.sp = self.sp.wrapping_add(1);
        let address = STACK_PAGE + self.sp as u16;
        let byte = self.memory[address as usize];
        byte
    }

    /// Set zero and negative from a freshly computed value.
    pub fn set_flags(&mut self, byte: u8)
        ensures
            final(self)@ == (CpuState {
                flags: spec_nz_flags(old(self)@.flags, byte),
                ..old(self)@
            }),
    {
        self.flags.zero = is_zero(byte);
        self.flags.negative = is_negative(byte);
    }

    /// Set zero and negative from the wrapping difference of a register
    /// and a memory byte, and carry from their unsigned order.
    pub fn compare_and_set_flags(&mut self, register_byte: u8, memory_byte: u8)
        ensures
            final(self)@ == (CpuState {
                flags: spec_compare_flags(old(self)@.flags, register_byte, memory_byte),
                ..old(self)@
            }),
    {
        let result = register_byte.wrapping_sub(memory_byte);
        self.set_flags(result);
        self.flags.carry = register_byte >= memory_byte;
    }

    /// Add an operand and the carry into the accumulator, deriving carry,
    /// overflow, zero and negative.
    pub fn add_with_carry(&mut self, operand: u8)
        ensures
            final(self)@ == spec_add_with_carry(old(self)@, operand),
    {
        let carry_in: u16 = if self.flags.carry {
            1
        } else {
            0
        };
        let raw: u16 = self.a as u16 + operand as u16 + carry_in;
        let result = (raw % 256) as u8;
        let old_a = self.a;
        self.set_flags(result);
        self.flags.carry = raw > 255;
        // Signed overflow: the operands agree in sign and the result disagrees
        self.flags.overflow = ((old_a ^ result) & (operand ^ result) & 0x80) == 0x80;
        self.a = result;
    }

    /// Charge the page-cross penalty for the variable-cycle read modes.
    pub fn add_extra_cycles(&mut self, addressing_mode: &AddressingMode, page_boundary_crossed: bool)
        requires
            old(self).cycles + 1 <= usize::MAX,
        ensures
            final(self)@ == (CpuState {
                cycles: old(self)@.cycles + spec_extra_cycles(*addressing_mode, page_boundary_crossed),
                ..old(self)@
            }),
    {
        match addressing_mode {
            AddressingMode::AbsoluteIndexedX | AddressingMode::AbsoluteIndexedY
                | AddressingMode::IndirectIndexed => {
                if page_boundary_crossed {
                    self.cycles += 1
                }
            },
            _ => (),
        }
    }

    /// Resolve the effective address for an address-taking mode, with the
    /// page-crossing report; the register-only modes have no address.
    pub fn get_address_operand(
        &self,
        instruction_data: (u8, u8),
        addressing_mode: AddressingMode,
    ) -> (r: Result<(usize, bool), CpuError>)
        requires
            self.wf(),
        ensures
            match spec_address_operand(self@, instruction_data, addressing_mode) {
                Some((address, page_boundary_crossed)) => r matches Ok(p) && p.0 == address as usize
                    && p.1 == page_boundary_crossed,
                None => r == Err::<(usize, bool), CpuError>(
                    CpuError::UnresolvableOperand(addressing_mode),
                ),
            },
    {
        match addressing_mode {
            AddressingMode::Absolute => {
                let address = to_address_from_bytes(instruction_data);
                Ok((address, false))
            },
            AddressingMode::AbsoluteIndexedX => {
                let address = to_address_from_bytes(instruction_data);
                let indexed_address = (address + self.x as usize) % 0x10000;
                Ok((indexed_address, was_page_boundary_crossed(address, indexed_address)))
            },
            AddressingMode::AbsoluteIndexedY => {
                let address = to_address_from_bytes(instruction_data);
                let indexed_address = (address + self.y as usize) % 0x10000;
                Ok((indexed_address, was_page_boundary_crossed(address, indexed_address)))
            },
            AddressingMode::ZeroPage => Ok((instruction_data.0 as usize, false)),
            AddressingMode::ZeroPageIndexedX => Ok(
                (instruction_data.0.wrapping_add(self.x) as usize, false),
            ),
            AddressingMode::ZeroPageIndexedY => Ok(
                (instruction_data.0.wrapping_add(self.y) as usize, false),
            ),
            AddressingMode::Indirect => {
                // The high byte of the target comes from the same page as
                // the pointer: only the low pointer byte is incremented.
                let pointer = to_address_from_bytes(instruction_data);
                let lo = self.memory[pointer];
                let hi_address = pointer / 256 * 256 + (pointer % 256 + 1) % 256;
                let hi = self.memory[hi_address];
                Ok((to_address_from_bytes((lo, hi)), false))
            },
            AddressingMode::IndexedIndirect => {
                let pointer = instruction_data.0.wrapping_add(self.x);
                let lo = self.memory[pointer as usize];
                let hi = self.memory[pointer.wrapping_add(1) as usize];
                Ok((to_address_from_bytes((lo, hi)), false))
            },
            AddressingMode::IndirectIndexed => {
                let lo = self.memory[instruction_data.0 as usize];
                let hi = self.memory[instruction_data.0.wrapping_add(1) as usize];
                let base = to_address_from_bytes((lo, hi));
                let indexed_address = (base + self.y as usize) % 0x10000;
                Ok((indexed_address, was_page_boundary_crossed(base, indexed_address)))
            },
            AddressingMode::Relative => {
                let next = self.pc.wrapping_add(2);
                let target = if instruction_data.0 < 0x80 {
                    next.wrapping_add(instruction_data.0 as u16)
                } else {
                    next.wrapping_add(instruction_data.0 as u16).wrapping_sub(0x100)
                };
                Ok((target as usize, was_page_boundary_crossed(next as usize, target as usize)))
            },
            AddressingMode::Accumulator | AddressingMode::Immediate | AddressingMode::Implied => Err(
                CpuError::UnresolvableOperand(addressing_mode),
            ),
        }
    }

    /// Resolve the value operand: the immediate byte, the accumulator, or
    /// the byte in memory at the effective address; `Implied` has none.
    pub fn get_value_operand(
        &self,
        instruction_data: (u8, u8),
        addressing_mode: AddressingMode,
    ) -> (r: Result<(u8, bool), CpuError>)
        requires
            self.wf(),
        ensures
            match spec_value_operand(self@, instruction_data, addressing_mode) {
                Some((value, page_boundary_crossed)) => r == Ok::<(u8, bool), CpuError>(
                    (value, page_boundary_crossed),
                ),
                None => r == Err::<(u8, bool), CpuError>(
                    CpuError::UnresolvableOperand(addressing_mode),
                ),
            },
    {
        match addressing_mode {
            AddressingMode::Immediate => Ok((instruction_data.0, false)),
            AddressingMode::Accumulator => Ok((self.a, false)),
            AddressingMode::Implied => Err(CpuError::UnresolvableOperand(addressing_mode)),
            _ => {
                let (address, page_boundary_crossed) = match self.get_address_operand(
                    instruction_data,
                    addressing_mode,
                ) {
                    Ok(p) => p,
                    Err(e) => {
                        return Err(e);
                    },
                };
                Ok((self.memory[address], page_boundary_crossed))
            },
        }
    }

    /// Take a branch when its condition holds: the program counter moves
    /// to the resolved target (rewound by the width that the common
    /// advance re-adds) for one extra cycle, plus one more when the
    /// target sits on a different page than the next instruction.
    pub fn branch_on_condition(&mut self, condition: bool, instruction: &Instruction) -> (r: Result<
        (),
        CpuError,
    >)
        requires
            old(self).wf(),
            spec_instruction_wf(*instruction),
            old(self).cycles + 2 <= usize::MAX,
        ensures
            final(self).wf(),
            match spec_branch(old(self)@, *instruction, condition) {
                Some(m) => r == Ok::<(), CpuError>(()) && final(self)@ == m,
                None => r == Err::<(), CpuError>(
                    CpuError::UnresolvableOperand(instruction.addressing_mode),
                ) && final(self)@ == old(self)@,
            },
    {
        if condition {
            let (branch_address, page_boundary_crossed) = match self.get_address_operand(
                instruction.data,
                instruction.addressing_mode,
            ) {
                Ok(p) => p,
                Err(e) => {
                    return Err(e);
                },
            };
            self.pc = (branch_address as u16).wrapping_sub(instruction.width as u16);
            self.cycles += 1;
            if page_boundary_crossed {
                self.cycles += 1;
            }
        }
        Ok(())
    }

    /// Load and store: `LDA`/`LDX`/`LDY` load a register and set N/Z, with the page-cross penalty on reads; `STA`/`STX`/`STY` write a register to memory and touch no flags.
    #[verifier::rlimit(100)]
    #[verifier::spinoff_prover]
    fn execute_load_store(&mut self, instruction: Instruction) -> (r: Result<(), CpuError>)
        requires
            old(self).wf(),
            spec_instruction_wf(instruction),
            old(self).cycles + 9 <= usize::MAX,
            instruction.opcode == Opcode::LDA
                || instruction.opcode == Opcode::LDX
                || instruction.opcode == Opcode::LDY
                || instruction.opcode == Opcode::STA
                || instruction.opcode == Opcode::STX
                || instruction.opcode == Opcode::STY,
        ensures
            final(self).wf(),
            final(self).cycles <= old(self).cycles + 2,
            match spec_execute_opcode(old(self)@, instruction) {
                Some(m) => r == Ok::<(), CpuError>(()) && final(self)@ == m,
                None => r == Err::<(), CpuError>(
                    CpuError::UnresolvableOperand(instruction.addressing_mode),
                ) && final(self)@ == old(self)@,
            },
    {
        let addressing_mode = instruction.addressing_mode;
        let instruction_data = instruction.data;
        match instruction.opcode {
            Opcode::LDA => {
                let (byte, page_boundary_crossed) = match self.get_value_operand(
                    instruction_data,
                    addressing_mode,
                ) {
                    Ok(p) => p,
                    Err(e) => {
                        return Err(e);
                    },
                };
                self.a = byte;
                self.set_flags(byte);
                self.add_extra_cycles(&addressing_mode, page_boundary_crossed);
            },
            Opcode::LDX => {
                let (byte, page_boundary_crossed) = match self.get_value_operand(
                    instruction_data,
                    addressing_mode,
                ) {
                    Ok(p) => p,
                    Err(e) => {
                        return Err(e);
                    },
                };
                self.x = byte;
                self.set_flags(byte);
                self.add_extra_cycles(&addressing_mode, page_boundary_crossed);
            },
            Opcode::LDY => {
                let (byte, page_boundary_crossed) = match self.get_value_operand(
                    instruction_data,
                    addressing_mode,
                ) {
                    Ok(p) => p,
                    Err(e) => {
                        return Err(e);
                    },
                };
                self.y = byte;
                self.set_flags(byte);
                self.add_extra_cycles(&addressing_mode, page_boundary_crossed);
            },
            Opcode::STA => {
                let (address, _) = match self.get_address_operand(instruction_data, addressing_mode)
                {
                    Ok(p) => p,
                    Err(e) => {
                        return Err(e);
                    },
                };
                self.memory[address] = self.a;
            },
            Opcode::STX => {
                let (address, _) = match self.get_address_operand(instruction_data, addressing_mode)
                {
                    Ok(p) => p,
                    Err(e) => {
                        return Err(e);
                    },
                };
                self.memory[address] = self.x;
            },
            Opcode::STY => {
                let (address, _) = match self.get_address_operand(instruction_data, addressing_mode)
                {
                    Ok(p) => p,
                    Err(e) => {
                        return Err(e);
                    },
                };
                self.memory[address] = self.y;
            },
            // Unreachable: the callers dispatch only the opcodes above
            _ => (),
        }
        Ok(())
    }

    /// Arithmetic and comparison: `ADC`/`SBC` run through the shared add-with-carry, `CMP`/`CPX`/`CPY` set flags from a wrapping difference, `BIT` copies the operand's top bits into N/V and tests it against the accumulator.
    #[verifier::rlimit(100)]
    #[verifier::spinoff_prover]
    fn execute_arithmetic(&mut self, instruction: Instruction) -> (r: Result<(), CpuError>)
        requires
            old(self).wf(),
            spec_instruction_wf(instruction),
            old(self).cycles + 9 <= usize::MAX,
            instruction.opcode == Opcode::ADC
                || instruction.opcode == Opcode::SBC
                || instruction.opcode == Opcode::CMP
                || instruction.opcode == Opcode::CPX
                || instruction.opcode == Opcode::CPY
                || instruction.opcode == Opcode::BIT,
        ensures
            final(self).wf(),
            final(self).cycles <= old(self).cycles + 2,
            match spec_execute_opcode(old(self)@, instruction) {
                Some(m) => r == Ok::<(), CpuError>(()) && final(self)@ == m,
                None => r == Err::<(), CpuError>(
                    CpuError::UnresolvableOperand(instruction.addressing_mode),
                ) && final(self)@ == old(self)@,
            },
    {
        let addressing_mode = instruction.addressing_mode;
        let instruction_data = instruction.data;
        match instruction.opcode {
            Opcode::ADC => {
                let (operand, page_boundary_crossed) = match self.get_value_operand(
                    instruction_data,
                    addressing_mode,
                ) {
                    Ok(p) => p,
                    Err(e) => {
                        return Err(e);
                    },
                };
                self.add_with_carry(operand);
                self.add_extra_cycles(&addressing_mode, page_boundary_crossed);
            },
            Opcode::SBC => {
                let (operand, page_boundary_crossed) = match self.get_value_operand(
                    instruction_data,
                    addressing_mode,
                ) {
                    Ok(p) => p,
                    Err(e) => {
                        return Err(e);
                    },
                };
                self.add_with_carry(operand ^ 0xFF);
                self.add_extra_cycles(&addressing_mode, page_boundary_crossed);
            },
            Opcode::CMP => {
                let (operand, page_boundary_crossed) = match self.get_value_operand(
                    instruction_data,
                    addressing_mode,
                ) {
                    Ok(p) => p,
                    Err(e) => {
                        return Err(e);
                    },
                };
                self.compare_and_set_flags(self.a, operand);
                self.add_extra_cycles(&addressing_mode, page_boundary_crossed);
            },
            Opcode::CPX => {
                let (operand, _) = match self.get_value_operand(instruction_data, addressing_mode) {
                    Ok(p) => p,
                    Err(e) => {
                        return Err(e);
                    },
                };
                self.compare_and_set_flags(self.x, operand);
            },
            Opcode::CPY => {
                let (operand, _) = match self.get_value_operand(instruction_data, addressing_mode) {
                    Ok(p) => p,
                    Err(e) => {
                        return Err(e);
                    },
                };
                self.compare_and_set_flags(self.y, operand);
            },
            Opcode::BIT => {
                let (byte, _) = match self.get_value_operand(instruction_data, addressing_mode) {
                    Ok(p) => p,
                    Err(e) => {
                        return Err(e);
                    },
                };
                self.flags.negative = (byte & 0x80) == 0x80;
                self.flags.overflow = (byte & 0x40) == 0x40;
                self.flags.zero = (self.a & byte) == 0;
            },
            // Unreachable: the callers dispatch only the opcodes above
            _ => (),
        }
        Ok(())
    }

    /// Logical operations: `AND`/`ORA`/`EOR` combine the operand into the accumulator and set N/Z.
    #[verifier::rlimit(100)]
    #[verifier::spinoff_prover]
    fn execute_logical(&mut self, instruction: Instruction) -> (r: Result<(), CpuError>)
        requires
            old(self).wf(),
            spec_instruction_wf(instruction),
            old(self).cycles + 9 <= usize::MAX,
            instruction.opcode == Opcode::AND
                || instruction.opcode == Opcode::ORA
                || instruction.opcode == Opcode::EOR,
        ensures
            final(self).wf(),
            final(self).cycles <= old(self).cycles + 2,
            match spec_execute_opcode(old(self)@, instruction) {
                Some(m) => r == Ok::<(), CpuError>(()) && final(self)@ == m,
                None => r == Err::<(), CpuError>(
                    CpuError::UnresolvableOperand(instruction.addressing_mode),
                ) && final(self)@ == old(self)@,
            },
    {
        let addressing_mode = instruction.addressing_mode;
        let instruction_data = instruction.data;
        match instruction.opcode {
            Opcode::AND => {
                let (operand, page_boundary_crossed) = match self.get_value_operand(
                    instruction_data,
                    addressing_mode,
                ) {
                    Ok(p) => p,
                    Err(e) => {
                        return Err(e);
                    },
                };
                self.a = self.a & operand;
                let result = self.a;
                self.set_flags(result);
                self.add_extra_cycles(&addressing_mode, page_boundary_crossed);
            },
            Opcode::ORA => {
                let (operand, page_boundary_crossed) = match self.get_value_operand(
                    instruction_data,
                    addressing_mode,
                ) {
                    Ok(p) => p,
                    Err(e) => {
                        return Err(e);
                    },
                };
                self.a = self.a | operand;
                let result = self.a;
                self.set_flags(result);
                self.add_extra_cycles(&addressing_mode, page_boundary_crossed);
            },
            Opcode::EOR => {
                let (operand, page_boundary_crossed) = match self.get_value_operand(
                    instruction_data,
                    addressing_mode,
                ) {
                    Ok(p) => p,
                    Err(e) => {
                        return Err(e);
                    },
                };
                self.a = self.a ^ operand;
                let result = self.a;
                self.set_flags(result);
                self.add_extra_cycles(&addressing_mode, page_boundary_crossed);
            },
            // Unreachable: the callers dispatch only the opcodes above
            _ => (),
        }
        Ok(())
    }

    /// Shifts and rotates, on the accumulator or on memory: the bit shifted out lands in carry, and rotates shift the old carry in.
    #[verifier::rlimit(100)]
    #[verifier::spinoff_prover]
    fn execute_shift(&mut self, instruction: Instruction) -> (r: Result<(), CpuError>)
        requires
            old(self).wf(),
            spec_instruction_wf(instruction),
            old(self).cycles + 9 <= usize::MAX,
            instruction.opcode == Opcode::ASL
                || instruction.opcode == Opcode::LSR
                || instruction.opcode == Opcode::ROL
                || instruction.opcode == Opcode::ROR,
        ensures
            final(self).wf(),
            final(self).cycles <= old(self).cycles + 2,
            match spec_execute_opcode(old(self)@, instruction) {
                Some(m) => r == Ok::<(), CpuError>(()) && final(self)@ == m,
                None => r == Err::<(), CpuError>(
                    CpuError::UnresolvableOperand(instruction.addressing_mode),
                ) && final(self)@ == old(self)@,
            },
    {
        let addressing_mode = instruction.addressing_mode;
        let instruction_data = instruction.data;
        match instruction.opcode {
            Opcode::ASL => {
                if addressing_mode != AddressingMode::Accumulator {
                    let (address, _) = match self.get_address_operand(
                        instruction_data,
                        addressing_mode,
                    ) {
                        Ok(p) => p,
                        Err(e) => {
                            return Err(e);
                        },
                    };
                    let byte = self.memory[address];
                    let result = byte << 1;
                    self.flags.carry = (byte & 0x80) == 0x80;
                    self.memory[address] = result;
                    self.set_flags(result);
                } else {
                    let byte = self.a;
                    let result = byte << 1;
                    self.flags.carry = (byte & 0x80) == 0x80;
                    self.a = result;
                    self.set_flags(result);
                }
            },
            Opcode::LSR => {
                if addressing_mode != AddressingMode::Accumulator {
                    let (address, _) = match self.get_address_operand(
                        instruction_data,
                        addressing_mode,
                    ) {
                        Ok(p) => p,
                        Err(e) => {
                            return Err(e);
                        },
                    };
                    let byte = self.memory[address];
                    let result = byte >> 1;
                    self.flags.carry = (byte & 0x01) == 0x01;
                    self.memory[address] = result;
                    self.set_flags(result);
                } else {
                    let byte = self.a;
                    let result = byte >> 1;
                    self.flags.carry = (byte & 0x01) == 0x01;
                    self.a = result;
                    self.set_flags(result);
                }
            },
            Opcode::ROL => {
                let carry_in: u8 = if self.flags.carry {
                    1
                } else {
                    0
                };
                if addressing_mode != AddressingMode::Accumulator {
                    let (address, _) = match self.get_address_operand(
                        instruction_data,
                        addressing_mode,
                    ) {
                        Ok(p) => p,
                        Err(e) => {
                            return Err(e);
                        },
                    };
                    let byte = self.memory[address];
                    let result = (byte << 1) | carry_in;
                    self.flags.carry = (byte & 0x80) == 0x80;
                    self.memory[address] = result;
                    self.set_flags(result);
                } else {
                    let byte = self.a;
                    let result = (byte << 1) | carry_in;
                    self.flags.carry = (byte & 0x80) == 0x80;
                    self.a = result;
                    self.set_flags(result);
                }
            },
            Opcode::ROR => {
                let carry_in: u8 = if self.flags.carry {
                    0x80
                } else {
                    0
                };
                if addressing_mode != AddressingMode::Accumulator {
                    let (address, _) = match self.get_address_operand(
                        instruction_data,
                        addressing_mode,
                    ) {
                        Ok(p) => p,
                        Err(e) => {
                            return Err(e);
                        },
                    };
                    let byte = self.memory[address];
                    let result = (byte >> 1) | carry_in;
                    self.flags.carry = (byte & 0x01) == 0x01;
                    self.memory[address] = result;
                    self.set_flags(result);
                } else {
                    let byte = self.a;
                    let result = (byte >> 1) | carry_in;
                    self.flags.carry = (byte & 0x01) == 0x01;
                    self.a = result;
                    self.set_flags(result);
                }
            },
            // Unreachable: the callers dispatch only the opcodes above
            _ => (),
        }
        Ok(())
    }

    /// The eight conditional branches: each tests one flag and hands the decision to `branch_on_condition`.
    #[verifier::rlimit(100)]
    #[verifier::spinoff_prover]
    fn execute_branch(&mut self, instruction: Instruction) -> (r: Result<(), CpuError>)
        requires
            old(self).wf(),
            spec_instruction_wf(instruction),
            old(self).cycles + 9 <= usize::MAX,
            instruction.opcode == Opcode::BCC
                || instruction.opcode == Opcode::BCS
                || instruction.opcode == Opcode::BEQ
                || instruction.opcode == Opcode::BNE
                || instruction.opcode == Opcode::BMI
                || instruction.opcode == Opcode::BPL
                || instruction.opcode == Opcode::BVS
                || instruction.opcode == Opcode::BVC,
        ensures
            final(self).wf(),
            final(self).cycles <= old(self).cycles + 2,
            match spec_execute_opcode(old(self)@, instruction) {
                Some(m) => r == Ok::<(), CpuError>(()) && final(self)@ == m,
                None => r == Err::<(), CpuError>(
                    CpuError::UnresolvableOperand(instruction.addressing_mode),
                ) && final(self)@ == old(self)@,
            },
    {
        let addressing_mode = instruction.addressing_mode;
        let instruction_data = instruction.data;
        match instruction.opcode {
            Opcode::BCC => {
                let condition = !self.flags.carry;
                match self.branch_on_condition(condition, &instruction) {
                    Ok(()) => (),
                    Err(e) => {
                        return Err(e);
                    },
                }
            },
            Opcode::BCS => {
                let condition = self.flags.carry;
                match self.branch_on_condition(condition, &instruction) {
                    Ok(()) => (),
                    Err(e) => {
                        return Err(e);
                    },
                }
            },
            Opcode::BEQ => {
                let condition = self.flags.zero;
                match self.branch_on_condition(condition, &instruction) {
                    Ok(()) => (),
                    Err(e) => {
                        return Err(e);
                    },
                }
            },
            Opcode::BNE => {
                let condition = !self.flags.zero;
                match self.branch_on_condition(condition, &instruction) {
                    Ok(()) => (),
                    Err(e) => {
                        return Err(e);
                    },
                }
            },
            Opcode::BMI => {
                let condition = self.flags.negative;
                match self.branch_on_condition(condition, &instruction) {
                    Ok(()) => (),
                    Err(e) => {
                        return Err(e);
                    },
                }
            },
            Opcode::BPL => {
                let condition = !self.flags.negative;
                match self.branch_on_condition(condition, &instruction) {
                    Ok(()) => (),
                    Err(e) => {
                        return Err(e);
                    },
                }
            },
            Opcode::BVS => {
                let condition = self.flags.overflow;
                match self.branch_on_condition(condition, &instruction) {
                    Ok(()) => (),
                    Err(e) => {
                        return Err(e);
                    },
                }
            },
            Opcode::BVC => {
                let condition = !self.flags.overflow;
                match self.branch_on_condition(condition, &instruction) {
                    Ok(()) => (),
                    Err(e) => {
                        return Err(e);
                    },
                }
            },
            // Unreachable: the callers dispatch only the opcodes above
            _ => (),
        }
        Ok(())
    }

    /// Flag-only instructions: set or clear one named flag.
    #[verifier::rlimit(100)]
    #[verifier::spinoff_prover]
    fn execute_flag_op(&mut self, instruction: Instruction) -> (r: Result<(), CpuError>)
        requires
            old(self).wf(),
            spec_instruction_wf(instruction),
            old(self).cycles + 9 <= usize::MAX,
            instruction.opcode == Opcode::CLC
                || instruction.opcode == Opcode::CLD
                || instruction.opcode == Opcode::CLI
                || instruction.opcode == Opcode::CLV
                || instruction.opcode == Opcode::SEC
                || instruction.opcode == Opcode::SED
                || instruction.opcode == Opcode::SEI,
        ensures
            final(self).wf(),
            final(self).cycles <= old(self).cycles + 2,
            match spec_execute_opcode(old(self)@, instruction) {
                Some(m) => r == Ok::<(), CpuError>(()) && final(self)@ == m,
                None => r == Err::<(), CpuError>(
                    CpuError::UnresolvableOperand(instruction.addressing_mode),
                ) && final(self)@ == old(self)@,
            },
    {
        let addressing_mode = instruction.addressing_mode;
        let instruction_data = instruction.data;
        match instruction.opcode {
            Opcode::CLC => self.flags.carry = false,
            Opcode::CLD => self.flags.decimal_mode = false,
            Opcode::CLI => self.flags.interrupt_disable = false,
            Opcode::CLV => self.flags.overflow = false,
            Opcode::SEC => self.flags.carry = true,
            Opcode::SED => self.flags.decimal_mode = true,
            Opcode::SEI => self.flags.interrupt_disable = true,
            // Unreachable: the callers dispatch only the opcodes above
            _ => (),
        }
        Ok(())
    }

    /// Increments and decrements: `INC`/`DEC` target memory, `INX`/`DEX`/`INY`/`DEY` target a register; all wrap modulo 256 and set N/Z.
    #[verifier::rlimit(100)]
    #[verifier::spinoff_prover]
    fn execute_step_op(&mut self, instruction: Instruction) -> (r: Result<(), CpuError>)
        requires
            old(self).wf(),
            spec_instruction_wf(instruction),
            old(self).cycles + 9 <= usize::MAX,
            instruction.opcode == Opcode::DEC
                || instruction.opcode == Opcode::INC
                || instruction.opcode == Opcode::DEX
                || instruction.opcode == Opcode::DEY
                || instruction.opcode == Opcode::INX
                || instruction.opcode == Opcode::INY,
        ensures
            final(self).wf(),
            final(self).cycles <= old(self).cycles + 2,
            match spec_execute_opcode(old(self)@, instruction) {
                Some(m) => r == Ok::<(), CpuError>(()) && final(self)@ == m,
                None => r == Err::<(), CpuError>(
                    CpuError::UnresolvableOperand(instruction.addressing_mode),
                ) && final(self)@ == old(self)@,
            },
    {
        let addressing_mode = instruction.addressing_mode;
        let instruction_data = instruction.data;
        match instruction.opcode {
            Opcode::DEC => {
                let (address, _) = match self.get_address_operand(instruction_data, addressing_mode)
                {
                    Ok(p) => p,
                    Err(e) => {
                        return Err(e);
                    },
                };
                let result = self.memory[address].wrapping_sub(1);
                self.memory[address] = result;
                self.set_flags(result);
            },
            Opcode::INC => {
                let (address, _) = match self.get_address_operand(instruction_data, addressing_mode)
                {
                    Ok(p) => p,
                    Err(e) => {
                        return Err(e);
                    },
                };
                let result = self.memory[address].wrapping_add(1);
                self.memory[address] = result;
                self.set_flags(result);
            },
            Opcode::DEX => {
                self.x = self.x.wrapping_sub(1);
                let result = self.x;
                self.set_flags(result);
            },
            Opcode::DEY => {
                self.y = self.y.wrapping_sub(1);
                let result = self.y;
                self.set_flags(result);
            },
            Opcode::INX => {
                self.x = self.x.wrapping_add(1);
                let result = self.x;
                self.set_flags(result);
            },
            Opcode::INY => {
                self.y = self.y.wrapping_add(1);
                let result = self.y;
                self.set_flags(result);
            },
            // Unreachable: the callers dispatch only the opcodes above
            _ => (),
        }
        Ok(())
    }

    /// Register transfers and `NOP`: copies set N/Z on the destination, except `TXS`, which sets no flags.
    #[verifier::rlimit(100)]
    #[verifier::spinoff_prover]
    fn execute_transfer(&mut self, instruction: Instruction) -> (r: Result<(), CpuError>)
        requires
            old(self).wf(),
            spec_instruction_wf(instruction),
            old(self).cycles + 9 <= usize::MAX,
            instruction.opcode == Opcode::TAX
                || instruction.opcode == Opcode::TAY
                || instruction.opcode == Opcode::TSX
                || instruction.opcode == Opcode::TXA
                || instruction.opcode == Opcode::TXS
                || instruction.opcode == Opcode::TYA
                || instruction.opcode == Opcode::NOP,
        ensures
            final(self).wf(),
            final(self).cycles <= old(self).cycles + 2,
            match spec_execute_opcode(old(self)@, instruction) {
                Some(m) => r == Ok::<(), CpuError>(()) && final(self)@ == m,
                None => r == Err::<(), CpuError>(
                    CpuError::UnresolvableOperand(instruction.addressing_mode),
                ) && final(self)@ == old(self)@,
            },
    {
        let addressing_mode = instruction.addressing_mode;
        let instruction_data = instruction.data;
        match instruction.opcode {
            Opcode::TAX => {
                self.x = self.a;
                let result = self.x;
                self.set_flags(result);
            },
            Opcode::TAY => {
                self.y = self.a;
                let result = self.y;
                self.set_flags(result);
            },
            Opcode::TSX => {
                self.x = self.sp;
                let result = self.x;
                self.set_flags(result);
            },
            Opcode::TXA => {
                self.a = self.x;
                let result = self.a;
                self.set_flags(result);
            },
            Opcode::TXS => self.sp = self.x,
            Opcode::TYA => {
                self.a = self.y;
                let result = self.a;
                self.set_flags(result);
            },

            Opcode::NOP => (),
            // Unreachable: the callers dispatch only the opcodes above
            _ => (),
        }
        Ok(())
    }

    /// Jumps, subroutines and the software interrupt: `JMP`, `JSR`/`RTS`, `RTI` and `BRK`, with the canonical return-address discipline.
    #[verifier::rlimit(100)]
    #[verifier::spinoff_prover]
    fn execute_control(&mut self, instruction: Instruction) -> (r: Result<(), CpuError>)
        requires
            old(self).wf(),
            spec_instruction_wf(instruction),
            old(self).cycles + 9 <= usize::MAX,
            instruction.opcode == Opcode::JMP
                || instruction.opcode == Opcode::JSR
                || instruction.opcode == Opcode::RTS
                || instruction.opcode == Opcode::RTI
                || instruction.opcode == Opcode::BRK,
        ensures
            final(self).wf(),
            final(self).cycles <= old(self).cycles + 2,
            match spec_execute_opcode(old(self)@, instruction) {
                Some(m) => r == Ok::<(), CpuError>(()) && final(self)@ == m,
                None => r == Err::<(), CpuError>(
                    CpuError::UnresolvableOperand(instruction.addressing_mode),
                ) && final(self)@ == old(self)@,
            },
    {
        let addressing_mode = instruction.addressing_mode;
        let instruction_data = instruction.data;
        match instruction.opcode {
            Opcode::JMP => {
                let (new_address, _) = match self.get_address_operand(
                    instruction_data,
                    addressing_mode,
                ) {
                    Ok(p) => p,
                    Err(e) => {
                        return Err(e);
                    },
                };
                self.pc = (new_address as u16).wrapping_sub(instruction.width as u16);
            },
            Opcode::JSR => {
                let (new_address, _) = match self.get_address_operand(
                    instruction_data,
                    addressing_mode,
                ) {
                    Ok(p) => p,
                    Err(e) => {
                        return Err(e);
                    },
                };
                // The return address is PC + 2: the last byte of the JSR,
                // which the RTS + 1 compensates for.
                let return_address_bytes = to_bytes_from_address(self.pc.wrapping_add(2));
                self.push_on_stack(return_address_bytes.1);
                self.push_on_stack(return_address_bytes.0);
                self.pc = (new_address as u16).wrapping_sub(instruction.width as u16);
            },
            Opcode::RTS => {
                let lo = self.pop_from_stack();
                let hi = self.pop_from_stack();
                let address = to_address_from_bytes((lo, hi));
                // The common width-1 advance supplies the + 1 past the
                // address the JSR pushed
                self.pc = address as u16;
            },
            Opcode::RTI => {
                let status = self.pop_from_stack();
                let lo = self.pop_from_stack();
                let hi = self.pop_from_stack();
                self.flags.set_from_byte(status);
                self.flags.break_command = false;
                let address = to_address_from_bytes((lo, hi));
                self.pc = (address as u16).wrapping_sub(instruction.width as u16);
            },
            Opcode::BRK => {
                let return_address_bytes = to_bytes_from_address(self.pc.wrapping_add(2));
                self.push_on_stack(return_address_bytes.1);
                self.push_on_stack(return_address_bytes.0);
                let status = self.flags.as_byte() | 0x10;
                self.push_on_stack(status);
                self.flags.interrupt_disable = true;
                let lo = self.memory[0xFFFE];
                let hi = self.memory[0xFFFF];
                let target = to_address_from_bytes((lo, hi));
                self.pc = (target as u16).wrapping_sub(instruction.width as u16);
            },
            // Unreachable: the callers dispatch only the opcodes above
            _ => (),
        }
        Ok(())
    }

    /// Pushes and pulls: `PHA`/`PLA` move the accumulator, `PHP` pushes the status with the break bit set, `PLP` restores it with the break bit cleared.
    #[verifier::rlimit(100)]
    #[verifier::spinoff_prover]
    fn execute_stack_op(&mut self, instruction: Instruction) -> (r: Result<(), CpuError>)
        requires
            old(self).wf(),
            spec_instruction_wf(instruction),
            old(self).cycles + 9 <= usize::MAX,
            instruction.opcode == Opcode::PHA
                || instruction.opcode == Opcode::PHP
                || instruction.opcode == Opcode::PLA
                || instruction.opcode == Opcode::PLP,
        ensures
            final(self).wf(),
            final(self).cycles <= old(self).cycles + 2,
            match spec_execute_opcode(old(self)@, instruction) {
                Some(m) => r == Ok::<(), CpuError>(()) && final(self)@ == m,
                None => r == Err::<(), CpuError>(
                    CpuError::UnresolvableOperand(instruction.addressing_mode),
                ) && final(self)@ == old(self)@,
            },
    {
        let addressing_mode = instruction.addressing_mode;
        let instruction_data = instruction.data;
        match instruction.opcode {
            Opcode::PHA => {
                let byte = self.a;
                self.push_on_stack(byte);
            },
            Opcode::PHP => {
                // The break flag is set in the pushed byte
                let byte = self.flags.as_byte() | 0x10;
                self.push_on_stack(byte);
            },
            Opcode::PLA => {
                let byte = self.pop_from_stack();
                self.a = byte;
                self.set_flags(byte);
            },
            Opcode::PLP => {
                let byte = self.pop_from_stack();
                self.flags.set_from_byte(byte);
                // The break flag is cleared in the restored register
                self.flags.break_command = false;
            },
            // Unreachable: the callers dispatch only the opcodes above
            _ => (),
        }
        Ok(())
    }

    /// Apply one decoded instruction to the CPU: resolve its operand,
    /// apply the opcode semantics, then advance the program counter by
    /// the instruction width and charge the base cycles. The whole effect
    /// equals the specification interpreter `spec_execute`; on an operand
    /// error nothing changes.
    #[verifier::rlimit(100)]
    #[verifier::spinoff_prover]
    pub fn execute_instruction(&mut self, instruction: Instruction) -> (r: Result<(), CpuError>)
        requires
            old(self).wf(),
            spec_instruction_wf(instruction),
            old(self).cycles + 9 <= usize::MAX,
        ensures
            final(self).wf(),
            match spec_execute(old(self)@, instruction) {
                Some(m) => r == Ok::<(), CpuError>(()) && final(self)@ == m,
                None => r == Err::<(), CpuError>(
                    CpuError::UnresolvableOperand(instruction.addressing_mode),
                ) && final(self)@ == old(self)@,
            },
    {
        let r = match instruction.opcode {
            Opcode::LDA | Opcode::LDX | Opcode::LDY | Opcode::STA | Opcode::STX | Opcode::STY => self.execute_load_store(instruction),
            Opcode::ADC | Opcode::SBC | Opcode::CMP | Opcode::CPX | Opcode::CPY | Opcode::BIT => self.execute_arithmetic(instruction),
            Opcode::AND | Opcode::ORA | Opcode::EOR => self.execute_logical(instruction),
            Opcode::ASL | Opcode::LSR | Opcode::ROL | Opcode::ROR => self.execute_shift(instruction),
            Opcode::BCC | Opcode::BCS | Opcode::BEQ | Opcode::BNE | Opcode::BMI | Opcode::BPL | Opcode::BVS | Opcode::BVC => self.execute_branch(instruction),
            Opcode::CLC | Opcode::CLD | Opcode::CLI | Opcode::CLV | Opcode::SEC | Opcode::SED | Opcode::SEI => self.execute_flag_op(instruction),
            Opcode::DEC | Opcode::INC | Opcode::DEX | Opcode::DEY | Opcode::INX | Opcode::INY => self.execute_step_op(instruction),
            Opcode::TAX | Opcode::TAY | Opcode::TSX | Opcode::TXA | Opcode::TXS | Opcode::TYA | Opcode::NOP => self.execute_transfer(instruction),
            Opcode::JMP | Opcode::JSR | Opcode::RTS | Opcode::RTI | Opcode::BRK => self.execute_control(instruction),
            Opcode::PHA | Opcode::PHP | Opcode::PLA | Opcode::PLP => self.execute_stack_op(instruction),
        };
        match r {
            Ok(()) => (),
            Err(e) => {
                return Err(e);
            },
        }

        self.pc = self.pc.wrapping_add(instruction.width as u16);
        self.cycles = self.cycles + instruction.cycles;
        Ok(())
    }

    /// Fetch, decode and execute the instruction at the program counter:
    /// one full step of the interpreter, equal to `spec_step`. Errors
    /// leave the state untouched.
    pub fn load_and_execute(&mut self) -> (r: Result<(), CpuError>)
        requires
            old(self).wf(),
            old(self).cycles + 9 <= usize::MAX,
        ensures
            final(self).wf(),
            match spec_step(old(self)@) {
                Ok(m) => r == Ok::<(), CpuError>(()) && final(self)@ == m,
                Err(e) => r == Err::<(), CpuError>(e) && final(self)@ == old(self)@,
            },
    {
        let instruction = match Instruction::decode(&self.memory, self.pc) {
            Ok(i) => i,
            Err(e) => {
                return Err(e);
            },
        };
        self.execute_instruction(instruction)
    }
}

} // verus!
