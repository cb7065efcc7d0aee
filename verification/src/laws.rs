//! General laws of the interpreter, stated over the specification
//! interpreter and proved once for all states: flag conventions, the
//! arithmetic of `ADC`, branch accounting, and the stack round trips of
//! `PHA`/`PLA`, `PHP`/`PLP` and `JSR`/`RTS`.

use vstd::prelude::*;
use crate::cpu::{
    spec_add_with_carry, spec_execute, spec_nz_flags, spec_state_wf, CpuState,
};
use crate::flags::{flag_bit, lemma_unpack_pack_with_break, CPUFlags};
use crate::instruction::{AddressingMode, Instruction, Opcode};
use crate::utils::spec_word;

verus! {

/// Every opcode that sets the zero and negative flags does so through
/// `spec_nz_flags`: zero exactly when the freshly computed value is 0,
/// negative exactly when its top bit is set, and no other flag moves.
pub proof fn lemma_nz_flag_convention(flags: CPUFlags, value: u8)
    ensures
        spec_nz_flags(flags, value).zero == (value == 0),
        spec_nz_flags(flags, value).negative == ((value & 0x80) != 0),
        spec_nz_flags(flags, value) == (CPUFlags {
            zero: value == 0,
            negative: value >= 0x80,
            ..flags
        }),
{
    assert((value & 0x80 != 0) == (value >= 0x80)) by (bit_vector);
}

/// The accumulator after `ADC` is `(A + operand + C) mod 256`, and the
/// carry out reports whether that sum exceeded 0xFF; no register other
/// than the accumulator moves.
pub proof fn lemma_adc_sum(m: CpuState, operand: u8)
    ensures
        spec_add_with_carry(m, operand).a == (m.a + operand + flag_bit(m.flags.carry)) % 256,
        spec_add_with_carry(m, operand).flags.carry == (m.a + operand + flag_bit(m.flags.carry)
            > 0xFF),
        spec_add_with_carry(m, operand).x == m.x,
        spec_add_with_carry(m, operand).y == m.y,
        spec_add_with_carry(m, operand).sp == m.sp,
        spec_add_with_carry(m, operand).pc == m.pc,
        spec_add_with_carry(m, operand).mem == m.mem,
{
}

/// A branch whose condition fails changes nothing but the program
/// counter, which advances by the instruction width of 2, and the cycle
/// counter, which pays exactly the base cost of 2.
pub proof fn lemma_branch_not_taken(m: CpuState, i: Instruction)
    requires
        i.width == 2,
        i.cycles == 2,
        match i.opcode {
            Opcode::BCC => m.flags.carry,
            Opcode::BCS => !m.flags.carry,
            Opcode::BEQ => !m.flags.zero,
            Opcode::BNE => m.flags.zero,
            Opcode::BMI => !m.flags.negative,
            Opcode::BPL => m.flags.negative,
            Opcode::BVS => !m.flags.overflow,
            Opcode::BVC => m.flags.overflow,
            _ => false,
        },
    ensures
        spec_execute(m, i) == Some(
            CpuState { pc: m.pc.wrapping_add(2), cycles: (m.cycles + 2) as nat, ..m },
        ),
{
}

/// `PHA` followed by `PLA` restores the accumulator, leaves the stack
/// pointer unchanged net, and sets the zero and negative flags from the
/// restored value; the other flags keep their old state.
pub proof fn lemma_push_pull_accumulator(m: CpuState, pha: Instruction, pla: Instruction)
    requires
        spec_state_wf(m),
        pha.opcode == Opcode::PHA,
        pla.opcode == Opcode::PLA,
    ensures
        spec_execute(m, pha) is Some,
        spec_execute(m, pha) matches Some(m1) ==> {
            &&& spec_execute(m1, pla) is Some
            &&& spec_execute(m1, pla) matches Some(m2) ==> {
                &&& m2.a == m.a
                &&& m2.sp == m.sp
                &&& m2.flags == spec_nz_flags(m.flags, m.a)
            }
        },
{
}

/// `PHP` followed by `PLP` restores every flag except break, which the
/// pull clears in the register (the push had forced it on in the pushed
/// byte only); the stack pointer is unchanged net.
pub proof fn lemma_push_pull_status(m: CpuState, php: Instruction, plp: Instruction)
    requires
        spec_state_wf(m),
        php.opcode == Opcode::PHP,
        plp.opcode == Opcode::PLP,
    ensures
        spec_execute(m, php) is Some,
        spec_execute(m, php) matches Some(m1) ==> {
            &&& spec_execute(m1, plp) is Some
            &&& spec_execute(m1, plp) matches Some(m2) ==> {
                &&& m2.flags == (CPUFlags { break_command: false, ..m.flags })
                &&& m2.sp == m.sp
                &&& m2.a == m.a
            }
        },
{
    lemma_unpack_pack_with_break(m.flags);
}

/// `JSR` followed by the `RTS` at the subroutine leaves the program
/// counter at the instruction immediately after the `JSR` — the pushed
/// return address is the last byte of the `JSR` and `RTS` adds one — and
/// leaves the stack pointer unchanged net.
pub proof fn lemma_jsr_rts_round_trip(m: CpuState, jsr: Instruction, rts: Instruction)
    requires
        spec_state_wf(m),
        jsr.opcode == Opcode::JSR,
        jsr.addressing_mode == AddressingMode::Absolute,
        jsr.width == 3,
        rts.opcode == Opcode::RTS,
        rts.width == 1,
    ensures
        spec_execute(m, jsr) is Some,
        spec_execute(m, jsr) matches Some(m1) ==> {
            &&& m1.pc == spec_word(jsr.data.0, jsr.data.1)
            &&& spec_execute(m1, rts) is Some
            &&& spec_execute(m1, rts) matches Some(m2) ==> {
                &&& m2.pc == m.pc.wrapping_add(3)
                &&& m2.sp == m.sp
            }
        },
{
    let ret = m.pc.wrapping_add(2);
    vstd::arithmetic::div_mod::lemma_fundamental_div_mod(ret as int, 0x100);
    assert(spec_word((ret % 0x100) as u8, (ret / 0x100) as u8) == ret);
}

} // verus!
