//! The 6502 status register: seven independent flags, packed to and
//! unpacked from one byte laid out `N V 1 B D I Z C` (bit 7 down to bit 0).
//! Bit 5 has no flag and is always 1 in the packed form; bit 4 carries the
//! break flag, which is meaningful only on pushes.

use vstd::prelude::*;
use vstd::arithmetic::div_mod::lemma_fundamental_div_mod_converse;

verus! {

/// The seven status flags of the CPU.
#[derive(Clone, Copy, PartialEq, Eq, Structural, Debug)]
pub struct CPUFlags {
    pub carry: bool,
    pub zero: bool,
    pub interrupt_disable: bool,
    pub decimal_mode: bool,
    pub break_command: bool,
    pub overflow: bool,
    pub negative: bool,
}

/// 1 for a set flag, 0 for a clear one.
pub open spec fn flag_bit(flag: bool) -> int {
    if flag {
        1
    } else {
        0
    }
}

/// The packed status byte: `N V 1 B D I Z C` from bit 7 down to bit 0,
/// with bit 5 emitted as 1.
pub open spec fn spec_flags_byte(flags: CPUFlags) -> u8 {
    (flag_bit(flags.carry) + 2 * flag_bit(flags.zero) + 4 * flag_bit(flags.interrupt_disable)
        + 8 * flag_bit(flags.decimal_mode) + 16 * flag_bit(flags.break_command) + 32
        + 64 * flag_bit(flags.overflow) + 128 * flag_bit(flags.negative)) as u8
}

/// The flags encoded by a packed status byte. Bit 5 is ignored; bit 4 is
/// stored as the break flag.
pub open spec fn spec_flags_from_byte(byte: u8) -> CPUFlags {
    CPUFlags {
        carry: byte % 2 == 1,
        zero: byte / 2 % 2 == 1,
        interrupt_disable: byte / 4 % 2 == 1,
        decimal_mode: byte / 8 % 2 == 1,
        break_command: byte / 16 % 2 == 1,
        overflow: byte / 64 % 2 == 1,
        negative: byte / 128 % 2 == 1,
    }
}

impl CPUFlags {
    /// All flags clear.
    pub fn new() -> (flags: Self)
        ensures
            flags == (CPUFlags {
                carry: false,
                zero: false,
                interrupt_disable: false,
                decimal_mode: false,
                break_command: false,
                overflow: false,
                negative: false,
            }),
    {
        Self {
            carry: false,
            zero: false,
            interrupt_disable: false,
            decimal_mode: false,
            break_command: false,
            overflow: false,
            negative: false,
        }
    }

    /// Replace every flag from a packed status byte, ignoring bit 5.
    pub fn set_from_byte(&mut self, byte: u8)
        ensures
            *final(self) == spec_flags_from_byte(byte),
    {
        proof {
            assert(((byte & 0b00000001) == 1) == (byte % 2 == 1)
                && (((byte & 0b00000010) >> 1) == 1) == (byte / 2 % 2 == 1)
                && (((byte & 0b00000100) >> 2) == 1) == (byte / 4 % 2 == 1)
                && (((byte & 0b00001000) >> 3) == 1) == (byte / 8 % 2 == 1)
                && (((byte & 0b00010000) >> 4) == 1) == (byte / 16 % 2 == 1)
                && (((byte & 0b01000000) >> 6) == 1) == (byte / 64 % 2 == 1)
                && (((byte & 0b10000000) >> 7) == 1) == (byte / 128 % 2 == 1)) by (bit_vector);
        }
        self.carry = (byte & 0b00000001) == 1;
        self.zero = ((byte & 0b00000010) >> 1) == 1;
        self.interrupt_disable = ((byte & 0b00000100) >> 2) == 1;
        self.decimal_mode = ((byte & 0b00001000) >> 3) == 1;
        self.break_command = ((byte & 0b00010000) >> 4) == 1;
        // Bit 5 is ignored
        self.overflow = ((byte & 0b01000000) >> 6) == 1;
        self.negative = ((byte & 0b10000000) >> 7) == 1;
    }

    /// The flags encoded by a packed status byte.
    pub fn from_byte(byte: u8) -> (flags: Self)
        ensures
            flags == spec_flags_from_byte(byte),
    {
        let mut flags = Self::new();
        flags.set_from_byte(byte);
        flags
    }

    /// Pack the flags into one status byte; bit 5 is emitted as 1.
    pub fn as_byte(&self) -> (byte: u8)
        ensures
            byte == spec_flags_byte(*self),
    {
        let mut byte: u8 = if self.carry {
            1
        } else {
            0
        };
        if self.zero {
            byte += 2;
        }
        if self.interrupt_disable {
            byte += 4;
        }
        if self.decimal_mode {
            byte += 8;
        }
        if self.break_command {
            byte += 16;
        }
        // Bit 5 is always 1
        byte += 32;
        if self.overflow {
            byte += 64;
        }
        if self.negative {
            byte += 128;
        }
        byte
    }
}

/// Each base-2 digit of the packed status byte is the flag it encodes:
/// C, Z, I, D and B sit at bits 0 to 4, bit 5 is 1, V and N at bits 6 and 7.
pub proof fn lemma_flags_byte_digits(flags: CPUFlags)
    ensures
        spec_flags_byte(flags) % 2 == flag_bit(flags.carry),
        spec_flags_byte(flags) / 2 % 2 == flag_bit(flags.zero),
        spec_flags_byte(flags) / 4 % 2 == flag_bit(flags.interrupt_disable),
        spec_flags_byte(flags) / 8 % 2 == flag_bit(flags.decimal_mode),
        spec_flags_byte(flags) / 16 % 2 == flag_bit(flags.break_command),
        spec_flags_byte(flags) / 32 % 2 == 1,
        spec_flags_byte(flags) / 64 % 2 == flag_bit(flags.overflow),
        spec_flags_byte(flags) / 128 % 2 == flag_bit(flags.negative),
{
    let c = flag_bit(flags.carry);
    let z = flag_bit(flags.zero);
    let i = flag_bit(flags.interrupt_disable);
    let d = flag_bit(flags.decimal_mode);
    let b = flag_bit(flags.break_command);
    let v = flag_bit(flags.overflow);
    let n = flag_bit(flags.negative);
    let p = spec_flags_byte(flags) as int;
    assert(p == c + 2 * (z + 2 * (i + 2 * (d + 2 * (b + 2 * (1 + 2 * (v + 2 * n)))))));
    lemma_fundamental_div_mod_converse(p, 2, z + 2 * (i + 2 * (d + 2 * (b + 2 * (1 + 2 * (v + 2
        * n))))), c);
    lemma_fundamental_div_mod_converse(p / 2, 2, i + 2 * (d + 2 * (b + 2 * (1 + 2 * (v + 2 * n)))),
        z);
    assert(p / 2 % 2 == z && p / 2 / 2 == i + 2 * (d + 2 * (b + 2 * (1 + 2 * (v + 2 * n)))));
    lemma_fundamental_div_mod_converse(p / 2 / 2, 2, d + 2 * (b + 2 * (1 + 2 * (v + 2 * n))), i);
    lemma_fundamental_div_mod_converse(p / 2 / 2 / 2, 2, b + 2 * (1 + 2 * (v + 2 * n)), d);
    lemma_fundamental_div_mod_converse(p / 2 / 2 / 2 / 2, 2, 1 + 2 * (v + 2 * n), b);
    lemma_fundamental_div_mod_converse(p / 2 / 2 / 2 / 2 / 2, 2, v + 2 * n, 1);
    lemma_fundamental_div_mod_converse(p / 2 / 2 / 2 / 2 / 2 / 2, 2, n, v);
    lemma_fundamental_div_mod_converse(p / 2 / 2 / 2 / 2 / 2 / 2 / 2, 2, 0, n);
    assert(p / 2 / 2 == p / 4 && p / 4 / 2 == p / 8 && p / 8 / 2 == p / 16 && p / 16 / 2 == p / 32
        && p / 32 / 2 == p / 64 && p / 64 / 2 == p / 128) by (nonlinear_arith);
}

/// Unpacking a packed status byte restores every flag.
pub proof fn lemma_flags_unpack_pack(flags: CPUFlags)
    ensures
        spec_flags_from_byte(spec_flags_byte(flags)) == flags,
{
    lemma_flags_byte_digits(flags);
}

/// Unpacking a packed status byte whose break bit has been forced on —
/// as every push of the status does — restores every flag and sets the
/// break flag.
pub proof fn lemma_unpack_pack_with_break(flags: CPUFlags)
    ensures
        spec_flags_from_byte(spec_flags_byte(flags) | 0x10) == (CPUFlags {
            break_command: true,
            ..flags
        }),
{
    lemma_flags_byte_digits(flags);
    let p = spec_flags_byte(flags);
    assert((p | 0x10) % 2 == p % 2 && (p | 0x10) / 2 % 2 == p / 2 % 2 && (p | 0x10) / 4 % 2 == p / 4
        % 2 && (p | 0x10) / 8 % 2 == p / 8 % 2 && (p | 0x10) / 16 % 2 == 1 && (p | 0x10) / 64 % 2
        == p / 64 % 2 && (p | 0x10) / 128 % 2 == p / 128 % 2) by (bit_vector);
}

/// Packing the flags unpacked from a byte whose bit 5 is set gives that
/// byte back unchanged; bit 4 is stored by the unpack and re-emitted by
/// the pack.
pub proof fn lemma_status_byte_round_trip(byte: u8)
    ensures
        spec_flags_byte(spec_flags_from_byte(byte | 0x20)) == byte | 0x20,
{
    let b = byte | 0x20;
    assert(b == b % 2 + 2 * (b / 2 % 2) + 4 * (b / 4 % 2) + 8 * (b / 8 % 2) + 16 * (b / 16 % 2) + 32
        * (b / 32 % 2) + 64 * (b / 64 % 2) + 128 * (b / 128 % 2) && (byte | 0x20) / 32 % 2 == 1) by (bit_vector);
}

} // verus!
