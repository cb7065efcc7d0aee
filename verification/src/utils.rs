//! Address arithmetic: little-endian word assembly, page-crossing detection,
//! and the sign/zero helpers that the flag logic builds on.

use vstd::prelude::*;

verus! {

/// The 16-bit word encoded little-endian by a `(lo, hi)` pair of bytes.
pub open spec fn spec_word(lo: u8, hi: u8) -> int {
    256 * hi + lo
}

/// The page index of an address: the address space consists of aligned
/// 256-byte pages, and the high byte of a 16-bit address names its page.
pub open spec fn spec_page(addr: int) -> int {
    addr / 256
}

/// Whether two addresses, truncated to 16 bits, lie on different pages.
pub open spec fn spec_page_crossed(a: int, b: int) -> bool {
    spec_page(a % 0x10000) != spec_page(b % 0x10000)
}

/// Addresses are stored in memory as two bytes, low byte first. This takes
/// the pair of bytes as retrieved and returns the address they encode.
pub fn to_address_from_bytes(bytes: (u8, u8)) -> (address: usize)
    ensures
        address == spec_word(bytes.0, bytes.1),
        address < 0x10000,
{
    let big_byte = bytes.1 as usize;
    let little_byte = bytes.0 as usize;
    big_byte * 256 + little_byte
}

/// The inverse of `to_address_from_bytes`: splits a 16-bit address into its
/// `(lo, hi)` byte pair, as pushed on the stack by `JSR` and `BRK`.
pub fn to_bytes_from_address(address: u16) -> (bytes: (u8, u8))
    ensures
        bytes.0 == address % 256,
        bytes.1 == address / 256,
        spec_word(bytes.0, bytes.1) == address,
{
    ((address % 256) as u8, (address / 256) as u8)
}

/// Crossing a page boundary while indexing costs an extra cycle on some
/// instructions, so the resolver reports when it happens. Inputs wider than
/// 16 bits are truncated, mirroring the 16-bit address bus.
pub fn was_page_boundary_crossed(address: usize, indexed_address: usize) -> (crossed: bool)
    ensures
        crossed == spec_page_crossed(address as int, indexed_address as int),
{
    let a = address as u16;
    let b = indexed_address as u16;
    let bitmask: u16 = 0xFF00;
    proof {
        assert(a == address % 0x10000 && b == indexed_address % 0x10000
            && ((a & 0xFF00) != (b & 0xFF00)) == (a / 256 != b / 256)) by (bit_vector)
            requires
                a == address as u16 && b == indexed_address as u16,
        ;
    }
    (a & bitmask) != (b & bitmask)
}

/// Whether a byte is negative when read as a two's-complement signed value,
/// that is, whether its top bit is set.
pub fn is_negative(byte: u8) -> (negative: bool)
    ensures
        negative == (byte >= 0x80),
{
    proof {
        assert(((byte as i8) < 0) == (byte >= 0x80)) by (bit_vector);
    }
    (byte as i8) < 0
}

/// Whether a byte is zero; the zero flag is set from this.
pub fn is_zero(byte: u8) -> (zero: bool)
    ensures
        zero == (byte == 0),
{
    byte == 0
}

/// A word assembled from a low and a high byte gives those bytes back:
/// the low byte is the word modulo 256 and the high byte is the word
/// divided by 256, so `(w & 0xFF, w >> 8)` inverts the assembly.
pub proof fn lemma_word_round_trip()
    ensures
        forall|w: u16| spec_word((w & 0xFF) as u8, (w >> 8) as u8) == w,
        forall|lo: u8, hi: u8| #![trigger spec_word(lo, hi)]
            spec_word(lo, hi) % 256 == lo && spec_word(lo, hi) / 256 == hi,
{
    assert(forall|w: u16| 256 * ((w >> 8) as u8) + ((w & 0xFF) as u8) == w) by (bit_vector);
    assert forall|lo: u8, hi: u8| #![trigger spec_word(lo, hi)]
        spec_word(lo, hi) % 256 == lo && spec_word(lo, hi) / 256 == hi by {
        lemma_word_div_mod(lo, hi);
    }
}

/// Dividing a little-endian word by 256 recovers the high byte; taking it
/// modulo 256 recovers the low byte.
pub proof fn lemma_word_div_mod(lo: u8, hi: u8)
    by (nonlinear_arith)
    ensures
        spec_word(lo, hi) % 256 == lo,
        spec_word(lo, hi) / 256 == hi,
        0 <= spec_word(lo, hi) < 0x10000,
{
}

/// Two 16-bit addresses lie on different pages exactly when their high
/// bytes differ.
pub proof fn lemma_page_crossed_high_byte()
    ensures
        forall|a: u16, b: u16| #![trigger spec_page_crossed(a as int, b as int)]
            spec_page_crossed(a as int, b as int) == ((a >> 8) != (b >> 8)),
{
    assert(forall|a: u16, b: u16| (a / 256 != b / 256) == ((a >> 8) != (b >> 8))) by (bit_vector);
    assert forall|a: u16, b: u16| #![trigger spec_page_crossed(a as int, b as int)]
        spec_page_crossed(a as int, b as int) == (a / 256 != b / 256) by {
        vstd::arithmetic::div_mod::lemma_small_mod(a as nat, 0x10000);
        vstd::arithmetic::div_mod::lemma_small_mod(b as nat, 0x10000);
    }
}

} // verus!
