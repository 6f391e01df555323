use vstd::prelude::*;

verus! {

/// The 16-bit value whose high byte is `hi` and low byte is `lo`.
pub open spec fn word(hi: u8, lo: u8) -> u16 {
    (hi * 256 + lo) as u16
}

/// The high byte of a 16-bit value.
pub open spec fn hi_byte(v: u16) -> u8 {
    (v / 256) as u8
}

/// The low byte of a 16-bit value.
pub open spec fn lo_byte(v: u16) -> u8 {
    (v % 256) as u8
}

/// Bit `i` (0 = least significant) of a byte.
pub open spec fn bit_of(v: u8, i: u8) -> bool {
    (v >> i) & 1u8 == 1u8
}

/// `v` with bit `i` set to 1.
pub open spec fn with_bit_set(v: u8, i: u8) -> u8 {
    v | (1u8 << i)
}

/// `v` with bit `i` cleared to 0.
pub open spec fn with_bit_cleared(v: u8, i: u8) -> u8 {
    v & !(1u8 << i)
}

/// Shifting a byte right by one or seven positions, and masking its low bits.
pub proof fn lemma_shift_right(v: u8)
    by (bit_vector)
    ensures
        v >> 7u8 == v / 128,
        v >> 1u8 == v / 2,
        v & 1u8 == v % 2,
        v & 0x0Fu8 == v % 16,
{
}

/// Shifting a 16-bit value right by seven positions and left by one.
pub proof fn lemma_shift_u16(v: u16)
    by (bit_vector)
    ensures
        v >> 7u16 == v / 128,
        v << 1u16 == ((v as u32 * 2) % 65536) as u16,
{
}

/// A single bit of a byte is 0 or 1.
pub proof fn lemma_single_bit(v: u8, i: u8)
    by (bit_vector)
    requires
        i < 8,
    ensures
        (v >> i) & 1u8 <= 1u8,
{
}

/// Shifting a byte left by one position drops bit 7.
pub proof fn lemma_shift_left(v: u8)
    by (bit_vector)
    ensures
        v << 1u8 == ((v as u16 * 2) % 256) as u8,
{
}

/// Shifting a byte left by one position and setting bit 0.
pub proof fn lemma_shift_left_or_one(v: u8)
    by (bit_vector)
    ensures
        (v << 1u8) | 1u8 == ((v as u16 * 2) % 256 + 1) as u8,
{
}

/// Shifting a byte right by one position and setting bit 7.
pub proof fn lemma_shift_right_or_top(v: u8)
    by (bit_vector)
    ensures
        (v >> 1u8) | 0x80u8 == (v / 2 + 128) as u8,
{
}

/// Arithmetic shift right: shifting right by one position keeps bit 7.
pub proof fn lemma_shift_right_keep_top(v: u8)
    by (bit_vector)
    ensures
        (v >> 1u8) | (v & 0x80u8) == (v / 2 + (v / 128) * 128) as u8,
{
}

/// Exchanging the two nibbles of a byte.
pub proof fn lemma_swap_nibbles(v: u8)
    by (bit_vector)
    ensures
        ((v & 0xF0u8) >> 4u8) | ((v & 0x0Fu8) << 4u8) == ((v % 16) * 16 + v / 16) as u8,
{
}

/// Testing single bits of a byte.
pub proof fn lemma_bit_tests(v: u8)
    by (bit_vector)
    ensures
        (v & 0x80u8 != 0) == (v >= 128),
        (v & 0x40u8 != 0) == ((v / 64) % 2 == 1),
        (v & 0x20u8 != 0) == ((v / 32) % 2 == 1),
        (v & 0x10u8 != 0) == ((v / 16) % 2 == 1),
{
}

/// Testing the low bits of a byte.
pub proof fn lemma_low_bit_tests(v: u8)
    by (bit_vector)
    ensures
        (v & 0x08u8 != 0) == ((v / 8) % 2 == 1),
        (v & 0x04u8 != 0) == ((v / 4) % 2 == 1),
        (v & 0x02u8 != 0) == ((v / 2) % 2 == 1),
        (v & 0x01u8 != 0) == (v % 2 == 1),
{
}

/// The opcode fields extracted with masks.
pub proof fn lemma_opcode_fields(v: u8)
    by (bit_vector)
    ensures
        (v & 0x38u8) >> 3u8 == (v / 8) % 8,
        v & 0x07u8 == v % 8,
        (v & 0x30u8) >> 4u8 == (v / 16) % 4,
        (v & 0x18u8) >> 3u8 == (v / 8) % 4,
        v & 0x03u8 == v % 4,
{
}

/// The colour index of a tile pixel from the bits of its two row bytes.
pub proof fn lemma_pixel_bits(lo: u8, hi: u8, k: u8)
    by (bit_vector)
    requires
        k < 8,
    ensures
        ((hi >> k) & 1u8) <= 1u8,
        ((lo >> k) & 1u8) <= 1u8,
        (((hi >> k) & 1u8) << 1u8) | ((lo >> k) & 1u8) == ((hi >> k) & 1u8) * 2 + ((lo >> k)
            & 1u8),
{
}

/// The masks with which opcodes are decoded, as arithmetic on the opcode.
pub proof fn lemma_opcode_masks(v: u8)
    by (bit_vector)
    ensures
        v & 0xF8u8 == ((v / 8) * 8) as u8,
        v & 0xC0u8 == ((v / 64) * 64) as u8,
        v & 0xC7u8 == ((v / 64) * 64 + v % 8) as u8,
        v & 0xCFu8 == ((v / 64) * 64 + v % 16) as u8,
        v >> 3u8 == v / 8,
        v >> 6u8 == v / 64,
{
}

/// Joining two bytes into a 16-bit value.
pub proof fn lemma_join_bytes(hi: u8, lo: u8)
    by (bit_vector)
    ensures
        ((hi as u16) << 8u16) | (lo as u16) == hi as u16 * 256 + lo as u16,
{
}

/// Splitting a 16-bit value into bytes.
pub proof fn lemma_split_word(v: u16)
    by (bit_vector)
    ensures
        (v >> 8u16) as u8 == (v / 256) as u8,
        (v & 0x1FFu16) as u8 == (v % 256) as u8,
{
}

/// Masking the low twelve bits of a 16-bit value.
pub proof fn lemma_low_twelve_bits(v: u16)
    by (bit_vector)
    ensures
        v & 0x0FFFu16 == v % 4096,
{
}

} // verus!
