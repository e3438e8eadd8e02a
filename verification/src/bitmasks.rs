//! Shared facts about the bit masks the address decoders and registers use.
//!
//! The solver treats `&`, `|`, `^`, `<<` and `>>` as opaque, so the range
//! facts that array indexing and register decoding lean on are collected
//! here, each proved once in bit-vector mode and quantified over all inputs.

use vstd::prelude::*;

verus! {

/// Masking a byte keeps it below the mask's successor.
pub proof fn lemma_u8_mask_bounds()
    by (bit_vector)
    ensures
        forall|x: u8| #[trigger] (x & 0x01) < 2,
        forall|x: u8| #[trigger] (x & 0x03) < 4,
        forall|x: u8| #[trigger] (x & 0x07) < 8,
        forall|x: u8| #[trigger] (x & 0x0f) < 16,
        forall|x: u8| #[trigger] (x & 0x1f) < 32,
        forall|x: u8| #[trigger] (x & 0x3f) < 64,
        forall|x: u8| #[trigger] (x & 0xef) <= x,
        forall|x: u8| #[trigger] (x >> 3) < 32,
        forall|x: u8| #[trigger] (x >> 4) < 16,
        forall|x: u8| #[trigger] ((x & 0x03) << 2) <= 12,
        forall|x: u8| #[trigger] (x & 0xfe) <= 0xfe,
{
}

/// The attribute-byte shift derived from a scroll address is a legal u8
/// shift amount.
pub proof fn lemma_attr_shift_bounds()
    by (bit_vector)
    ensures
        forall|v: u16| #[trigger] (((v & 0x40) >> 4) | (v & 0x2)) < 8,
{
}

/// Setting bit 6 or rewriting bit 5 of the status byte leaves the other six
/// bits alone.
pub proof fn lemma_status_bits()
    by (bit_vector)
    ensures
        forall|x: u8| #[trigger] ((x | 0x40) & 0x9f) == x & 0x9f,
        forall|x: u8| #[trigger] ((x & 0xdf) & 0x9f) == x & 0x9f,
        forall|x: u8| #[trigger] (((x & 0xdf) | 0x20) & 0x9f) == x & 0x9f,
        forall|x: u8| #[trigger] (x | 0) == x,
{
}

/// Bitwise-or of two values under a power-of-two bound stays under it.
pub proof fn lemma_u8_or_bounds()
    by (bit_vector)
    ensures
        forall|x: u8, y: u8| x < 0x20 && y < 0x20 ==> #[trigger] (x | y) < 0x20,
{
}

/// Masking a word keeps it below the mask's successor.
pub proof fn lemma_u16_mask_bounds()
    by (bit_vector)
    ensures
        forall|x: u16| #[trigger] (x & 0x0007) < 8,
        forall|x: u16| #[trigger] (x & 0x001f) < 32,
        forall|x: u16| #[trigger] (x & 0x00ff) < 0x100,
        forall|x: u16| #[trigger] (x & 0x0fff) < 0x1000,
        forall|x: u16| #[trigger] (x & 0x3fff) < 0x4000,
        forall|x: u16| #[trigger] (x >> 10) < 0x40,
        forall|x: u16| #[trigger] (x >> 12) < 0x10,
        forall|x: u16| #[trigger] (x & 0xff00) <= 0xff00,
        forall|x: u16| x < 0x100 ==> #[trigger] (x & 0xff00) == 0,
{
}

/// Flipping a nametable-select bit keeps the two-bit select in range.
pub proof fn lemma_nametable_xor_bounds()
    by (bit_vector)
    ensures
        forall|x: u8| x < 4 ==> #[trigger] (x ^ 0x01) < 4,
        forall|x: u8| x < 4 ==> #[trigger] (x ^ 0x02) < 4,
{
}

/// Merging one nametable-select bit from each of two addresses keeps the
/// two-bit select in range.
pub proof fn lemma_nametable_merge_bounds()
    by (bit_vector)
    ensures
        forall|x: u8, y: u8| #[trigger] ((x & 0x02) | (y & 0x01)) < 4,
        forall|x: u8, y: u8| #[trigger] ((x & 0x01) | (y & 0x02)) < 4,
{
}

/// The low five status bits survive the vblank, sprite and pre-render
/// updates, which only touch bits 5-7.
pub proof fn lemma_status_low_bits()
    by (bit_vector)
    ensures
        forall|x: u8| #[trigger] ((x | 0x80) & 0x1f) == x & 0x1f,
        forall|x: u8| #[trigger] ((x & 0x3f) & 0x1f) == x & 0x1f,
        forall|x: u8| #[trigger] ((x & 0x1f) & 0x1f) == x & 0x1f,
        forall|a: u8, b: u8| a & 0x9f == b & 0x9f ==> #[trigger] (a & 0x1f) == #[trigger] (b & 0x1f),
{
}

} // verus!
