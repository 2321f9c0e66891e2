//! Bit-level lemmas for the frame codec.
//!
//! The telegram header packs several logical fields into shared bytes, and
//! the writers deliberately OR bits in without clearing, so that fields can
//! be assembled in any order.  The lemmas here relate an OR-in write to the
//! field reads on the resulting byte.

use vstd::prelude::*;

verus! {

/// ORing in a value that has no bits under `m` leaves the masked view alone.
pub proof fn lemma_or_zero_mask(b: u8, v: u8, m: u8)
    by (bit_vector)
    requires
        v & m == 0,
    ensures
        (b | v) & m == b & m,
{
}

/// ORing into a zero byte writes the value unchanged.
pub proof fn lemma_or_into_zero(v: u8)
    by (bit_vector)
    ensures
        0u8 | v == v,
        v | 0u8 == v,
{
}

/// Bounds of the bit fields read out of a header byte.
pub proof fn lemma_field_bounds(b: u8)
    by (bit_vector)
    ensures
        b & 0xf < 16,
        b & 3 < 4,
        (b >> 2) & 3 < 4,
        (b >> 2) & 0xf < 16,
        (b >> 4) & 7 < 8,
        (b >> 5) & 1 < 2,
        b >> 6 < 4,
        b >> 7 < 2,
        b >> 2 < 64,
{
}

/// A value below a power of two is unchanged by the matching low mask.
pub proof fn lemma_small_nibble(v: u8)
    by (bit_vector)
    requires
        v < 16,
    ensures
        v & 0xf == v,
        v < 2 ==> v & 1 == v,
        v < 4 ==> v & 3 == v,
{
}

/// With a zero APCI high byte and a continuation byte below 64, the short
/// APCI view is zero, and ORing a value into that zero view keeps it.
pub proof fn lemma_apci_read_zero_hi(lo: u8, v: u16)
    by (bit_vector)
    requires
        lo < 64,
    ensures
        ((((0u8 & 3) as u16) * 256 + (lo as u16)) as u16) >> 6 == 0,
        0u16 | v == v,
{
}

/// A small data-point payload in the low bits of the APCI continuation byte
/// survives an OR-in of the short APCI value above it.
pub proof fn lemma_dp_bits_roundtrip(b: u8, v: u16)
    by (bit_vector)
    requires
        v < 16,
    ensures
        ((b & 1) | (((v & 3) as u8) << 6)) & 1 == b & 1,
        ((b & 3) | (((v & 3) as u8) << 6)) & 3 == b & 3,
        b & 1 < 2,
        b & 3 < 4,
{
}

/// The frame-type patterns are fixed points of the frame-type mask.
pub proof fn lemma_type_bit_consts()
    by (bit_vector)
    ensures
        0x90u8 & 0xd3 == 0x90,
        0x10u8 & 0xd3 == 0x10,
        0x90u8 != 0x10u8,
{
}

/// Effect of ORing the priority bits into control byte 1.
pub proof fn lemma_priority_set(b: u8, p: u8)
    by (bit_vector)
    requires
        p < 4,
    ensures
        (p << 2) & 0xd3 == 0,
        ((b | (p << 2)) >> 2) & 3 == ((b >> 2) & 3) | p,
        ((b | (p << 2)) >> 5) & 1 == (b >> 5) & 1,
{
}

/// Effect of ORing the repeated flag into control byte 1.
pub proof fn lemma_repeated_set(b: u8, r: u8)
    by (bit_vector)
    requires
        r < 2,
    ensures
        (r << 5) & 0xd3 == 0,
        ((b | (r << 5)) >> 5) & 1 == ((b >> 5) & 1) | r,
        ((b | (r << 5)) >> 2) & 3 == (b >> 2) & 3,
{
}

/// Effect of ORing the hop count into the AT / hop-count / length byte.
pub proof fn lemma_hop_set(b: u8, h: u8)
    by (bit_vector)
    ensures
        ((b | ((h & 7) << 4)) >> 4) & 7 == ((b >> 4) & 7) | (h & 7),
        (b | ((h & 7) << 4)) & 0xf == b & 0xf,
        (b | ((h & 7) << 4)) >> 7 == b >> 7,
{
}

/// Effect of ORing the address-type tag into the AT byte.
pub proof fn lemma_at_set(b: u8, t: u8)
    by (bit_vector)
    requires
        t < 2,
    ensures
        (b | (t << 7)) >> 7 == (b >> 7) | t,
        (b | (t << 7)) & 0xf == b & 0xf,
        ((b | (t << 7)) >> 4) & 7 == (b >> 4) & 7,
{
}

/// Effect of ORing a 6-bit TPCI value into the TPCI byte.
pub proof fn lemma_tpci6_set(b: u8, v: u8)
    by (bit_vector)
    ensures
        (b | (v << 2)) >> 2 == (b >> 2) | (v & 0x3f),
        (b | (v << 2)) & 3 == b & 3,
{
}

/// Effect of ORing a 4-bit sequence number into the TPCI byte.
pub proof fn lemma_tpci_seq_set(b: u8, sq: u8)
    by (bit_vector)
    ensures
        ((b | ((sq & 0xf) << 2)) >> 2) & 0xf == ((b >> 2) & 0xf) | (sq & 0xf),
        (b | ((sq & 0xf) << 2)) & 3 == b & 3,
        (b | ((sq & 0xf) << 2)) >> 6 == b >> 6,
        (b | ((sq & 0xf) << 2)) >> 2 == (b >> 2) | (sq & 0xf),
{
}

/// Splitting a 16-bit address into bytes and rejoining them is the identity.
pub proof fn lemma_addr_split(a: u16)
    by (bit_vector)
    ensures
        ((a >> 8) as u8 as u16) * 256 + ((a & 0xff) as u8 as u16) == a,
        ((a >> 8) as u8 as int) * 256 + ((a & 0xff) as u8 as int) == a as int,
{
}

/// Effect of ORing a short (4-bit) APCI value into the two APCI bytes.
pub proof fn lemma_apci4_set(hi: u8, lo: u8, v: u16)
    by (bit_vector)
    requires
        v < 16,
    ensures
        (((((hi | ((v >> 2) as u8)) & 3) as u16) * 256 + ((lo | (((v & 3) as u8) << 6)) as u16))
            as u16 >> 6) == (((((hi & 3) as u16) * 256 + (lo as u16)) as u16) >> 6) | v,
        (lo | (((v & 3) as u8) << 6)) & 0x3f == lo & 0x3f,
{
}

/// Effect of ORing a full (10-bit) APCI value into the two APCI bytes.
pub proof fn lemma_apci10_set(hi: u8, lo: u8, v: u16)
    by (bit_vector)
    requires
        v < 1024,
        hi & 3 == 0,
        lo == 0,
    ensures
        (((hi | ((v >> 8) as u8)) & 3) as u16) * 256 + ((lo | ((v & 0xff) as u8)) as u16) == v,
{
}

} // verus!
