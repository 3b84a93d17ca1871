//! Shared lemmas about the bit manipulations the core uses: 24-bit address
//! masking, register selector fields, and single-flag updates of the CCR.

use vstd::prelude::*;

verus! {

/// Masking to the low 24 bits keeps an address inside the 16 MiB space,
/// preserves parity, and is the identity on addresses already in range.
pub broadcast proof fn lemma_mask24(x: u32)
    ensures
        #[trigger] (x & 0xffffff) < 0x1000000,
        (x & 0xffffff) % 2 == x % 2,
        (x & 0xffffff) == x % 0x1000000,
        x < 0x1000000 ==> (x & 0xffffff) == x,
{
    assert((x & 0xffffff) < 0x1000000 && (x & 0xffffff) % 2 == x % 2 && (x & 0xffffff) == x
        % 0x1000000 && (x < 0x1000000 ==> (x & 0xffffff) == x)) by (bit_vector);
}

/// The low three bits of a register selector name one of the eight registers.
pub broadcast proof fn lemma_sel_low3(s: u8)
    ensures
        #[trigger] (s & 7) < 8,
        s < 8 ==> (s & 7) == s,
{
    assert((s & 7) < 8 && (s < 8 ==> (s & 7) == s)) by (bit_vector);
}

/// Bit 3 of a register selector tells the two aliased views apart.
pub broadcast proof fn lemma_sel_bit3(s: u8)
    ensures
        s < 8 ==> #[trigger] (s & 8) == 0,
        8 <= s < 16 ==> (s & 8) == 8,
{
    assert((s < 8 ==> (s & 8) == 0) && (8 <= s < 16 ==> (s & 8) == 8)) by (bit_vector);
}

/// Clearing the lowest bit of the program counter yields an even address
/// that is no larger than the original.
pub broadcast proof fn lemma_even_mask(p: u32)
    ensures
        #[trigger] (p & 0xfffffffe) % 2 == 0,
        (p & 0xfffffffe) <= p,
        p <= (p & 0xfffffffe) + 1,
        p % 2 == 0 ==> (p & 0xfffffffe) == p,
{
    assert((p & 0xfffffffe) % 2 == 0 && (p & 0xfffffffe) <= p && p <= (p & 0xfffffffe) + 1 && (p
        % 2 == 0 ==> (p & 0xfffffffe) == p)) by (bit_vector);
}

/// Setting or clearing one bit of the CCR changes exactly that flag and
/// leaves every other flag as it was.
pub proof fn lemma_flag_update(c: u8, s: u8, t: u8)
    requires
        s < 8,
        t < 8,
    ensures
        ((c | (1u8 << s)) >> s) & 1 == 1,
        ((c & !(1u8 << s)) >> s) & 1 == 0,
        t != s ==> ((c | (1u8 << s)) >> t) & 1 == (c >> t) & 1,
        t != s ==> ((c & !(1u8 << s)) >> t) & 1 == (c >> t) & 1,
{
    assert(((c | (1u8 << s)) >> s) & 1 == 1 && ((c & !(1u8 << s)) >> s) & 1 == 0 && (t != s ==> ((c
        | (1u8 << s)) >> t) & 1 == (c >> t) & 1) && (t != s ==> ((c & !(1u8 << s)) >> t) & 1 == (c
        >> t) & 1)) by (bit_vector)
        requires
            s < 8 && t < 8,
    ;
}

/// Absolute 8-bit addressing targets the top page of the address space.
pub broadcast proof fn lemma_abs8_ea(a: u8)
    ensures
        #[trigger] (0xffff00u32 | (a as u32)) < 0x1000000,
{
    assert((0xffff00u32 | (a as u32)) < 0x1000000) by (bit_vector);
}

/// Absolute 16-bit addressing with the sign bit set targets the top
/// 64 KiB of the address space.
pub broadcast proof fn lemma_abs16_ea(a: u16)
    ensures
        #[trigger] (0xff0000u32 | (a as u32)) < 0x1000000,
{
    assert((0xff0000u32 | (a as u32)) < 0x1000000) by (bit_vector);
}

/// Taking the lowest bit leaves 0 or 1; so does the exclusive-or of two
/// such bits.
pub broadcast proof fn lemma_low_bit(x: u8)
    ensures
        #[trigger] (x & 1) <= 1,
{
    assert((x & 1) <= 1) by (bit_vector);
}

/// The exclusive-or of two bits is a bit.
pub broadcast proof fn lemma_bit_xor(a: u8, b: u8)
    ensures
        a <= 1 && b <= 1 ==> #[trigger] (a ^ b) <= 1,
{
    assert(a <= 1 && b <= 1 ==> (a ^ b) <= 1) by (bit_vector);
}

/// A 32-bit value split big-endian into four bytes recomposes to itself.
pub proof fn lemma_long_recompose(v: u32)
    ensures
        ((((v >> 24) as u8) as u32) << 24) | ((((v >> 16) as u8) as u32) << 16) | ((((v
            >> 8) as u8) as u32) << 8) | ((v as u8) as u32) == v,
{
    assert(((((v >> 24) as u8) as u32) << 24) | ((((v >> 16) as u8) as u32) << 16) | ((((v
        >> 8) as u8) as u32) << 8) | ((v as u8) as u32) == v) by (bit_vector);
}

/// What a write to one byte view leaves of the other views of the same
/// register: the written byte reads back, and the other byte of the low
/// word, the upper word and nothing else of the register move.
pub proof fn lemma_byte_view_update(x: u32, v: u8)
    ensures
        (((x & 0xffffff00) | (v as u32)) as u8) == v,
        ((((x & 0xffff00ff) | ((v as u32) << 8)) >> 8) as u8) == v,
        ((((x & 0xffffff00) | (v as u32)) >> 8) as u8) == ((x >> 8) as u8),
        (((x & 0xffff00ff) | ((v as u32) << 8)) as u8) == (x as u8),
        ((((x & 0xffffff00) | (v as u32)) >> 16) as u16) == ((x >> 16) as u16),
        ((((x & 0xffff00ff) | ((v as u32) << 8)) >> 16) as u16) == ((x >> 16) as u16),
{
    assert(((((x & 0xffffff00) | (v as u32)) as u8) == v) && (((((x & 0xffff00ff) | ((
    v as u32) << 8)) >> 8) as u8) == v) && (((((x & 0xffffff00) | (v as u32)) >> 8) as u8) == ((x
        >> 8) as u8)) && ((((x & 0xffff00ff) | ((v as u32) << 8)) as u8) == (x as u8)) && (((((x
        & 0xffffff00) | (v as u32)) >> 16) as u16) == ((x >> 16) as u16)) && (((((x & 0xffff00ff)
        | ((v as u32) << 8)) >> 16) as u16) == ((x >> 16) as u16))) by (bit_vector);
}

/// What a write to one word view leaves of the other views of the same
/// register: the written word reads back and the other word keeps both
/// its word and its byte readings.
pub proof fn lemma_word_view_update(x: u32, v: u16)
    ensures
        (((x & 0xffff0000) | (v as u32)) as u16) == v,
        ((((x & 0x0000ffff) | ((v as u32) << 16)) >> 16) as u16) == v,
        ((((x & 0xffff0000) | (v as u32)) >> 16) as u16) == ((x >> 16) as u16),
        (((x & 0x0000ffff) | ((v as u32) << 16)) as u16) == (x as u16),
        (((x & 0x0000ffff) | ((v as u32) << 16)) as u8) == (x as u8),
        ((((x & 0x0000ffff) | ((v as u32) << 16)) >> 8) as u8) == ((x >> 8) as u8),
{
    assert(((((x & 0xffff0000) | (v as u32)) as u16) == v) && (((((x & 0x0000ffff) | ((
    v as u32) << 16)) >> 16) as u16) == v) && (((((x & 0xffff0000) | (v as u32)) >> 16) as u16)
        == ((x >> 16) as u16)) && ((((x & 0x0000ffff) | ((v as u32) << 16)) as u16) == (
    x as u16)) && ((((x & 0x0000ffff) | ((v as u32) << 16)) as u8) == (x as u8)) && (((((x
        & 0x0000ffff) | ((v as u32) << 16)) >> 8) as u8) == ((x >> 8) as u8))) by (bit_vector);
}

/// Two distinct 4-bit selectors differ in the register bits or in bit 3.
pub proof fn lemma_sel_distinct(a: u8, b: u8)
    requires
        a < 16,
        b < 16,
        a != b,
    ensures
        (a & 7) != (b & 7) || (a & 8) != (b & 8),
{
    assert((a & 7) != (b & 7) || (a & 8) != (b & 8)) by (bit_vector)
        requires
            a < 16 && b < 16 && a != b,
    ;
}

} // verus!
