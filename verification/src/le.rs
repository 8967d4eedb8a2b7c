//! Little-endian encodings of the fixed-width integer fields.

use vstd::prelude::*;

verus! {

/// The two bytes of `v`, least significant first.
pub open spec fn u16_le(v: u16) -> Seq<u8> {
    seq![(v & 0xff) as u8, ((v >> 8) & 0xff) as u8]
}

/// The four bytes of `v`, least significant first.
pub open spec fn u32_le(v: u32) -> Seq<u8> {
    seq![
        (v & 0xff) as u8,
        ((v >> 8) & 0xff) as u8,
        ((v >> 16) & 0xff) as u8,
        ((v >> 24) & 0xff) as u8,
    ]
}

/// The value held by the two-byte little-endian field at offset `i` of `s`.
pub open spec fn le16_at(s: Seq<u8>, i: int) -> int {
    s[i] + 0x100 * s[i + 1]
}

/// The value held by the four-byte little-endian field at offset `i` of `s`.
pub open spec fn le32_at(s: Seq<u8>, i: int) -> int {
    s[i] + 0x100 * s[i + 1] + 0x1_0000 * s[i + 2] + 0x100_0000 * s[i + 3]
}

/// A two-byte little-endian field decodes to the value it was built from.
pub proof fn lemma_u16_le_value(v: u16)
    ensures
        u16_le(v)[0] + 0x100 * u16_le(v)[1] == v,
{
    assert(((v & 0xff) as u8) + 0x100 * (((v >> 8) & 0xff) as u8) == v) by (bit_vector);
}

/// A four-byte little-endian field decodes to the value it was built from.
pub proof fn lemma_u32_le_value(v: u32)
    ensures
        u32_le(v)[0] + 0x100 * u32_le(v)[1] + 0x1_0000 * u32_le(v)[2] + 0x100_0000 * u32_le(v)[3]
            == v,
{
    assert(((v & 0xff) as u8) + 0x100 * (((v >> 8) & 0xff) as u8)
        + 0x1_0000 * (((v >> 16) & 0xff) as u8) + 0x100_0000 * (((v >> 24) & 0xff) as u8)
        == v) by (bit_vector);
}

/// Appends the two little-endian bytes of `v` to `out`.
pub fn push_u16_le(out: &mut Vec<u8>, v: u16)
    ensures
        final(out)@ == old(out)@ + u16_le(v),
{
    assert(v & 0xff < 0x100 && (v >> 8) & 0xff < 0x100) by (bit_vector);
    out.push((v & 0xff) as u8);
    out.push(((v >> 8) & 0xff) as u8);
    assert(out@ =~= old(out)@ + u16_le(v));
}

/// Appends the four little-endian bytes of `v` to `out`.
pub fn push_u32_le(out: &mut Vec<u8>, v: u32)
    ensures
        final(out)@ == old(out)@ + u32_le(v),
{
    assert(v & 0xff < 0x100 && (v >> 8) & 0xff < 0x100 && (v >> 16) & 0xff < 0x100
        && (v >> 24) & 0xff < 0x100) by (bit_vector);
    out.push((v & 0xff) as u8);
    out.push(((v >> 8) & 0xff) as u8);
    out.push(((v >> 16) & 0xff) as u8);
    out.push(((v >> 24) & 0xff) as u8);
    assert(out@ =~= old(out)@ + u32_le(v));
}

} // verus!
