//! Big-endian encodings used by the wire formats.
use vstd::prelude::*;

verus! {

/// The two bytes of `x`, most significant first.
pub open spec fn u16_be(x: u16) -> Seq<u8> {
    seq![(x / 256) as u8, (x % 256) as u8]
}

/// The four bytes of `x`, most significant first.
pub open spec fn u32_be(x: u32) -> Seq<u8> {
    seq![
        (x / 0x100_0000) as u8,
        ((x / 0x1_0000) % 256) as u8,
        ((x / 256) % 256) as u8,
        (x % 256) as u8,
    ]
}

/// The number that two bytes, most significant first, encode.
pub open spec fn be16(a: u8, b: u8) -> int {
    a * 256 + b
}

/// The number that four bytes, most significant first, encode.
pub open spec fn be32(a: u8, b: u8, c: u8, d: u8) -> int {
    a * 0x100_0000 + b * 0x1_0000 + c * 256 + d
}

pub proof fn lemma_be16_of_u16(x: u16)
    ensures
        be16(u16_be(x)[0], u16_be(x)[1]) == x,
{
}

pub proof fn lemma_be32_of_u32(x: u32)
    ensures
        be32(u32_be(x)[0], u32_be(x)[1], u32_be(x)[2], u32_be(x)[3]) == x,
{
}

pub proof fn lemma_u16_of_be16(a: u8, b: u8)
    ensures
        0 <= be16(a, b) <= u16::MAX,
        u16_be(be16(a, b) as u16) == seq![a, b],
{
    assert(u16_be(be16(a, b) as u16) =~= seq![a, b]);
}

pub proof fn lemma_u32_of_be32(a: u8, b: u8, c: u8, d: u8)
    ensures
        0 <= be32(a, b, c, d) <= u32::MAX,
        u32_be(be32(a, b, c, d) as u32) == seq![a, b, c, d],
{
    assert(u32_be(be32(a, b, c, d) as u32) =~= seq![a, b, c, d]);
}

pub fn u16_to_be(x: u16) -> (r: (u8, u8))
    ensures
        seq![r.0, r.1] == u16_be(x),
{
    ((x / 256) as u8, (x % 256) as u8)
}

pub fn u32_to_be(x: u32) -> (r: (u8, u8, u8, u8))
    ensures
        seq![r.0, r.1, r.2, r.3] == u32_be(x),
{
    ((x / 0x100_0000) as u8, ((x / 0x1_0000) % 256) as u8, ((x / 256) % 256) as u8, (x % 256) as u8)
}

pub fn u16_from_be(a: u8, b: u8) -> (r: u16)
    ensures
        r == be16(a, b),
{
    (a as u16) * 256 + (b as u16)
}

pub fn u32_from_be(a: u8, b: u8, c: u8, d: u8) -> (r: u32)
    ensures
        r == be32(a, b, c, d),
{
    (a as u32) * 0x100_0000 + (b as u32) * 0x1_0000 + (c as u32) * 256 + (d as u32)
}

} // verus!
