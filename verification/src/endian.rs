//! Big-endian encodings of the protocol's two scalar wire types:
//! unsigned and signed 32-bit integers, four bytes each, high byte first.

use vstd::prelude::*;

verus! {

/// The unsigned 32-bit value formed by four bytes, big-endian.
pub open spec fn be_u32_of(b0: u8, b1: u8, b2: u8, b3: u8) -> u32 {
    ((b0 as u32) << 24) | ((b1 as u32) << 16) | ((b2 as u32) << 8) | (b3 as u32)
}

/// The big-endian u32 read at `off` in a byte sequence.
pub open spec fn be_u32_at(s: Seq<u8>, off: int) -> u32 {
    be_u32_of(s[off], s[off + 1], s[off + 2], s[off + 3])
}

/// The four big-endian bytes of a u32, high byte first.
pub open spec fn u32_be_bytes(v: u32) -> Seq<u8> {
    seq![
        ((v >> 24) & 0xff) as u8,
        ((v >> 16) & 0xff) as u8,
        ((v >> 8) & 0xff) as u8,
        (v & 0xff) as u8,
    ]
}

/// The i32 with the same 32-bit two's-complement representation as `u`.
pub open spec fn i32_of_u32(u: u32) -> i32 {
    if u >= 0x8000_0000u32 {
        ((((u - 0x8000_0000u32) as i32) - 0x7fff_ffff) - 1) as i32
    } else {
        u as i32
    }
}

/// The u32 with the same 32-bit two's-complement representation as `v`.
pub open spec fn u32_of_i32(v: i32) -> u32 {
    if v < 0 {
        (0xffff_ffffu32 - ((-(v + 1)) as u32)) as u32
    } else {
        v as u32
    }
}

/// The big-endian i32 read at `off` in a byte sequence.
pub open spec fn be_i32_at(s: Seq<u8>, off: int) -> i32 {
    i32_of_u32(be_u32_at(s, off))
}

/// The four big-endian bytes of an i32 (two's complement), high byte first.
pub open spec fn i32_be_bytes(v: i32) -> Seq<u8> {
    u32_be_bytes(u32_of_i32(v))
}

pub fn decode_u32_be(b0: u8, b1: u8, b2: u8, b3: u8) -> (r: u32)
    ensures
        r == be_u32_of(b0, b1, b2, b3),
{
    ((b0 as u32) << 24u32) | ((b1 as u32) << 16u32) | ((b2 as u32) << 8u32) | (b3 as u32)
}

pub fn encode_u32_be(v: u32) -> (r: Vec<u8>)
    ensures
        r@ == u32_be_bytes(v),
{
    let mut out: Vec<u8> = Vec::new();
    out.push(((v >> 24u32) & 0xff) as u8);
    out.push(((v >> 16u32) & 0xff) as u8);
    out.push(((v >> 8u32) & 0xff) as u8);
    out.push((v & 0xff) as u8);
    proof {
        assert(out@ =~= u32_be_bytes(v));
    }
    out
}

pub fn decode_i32_be(b0: u8, b1: u8, b2: u8, b3: u8) -> (r: i32)
    ensures
        r == be_i32_at(seq![b0, b1, b2, b3], 0),
{
    let u = decode_u32_be(b0, b1, b2, b3);
    if u >= 0x8000_0000u32 {
        let d: u32 = u - 0x8000_0000u32;
        assert(d <= 0x7fff_ffffu32) by (bit_vector)
            requires
                d == u - 0x8000_0000u32 && u >= 0x8000_0000u32,
        ;
        ((d as i32) - 0x7fff_ffff) - 1
    } else {
        assert(u <= 0x7fff_ffffu32);
        u as i32
    }
}

pub fn encode_i32_be(v: i32) -> (r: Vec<u8>)
    ensures
        r@ == i32_be_bytes(v),
{
    let u: u32 = if v < 0 {
        0xffff_ffffu32 - ((-(v + 1)) as u32)
    } else {
        v as u32
    };
    assert(u == u32_of_i32(v));
    encode_u32_be(u)
}

/// Reading back the four big-endian bytes of a u32 yields the value itself.
pub proof fn lemma_u32_be_roundtrip(v: u32)
    ensures
        u32_be_bytes(v).len() == 4,
        be_u32_at(u32_be_bytes(v), 0) == v,
{
    let s = u32_be_bytes(v);
    assert(be_u32_of(
        ((v >> 24) & 0xff) as u8,
        ((v >> 16) & 0xff) as u8,
        ((v >> 8) & 0xff) as u8,
        (v & 0xff) as u8,
    ) == v) by (bit_vector);
}

/// The two's-complement conversions invert each other.
pub proof fn lemma_i32_u32_roundtrip(v: i32)
    ensures
        i32_of_u32(u32_of_i32(v)) == v,
{
}

/// Reading back the four big-endian bytes of an i32 yields the value itself.
pub proof fn lemma_i32_be_roundtrip(v: i32)
    ensures
        i32_be_bytes(v).len() == 4,
        be_i32_at(i32_be_bytes(v), 0) == v,
{
    lemma_u32_be_roundtrip(u32_of_i32(v));
    lemma_i32_u32_roundtrip(v);
}

} // verus!
