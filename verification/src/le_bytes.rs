//! Little-endian integer encodings used by all CANopen payloads.
use vstd::prelude::*;

verus! {

/// The value of two little-endian bytes.
pub open spec fn le_u16(b0: u8, b1: u8) -> u16 {
    (b0 as int + 256 * b1 as int) as u16
}

/// The value of four little-endian bytes.
pub open spec fn le_u32(b0: u8, b1: u8, b2: u8, b3: u8) -> u32 {
    (b0 as int + 256 * b1 as int + 65536 * b2 as int + 16777216 * b3 as int) as u32
}

/// The little-endian bytes of a 16-bit value.
pub open spec fn u16_le(x: u16) -> Seq<u8> {
    seq![(x % 256) as u8, (x / 256) as u8]
}

/// The little-endian bytes of a 32-bit value.
pub open spec fn u32_le(x: u32) -> Seq<u8> {
    seq![
        (x % 256) as u8,
        ((x / 256) % 256) as u8,
        ((x / 65536) % 256) as u8,
        (x / 16777216) as u8,
    ]
}

/// Encodes a 16-bit value as little-endian bytes.
pub fn u16_to_le(x: u16) -> (r: [u8; 2])
    ensures
        r@ == u16_le(x),
{
    [(x % 256) as u8, (x / 256) as u8]
}

/// Encodes a 32-bit value as little-endian bytes.
pub fn u32_to_le(x: u32) -> (r: [u8; 4])
    ensures
        r@ == u32_le(x),
{
    [(x % 256) as u8, ((x / 256) % 256) as u8, ((x / 65536) % 256) as u8, (x / 16777216) as u8]
}

/// Decodes two little-endian bytes.
pub fn u16_from_le(b0: u8, b1: u8) -> (x: u16)
    ensures
        x == le_u16(b0, b1),
        x as int == b0 as int + 256 * b1 as int,
{
    b0 as u16 + 256 * (b1 as u16)
}

/// Decodes four little-endian bytes.
pub fn u32_from_le(b0: u8, b1: u8, b2: u8, b3: u8) -> (x: u32)
    ensures
        x == le_u32(b0, b1, b2, b3),
        x as int == b0 as int + 256 * b1 as int + 65536 * b2 as int + 16777216 * b3 as int,
{
    b0 as u32 + 256 * (b1 as u32) + 65536 * (b2 as u32) + 16777216 * (b3 as u32)
}

/// Decoding the encoding of a 16-bit value gives the value back.
pub proof fn lemma_u16_le_roundtrip(x: u16)
    ensures
        le_u16(u16_le(x)[0], u16_le(x)[1]) == x,
{
}

/// Decoding the encoding of a 32-bit value gives the value back.
pub proof fn lemma_u32_le_roundtrip(x: u32)
    ensures
        le_u32(u32_le(x)[0], u32_le(x)[1], u32_le(x)[2], u32_le(x)[3]) == x,
{
}

/// Encoding decoded bytes gives the bytes back.
pub proof fn lemma_le_u32_bytes_roundtrip(b0: u8, b1: u8, b2: u8, b3: u8)
    ensures
        u32_le(le_u32(b0, b1, b2, b3)) == seq![b0, b1, b2, b3],
{
    let x = le_u32(b0, b1, b2, b3);
    let v: int = b0 as int + 256 * b1 as int + 65536 * b2 as int + 16777216 * b3 as int;
    assert(0 <= v < 0x1_0000_0000);
    assert(x as int == v);
    assert(v % 256 == b0 as int && (v / 256) % 256 == b1 as int && (v / 65536) % 256 == b2 as int
        && v / 16777216 == b3 as int) by (nonlinear_arith)
        requires
            v == b0 as int + 256 * b1 as int + 65536 * b2 as int + 16777216 * b3 as int,
            0 <= b0 < 256,
            0 <= b1 < 256,
            0 <= b2 < 256,
            0 <= b3 < 256,
    ;
    assert(u32_le(x) =~= seq![b0, b1, b2, b3]);
}

/// Encoding decoded bytes gives the bytes back.
pub proof fn lemma_le_u16_bytes_roundtrip(b0: u8, b1: u8)
    ensures
        u16_le(le_u16(b0, b1)) == seq![b0, b1],
{
    assert(u16_le(le_u16(b0, b1)) =~= seq![b0, b1]);
}

/// Little-endian bytes hold the value with the first byte the lowest: two bytes `b0, b1` read as
/// `b0 + 256 * b1`, four as `b0 + 256 * b1 + 65536 * b2 + 16777216 * b3`, and the bytes of a
/// value add back up to it that way.
pub proof fn lemma_little_endian_values(x: u16, y: u32, b0: u8, b1: u8, b2: u8, b3: u8)
    ensures
        le_u16(b0, b1) == b0 + 256 * b1,
        le_u32(b0, b1, b2, b3) == b0 + 256 * b1 + 65536 * b2 + 16777216 * b3,
        u16_le(x).len() == 2,
        u16_le(x)[0] + 256 * u16_le(x)[1] == x,
        u32_le(y).len() == 4,
        u32_le(y)[0] + 256 * u32_le(y)[1] + 65536 * u32_le(y)[2] + 16777216 * u32_le(y)[3] == y,
{
    lemma_u16_le_roundtrip(x);
    lemma_u32_le_roundtrip(y);
}

} // verus!
