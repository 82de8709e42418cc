//! Little-endian byte-order helpers shared by the protocol codec.

use vstd::prelude::*;

verus! {

/// The unsigned 16-bit value carried by two little-endian bytes.
pub open spec fn le16_spec(b0: u8, b1: u8) -> u16 {
    (b0 as u16) | ((b1 as u16) << 8)
}

/// The signed 16-bit value carried by two little-endian bytes
/// (two's complement).
pub open spec fn le16_signed_spec(b0: u8, b1: u8) -> i16 {
    le16_spec(b0, b1) as i16
}

/// The unsigned 32-bit value carried by four little-endian bytes.
pub open spec fn le32_spec(b0: u8, b1: u8, b2: u8, b3: u8) -> u32 {
    (b0 as u32) | ((b1 as u32) << 8) | ((b2 as u32) << 16) | ((b3 as u32) << 24)
}

pub fn le16(b0: u8, b1: u8) -> (r: u16)
    ensures
        r == le16_spec(b0, b1),
{
    (b0 as u16) | ((b1 as u16) << 8)
}

pub fn le16_signed(b0: u8, b1: u8) -> (r: i16)
    ensures
        r == le16_signed_spec(b0, b1),
{
    le16(b0, b1) as i16
}

pub fn le32(b0: u8, b1: u8, b2: u8, b3: u8) -> (r: u32)
    ensures
        r == le32_spec(b0, b1, b2, b3),
{
    (b0 as u32) | ((b1 as u32) << 8) | ((b2 as u32) << 16) | ((b3 as u32) << 24)
}

/// Splits an unsigned 16-bit value into its two little-endian bytes.
pub fn le16_bytes(x: u16) -> (r: (u8, u8))
    ensures
        le16_spec(r.0, r.1) == x,
        r.0 == x & 0xff,
        r.1 == (x >> 8) & 0xff,
{
    proof {
        assert(x & 0xff < 256 && (x >> 8) & 0xff < 256) by (bit_vector);
        lemma_le16_round_trip(x);
    }
    let b0: u8 = (x & 0xff) as u8;
    let b1: u8 = ((x >> 8) & 0xff) as u8;
    (b0, b1)
}

/// Splits a signed 16-bit value into the two little-endian bytes of its
/// two's-complement representation.
pub fn le16_signed_bytes(x: i16) -> (r: (u8, u8))
    ensures
        le16_signed_spec(r.0, r.1) == x,
        r.0 == (x as u16) & 0xff,
        r.1 == ((x as u16) >> 8) & 0xff,
{
    let u: u16 = x as u16;
    proof {
        assert(x as u16 as i16 == x) by (bit_vector);
    }
    le16_bytes(u)
}

/// Splits an unsigned 32-bit value into its four little-endian bytes.
pub fn le32_bytes(x: u32) -> (r: (u8, u8, u8, u8))
    ensures
        le32_spec(r.0, r.1, r.2, r.3) == x,
        r.0 == x & 0xff,
        r.1 == (x >> 8) & 0xff,
        r.2 == (x >> 16) & 0xff,
        r.3 == (x >> 24) & 0xff,
{
    proof {
        assert(x & 0xff < 256 && (x >> 8) & 0xff < 256 && (x >> 16) & 0xff < 256 && (x >> 24)
            & 0xff < 256) by (bit_vector);
        lemma_le32_round_trip(x);
    }
    let b0: u8 = (x & 0xff) as u8;
    let b1: u8 = ((x >> 8) & 0xff) as u8;
    let b2: u8 = ((x >> 16) & 0xff) as u8;
    let b3: u8 = ((x >> 24) & 0xff) as u8;
    (b0, b1, b2, b3)
}

/// Reassembling the two little-endian bytes of a 16-bit value gives the
/// value back.
pub proof fn lemma_le16_round_trip(x: u16)
    ensures
        le16_spec((x & 0xff) as u8, ((x >> 8) & 0xff) as u8) == x,
{
    assert((((x & 0xff) as u8) as u16) | ((((x >> 8) & 0xff) as u8) as u16) << 8 == x)
        by (bit_vector);
}

/// Reassembling the four little-endian bytes of a 32-bit value gives the
/// value back.
pub proof fn lemma_le32_round_trip(x: u32)
    ensures
        le32_spec(
            (x & 0xff) as u8,
            ((x >> 8) & 0xff) as u8,
            ((x >> 16) & 0xff) as u8,
            ((x >> 24) & 0xff) as u8,
        ) == x,
{
    assert((((x & 0xff) as u8) as u32) | ((((x >> 8) & 0xff) as u8) as u32) << 8
        | ((((x >> 16) & 0xff) as u8) as u32) << 16 | ((((x >> 24) & 0xff) as u8) as u32) << 24
        == x) by (bit_vector);
}

} // verus!
