//! Decoding and encoding of the sensor's clock characteristic.
//!
//! Wire format (4 bytes): `[uint32 LE seconds since the Unix epoch]`.
//! The crate handles clock values as plain seconds; turning them into the
//! host's own time type is left to the caller.

use vstd::prelude::*;

use crate::errors::{DecodeError, EncodeError};
use crate::wire::{le32, le32_bytes, le32_spec, lemma_le32_round_trip};

verus! {

/// The clock value carried by a well-formed 4-byte buffer, in seconds since
/// the Unix epoch.
pub open spec fn spec_decode_time(s: Seq<u8>) -> u64
    recommends
        s.len() == 4,
{
    le32_spec(s[0], s[1], s[2], s[3]) as u64
}

/// The 4-byte wire layout of a clock value that fits in 32 bits.
pub open spec fn spec_encode_time(seconds: u64) -> Seq<u8>
    recommends
        seconds <= u32::MAX,
{
    let x = seconds as u32;
    seq![
        (x & 0xff) as u8,
        ((x >> 8) & 0xff) as u8,
        ((x >> 16) & 0xff) as u8,
        ((x >> 24) & 0xff) as u8,
    ]
}

/// Decode a sensor clock value. Fails exactly when the buffer is not 4 bytes
/// long; any 4-byte buffer decodes.
pub fn decode_time(value: &[u8]) -> (r: Result<u64, DecodeError>)
    ensures
        r is Ok <==> value@.len() == 4,
        value@.len() == 4 ==> r == Ok::<u64, DecodeError>(spec_decode_time(value@)),
        r is Err ==> r == Err::<u64, DecodeError>(DecodeError::WrongLength),
{
    if value.len() != 4 {
        return Err(DecodeError::WrongLength);
    }
    Ok(le32(value[0], value[1], value[2], value[3]) as u64)
}

/// Encode a clock value, given in seconds since the Unix epoch, into the
/// 4-byte wire layout. Fails exactly when the value does not fit in 32 bits.
pub fn encode_time(seconds: u64) -> (r: Result<Vec<u8>, EncodeError>)
    ensures
        r is Ok <==> seconds <= u32::MAX,
        r is Err ==> r == Err::<Vec<u8>, EncodeError>(EncodeError::ValueOutOfRange),
        r matches Ok(v) ==> v@ == spec_encode_time(seconds),
{
    if seconds > 0xffff_ffff {
        return Err(EncodeError::ValueOutOfRange);
    }
    let (b0, b1, b2, b3) = le32_bytes(seconds as u32);
    let mut v: Vec<u8> = Vec::new();
    v.push(b0);
    v.push(b1);
    v.push(b2);
    v.push(b3);
    proof {
        assert(v@ =~= spec_encode_time(seconds));
    }
    Ok(v)
}

/// Clock codec round trip: every clock value that encodes at all decodes
/// back to itself, and the encoded buffer always has the fixed length 4.
pub proof fn lemma_time_round_trip(seconds: u64)
    requires
        seconds <= u32::MAX,
    ensures
        spec_encode_time(seconds).len() == 4,
        spec_decode_time(spec_encode_time(seconds)) == seconds,
{
    lemma_le32_round_trip(seconds as u32);
}

} // verus!
