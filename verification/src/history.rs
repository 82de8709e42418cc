//! Decoding of the historical-record characteristics, and the offset mapping
//! that places records into the buffer of a bulk-history retrieval.
//!
//! Record wire format (11 bytes): `[uint32 LE index]`
//! `[uint32 LE timestamp in seconds since the Unix epoch]`
//! `[int16 LE temperature in centi-°C]` `[uint8 humidity percent]`.
//!
//! Range wire format (8 bytes): `[uint32 LE first index]`
//! `[uint32 LE one past the last index]`; a buffer whose end lies before its
//! start is rejected.

use vstd::prelude::*;

use crate::errors::DecodeError;
use crate::wire::{le16_signed, le16_signed_spec, le32, le32_spec};

verus! {

/// A historical record stored on a sensor.
#[derive(Clone, Copy, Debug, PartialEq, Eq, Structural)]
pub struct HistoryRecord {
    /// Position of the record on the sensor; indices increase monotonically
    /// per sensor and define the slot of the record within a retrieval
    /// session's expected range.
    pub index: u32,
    /// When the record was taken, in seconds since the Unix epoch.
    pub timestamp: u64,
    /// Temperature in hundredths of a °C.
    pub temperature: i16,
    /// Percent humidity.
    pub humidity: u8,
}

/// The range of record indices currently stored on a sensor: every index
/// `i` with `start <= i < end`.
#[derive(Clone, Copy, Debug, PartialEq, Eq, Structural)]
pub struct HistoryRange {
    pub start: u32,
    pub end: u32,
}

impl HistoryRange {
    /// A range never runs backwards.
    pub open spec fn valid(self) -> bool {
        self.start <= self.end
    }

    /// How many records the range covers.
    pub open spec fn spec_len(self) -> int {
        self.end - self.start
    }

    pub fn len(&self) -> (r: usize)
        requires
            self.valid(),
        ensures
            r == self.spec_len(),
    {
        (self.end - self.start) as usize
    }

    /// Whether a record index falls inside the range.
    pub open spec fn spec_contains(self, index: u32) -> bool {
        self.start <= index < self.end
    }

    pub fn contains(&self, index: u32) -> (r: bool)
        ensures
            r == self.spec_contains(index),
    {
        self.start <= index && index < self.end
    }
}

/// The record carried by a well-formed 11-byte buffer.
pub open spec fn spec_decode_history_record(s: Seq<u8>) -> HistoryRecord
    recommends
        s.len() == 11,
{
    HistoryRecord {
        index: le32_spec(s[0], s[1], s[2], s[3]),
        timestamp: le32_spec(s[4], s[5], s[6], s[7]) as u64,
        temperature: le16_signed_spec(s[8], s[9]),
        humidity: s[10],
    }
}

/// The index range carried by a well-formed 8-byte buffer, if it does not
/// run backwards.
pub open spec fn spec_decode_range(s: Seq<u8>) -> Option<HistoryRange>
    recommends
        s.len() == 8,
{
    let range = HistoryRange {
        start: le32_spec(s[0], s[1], s[2], s[3]),
        end: le32_spec(s[4], s[5], s[6], s[7]),
    };
    if range.valid() {
        Some(range)
    } else {
        None
    }
}

impl HistoryRecord {
    /// Decode a historical record. Fails exactly when the buffer is not 11
    /// bytes long; any 11-byte buffer decodes.
    pub fn decode(value: &[u8]) -> (r: Result<HistoryRecord, DecodeError>)
        ensures
            r is Ok <==> value@.len() == 11,
            value@.len() == 11 ==> r == Ok::<HistoryRecord, DecodeError>(
                spec_decode_history_record(value@),
            ),
            r is Err ==> r == Err::<HistoryRecord, DecodeError>(DecodeError::WrongLength),
    {
        if value.len() != 11 {
            return Err(DecodeError::WrongLength);
        }
        Ok(HistoryRecord {
            index: le32(value[0], value[1], value[2], value[3]),
            timestamp: le32(value[4], value[5], value[6], value[7]) as u64,
            temperature: le16_signed(value[8], value[9]),
            humidity: value[10],
        })
    }
}

/// Decode the range of indices for the historical data stored on a sensor.
/// Fails with `WrongLength` exactly when the buffer is not 8 bytes long, and
/// with `ValueOutOfRange` exactly when the range runs backwards.
pub fn decode_range(value: &[u8]) -> (r: Result<HistoryRange, DecodeError>)
    ensures
        value@.len() != 8 ==> r == Err::<HistoryRange, DecodeError>(DecodeError::WrongLength),
        value@.len() == 8 ==> r == match spec_decode_range(value@) {
            Some(range) => Ok::<HistoryRange, DecodeError>(range),
            None => Err::<HistoryRange, DecodeError>(DecodeError::ValueOutOfRange),
        },
        r matches Ok(range) ==> range.valid(),
{
    if value.len() != 8 {
        return Err(DecodeError::WrongLength);
    }
    let range = HistoryRange {
        start: le32(value[0], value[1], value[2], value[3]),
        end: le32(value[4], value[5], value[6], value[7]),
    };
    if range.start <= range.end {
        Ok(range)
    } else {
        Err(DecodeError::ValueOutOfRange)
    }
}

/// Place one record into the buffer of a bulk-history retrieval.
///
/// A record whose index falls inside the expected range is stored at offset
/// `index - range.start`, leaving every other slot as it was; a record
/// outside the range is dropped and the buffer is left untouched. The
/// returned flag says whether the record was stored.
pub fn store_history_record(
    history: &mut Vec<Option<HistoryRecord>>,
    range: HistoryRange,
    record: HistoryRecord,
) -> (stored: bool)
    requires
        range.valid(),
        old(history)@.len() == range.spec_len(),
    ensures
        final(history)@.len() == old(history)@.len(),
        stored == range.spec_contains(record.index),
        range.spec_contains(record.index) ==> final(history)@ == old(history)@.update(
            record.index - range.start,
            Some(record),
        ),
        !range.spec_contains(record.index) ==> final(history)@ == old(history)@,
{
    if range.contains(record.index) {
        let offset = (record.index - range.start) as usize;
        history[offset] = Some(record);
        true
    } else {
        false
    }
}

/// The empty buffer of a bulk-history retrieval: one unfilled slot per
/// index the range covers. Slots still unfilled when the retrieval's
/// inactivity timeout fires stay `None` in the result.
pub fn new_history_buffer(range: HistoryRange) -> (r: Vec<Option<HistoryRecord>>)
    requires
        range.valid(),
        range.spec_len() <= usize::MAX,
    ensures
        r@.len() == range.spec_len(),
        forall|i: int| 0 <= i < r@.len() ==> r@[i] is None,
{
    let n = range.len();
    let mut r: Vec<Option<HistoryRecord>> = Vec::new();
    for k in 0..n
        invariant
            r@.len() == k,
            forall|i: int| 0 <= i < r@.len() ==> r@[i] is None,
    {
        r.push(None);
    }
    r
}

/// History offset mapping: a record with index inside `[range.start,
/// range.end)` lands at offset `index - range.start`, and no other slot of
/// the buffer changes; a record with an index outside that interval leaves
/// the whole buffer unchanged.
pub proof fn lemma_history_offset_mapping(
    before: Seq<Option<HistoryRecord>>,
    after: Seq<Option<HistoryRecord>>,
    range: HistoryRange,
    record: HistoryRecord,
)
    requires
        range.valid(),
        before.len() == range.spec_len(),
        after == if range.spec_contains(record.index) {
            before.update(record.index - range.start, Some(record))
        } else {
            before
        },
    ensures
        after.len() == before.len(),
        range.spec_contains(record.index) ==> after[record.index - range.start] == Some(record),
        forall|i: int|
            0 <= i < before.len() && i != record.index - range.start ==> after[i] == before[i],
{
}

} // verus!
