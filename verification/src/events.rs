//! Translation of raw transport notifications into domain events.
//!
//! The transport hands over characteristic-value notifications and
//! connection-state changes, each tagged with the D-Bus object path of the
//! characteristic or device, here carried as its UTF-8 bytes. A
//! value-changed path is matched against the known characteristic path
//! suffixes for the live sensor reading (`/service0021/char0035`) and the
//! history record (`/service0021/char002e`); other paths are ignored for
//! forward compatibility. A decode failure is deliberately not propagated:
//! the event is dropped, so a single malformed notification can never take
//! the event pipeline down.

use vstd::prelude::*;

use crate::history::{spec_decode_history_record, HistoryRecord};
use crate::readings::{spec_decode_readings, Readings};
use crate::registry::DeviceId;

verus! {

/// A raw event from the Bluetooth transport.
#[derive(Clone, Debug)]
pub enum TransportEvent {
    /// A characteristic's value changed: a notification arrived.
    CharacteristicValue { object_path: Vec<u8>, value: Vec<u8> },
    /// A device's connection state changed.
    ConnectionStateChanged { object_path: Vec<u8>, connected: bool },
}

/// An event from a Mijia sensor.
#[derive(Clone, Debug)]
pub enum MijiaEvent {
    /// A sensor has sent a new set of readings.
    Readings { id: DeviceId, readings: Readings },
    /// A sensor has sent a new historical record.
    HistoryRecord { id: DeviceId, record: HistoryRecord },
    /// The Bluetooth connection to a sensor has been lost.
    Disconnected { id: DeviceId },
}

/// The UTF-8 bytes of `/service0021/char` followed by the four digit
/// characters given, the shape of every characteristic path suffix.
pub open spec fn spec_char_path_suffix(d0: u8, d1: u8, d2: u8, d3: u8) -> Seq<u8> {
    seq![
        0x2fu8,
        0x73u8,
        0x65u8,
        0x72u8,
        0x76u8,
        0x69u8,
        0x63u8,
        0x65u8,
        0x30u8,
        0x30u8,
        0x32u8,
        0x31u8,
        0x2fu8,
        0x63u8,
        0x68u8,
        0x61u8,
        0x72u8,
        d0,
        d1,
        d2,
        d3,
    ]
}

/// The path suffix of the live reading characteristic,
/// `/service0021/char0035`.
pub open spec fn spec_reading_suffix() -> Seq<u8> {
    spec_char_path_suffix(0x30, 0x30, 0x33, 0x35)
}

/// The path suffix of the history record characteristic,
/// `/service0021/char002e`.
pub open spec fn spec_history_suffix() -> Seq<u8> {
    spec_char_path_suffix(0x30, 0x30, 0x32, 0x65)
}

fn char_path_suffix(d0: u8, d1: u8, d2: u8, d3: u8) -> (r: Vec<u8>)
    ensures
        r@ == spec_char_path_suffix(d0, d1, d2, d3),
{
    let r: Vec<u8> = vec![
        0x2f,
        0x73,
        0x65,
        0x72,
        0x76,
        0x69,
        0x63,
        0x65,
        0x30,
        0x30,
        0x32,
        0x31,
        0x2f,
        0x63,
        0x68,
        0x61,
        0x72,
        d0,
        d1,
        d2,
        d3,
    ];
    proof {
        assert(r@ =~= spec_char_path_suffix(d0, d1, d2, d3));
    }
    r
}

/// Whether a byte sequence ends with the given suffix.
pub open spec fn spec_ends_with(s: Seq<u8>, suffix: Seq<u8>) -> bool {
    s.len() >= suffix.len() && s.skip(s.len() - suffix.len()) == suffix
}

/// The path with the given suffix removed, if it ends with it.
fn strip_suffix(path: &Vec<u8>, suffix: &Vec<u8>) -> (r: Option<Vec<u8>>)
    ensures
        r is Some <==> spec_ends_with(path@, suffix@),
        r matches Some(p) ==> p@ == path@.take(path@.len() - suffix@.len()),
{
    let n = path.len();
    let k = suffix.len();
    if n < k {
        proof {
            assert(!spec_ends_with(path@, suffix@));
        }
        return None;
    }
    for i in 0..k
        invariant
            n == path@.len(),
            k == suffix@.len(),
            k <= n,
            forall|j: int| 0 <= j < i ==> path@[n - k + j] == suffix@[j],
    {
        if path[n - k + i] != suffix[i] {
            proof {
                assert(path@.skip(n - k)[i as int] == path@[n - k + i]);
                assert(path@.skip(n - k) != suffix@);
            }
            return None;
        }
    }
    proof {
        assert(path@.skip(n - k) =~= suffix@);
    }
    let prefix = vstd::slice::slice_to_vec(vstd::slice::slice_subrange(path.as_slice(), 0, n - k));
    proof {
        assert(prefix@ =~= path@.take(n - k));
    }
    Some(prefix)
}

/// Translate one raw transport event into a domain event, if it concerns
/// this protocol.
///
/// A value change on a path ending in the live-reading suffix becomes a
/// `Readings` event for the device whose path is the rest; one ending in
/// the history-record suffix becomes a `HistoryRecord` event; any other
/// value change is ignored, as is a buffer that does not decode. A
/// connection-state change to disconnected becomes a `Disconnected` event
/// for the full path; a change to connected is not surfaced.
pub fn translate(event: &TransportEvent) -> (r: Option<MijiaEvent>)
    ensures
        event matches TransportEvent::CharacteristicValue { object_path, value } ==> {
            if spec_ends_with(object_path@, spec_reading_suffix()) {
                if value@.len() == 5 {
                    r matches Some(MijiaEvent::Readings { id, readings }) && id@
                        == object_path@.take(object_path@.len() - 21) && readings
                        == spec_decode_readings(value@)
                } else {
                    r is None
                }
            } else if spec_ends_with(object_path@, spec_history_suffix()) {
                if value@.len() == 11 {
                    r matches Some(MijiaEvent::HistoryRecord { id, record }) && id@
                        == object_path@.take(object_path@.len() - 21) && record
                        == spec_decode_history_record(value@)
                } else {
                    r is None
                }
            } else {
                r is None
            }
        },
        event matches TransportEvent::ConnectionStateChanged { object_path, connected } ==> {
            if *connected {
                r is None
            } else {
                r matches Some(MijiaEvent::Disconnected { id }) && id@ == object_path@
            }
        },
{
    match event {
        TransportEvent::CharacteristicValue { object_path, value } => {
            let reading_suffix = char_path_suffix(0x30, 0x30, 0x33, 0x35);
            if let Some(prefix) = strip_suffix(object_path, &reading_suffix) {
                match Readings::decode(value.as_slice()) {
                    Ok(readings) => Some(
                        MijiaEvent::Readings { id: DeviceId::new(prefix), readings },
                    ),
                    Err(_) => None,
                }
            } else {
                let history_suffix = char_path_suffix(0x30, 0x30, 0x32, 0x65);
                if let Some(prefix) = strip_suffix(object_path, &history_suffix) {
                    match HistoryRecord::decode(value.as_slice()) {
                        Ok(record) => Some(
                            MijiaEvent::HistoryRecord { id: DeviceId::new(prefix), record },
                        ),
                        Err(_) => None,
                    }
                } else {
                    None
                }
            }
        },
        TransportEvent::ConnectionStateChanged { object_path, connected } => {
            if !*connected {
                Some(MijiaEvent::Disconnected { id: DeviceId::new(object_path.clone()) })
            } else {
                None
            }
        },
    }
}

} // verus!
