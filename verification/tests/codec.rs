//! Tests of the binary protocol codec: the live-reading decoder, the clock,
//! the display settings and the history records.

use mijia::clock::{decode_time, encode_time};
use mijia::errors::{DecodeError, EncodeError};
use mijia::history::{decode_range, new_history_buffer, store_history_record, HistoryRange,
    HistoryRecord};
use mijia::readings::Readings;
use mijia::settings::{ComfortLevel, TemperatureUnit};

#[test]
fn decode_empty() {
    assert_eq!(Readings::decode(&[]), Err(DecodeError::WrongLength));
}

#[test]
fn decode_too_short() {
    assert_eq!(Readings::decode(&[1, 2, 3, 4]), Err(DecodeError::WrongLength));
}

#[test]
fn decode_too_long() {
    assert_eq!(
        Readings::decode(&[1, 2, 3, 4, 5, 6]),
        Err(DecodeError::WrongLength)
    );
}

#[test]
fn decode_valid() {
    let readings = Readings::decode(&[1, 2, 3, 4, 10]).unwrap();
    assert_eq!(
        readings,
        Readings {
            temperature: 513,
            humidity: 3,
            battery_voltage: 2564,
            battery_percent: 46
        }
    );
    // 513 hundredths of a degree is the 5.13 °C the sensor displays.
    assert_eq!(readings.temperature as f32 / 100.0, 5.13);
}

#[test]
fn decode_negative_temperature() {
    // -1.05 °C is -105 centi-degrees, 0xff97 in little-endian two's
    // complement.
    let readings = Readings::decode(&[0x97, 0xff, 50, 0, 0]).unwrap();
    assert_eq!(readings.temperature, -105);
    assert_eq!(readings.humidity, 50);
    assert_eq!(readings.battery_voltage, 0);
}

#[test]
fn battery_percent_clamps_at_zero() {
    // 2099 mV is below the 2100 mV floor of the heuristic.
    let low = Readings::decode(&[0, 0, 0, 0x33, 0x08]).unwrap();
    assert_eq!(low.battery_voltage, 2099);
    assert_eq!(low.battery_percent, 0);
    // Exactly at the floor.
    let at = Readings::decode(&[0, 0, 0, 0x34, 0x08]).unwrap();
    assert_eq!(at.battery_voltage, 2100);
    assert_eq!(at.battery_percent, 0);
    // 2110 mV is one step of 10 mV above the floor.
    let above = Readings::decode(&[0, 0, 0, 0x3e, 0x08]).unwrap();
    assert_eq!(above.battery_voltage, 2110);
    assert_eq!(above.battery_percent, 1);
}

#[test]
fn time_round_trip() {
    for &seconds in &[0u64, 1, 1_600_000_000, u32::MAX as u64] {
        let encoded = encode_time(seconds).unwrap();
        assert_eq!(encoded.len(), 4);
        assert_eq!(decode_time(&encoded), Ok(seconds));
    }
}

#[test]
fn time_decode_exact() {
    // 0x65f1_2080 seconds since the epoch, little-endian.
    assert_eq!(decode_time(&[0x80, 0x20, 0xf1, 0x65]), Ok(0x65f1_2080));
}

#[test]
fn time_wrong_length() {
    assert_eq!(decode_time(&[]), Err(DecodeError::WrongLength));
    assert_eq!(decode_time(&[1, 2, 3]), Err(DecodeError::WrongLength));
    assert_eq!(decode_time(&[1, 2, 3, 4, 5]), Err(DecodeError::WrongLength));
}

#[test]
fn time_encode_out_of_range() {
    assert_eq!(
        encode_time(u32::MAX as u64 + 1),
        Err(EncodeError::ValueOutOfRange)
    );
}

#[test]
fn temperature_unit_round_trip() {
    for &unit in &[TemperatureUnit::Celsius, TemperatureUnit::Fahrenheit] {
        let encoded = unit.encode();
        assert_eq!(encoded.len(), 1);
        assert_eq!(TemperatureUnit::decode(&encoded), Ok(unit));
    }
}

#[test]
fn temperature_unit_errors() {
    assert_eq!(TemperatureUnit::decode(&[]), Err(DecodeError::WrongLength));
    assert_eq!(
        TemperatureUnit::decode(&[0, 1]),
        Err(DecodeError::WrongLength)
    );
    assert_eq!(
        TemperatureUnit::decode(&[2]),
        Err(DecodeError::ValueOutOfRange)
    );
}

#[test]
fn comfort_level_round_trip() {
    let level = ComfortLevel {
        temperature_upper: 2700,
        temperature_lower: -150,
        humidity_upper: 60,
        humidity_lower: 20,
    };
    let encoded = level.encode().unwrap();
    assert_eq!(encoded.len(), 6);
    assert_eq!(ComfortLevel::decode(&encoded), Ok(level));
}

#[test]
fn comfort_level_errors() {
    assert_eq!(
        ComfortLevel::decode(&[1, 2, 3]),
        Err(DecodeError::WrongLength)
    );
    // A humidity bound above 100 percent is rejected in both directions.
    assert_eq!(
        ComfortLevel::decode(&[0, 0, 0, 0, 101, 0]),
        Err(DecodeError::ValueOutOfRange)
    );
    let level = ComfortLevel {
        temperature_upper: 0,
        temperature_lower: 0,
        humidity_upper: 101,
        humidity_lower: 0,
    };
    assert_eq!(level.encode(), Err(EncodeError::ValueOutOfRange));
}

#[test]
fn history_record_decode_exact() {
    // index 0x0102 (little-endian), timestamp 0x65f12080, 23.45 °C, 55 %.
    let bytes = [
        0x02, 0x01, 0x00, 0x00, 0x80, 0x20, 0xf1, 0x65, 0x29, 0x09, 55,
    ];
    assert_eq!(
        HistoryRecord::decode(&bytes),
        Ok(HistoryRecord {
            index: 0x0102,
            timestamp: 0x65f1_2080,
            temperature: 2345,
            humidity: 55,
        })
    );
}

#[test]
fn history_record_wrong_length() {
    assert_eq!(HistoryRecord::decode(&[]), Err(DecodeError::WrongLength));
    assert_eq!(
        HistoryRecord::decode(&[0; 12]),
        Err(DecodeError::WrongLength)
    );
}

#[test]
fn range_decode() {
    assert_eq!(
        decode_range(&[5, 0, 0, 0, 10, 0, 0, 0]),
        Ok(HistoryRange { start: 5, end: 10 })
    );
    assert_eq!(decode_range(&[1, 2, 3]), Err(DecodeError::WrongLength));
    // A range running backwards is rejected.
    assert_eq!(
        decode_range(&[10, 0, 0, 0, 5, 0, 0, 0]),
        Err(DecodeError::ValueOutOfRange)
    );
}

#[test]
fn temperature_text() {
    assert_eq!(mijia::text::centi_text(513), "5.13");
    assert_eq!(mijia::text::centi_text(-105), "-1.05");
    assert_eq!(mijia::text::centi_text(0), "0.00");
    assert_eq!(mijia::text::centi_text(9), "0.09");
    assert_eq!(mijia::text::centi_text(i16::MAX), "327.67");
    assert_eq!(mijia::text::centi_text(i16::MIN), "-327.68");
}

#[test]
fn readings_status_line() {
    let readings = Readings::decode(&[1, 2, 3, 4, 10]).unwrap();
    assert_eq!(
        readings.to_text(),
        "Temperature: 5.13ºC Humidity: 3% Battery: 2564 mV (46%)"
    );
}

fn record_with_index(index: u32) -> HistoryRecord {
    HistoryRecord {
        index,
        timestamp: 1000 + index as u64,
        temperature: 2000,
        humidity: 40,
    }
}

#[test]
fn history_offset_mapping() {
    let range = HistoryRange { start: 5, end: 10 };
    let mut history = new_history_buffer(range);
    assert_eq!(history.len(), 5);
    assert!(history.iter().all(|slot| slot.is_none()));

    // A record inside [start, end) lands at index - start.
    assert!(store_history_record(&mut history, range, record_with_index(7)));
    assert_eq!(history[2], Some(record_with_index(7)));

    // One outside the interval is dropped and corrupts no other slot.
    assert!(!store_history_record(&mut history, range, record_with_index(10)));
    assert!(!store_history_record(&mut history, range, record_with_index(4)));
    assert_eq!(history[2], Some(record_with_index(7)));
    for (offset, slot) in history.iter().enumerate() {
        if offset != 2 {
            assert_eq!(*slot, None);
        }
    }

    // Boundary indices: the start is stored, the end is not.
    assert!(store_history_record(&mut history, range, record_with_index(5)));
    assert_eq!(history[0], Some(record_with_index(5)));
}
