//! Decoding of the live sensor reading characteristic.
//!
//! Wire format (5 bytes): `[int16 LE temperature in centi-°C]`
//! `[uint8 humidity percent]` `[uint16 LE battery millivolts]`.

use vstd::prelude::*;
use vstd::string::StringExecFns;

use crate::errors::DecodeError;
use crate::text::{push_decimal, spec_centi_text, spec_decimal_digits};
use crate::wire::{le16, le16_signed, le16_signed_spec, le16_spec};

verus! {

/// A set of readings from a Mijia sensor.
#[derive(Clone, Copy, Debug, PartialEq, Eq, Structural)]
pub struct Readings {
    /// Temperature in hundredths of a °C (the sensor reports 2 decimal
    /// places of precision).
    pub temperature: i16,
    /// Percent humidity.
    pub humidity: u8,
    /// Voltage in millivolts.
    pub battery_voltage: u16,
    /// Inferred from `battery_voltage` with a bit of hand-waving:
    /// `(max(battery_voltage, 2100) - 2100) / 10`, a rough linear heuristic
    /// rather than a calibrated curve.
    pub battery_percent: u16,
}

/// The battery-percent heuristic: one point per 10 mV above 2100 mV,
/// floor division, clamped at 0.
pub open spec fn spec_battery_percent(battery_voltage: u16) -> u16 {
    if battery_voltage < 2100 {
        0
    } else {
        (((battery_voltage - 2100) as u16) / 10) as u16
    }
}

/// The readings carried by a well-formed 5-byte buffer.
pub open spec fn spec_decode_readings(s: Seq<u8>) -> Readings
    recommends
        s.len() == 5,
{
    Readings {
        temperature: le16_signed_spec(s[0], s[1]),
        humidity: s[2],
        battery_voltage: le16_spec(s[3], s[4]),
        battery_percent: spec_battery_percent(le16_spec(s[3], s[4])),
    }
}

impl Readings {
    /// Decode the readings from the raw bytes of the Bluetooth
    /// characteristic value. Fails exactly when the buffer is not 5 bytes
    /// long; any 5-byte buffer decodes.
    pub fn decode(value: &[u8]) -> (r: Result<Readings, DecodeError>)
        ensures
            r is Ok <==> value@.len() == 5,
            value@.len() == 5 ==> r == Ok::<Readings, DecodeError>(spec_decode_readings(value@)),
            r is Err ==> r == Err::<Readings, DecodeError>(DecodeError::WrongLength),
    {
        if value.len() != 5 {
            return Err(DecodeError::WrongLength);
        }
        let temperature = le16_signed(value[0], value[1]);
        let humidity = value[2];
        let battery_voltage = le16(value[3], value[4]);
        let battery_percent = if battery_voltage < 2100 {
            0
        } else {
            (battery_voltage - 2100) / 10
        };
        Ok(Readings { temperature, humidity, battery_voltage, battery_percent })
    }
}

/// The operator-facing status line for a set of readings.
pub open spec fn spec_readings_text(r: Readings) -> Seq<char> {
    "Temperature: "@ + spec_centi_text(r.temperature) + "ºC Humidity: "@ + spec_decimal_digits(
        r.humidity as nat,
    ) + "% Battery: "@ + spec_decimal_digits(r.battery_voltage as nat) + " mV ("@
        + spec_decimal_digits(r.battery_percent as nat) + "%)"@
}

impl Readings {
    /// The readings as one human-readable status line.
    pub fn to_text(&self) -> (r: String)
        ensures
            r@ == spec_readings_text(*self),
    {
        let mut s = String::from_str("Temperature: ");
        s.append(crate::text::centi_text(self.temperature).as_str());
        s.append("ºC Humidity: ");
        push_decimal(&mut s, self.humidity as u32);
        s.append("% Battery: ");
        push_decimal(&mut s, self.battery_voltage as u32);
        s.append(" mV (");
        push_decimal(&mut s, self.battery_percent as u32);
        s.append("%)");
        proof {
            assert(s@ =~= spec_readings_text(*self));
        }
        s
    }
}

/// Battery-percent clamp: any battery voltage below 2100 mV decodes to a
/// battery percentage of exactly 0 (the value is unsigned, so it can never
/// be negative).
pub proof fn lemma_battery_percent_clamp(s: Seq<u8>)
    requires
        s.len() == 5,
        le16_spec(s[3], s[4]) < 2100,
    ensures
        spec_decode_readings(s).battery_percent == 0,
{
}

} // verus!
