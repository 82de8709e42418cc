//! Decoding and encoding of the sensor's display settings: the temperature
//! unit and the comfort-level configuration.

use vstd::prelude::*;

use crate::errors::{DecodeError, EncodeError};
use crate::wire::{le16_signed, le16_signed_bytes, le16_signed_spec};

verus! {

/// The temperature unit which the sensor uses for its display.
///
/// Wire format (1 byte): `0x00` for Celsius, `0x01` for Fahrenheit; every
/// other value is rejected.
#[derive(Clone, Copy, Debug, PartialEq, Eq, Structural)]
pub enum TemperatureUnit {
    Celsius,
    Fahrenheit,
}

/// The unit carried by a well-formed 1-byte buffer, if its value is one the
/// protocol knows.
pub open spec fn spec_decode_temperature_unit(s: Seq<u8>) -> Option<TemperatureUnit>
    recommends
        s.len() == 1,
{
    if s[0] == 0x00u8 {
        Some(TemperatureUnit::Celsius)
    } else if s[0] == 0x01u8 {
        Some(TemperatureUnit::Fahrenheit)
    } else {
        None
    }
}

/// The 1-byte wire layout of a temperature unit.
pub open spec fn spec_encode_temperature_unit(unit: TemperatureUnit) -> Seq<u8> {
    match unit {
        TemperatureUnit::Celsius => seq![0x00u8],
        TemperatureUnit::Fahrenheit => seq![0x01u8],
    }
}

impl TemperatureUnit {
    /// Decode a temperature unit. Fails with `WrongLength` exactly when the
    /// buffer is not 1 byte long, and with `ValueOutOfRange` exactly when
    /// the byte is neither `0x00` nor `0x01`.
    pub fn decode(value: &[u8]) -> (r: Result<TemperatureUnit, DecodeError>)
        ensures
            value@.len() != 1 ==> r == Err::<TemperatureUnit, DecodeError>(
                DecodeError::WrongLength,
            ),
            value@.len() == 1 ==> r == match spec_decode_temperature_unit(value@) {
                Some(unit) => Ok::<TemperatureUnit, DecodeError>(unit),
                None => Err::<TemperatureUnit, DecodeError>(DecodeError::ValueOutOfRange),
            },
    {
        if value.len() != 1 {
            return Err(DecodeError::WrongLength);
        }
        match value[0] {
            0x00 => Ok(TemperatureUnit::Celsius),
            0x01 => Ok(TemperatureUnit::Fahrenheit),
            _ => Err(DecodeError::ValueOutOfRange),
        }
    }

    /// Encode a temperature unit into its 1-byte wire layout. Never fails:
    /// both units are representable.
    pub fn encode(&self) -> (r: Vec<u8>)
        ensures
            r@ == spec_encode_temperature_unit(*self),
    {
        let mut v: Vec<u8> = Vec::new();
        match self {
            TemperatureUnit::Celsius => v.push(0x00),
            TemperatureUnit::Fahrenheit => v.push(0x01),
        }
        proof {
            assert(v@ =~= spec_encode_temperature_unit(*self));
        }
        v
    }
}

/// Temperature-unit codec round trip: every unit decodes back from its own
/// encoding, and the encoding always has the fixed length 1.
pub proof fn lemma_temperature_unit_round_trip(unit: TemperatureUnit)
    ensures
        spec_encode_temperature_unit(unit).len() == 1,
        spec_decode_temperature_unit(spec_encode_temperature_unit(unit)) == Some(unit),
{
}

/// The comfort-level configuration which determines when the sensor
/// displays a happy face.
///
/// Wire format (6 bytes): `[int16 LE temperature upper bound in centi-°C]`
/// `[int16 LE temperature lower bound in centi-°C]`
/// `[uint8 humidity upper bound percent]` `[uint8 humidity lower bound
/// percent]`. Humidity bounds above 100 percent are rejected.
#[derive(Clone, Copy, Debug, PartialEq, Eq, Structural)]
pub struct ComfortLevel {
    /// Highest comfortable temperature, in hundredths of a °C.
    pub temperature_upper: i16,
    /// Lowest comfortable temperature, in hundredths of a °C.
    pub temperature_lower: i16,
    /// Highest comfortable relative humidity, in percent (at most 100).
    pub humidity_upper: u8,
    /// Lowest comfortable relative humidity, in percent (at most 100).
    pub humidity_lower: u8,
}

impl ComfortLevel {
    /// A comfort level is valid when its humidity bounds are percentages.
    pub open spec fn valid(self) -> bool {
        self.humidity_upper <= 100 && self.humidity_lower <= 100
    }

    /// Decode a comfort level. Fails with `WrongLength` exactly when the
    /// buffer is not 6 bytes long, and with `ValueOutOfRange` exactly when a
    /// humidity bound is above 100 percent.
    pub fn decode(value: &[u8]) -> (r: Result<ComfortLevel, DecodeError>)
        ensures
            value@.len() != 6 ==> r == Err::<ComfortLevel, DecodeError>(DecodeError::WrongLength),
            value@.len() == 6 ==> r == match spec_decode_comfort_level(value@) {
                Some(level) => Ok::<ComfortLevel, DecodeError>(level),
                None => Err::<ComfortLevel, DecodeError>(DecodeError::ValueOutOfRange),
            },
            r matches Ok(level) ==> level.valid(),
    {
        if value.len() != 6 {
            return Err(DecodeError::WrongLength);
        }
        let humidity_upper = value[4];
        let humidity_lower = value[5];
        if humidity_upper > 100 || humidity_lower > 100 {
            return Err(DecodeError::ValueOutOfRange);
        }
        Ok(ComfortLevel {
            temperature_upper: le16_signed(value[0], value[1]),
            temperature_lower: le16_signed(value[2], value[3]),
            humidity_upper,
            humidity_lower,
        })
    }

    /// Encode a comfort level into its 6-byte wire layout. Fails exactly
    /// when a humidity bound is above 100 percent, the one kind of value the
    /// layout reserves no meaning for.
    pub fn encode(&self) -> (r: Result<Vec<u8>, EncodeError>)
        ensures
            r is Ok <==> self.valid(),
            r is Err ==> r == Err::<Vec<u8>, EncodeError>(EncodeError::ValueOutOfRange),
            r matches Ok(v) ==> v@ == spec_encode_comfort_level(*self),
    {
        if self.humidity_upper > 100 || self.humidity_lower > 100 {
            return Err(EncodeError::ValueOutOfRange);
        }
        let (t0, t1) = le16_signed_bytes(self.temperature_upper);
        let (t2, t3) = le16_signed_bytes(self.temperature_lower);
        let mut v: Vec<u8> = Vec::new();
        v.push(t0);
        v.push(t1);
        v.push(t2);
        v.push(t3);
        v.push(self.humidity_upper);
        v.push(self.humidity_lower);
        proof {
            assert(v@ =~= spec_encode_comfort_level(*self));
        }
        Ok(v)
    }
}

/// The comfort level carried by a well-formed 6-byte buffer, if its
/// humidity bounds are percentages.
pub open spec fn spec_decode_comfort_level(s: Seq<u8>) -> Option<ComfortLevel>
    recommends
        s.len() == 6,
{
    if s[4] > 100 || s[5] > 100 {
        None
    } else {
        Some(
            ComfortLevel {
                temperature_upper: le16_signed_spec(s[0], s[1]),
                temperature_lower: le16_signed_spec(s[2], s[3]),
                humidity_upper: s[4],
                humidity_lower: s[5],
            },
        )
    }
}

/// The 6-byte wire layout of a comfort level.
pub open spec fn spec_encode_comfort_level(level: ComfortLevel) -> Seq<u8> {
    let upper = level.temperature_upper as u16;
    let lower = level.temperature_lower as u16;
    seq![
        (upper & 0xff) as u8,
        ((upper >> 8) & 0xff) as u8,
        (lower & 0xff) as u8,
        ((lower >> 8) & 0xff) as u8,
        level.humidity_upper,
        level.humidity_lower,
    ]
}

/// Comfort-level codec round trip: every valid comfort level decodes back
/// from its own encoding, and the encoding always has the fixed length 6.
pub proof fn lemma_comfort_level_round_trip(level: ComfortLevel)
    requires
        level.valid(),
    ensures
        spec_encode_comfort_level(level).len() == 6,
        spec_decode_comfort_level(spec_encode_comfort_level(level)) == Some(level),
{
    let tu: i16 = level.temperature_upper;
    let tl: i16 = level.temperature_lower;
    let upper = tu as u16;
    let lower = tl as u16;
    assert(((upper & 0xff) as u8 as u16) | (((upper >> 8) & 0xff) as u8 as u16) << 8 == upper)
        by (bit_vector);
    assert(((lower & 0xff) as u8 as u16) | (((lower >> 8) & 0xff) as u8 as u16) << 8 == lower)
        by (bit_vector);
    assert(tu as u16 as i16 == tu) by (bit_vector);
    assert(tl as u16 as i16 == tl) by (bit_vector);
}

} // verus!
