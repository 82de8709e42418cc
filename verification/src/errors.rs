//! Error taxonomy: transport failures, codec failures in both directions, and
//! malformed configuration.

use vstd::prelude::*;

verus! {

/// An error decoding a byte buffer received from a sensor.
#[derive(Clone, Copy, Debug, PartialEq, Eq, Structural)]
pub enum DecodeError {
    /// The buffer did not have the fixed length required for the
    /// characteristic being decoded.
    WrongLength,
    /// A field of the buffer held a value outside the range the protocol
    /// allows.
    ValueOutOfRange,
}

/// An error building a byte buffer to send to a sensor: the value cannot be
/// represented in the fixed wire layout.
#[derive(Clone, Copy, Debug, PartialEq, Eq, Structural)]
pub enum EncodeError {
    /// The value lies outside the range the wire layout can carry.
    ValueOutOfRange,
}

/// An error from the Bluetooth transport collaborator. The transport itself
/// is outside this crate; its failures are opaque here and only drive
/// connection-state transitions.
#[derive(Clone, Copy, Debug, PartialEq, Eq, Structural)]
pub enum BluetoothError {
    /// A connect, disconnect, read, write or (un)subscribe call failed.
    OperationFailed,
}

/// An error interacting with a Mijia sensor.
#[derive(Clone, Copy, Debug, PartialEq, Eq, Structural)]
pub enum MijiaError {
    /// The error was with the Bluetooth connection.
    Bluetooth(BluetoothError),
    /// The error was with decoding a value from a sensor.
    Decoding(DecodeError),
    /// The error was with encoding a value to send to a sensor.
    Encoding(EncodeError),
}

/// An error reading the sensor-name configuration file.
#[derive(Clone, Copy, Debug, PartialEq, Eq, Structural)]
pub enum ConfigError {
    /// A line held no `=` separating the MAC address from the display name.
    MissingSeparator,
    /// A line held more than one `=`; the mapping is exactly one
    /// `MAC_ADDRESS=display_name` pair per line.
    ExtraSeparator,
    /// The text before the `=` was not a valid MAC address.
    InvalidMacAddress,
}

/// An illegal connection-state transition was requested; reported instead of
/// panicking so the caller can fail fast in an orderly way.
#[derive(Clone, Copy, Debug, PartialEq, Eq, Structural)]
pub enum OrchestratorError {
    /// A subscribe failure was reported for a sensor already marked
    /// `Connected`, which the state machine never produces.
    IllegalTransition,
}

} // verus!
