//! Error taxonomy of the driver core.

use vstd::prelude::*;

verus! {

/// Error type for session-level failures.
///
/// Connect-time errors propagate to the caller that invoked the connect
/// attempt; per-frame decode errors are never fatal to a running session.
#[derive(Debug, Clone)]
pub enum Error {
    /// No Bluetooth adapter is present; fatal, never retried.
    NoBleAdaptor,
    /// No device matching the name filter was discovered in this attempt.
    NoDevice,
    /// A command was issued while the device looks disconnected.
    NotConnected,
    /// A required GATT characteristic is missing on the device.
    CharacteristicNotFound,
    /// Received data could not be interpreted; the message names the input.
    InvalidData(String),
    /// The command did not return a response.
    NoControlPointResponse,
    /// Failure reported by the underlying BLE transport, as a message.
    BleError(String),
}

/// Error type for the per-frame binary codec.
#[derive(Debug, PartialEq, Eq, Structural, Clone, Copy)]
pub enum DecodeError {
    /// A status frame had the wrong length or an out-of-range byte.
    InvalidFrame,
    /// A command byte sequence matched no known command layout.
    UnknownCommand,
}

} // verus!
