//! Marker types for the construction phases of a sensor, so that each
//! operation is only callable in the phase that supports it.

use vstd::prelude::*;

verus! {

/// Marker for the construction phase of a sensor.
pub trait Level {

}

/// Marker for the phases in which the sensor is connected over Bluetooth.
pub trait Connected: Level {

}

/// Phase for resolving and connecting to the device.
#[derive(Debug, Clone, Copy)]
pub struct Bluetooth;

impl Level for Bluetooth {

}

/// Phase for registering the data types to listen for.
#[derive(Debug, Clone, Copy, PartialEq, Eq, Structural)]
pub struct Configure {
    /// Interest in device status changes: command errors, battery level
    pub device_status: bool,
    /// Interest in the EEG or resistance data stream
    pub eeg_rate: bool,
}

impl Level for Configure {

}

impl Connected for Configure {

}

impl Default for Configure {
    /// A configuration with no interests recorded yet.
    fn default() -> (r: Self)
        ensures
            !r.device_status,
            !r.eeg_rate,
    {
        Configure { device_status: false, eeg_rate: false }
    }
}

/// Phase for running the event loop.
#[derive(Debug, Clone, Copy)]
pub struct EventLoop;

impl Level for EventLoop {

}

impl Connected for EventLoop {

}

} // verus!
