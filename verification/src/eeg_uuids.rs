//! GATT identifiers of the device, held as 128-bit UUID values, and the
//! notification/event classification built on them.

use vstd::prelude::*;

verus! {

/// Local-name prefix to search for while scanning.
pub const PERIPHERAL_NAME_MATCH_FILTER: &'static str = "BrainBit";

/// GATT attribute service holding the identification characteristics below.
pub const GENERIC_ATTRIBUTE_SERVICE_UUID: u128 = 0x0000180A_0000_1000_8000_00805F9B34FB;

/// Device model number string (in the attribute service)
pub const MODEL_NUMBER_STRING_UUID: u128 = 0x00002A24_0000_1000_8000_00805F9B34FB;

/// Serial number string (in the attribute service)
pub const SERIAL_NUMBER_STRING_UUID: u128 = 0x00002A25_0000_1000_8000_00805F9B34FB;

/// Hardware revision string (in the attribute service)
pub const HARDWARE_REVISION_STRING_UUID: u128 = 0x00002A26_0000_1000_8000_00805F9B34FB;

/// Firmware revision string (in the attribute service)
pub const FIRMWARE_REVISION_STRING_UUID: u128 = 0x00002A27_0000_1000_8000_00805F9B34FB;

/// Main NSS2 GATT service carrying data and commands from/to the device.
pub const NSS2_SERVICE_UUID: u128 = 0x6E400001_B534_F393_68A9_E50E24DCCA9E;

/// Device state notifications (in the NSS2 service)
pub const DEVICE_STATE_NOTIFY_CHARACTERISTIC_UUID: u128 = 0x6E400002_B534_F393_68A9_E50E24DCCA9E;

/// EEG or resistance data notifications (in the NSS2 service)
pub const EEG_DATA_NOTIFY_CHARACTERISTIC_UUID: u128 = 0x6E400004_B534_F393_68A9_E50E24DCCA9E;

/// Command transmission, the control point (in the NSS2 service)
pub const WRITE_COMMAN_UUID: u128 = 0x6E400003_B534_F393_68A9_E50E24DCCA9E;

/// Which characteristic a notification arrives on.
#[derive(Debug, Clone, Copy, PartialEq, Eq, Structural)]
pub enum NotifyUuid {
    /// Device status change: command errors, battery level, mode
    DeviceStateChange,
    /// EEG signal or electrode resistance measurement update
    EegOrResistanceMeasurementChange,
}

impl NotifyUuid {
    /// UUID of the characteristic this notification source stands for.
    pub open spec fn spec_to_uuid(self) -> u128 {
        match self {
            NotifyUuid::DeviceStateChange => DEVICE_STATE_NOTIFY_CHARACTERISTIC_UUID,
            NotifyUuid::EegOrResistanceMeasurementChange => EEG_DATA_NOTIFY_CHARACTERISTIC_UUID,
        }
    }

    /// UUID of the characteristic this notification source stands for.
    pub fn to_uuid(self) -> (r: u128)
        ensures
            r == self.spec_to_uuid(),
    {
        match self {
            NotifyUuid::DeviceStateChange => DEVICE_STATE_NOTIFY_CHARACTERISTIC_UUID,
            NotifyUuid::EegOrResistanceMeasurementChange => EEG_DATA_NOTIFY_CHARACTERISTIC_UUID,
        }
    }
}

/// A stream of notifications that can be subscribed to.
#[derive(Debug, Clone, Copy, PartialEq, Eq, Structural)]
pub enum NotifyStream {
    /// Device status updates: command errors, battery level, mode
    DeviceState,
    /// EEG signal or electrode resistance data updates
    EegOrResistanceMeasurement,
}

impl NotifyStream {
    /// The notification source this stream is delivered on.
    pub open spec fn spec_to_notify_uuid(self) -> NotifyUuid {
        match self {
            NotifyStream::DeviceState => NotifyUuid::DeviceStateChange,
            NotifyStream::EegOrResistanceMeasurement => NotifyUuid::EegOrResistanceMeasurementChange,
        }
    }

    /// The notification source this stream is delivered on.
    pub fn to_notify_uuid(self) -> (r: NotifyUuid)
        ensures
            r == self.spec_to_notify_uuid(),
    {
        match self {
            NotifyStream::DeviceState => NotifyUuid::DeviceStateChange,
            NotifyStream::EegOrResistanceMeasurement => NotifyUuid::EegOrResistanceMeasurementChange,
        }
    }

    /// UUID of the characteristic carrying this stream.
    pub open spec fn spec_to_uuid(self) -> u128 {
        self.spec_to_notify_uuid().spec_to_uuid()
    }

    /// UUID of the characteristic carrying this stream.
    pub fn to_uuid(self) -> (r: u128)
        ensures
            r == self.spec_to_uuid(),
    {
        self.to_notify_uuid().to_uuid()
    }
}

/// Types of events a sensor can listen for.
#[derive(Debug, Clone, Copy, PartialEq, Eq, Structural)]
pub enum EventType {
    /// EEG signal or electrode resistance data
    EegOrResistance,
    /// Internal device status with additional data
    State,
}

impl EventType {
    /// The stream that delivers this event type.
    pub open spec fn spec_to_notify_stream(self) -> NotifyStream {
        match self {
            EventType::State => NotifyStream::DeviceState,
            EventType::EegOrResistance => NotifyStream::EegOrResistanceMeasurement,
        }
    }

    /// The stream that delivers this event type.
    pub fn to_notify_stream(self) -> (r: NotifyStream)
        ensures
            r == self.spec_to_notify_stream(),
    {
        match self {
            EventType::State => NotifyStream::DeviceState,
            EventType::EegOrResistance => NotifyStream::EegOrResistanceMeasurement,
        }
    }

    /// UUID of the characteristic carrying this event type.
    pub open spec fn spec_to_uuid(self) -> u128 {
        self.spec_to_notify_stream().spec_to_uuid()
    }

    /// UUID of the characteristic carrying this event type.
    pub fn to_uuid(&self) -> (r: u128)
        ensures
            r == self.spec_to_uuid(),
    {
        self.to_notify_stream().to_uuid()
    }
}

/// Plain-read string characteristics of the device.
#[derive(Debug, Clone, Copy, PartialEq, Eq, Structural)]
pub enum StringUuid {
    /// Device model number
    ModelNumber,
    /// Hardware revision
    HardwareRevision,
    /// Firmware revision
    FirmwareRevision,
    /// Serial number
    SerialNumber,
}

impl StringUuid {
    /// UUID of the characteristic holding this string.
    pub open spec fn spec_to_uuid(self) -> u128 {
        match self {
            StringUuid::ModelNumber => MODEL_NUMBER_STRING_UUID,
            StringUuid::HardwareRevision => HARDWARE_REVISION_STRING_UUID,
            StringUuid::FirmwareRevision => FIRMWARE_REVISION_STRING_UUID,
            StringUuid::SerialNumber => SERIAL_NUMBER_STRING_UUID,
        }
    }

    /// UUID of the characteristic holding this string.
    pub fn to_uuid(self) -> (r: u128)
        ensures
            r == self.spec_to_uuid(),
    {
        match self {
            StringUuid::ModelNumber => MODEL_NUMBER_STRING_UUID,
            StringUuid::HardwareRevision => HARDWARE_REVISION_STRING_UUID,
            StringUuid::FirmwareRevision => FIRMWARE_REVISION_STRING_UUID,
            StringUuid::SerialNumber => SERIAL_NUMBER_STRING_UUID,
        }
    }
}

} // verus!
