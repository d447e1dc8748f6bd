//! Session core for a BrainBit EEG headset driven over a Bluetooth Low Energy
//! GATT service.
//!
//! The crate holds the pure, verified heart of the driver: the binary
//! command/status codec, the connection-phase state machine, the measurement
//! command builder and the decision logic of the event dispatch engine. All
//! transport work (scanning, connecting, writes, notification delivery) is
//! left to the caller, who feeds plain values in and carries the returned
//! actions out.

use vstd::prelude::*;

pub mod control;
pub mod device;
pub mod eeg_uuids;
pub mod engine;
pub mod errors;
pub mod resist;
pub mod responses;
pub mod sealed;

use crate::control::ControlPointCommand;
use crate::device::CommandData;
use crate::responses::DeviceStatusData;

verus! {

/// ADS1294 channel setting selecting an electrode for resistance
/// measurement: power-down, gain x3.
pub const RESIST_GAIN_SELECTED: u8 = 0x91;

/// ADS1294 channel setting for the electrodes left out of a resistance
/// measurement: power-up, gain x1.
pub const RESIST_GAIN_OTHERS: u8 = 0x48;

/// ADS1294 channel setting used for all channels during EEG signal
/// measurement: power-down, gain x6.
pub const EEG_CHANNEL_GAIN: u8 = 0x00;

/// List of measurement types you can request.
#[derive(Debug, PartialEq, Eq, Structural, Clone, Copy)]
pub enum MeasurementType {
    /// Electrode resistance measurement on one channel
    Resistance(ChannelType),
    /// EEG signal measurement
    Eeg,
}

/// List of electrode channels on the headset, each with a fixed code 0-3.
#[derive(Debug, PartialEq, Eq, Structural, Clone, Copy)]
pub enum ChannelType {
    /// Channel 0, left occipital lobe
    O1,
    /// Channel 1, left temporal lobe
    T3,
    /// Channel 2, right temporal lobe
    T4,
    /// Channel 3, right occipital lobe
    O2,
}

impl ChannelType {
    /// Numeric code of the channel, 0 to 3.
    pub open spec fn spec_code(self) -> u8 {
        match self {
            ChannelType::O1 => 0,
            ChannelType::T3 => 1,
            ChannelType::T4 => 2,
            ChannelType::O2 => 3,
        }
    }

    /// Numeric code of the channel, 0 to 3.
    pub fn code(self) -> (r: u8)
        ensures
            r == self.spec_code(),
    {
        match self {
            ChannelType::O1 => 0,
            ChannelType::T3 => 1,
            ChannelType::T4 => 2,
            ChannelType::O2 => 3,
        }
    }

    /// The channel a numeric code stands for; codes above 3 name no channel
    /// and are refused.
    pub fn new(channel_number: u8) -> (r: Result<ChannelType, errors::Error>)
        ensures
            channel_number == 0 ==> r == Ok::<ChannelType, errors::Error>(ChannelType::O1),
            channel_number == 1 ==> r == Ok::<ChannelType, errors::Error>(ChannelType::T3),
            channel_number == 2 ==> r == Ok::<ChannelType, errors::Error>(ChannelType::T4),
            channel_number == 3 ==> r == Ok::<ChannelType, errors::Error>(ChannelType::O2),
            channel_number > 3 ==> r is Err && (r matches Err(e) ==> e is InvalidData),
            r matches Ok(c) ==> c.spec_code() == channel_number,
    {
        match channel_number {
            0 => Ok(ChannelType::O1),
            1 => Ok(ChannelType::T3),
            2 => Ok(ChannelType::T4),
            3 => Ok(ChannelType::O2),
            _ => Err(
                errors::Error::InvalidData(
                    "Incorrect channel type/number (correct value: 0-3)".to_owned(),
                ),
            ),
        }
    }
}

/// Positive sense-electrode selection byte for a resistance measurement on
/// one channel: the bit with the channel's index.
pub open spec fn spec_resist_sense_p(c: ChannelType) -> u8 {
    match c {
        ChannelType::O1 => 0x01,
        ChannelType::T3 => 0x02,
        ChannelType::T4 => 0x04,
        ChannelType::O2 => 0x08,
    }
}

/// Negative sense-electrode selection byte for a resistance measurement on
/// one channel, as the device firmware expects it.
pub open spec fn spec_resist_sense_n(c: ChannelType) -> u8 {
    match c {
        ChannelType::O1 => 0x01,
        ChannelType::T3 => 0x03,
        ChannelType::T4 => 0x05,
        ChannelType::O2 => 0x08,
    }
}

/// The control-point command a measurement request maps to.
///
/// A resistance request powers down the selected channel at gain x3 and
/// powers up the other three at gain x1; an EEG request powers down all four
/// channels at gain x6.
pub open spec fn spec_measurement_command(measure_type: MeasurementType) -> ControlPointCommand {
    match measure_type {
        MeasurementType::Eeg => ControlPointCommand::StartEegSignal {
            ch1: EEG_CHANNEL_GAIN,
            ch2: 0x00,
            ch3: 0x00,
            ch4: 0x00,
        },
        MeasurementType::Resistance(c) => ControlPointCommand::StartResist {
            ch1: if c.spec_code() == 0 { RESIST_GAIN_SELECTED } else { RESIST_GAIN_OTHERS },
            ch2: if c.spec_code() == 1 { RESIST_GAIN_SELECTED } else { RESIST_GAIN_OTHERS },
            ch3: if c.spec_code() == 2 { RESIST_GAIN_SELECTED } else { RESIST_GAIN_OTHERS },
            ch4: if c.spec_code() == 3 { RESIST_GAIN_SELECTED } else { RESIST_GAIN_OTHERS },
            sense_p: spec_resist_sense_p(c),
            sense_n: spec_resist_sense_n(c),
            flip_p: 0x00,
        },
    }
}

/// Build the control-point command that starts the requested measurement.
/// Total: every request, on every channel selector, maps to one command.
pub fn measurement_command(measure_type: MeasurementType) -> (r: ControlPointCommand)
    ensures
        r == spec_measurement_command(measure_type),
{
    match measure_type {
        MeasurementType::Eeg => ControlPointCommand::StartEegSignal {
            ch1: EEG_CHANNEL_GAIN,
            ch2: 0x00,
            ch3: 0x00,
            ch4: 0x00,
        },
        MeasurementType::Resistance(c) => {
            let code = c.code();
            ControlPointCommand::StartResist {
                ch1: if code == 0 { RESIST_GAIN_SELECTED } else { RESIST_GAIN_OTHERS },
                ch2: if code == 1 { RESIST_GAIN_SELECTED } else { RESIST_GAIN_OTHERS },
                ch3: if code == 2 { RESIST_GAIN_SELECTED } else { RESIST_GAIN_OTHERS },
                ch4: if code == 3 { RESIST_GAIN_SELECTED } else { RESIST_GAIN_OTHERS },
                sense_p: match c {
                    ChannelType::O1 => 0x01,
                    ChannelType::T3 => 0x02,
                    ChannelType::T4 => 0x04,
                    ChannelType::O2 => 0x08,
                },
                sense_n: match c {
                    ChannelType::O1 => 0x01,
                    ChannelType::T3 => 0x03,
                    ChannelType::T4 => 0x05,
                    ChannelType::O2 => 0x08,
                },
                flip_p: 0x00,
            }
        }
    }
}

/// Law: for every channel selector, the encoded resistance-start command is
/// 8 bytes long, starts with the resistance tag, and its gain block holds
/// the selected-channel gain exactly at the selected channel's slot and the
/// power-up gain at the other three.
pub proof fn lemma_resist_command_layout(c: ChannelType)
    ensures
        spec_measurement_command(MeasurementType::Resistance(c)).spec_encode().len() == 8,
        spec_measurement_command(MeasurementType::Resistance(c)).spec_encode()[0] == 0x03,
        forall|i: int|
            1 <= i < 5 ==> spec_measurement_command(
                MeasurementType::Resistance(c),
            ).spec_encode()[i] == (if i == c.spec_code() + 1 {
                RESIST_GAIN_SELECTED
            } else {
                RESIST_GAIN_OTHERS
            }),
{
    let bytes = spec_measurement_command(MeasurementType::Resistance(c)).spec_encode();
    assert forall|i: int|
        1 <= i < 5 implies bytes[i] == (if i == c.spec_code() + 1 {
        RESIST_GAIN_SELECTED
    } else {
        RESIST_GAIN_OTHERS
    }) by {
        match c {
            ChannelType::O1 => {}
            ChannelType::T3 => {}
            ChannelType::T4 => {}
            ChannelType::O2 => {}
        }
    }
}

/// Base trait for handling events coming from a BrainBit device. The
/// dispatch unit invokes the methods strictly sequentially, at most once per
/// received frame.
pub trait EventHandler {
    /// Dispatched when an internal device status update is received:
    /// status, command error, battery level.
    fn device_status_update(&mut self, status: DeviceStatusData);

    /// Dispatched when EEG or resistance data is received: one raw frame.
    fn eeg_update(&mut self, eeg_data: Vec<u8>);

    /// Dispatched when measurement data arrives attached to a command.
    fn send_command(&mut self, command_data: CommandData);

    /// Checked by the caller's loop; `false` asks it to terminate.
    fn should_continue(&mut self) -> bool;
}


} // verus!
