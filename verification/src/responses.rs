//! Decoded responses and notifications read back from the device: the 4-byte
//! status frame, the derived battery charge level, and the one-time device
//! information record.

use vstd::prelude::*;

use crate::errors::DecodeError;
use vstd::string::StringExecFns;

verus! {

/// Maximum raw battery value reported by the device; stands for a full
/// charge.
pub const MAX_BATTERY_LEVEL: u8 = 0x57;

/// A common device state, as advertised outside the NSS2 service.
#[derive(Debug, Clone, Copy, PartialEq, Eq, Structural)]
pub enum CommonDeviceState {
    /// Device is not initialized
    Invalid,
    /// Device is turned on and sends advertisements
    Advertising,
    /// Sensor is connected
    Connected,
    /// Battery has discharged, device is turning off
    PowerDown,
    /// DFU loader mode
    Dfu,
}

/// Operating mode of the device's NSS2 GATT service.
#[derive(Debug, Clone, Copy, PartialEq, Eq, Structural)]
pub enum Nss2Status {
    /// Initial, invalid state
    Initial,
    /// Service is initialized and stopped, ready to start work
    Stopped,
    /// Signal measurement is running, service sends EEG data to the host
    EegTransmission,
    /// Resistance measurement is running, service sends resistance data
    ResistTransmission,
    /// DFU loader mode
    DfuBootLoderMode,
}

impl Nss2Status {
    /// The state a status byte holds, if it is in the closed 0x00-0x04 range.
    pub open spec fn spec_from_byte(b: u8) -> Option<Nss2Status> {
        if b == 0x00 {
            Some(Nss2Status::Initial)
        } else if b == 0x01 {
            Some(Nss2Status::Stopped)
        } else if b == 0x02 {
            Some(Nss2Status::EegTransmission)
        } else if b == 0x03 {
            Some(Nss2Status::ResistTransmission)
        } else if b == 0x04 {
            Some(Nss2Status::DfuBootLoderMode)
        } else {
            None
        }
    }

    /// The state a status byte holds, if it is in the closed 0x00-0x04 range.
    pub fn from_byte(b: u8) -> (r: Option<Nss2Status>)
        ensures
            r == Self::spec_from_byte(b),
    {
        if b == 0x00 {
            Some(Nss2Status::Initial)
        } else if b == 0x01 {
            Some(Nss2Status::Stopped)
        } else if b == 0x02 {
            Some(Nss2Status::EegTransmission)
        } else if b == 0x03 {
            Some(Nss2Status::ResistTransmission)
        } else if b == 0x04 {
            Some(Nss2Status::DfuBootLoderMode)
        } else {
            None
        }
    }

    /// Wire byte of this state.
    pub open spec fn spec_as_u8(self) -> u8 {
        match self {
            Nss2Status::Initial => 0x00,
            Nss2Status::Stopped => 0x01,
            Nss2Status::EegTransmission => 0x02,
            Nss2Status::ResistTransmission => 0x03,
            Nss2Status::DfuBootLoderMode => 0x04,
        }
    }

    /// Wire byte of this state.
    pub fn as_u8(self) -> (r: u8)
        ensures
            r == self.spec_as_u8(),
    {
        match self {
            Nss2Status::Initial => 0x00,
            Nss2Status::Stopped => 0x01,
            Nss2Status::EegTransmission => 0x02,
            Nss2Status::ResistTransmission => 0x03,
            Nss2Status::DfuBootLoderMode => 0x04,
        }
    }
}

/// Result of the last command the NSS2 service executed. It is reset when a
/// new command is received.
#[derive(Debug, Clone, Copy, PartialEq, Eq, Structural)]
pub enum CommandResultError {
    /// No error after the command
    NoError,
    /// The command had an incorrect length
    ErrorLength,
    /// Changing the device's working mode is not possible
    ErrorSwitchMode,
}

impl CommandResultError {
    /// The command result an error byte holds, if it is in the closed
    /// 0x00-0x02 range.
    pub open spec fn spec_from_byte(b: u8) -> Option<CommandResultError> {
        if b == 0x00 {
            Some(CommandResultError::NoError)
        } else if b == 0x01 {
            Some(CommandResultError::ErrorLength)
        } else if b == 0x02 {
            Some(CommandResultError::ErrorSwitchMode)
        } else {
            None
        }
    }

    /// The command result an error byte holds, if it is in the closed
    /// 0x00-0x02 range.
    pub fn from_byte(b: u8) -> (r: Option<CommandResultError>)
        ensures
            r == Self::spec_from_byte(b),
    {
        if b == 0x00 {
            Some(CommandResultError::NoError)
        } else if b == 0x01 {
            Some(CommandResultError::ErrorLength)
        } else if b == 0x02 {
            Some(CommandResultError::ErrorSwitchMode)
        } else {
            None
        }
    }
}

/// Device status carried by each 4-byte status notification: NSS2 service
/// state, last command result, raw battery level and firmware version.
#[derive(Debug, Clone, Copy, PartialEq, Eq, Structural)]
pub struct DeviceStatusData {
    /// NSS2 service state
    pub status_nss2: Nss2Status,
    /// Result of the last executed command
    pub cmd_error: CommandResultError,
    /// Raw battery level; `MAX_BATTERY_LEVEL` stands for a full charge
    pub battery_level: u8,
    /// Firmware version
    pub firmware_version: u8,
}

impl DeviceStatusData {
    /// What a status frame decodes to: exactly 4 bytes, with the state and
    /// error bytes in their closed ranges; anything else is an invalid frame.
    pub open spec fn spec_decode(s: Seq<u8>) -> Result<DeviceStatusData, DecodeError> {
        if s.len() != 4 {
            Err(DecodeError::InvalidFrame)
        } else {
            match (Nss2Status::spec_from_byte(s[0]), CommandResultError::spec_from_byte(s[1])) {
                (Some(status_nss2), Some(cmd_error)) => Ok(
                    DeviceStatusData {
                        status_nss2,
                        cmd_error,
                        battery_level: s[2],
                        firmware_version: s[3],
                    },
                ),
                _ => Err(DecodeError::InvalidFrame),
            }
        }
    }

    /// Decode one status notification frame. Never panics: a frame of the
    /// wrong length or with an out-of-range byte is reported as invalid and
    /// can be dropped by the caller.
    pub fn decode(value: &Vec<u8>) -> (r: Result<DeviceStatusData, DecodeError>)
        ensures
            r == Self::spec_decode(value@),
    {
        if value.len() != 4 {
            return Err(DecodeError::InvalidFrame);
        }
        let status_nss2 = match Nss2Status::from_byte(value[0]) {
            Some(s) => s,
            None => {
                return Err(DecodeError::InvalidFrame);
            }
        };
        let cmd_error = match CommandResultError::from_byte(value[1]) {
            Some(e) => e,
            None => {
                return Err(DecodeError::InvalidFrame);
            }
        };
        Ok(
            DeviceStatusData {
                status_nss2,
                cmd_error,
                battery_level: value[2],
                firmware_version: value[3],
            },
        )
    }

    /// Battery charge in whole percent, capped at 100.
    pub open spec fn spec_battery_percent(raw: u8) -> u8 {
        if (raw as int) * 100 / (MAX_BATTERY_LEVEL as int) > 100 {
            100
        } else {
            ((raw as int) * 100 / (MAX_BATTERY_LEVEL as int)) as u8
        }
    }

    /// Battery charge in whole percent, capped at 100.
    pub fn battery_percent(&self) -> (r: u8)
        ensures
            r == Self::spec_battery_percent(self.battery_level),
    {
        let p: u32 = (self.battery_level as u32) * 100 / (MAX_BATTERY_LEVEL as u32);
        if p > 100 {
            100
        } else {
            p as u8
        }
    }

    /// Battery charge in tenths of a percent, rounded down.
    pub open spec fn spec_battery_tenths(raw: u8) -> int {
        (raw as int) * 1000 / (MAX_BATTERY_LEVEL as int)
    }

    /// Battery charge rendered with one decimal digit, as the characters of
    /// e.g. `77.0` or `100.0`.
    pub open spec fn spec_battery_string(raw: u8) -> Seq<char> {
        spec_decimal_digits(Self::spec_battery_tenths(raw) / 10) + seq![
            '.',
            spec_digit_char(Self::spec_battery_tenths(raw) % 10),
        ]
    }

    /// Battery charge level in percent, rendered with one decimal digit.
    pub fn get_battery_charge_level_string(&self) -> (s: String)
        ensures
            s@ == Self::spec_battery_string(self.battery_level),
    {
        let tenths: u32 = (self.battery_level as u32) * 1000 / (MAX_BATTERY_LEVEL as u32);
        let mut s = String::new();
        push_decimal(&mut s, tenths / 10);
        s.append(".");
        proof {
            reveal_strlit(".");
            assert((".")@ =~= seq!['.']);
        }
        push_digit(&mut s, tenths % 10);
        proof {
            assert(s@ =~= Self::spec_battery_string(self.battery_level));
        }
        s
    }
}

/// The character of one decimal digit.
pub open spec fn spec_digit_char(d: int) -> char {
    if d == 0 {
        '0'
    } else if d == 1 {
        '1'
    } else if d == 2 {
        '2'
    } else if d == 3 {
        '3'
    } else if d == 4 {
        '4'
    } else if d == 5 {
        '5'
    } else if d == 6 {
        '6'
    } else if d == 7 {
        '7'
    } else if d == 8 {
        '8'
    } else {
        '9'
    }
}

/// Decimal rendering of a non-negative number, most significant digit first.
pub open spec fn spec_decimal_digits(n: int) -> Seq<char>
    decreases n,
{
    if n < 10 {
        seq![spec_digit_char(n)]
    } else {
        spec_decimal_digits(n / 10).push(spec_digit_char(n % 10))
    }
}

/// Append the character of one decimal digit.
fn push_digit(s: &mut String, d: u32)
    requires
        d < 10,
    ensures
        final(s)@ == old(s)@.push(spec_digit_char(d as int)),
{
    if d == 0 {
        s.append("0");
        proof {
            reveal_strlit("0");
            assert(("0")@ =~= seq!['0']);
        }
    } else if d == 1 {
        s.append("1");
        proof {
            reveal_strlit("1");
            assert(("1")@ =~= seq!['1']);
        }
    } else if d == 2 {
        s.append("2");
        proof {
            reveal_strlit("2");
            assert(("2")@ =~= seq!['2']);
        }
    } else if d == 3 {
        s.append("3");
        proof {
            reveal_strlit("3");
            assert(("3")@ =~= seq!['3']);
        }
    } else if d == 4 {
        s.append("4");
        proof {
            reveal_strlit("4");
            assert(("4")@ =~= seq!['4']);
        }
    } else if d == 5 {
        s.append("5");
        proof {
            reveal_strlit("5");
            assert(("5")@ =~= seq!['5']);
        }
    } else if d == 6 {
        s.append("6");
        proof {
            reveal_strlit("6");
            assert(("6")@ =~= seq!['6']);
        }
    } else if d == 7 {
        s.append("7");
        proof {
            reveal_strlit("7");
            assert(("7")@ =~= seq!['7']);
        }
    } else if d == 8 {
        s.append("8");
        proof {
            reveal_strlit("8");
            assert(("8")@ =~= seq!['8']);
        }
    } else {
        s.append("9");
        proof {
            reveal_strlit("9");
            assert(("9")@ =~= seq!['9']);
        }
    }
    proof {
        assert(s@ =~= old(s)@.push(spec_digit_char(d as int)));
    }
}

/// Append the decimal rendering of a number, most significant digit first.
fn push_decimal(s: &mut String, n: u32)
    ensures
        final(s)@ == old(s)@ + spec_decimal_digits(n as int),
    decreases n,
{
    if n < 10 {
        push_digit(s, n);
        proof {
            assert(s@ =~= old(s)@ + spec_decimal_digits(n as int));
        }
    } else {
        push_decimal(s, n / 10);
        push_digit(s, n % 10);
        proof {
            assert(s@ =~= old(s)@ + spec_decimal_digits(n as int));
        }
    }
}

/// Common information about the device: model, serial number, hardware and
/// firmware revisions, read once after connecting.
#[derive(Debug, Clone, PartialEq, Eq)]
pub struct DeviceInfo {
    /// Model number string
    pub model_number: String,
    /// Serial number string
    pub serial_number: String,
    /// Hardware revision string
    pub hardware_revision: String,
    /// Firmware revision string
    pub firmware_revision: String,
}

impl DeviceInfo {
    /// Gather the four identification strings into one record.
    pub fn new(
        model_number: String,
        serial_number: String,
        hardware_revision: String,
        firmware_revision: String,
    ) -> (r: Self)
        ensures
            r.model_number@ == model_number@,
            r.serial_number@ == serial_number@,
            r.hardware_revision@ == hardware_revision@,
            r.firmware_revision@ == firmware_revision@,
    {
        Self { model_number, serial_number, hardware_revision, firmware_revision }
    }
}

} // verus!
