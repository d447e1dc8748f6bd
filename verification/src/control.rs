//! Binary codec for the commands written to the device's control point.
//!
//! Every command maps to exactly one wire layout: a tag byte followed by a
//! fixed number of payload bytes. Encoding is total; decoding is partial and
//! rejects any byte sequence that matches no layout.

use vstd::prelude::*;

use crate::errors::DecodeError;

verus! {

/// The tag of a control-point command, one per wire layout.
#[derive(Debug, PartialEq, Eq, Structural, Clone, Copy)]
pub enum ControlCommandType {
    /// Impossible command
    Invalid,
    /// Stop resistance or signal measurement
    StopAll,
    /// Start signal measurement
    StartEegSignal,
    /// Start resistance measurement
    StartResist,
    /// Switch to DFU bootloader mode
    StartDfu,
}

impl ControlCommandType {
    /// Wire tag byte of this command type.
    pub open spec fn spec_tag_byte(self) -> u8 {
        match self {
            ControlCommandType::Invalid => 0x00,
            ControlCommandType::StopAll => 0x01,
            ControlCommandType::StartEegSignal => 0x02,
            ControlCommandType::StartResist => 0x03,
            ControlCommandType::StartDfu => 0x04,
        }
    }

    /// Wire tag byte of this command type.
    pub fn tag_byte(self) -> (r: u8)
        ensures
            r == self.spec_tag_byte(),
    {
        match self {
            ControlCommandType::Invalid => 0x00,
            ControlCommandType::StopAll => 0x01,
            ControlCommandType::StartEegSignal => 0x02,
            ControlCommandType::StartResist => 0x03,
            ControlCommandType::StartDfu => 0x04,
        }
    }
}

/// A command for the device's control point, with its per-layout payload.
///
/// The DFU-entry command is encoded with its own tag byte, distinct from
/// `StopAll`; firmware revisions that expect the stop tag instead must be
/// handled by the caller.
#[derive(Debug, PartialEq, Eq, Structural, Clone, Copy)]
pub enum ControlPointCommand {
    /// Impossible command
    Invalid,
    /// Stop resistance or signal measurement
    StopAll,
    /// Start signal measurement, with one ADS1294 gain byte per channel
    StartEegSignal {
        /// Gain byte of channel 0
        ch1: u8,
        /// Gain byte of channel 1
        ch2: u8,
        /// Gain byte of channel 2
        ch3: u8,
        /// Gain byte of channel 3
        ch4: u8,
    },
    /// Start resistance measurement: gain bytes plus sense and flip settings
    StartResist {
        /// Gain byte of channel 0
        ch1: u8,
        /// Gain byte of channel 1
        ch2: u8,
        /// Gain byte of channel 2
        ch3: u8,
        /// Gain byte of channel 3
        ch4: u8,
        /// Positive sense-electrode selection bits
        sense_p: u8,
        /// Negative sense-electrode selection bits
        sense_n: u8,
        /// Positive signal flip selection bits
        flip_p: u8,
    },
    /// Switch to DFU bootloader mode
    StartDfu,
}

impl ControlPointCommand {
    /// The tag of this command.
    pub open spec fn spec_cmd_type(self) -> ControlCommandType {
        match self {
            ControlPointCommand::Invalid => ControlCommandType::Invalid,
            ControlPointCommand::StopAll => ControlCommandType::StopAll,
            ControlPointCommand::StartEegSignal { .. } => ControlCommandType::StartEegSignal,
            ControlPointCommand::StartResist { .. } => ControlCommandType::StartResist,
            ControlPointCommand::StartDfu => ControlCommandType::StartDfu,
        }
    }

    /// The tag of this command.
    pub fn cmd_type(&self) -> (r: ControlCommandType)
        ensures
            r == self.spec_cmd_type(),
    {
        match self {
            ControlPointCommand::Invalid => ControlCommandType::Invalid,
            ControlPointCommand::StopAll => ControlCommandType::StopAll,
            ControlPointCommand::StartEegSignal { .. } => ControlCommandType::StartEegSignal,
            ControlPointCommand::StartResist { .. } => ControlCommandType::StartResist,
            ControlPointCommand::StartDfu => ControlCommandType::StartDfu,
        }
    }

    /// First wire byte the command carries after the bare tags: the tag byte
    /// for payload-free commands, the first gain byte for the start commands.
    pub open spec fn spec_as_u8(self) -> u8 {
        match self {
            ControlPointCommand::Invalid => 0x00,
            ControlPointCommand::StopAll => 0x01,
            ControlPointCommand::StartEegSignal { ch1, .. } => ch1,
            ControlPointCommand::StartResist { ch1, .. } => ch1,
            ControlPointCommand::StartDfu => 0x04,
        }
    }

    /// First wire byte the command carries after the bare tags: the tag byte
    /// for payload-free commands, the first gain byte for the start commands.
    pub fn as_u8(&self) -> (r: u8)
        ensures
            r == self.spec_as_u8(),
    {
        match self {
            ControlPointCommand::Invalid => 0x00,
            ControlPointCommand::StopAll => 0x01,
            ControlPointCommand::StartEegSignal { ch1, .. } => *ch1,
            ControlPointCommand::StartResist { ch1, .. } => *ch1,
            ControlPointCommand::StartDfu => 0x04,
        }
    }

    /// Wire layout of the command: the tag byte, then the payload bytes.
    pub open spec fn spec_encode(self) -> Seq<u8> {
        match self {
            ControlPointCommand::Invalid => seq![0x00u8],
            ControlPointCommand::StopAll => seq![0x01u8],
            ControlPointCommand::StartEegSignal { ch1, ch2, ch3, ch4 } => seq![
                0x02u8,
                ch1,
                ch2,
                ch3,
                ch4,
            ],
            ControlPointCommand::StartResist { ch1, ch2, ch3, ch4, sense_p, sense_n, flip_p } => seq![
                0x03u8,
                ch1,
                ch2,
                ch3,
                ch4,
                sense_p,
                sense_n,
                flip_p,
            ],
            ControlPointCommand::StartDfu => seq![0x04u8],
        }
    }

    /// Encode the command for the control-point characteristic. Total: every
    /// command value has exactly one encoding.
    pub fn encode(&self) -> (r: Vec<u8>)
        ensures
            r@ == self.spec_encode(),
    {
        let mut out: Vec<u8> = Vec::new();
        match self {
            ControlPointCommand::Invalid => {
                out.push(0x00);
                assert(out@ =~= self.spec_encode());
            }
            ControlPointCommand::StopAll => {
                out.push(0x01);
                assert(out@ =~= self.spec_encode());
            }
            ControlPointCommand::StartEegSignal { ch1, ch2, ch3, ch4 } => {
                out.push(0x02);
                out.push(*ch1);
                out.push(*ch2);
                out.push(*ch3);
                out.push(*ch4);
                assert(out@ =~= self.spec_encode());
            }
            ControlPointCommand::StartResist { ch1, ch2, ch3, ch4, sense_p, sense_n, flip_p } => {
                out.push(0x03);
                out.push(*ch1);
                out.push(*ch2);
                out.push(*ch3);
                out.push(*ch4);
                out.push(*sense_p);
                out.push(*sense_n);
                out.push(*flip_p);
                assert(out@ =~= self.spec_encode());
            }
            ControlPointCommand::StartDfu => {
                out.push(0x04);
                assert(out@ =~= self.spec_encode());
            }
        }
        out
    }

    /// Which command, if any, a byte sequence holds: the exact inverse of the
    /// wire layout, keyed on the tag byte and the exact length per tag.
    pub open spec fn spec_decode(s: Seq<u8>) -> Result<ControlPointCommand, DecodeError> {
        if s.len() == 1 && s[0] == 0x00 {
            Ok(ControlPointCommand::Invalid)
        } else if s.len() == 1 && s[0] == 0x01 {
            Ok(ControlPointCommand::StopAll)
        } else if s.len() == 1 && s[0] == 0x04 {
            Ok(ControlPointCommand::StartDfu)
        } else if s.len() == 5 && s[0] == 0x02 {
            Ok(
                ControlPointCommand::StartEegSignal {
                    ch1: s[1],
                    ch2: s[2],
                    ch3: s[3],
                    ch4: s[4],
                },
            )
        } else if s.len() == 8 && s[0] == 0x03 {
            Ok(
                ControlPointCommand::StartResist {
                    ch1: s[1],
                    ch2: s[2],
                    ch3: s[3],
                    ch4: s[4],
                    sense_p: s[5],
                    sense_n: s[6],
                    flip_p: s[7],
                },
            )
        } else {
            Err(DecodeError::UnknownCommand)
        }
    }

    /// Decode a command from its wire bytes. Succeeds exactly on the byte
    /// sequences that `encode` produces; any other shape is `UnknownCommand`.
    pub fn try_decode(value: &Vec<u8>) -> (r: Result<ControlPointCommand, DecodeError>)
        ensures
            r == Self::spec_decode(value@),
    {
        let n = value.len();
        if n == 1 && value[0] == 0x00 {
            Ok(ControlPointCommand::Invalid)
        } else if n == 1 && value[0] == 0x01 {
            Ok(ControlPointCommand::StopAll)
        } else if n == 1 && value[0] == 0x04 {
            Ok(ControlPointCommand::StartDfu)
        } else if n == 5 && value[0] == 0x02 {
            Ok(
                ControlPointCommand::StartEegSignal {
                    ch1: value[1],
                    ch2: value[2],
                    ch3: value[3],
                    ch4: value[4],
                },
            )
        } else if n == 8 && value[0] == 0x03 {
            Ok(
                ControlPointCommand::StartResist {
                    ch1: value[1],
                    ch2: value[2],
                    ch3: value[3],
                    ch4: value[4],
                    sense_p: value[5],
                    sense_n: value[6],
                    flip_p: value[7],
                },
            )
        } else {
            Err(DecodeError::UnknownCommand)
        }
    }

    /// What `new` builds from a tag and an optional payload: the payload-free
    /// commands demand no payload, the start commands demand exactly their
    /// payload length; everything else is refused.
    pub open spec fn spec_new(
        cmd_type: ControlCommandType,
        data: Option<Seq<u8>>,
    ) -> Result<ControlPointCommand, DecodeError> {
        match cmd_type {
            ControlCommandType::Invalid => match data {
                None => Ok(ControlPointCommand::Invalid),
                Some(_) => Err(DecodeError::UnknownCommand),
            },
            ControlCommandType::StopAll => match data {
                None => Ok(ControlPointCommand::StopAll),
                Some(_) => Err(DecodeError::UnknownCommand),
            },
            ControlCommandType::StartDfu => match data {
                None => Ok(ControlPointCommand::StartDfu),
                Some(_) => Err(DecodeError::UnknownCommand),
            },
            ControlCommandType::StartEegSignal => match data {
                Some(d) => if d.len() == 4 {
                    Ok(
                        ControlPointCommand::StartEegSignal {
                            ch1: d[0],
                            ch2: d[1],
                            ch3: d[2],
                            ch4: d[3],
                        },
                    )
                } else {
                    Err(DecodeError::UnknownCommand)
                },
                None => Err(DecodeError::UnknownCommand),
            },
            ControlCommandType::StartResist => match data {
                Some(d) => if d.len() == 7 {
                    Ok(
                        ControlPointCommand::StartResist {
                            ch1: d[0],
                            ch2: d[1],
                            ch3: d[2],
                            ch4: d[3],
                            sense_p: d[4],
                            sense_n: d[5],
                            flip_p: d[6],
                        },
                    )
                } else {
                    Err(DecodeError::UnknownCommand)
                },
                None => Err(DecodeError::UnknownCommand),
            },
        }
    }

    /// Build a command from a tag and its optional config payload, refusing a
    /// payload whose length does not fit the tag's wire layout.
    pub fn new(cmd_type: ControlCommandType, data: Option<Vec<u8>>) -> (r: Result<
        ControlPointCommand,
        DecodeError,
    >)
        ensures
            r == Self::spec_new(
                cmd_type,
                match data {
                    Some(d) => Some(d@),
                    None => None,
                },
            ),
    {
        match cmd_type {
            ControlCommandType::Invalid => match data {
                None => Ok(ControlPointCommand::Invalid),
                Some(_) => Err(DecodeError::UnknownCommand),
            },
            ControlCommandType::StopAll => match data {
                None => Ok(ControlPointCommand::StopAll),
                Some(_) => Err(DecodeError::UnknownCommand),
            },
            ControlCommandType::StartDfu => match data {
                None => Ok(ControlPointCommand::StartDfu),
                Some(_) => Err(DecodeError::UnknownCommand),
            },
            ControlCommandType::StartEegSignal => match data {
                Some(d) => if d.len() == 4 {
                    Ok(
                        ControlPointCommand::StartEegSignal {
                            ch1: d[0],
                            ch2: d[1],
                            ch3: d[2],
                            ch4: d[3],
                        },
                    )
                } else {
                    Err(DecodeError::UnknownCommand)
                },
                None => Err(DecodeError::UnknownCommand),
            },
            ControlCommandType::StartResist => match data {
                Some(d) => if d.len() == 7 {
                    Ok(
                        ControlPointCommand::StartResist {
                            ch1: d[0],
                            ch2: d[1],
                            ch3: d[2],
                            ch4: d[3],
                            sense_p: d[4],
                            sense_n: d[5],
                            flip_p: d[6],
                        },
                    )
                } else {
                    Err(DecodeError::UnknownCommand)
                },
                None => Err(DecodeError::UnknownCommand),
            },
        }
    }
}

/// Law: the codec round-trips. Decoding the encoding of any command value
/// gives that command back.
pub proof fn lemma_command_round_trip(cmd: ControlPointCommand)
    ensures
        ControlPointCommand::spec_decode(cmd.spec_encode()) == Ok::<
            ControlPointCommand,
            DecodeError,
        >(cmd),
{
    match cmd {
        ControlPointCommand::Invalid => {}
        ControlPointCommand::StopAll => {}
        ControlPointCommand::StartEegSignal { ch1, ch2, ch3, ch4 } => {}
        ControlPointCommand::StartResist { ch1, ch2, ch3, ch4, sense_p, sense_n, flip_p } => {}
        ControlPointCommand::StartDfu => {}
    }
}

/// Law: decoding accepts nothing but the wire layouts. Whenever a byte
/// sequence decodes to a command, that command encodes back to exactly that
/// sequence, so each command owns one byte sequence and no other.
pub proof fn lemma_decode_inverts_encode(s: Seq<u8>)
    ensures
        forall|cmd: ControlPointCommand|
            ControlPointCommand::spec_decode(s) == Ok::<ControlPointCommand, DecodeError>(cmd)
                ==> #[trigger] cmd.spec_encode() =~= s,
{
}

} // verus!
