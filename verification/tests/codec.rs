//! Tests for the control-point command codec and the status-frame decoder.

use brainbit::control::{ControlCommandType, ControlPointCommand};
use brainbit::errors::DecodeError;
use brainbit::responses::{
    CommandResultError, DeviceStatusData, Nss2Status, MAX_BATTERY_LEVEL,
};

#[test]
fn test_resist_command_layout() {
    let command = ControlPointCommand::new(
        ControlCommandType::StartResist,
        Some(vec![0x91, 0x48, 0x48, 0x48, 0x00, 0x00, 0x00]),
    )
    .unwrap();

    let expected: [u8; 8] = [0x03, 0x91, 0x48, 0x48, 0x48, 0x00, 0x00, 0x00];
    let command_as_bytes: Vec<u8> = command.encode();

    assert_eq!(expected, command_as_bytes.as_slice())
}

#[test]
fn test_stop_command() {
    let command = ControlPointCommand::new(ControlCommandType::StopAll, None).unwrap();

    let expected: [u8; 1] = [0x01];
    let command_as_bytes: Vec<u8> = command.encode();

    assert_eq!(expected, command_as_bytes.as_slice())
}

#[test]
fn test_eeg_command() {
    let command = ControlPointCommand::new(
        ControlCommandType::StartEegSignal,
        Some(vec![0x00, 0x00, 0x00, 0x00]),
    )
    .unwrap();

    let expected: [u8; 5] = [0x02, 0x00, 0x00, 0x00, 0x00];
    let command_as_bytes: Vec<u8> = command.encode();

    assert_eq!(expected, command_as_bytes.as_slice())
}

#[test]
fn control_test_resist_command_layout() {
    let command = ControlPointCommand::StartResist {
        ch1: 0x91,
        ch2: 0x48,
        ch3: 0x48,
        ch4: 0x48,
        sense_p: 0x00,
        sense_n: 0x00,
        flip_p: 0x00,
    };

    let expected: [u8; 8] = [0x03, 0x91, 0x48, 0x48, 0x48, 0x00, 0x00, 0x00];
    let command_as_bytes: Vec<u8> = command.encode();

    assert_eq!(expected, command_as_bytes.as_slice())
}

#[test]
fn encode_bare_commands() {
    assert_eq!(vec![0x00], ControlPointCommand::Invalid.encode());
    assert_eq!(vec![0x01], ControlPointCommand::StopAll.encode());
    assert_eq!(vec![0x04], ControlPointCommand::StartDfu.encode());
}

#[test]
fn command_round_trip_all_variants() {
    let commands = vec![
        ControlPointCommand::Invalid,
        ControlPointCommand::StopAll,
        ControlPointCommand::StartDfu,
        ControlPointCommand::StartEegSignal { ch1: 0x00, ch2: 0x11, ch3: 0x22, ch4: 0x33 },
        ControlPointCommand::StartResist {
            ch1: 0x91,
            ch2: 0x48,
            ch3: 0x48,
            ch4: 0x48,
            sense_p: 0x01,
            sense_n: 0x01,
            flip_p: 0x00,
        },
    ];
    for command in commands {
        let bytes = command.encode();
        assert_eq!(Ok(command), ControlPointCommand::try_decode(&bytes));
    }
}

#[test]
fn decode_command_rejects_unknown_shapes() {
    assert_eq!(
        Err(DecodeError::UnknownCommand),
        ControlPointCommand::try_decode(&vec![])
    );
    assert_eq!(
        Err(DecodeError::UnknownCommand),
        ControlPointCommand::try_decode(&vec![0x07])
    );
    assert_eq!(
        Err(DecodeError::UnknownCommand),
        ControlPointCommand::try_decode(&vec![0x02, 0x01])
    );
    assert_eq!(
        Err(DecodeError::UnknownCommand),
        ControlPointCommand::try_decode(&vec![0x03, 0, 0, 0, 0, 0, 0])
    );
}

#[test]
fn new_rejects_mismatched_payload() {
    assert_eq!(
        Err(DecodeError::UnknownCommand),
        ControlPointCommand::new(ControlCommandType::StartEegSignal, None)
    );
    assert_eq!(
        Err(DecodeError::UnknownCommand),
        ControlPointCommand::new(ControlCommandType::StartEegSignal, Some(vec![0x00; 3]))
    );
    assert_eq!(
        Err(DecodeError::UnknownCommand),
        ControlPointCommand::new(ControlCommandType::StartResist, Some(vec![0x00; 8]))
    );
    assert_eq!(
        Err(DecodeError::UnknownCommand),
        ControlPointCommand::new(ControlCommandType::StopAll, Some(vec![0x01]))
    );
    assert_eq!(
        Ok(ControlPointCommand::Invalid),
        ControlPointCommand::new(ControlCommandType::Invalid, None)
    );
}

#[test]
fn decode_status_streaming_resistance() {
    let status = DeviceStatusData::decode(&vec![0x03, 0x00, 0x57, 0x05]).unwrap();
    assert_eq!(Nss2Status::ResistTransmission, status.status_nss2);
    assert_eq!(CommandResultError::NoError, status.cmd_error);
    assert_eq!(87, status.battery_level);
    assert_eq!(5, status.firmware_version);
    assert_eq!(100, status.battery_percent());
}

#[test]
fn decode_status_wrong_length_is_invalid_frame() {
    assert_eq!(
        Err(DecodeError::InvalidFrame),
        DeviceStatusData::decode(&vec![0x00, 0x00, 0x43])
    );
    assert_eq!(
        Err(DecodeError::InvalidFrame),
        DeviceStatusData::decode(&vec![0x00, 0x00, 0x43, 0x00, 0x00])
    );
    assert_eq!(Err(DecodeError::InvalidFrame), DeviceStatusData::decode(&vec![]));
}

#[test]
fn decode_status_out_of_range_bytes_are_invalid_frame() {
    assert_eq!(
        Err(DecodeError::InvalidFrame),
        DeviceStatusData::decode(&vec![0x05, 0x00, 0x10, 0x00])
    );
    assert_eq!(
        Err(DecodeError::InvalidFrame),
        DeviceStatusData::decode(&vec![0x00, 0x03, 0x10, 0x00])
    );
}

#[test]
fn test_max_battery_level() {
    let source_data: Vec<u8> = vec![0x00, 0x00, MAX_BATTERY_LEVEL, 0x00];
    let status_result = DeviceStatusData::decode(&source_data);
    assert!(status_result.is_ok());
    let status: DeviceStatusData = status_result.unwrap();
    assert_eq!(87, status.battery_level);
    assert_eq!(100, status.battery_percent());
    assert_eq!(String::from("100.0"), status.get_battery_charge_level_string());
}

#[test]
fn test_usual_battery_level() {
    let current_level: u8 = 0x51; // 81 decimal
    let source_data: Vec<u8> = vec![0x00, 0x00, current_level, 0x00];
    let status_result = DeviceStatusData::decode(&source_data);
    assert!(status_result.is_ok());
    let status: DeviceStatusData = status_result.unwrap();
    assert_eq!(81, status.battery_level);
    assert_eq!(93, status.battery_percent());
    assert_eq!(String::from("93.1"), status.get_battery_charge_level_string());
}

#[test]
fn test_low_battery_level() {
    let current_level: u8 = 0x43; // 67 decimal
    let source_data: Vec<u8> = vec![0x00, 0x00, current_level, 0x00];
    let status_result = DeviceStatusData::decode(&source_data);
    assert!(status_result.is_ok());
    let status: DeviceStatusData = status_result.unwrap();
    assert_eq!(67, status.battery_level);
    assert_eq!(77, status.battery_percent());
    assert_eq!(
        String::from("77.0"),
        status.get_battery_charge_level_string()
    );
}

#[test]
fn battery_level_edges() {
    let empty = DeviceStatusData::decode(&vec![0x01, 0x00, 0x00, 0x02]).unwrap();
    assert_eq!(0, empty.battery_percent());
    assert_eq!(String::from("0.0"), empty.get_battery_charge_level_string());

    let over = DeviceStatusData::decode(&vec![0x01, 0x00, 0xFF, 0x02]).unwrap();
    assert_eq!(100, over.battery_percent());
    assert_eq!(String::from("293.1"), over.get_battery_charge_level_string());
}

#[test]
fn status_byte_tables_round_trip() {
    for b in 0u8..=4u8 {
        let state = Nss2Status::from_byte(b).unwrap();
        assert_eq!(b, state.as_u8());
    }
    assert!(Nss2Status::from_byte(5).is_none());
    assert!(CommandResultError::from_byte(3).is_none());
    assert_eq!(
        Some(CommandResultError::ErrorSwitchMode),
        CommandResultError::from_byte(2)
    );
}

#[test]
fn command_tag_bytes() {
    assert_eq!(0x00, ControlCommandType::Invalid.tag_byte());
    assert_eq!(0x01, ControlCommandType::StopAll.tag_byte());
    assert_eq!(0x02, ControlCommandType::StartEegSignal.tag_byte());
    assert_eq!(0x03, ControlCommandType::StartResist.tag_byte());
    assert_eq!(0x04, ControlCommandType::StartDfu.tag_byte());
    let resist = ControlPointCommand::StartResist {
        ch1: 0x91,
        ch2: 0x48,
        ch3: 0x48,
        ch4: 0x48,
        sense_p: 0x01,
        sense_n: 0x01,
        flip_p: 0x00,
    };
    assert_eq!(ControlCommandType::StartResist, resist.cmd_type());
    assert_eq!(0x91, resist.as_u8());
    assert_eq!(0x01, ControlPointCommand::StopAll.as_u8());
}
