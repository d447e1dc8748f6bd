//! Tests for the session phase machine, the measurement command builder and
//! the event dispatch engine decisions.

use brainbit::control::ControlPointCommand;
use brainbit::device::{
    BBitSensor, BuildStep, ConnectAttemptOutcome, RetryBudget, RetryDecision,
    next_retry_decision, CONNECT_MAX_ATTEMPTS,
};
use brainbit::eeg_uuids::{
    EventType, NotifyStream, StringUuid, DEVICE_STATE_NOTIFY_CHARACTERISTIC_UUID,
    EEG_DATA_NOTIFY_CHARACTERISTIC_UUID, FIRMWARE_REVISION_STRING_UUID,
    HARDWARE_REVISION_STRING_UUID, MODEL_NUMBER_STRING_UUID, NSS2_SERVICE_UUID,
    SERIAL_NUMBER_STRING_UUID,
};
use brainbit::resist::{ResistState, ResistsMeasureResult};
use brainbit::engine::{ingest_frame, on_control_event, BleDeviceEvent, BluetoothEvent};
use brainbit::engine::dispatch_data_event;
use brainbit::errors::Error;
use brainbit::responses::{DeviceInfo, DeviceStatusData};
use brainbit::{measurement_command, ChannelType, EventHandler, MeasurementType};

#[test]
fn it_works() {
    assert_eq!(2 + 3, 5);
}

#[test]
fn resistance_commands_per_channel() {
    let cases: Vec<(ChannelType, [u8; 8])> = vec![
        (ChannelType::O1, [0x03, 0x91, 0x48, 0x48, 0x48, 0x01, 0x01, 0x00]),
        (ChannelType::T3, [0x03, 0x48, 0x91, 0x48, 0x48, 0x02, 0x03, 0x00]),
        (ChannelType::T4, [0x03, 0x48, 0x48, 0x91, 0x48, 0x04, 0x05, 0x00]),
        (ChannelType::O2, [0x03, 0x48, 0x48, 0x48, 0x91, 0x08, 0x08, 0x00]),
    ];
    for (channel, expected) in cases {
        let bytes = measurement_command(MeasurementType::Resistance(channel)).encode();
        assert_eq!(expected, bytes.as_slice());
        assert_eq!(0x03, bytes[0]);
        // exactly one selected-gain byte, at the channel's slot in the block
        let selected: Vec<usize> = (1..5).filter(|&i| bytes[i] == 0x91).collect();
        assert_eq!(vec![channel.code() as usize + 1], selected);
    }
}

#[test]
fn eeg_command_powers_down_all_channels() {
    let bytes = measurement_command(MeasurementType::Eeg).encode();
    assert_eq!(vec![0x02, 0x00, 0x00, 0x00, 0x00], bytes);
}

#[test]
fn channel_type_codes() {
    for code in 0u8..4u8 {
        let channel = ChannelType::new(code).unwrap();
        assert_eq!(code, channel.code());
    }
    assert!(matches!(ChannelType::new(4), Err(Error::InvalidData(_))));
    assert!(matches!(ChannelType::new(255), Err(Error::InvalidData(_))));
}

#[test]
fn listen_is_idempotent() {
    let sensor = BBitSensor::new().into_configure();
    assert!(!sensor.level.device_status);
    assert!(!sensor.level.eeg_rate);

    let sensor = sensor.listen(EventType::State).listen(EventType::State);
    assert_eq!(vec![EventType::State], sensor.subscribed_data_event_types);
    assert!(sensor.level.device_status);
    assert!(!sensor.level.eeg_rate);

    let sensor = sensor
        .listen(EventType::EegOrResistance)
        .listen(EventType::EegOrResistance);
    assert_eq!(
        vec![EventType::State, EventType::EegOrResistance],
        sensor.subscribed_data_event_types
    );
    assert!(sensor.level.eeg_rate);
}

#[test]
fn build_steps_start_with_defensive_stop() {
    let bare = BBitSensor::new().into_configure();
    assert_eq!(vec![BuildStep::SendStopAll], bare.build_steps());

    let both = BBitSensor::new()
        .into_configure()
        .listen(EventType::State)
        .listen(EventType::EegOrResistance);
    assert_eq!(
        vec![
            BuildStep::SendStopAll,
            BuildStep::Subscribe(NotifyStream::EegOrResistanceMeasurement),
            BuildStep::Subscribe(NotifyStream::DeviceState),
        ],
        both.build_steps()
    );

    let streaming = both.into_event_loop();
    assert_eq!(
        vec![EventType::State, EventType::EegOrResistance],
        streaming.subscribed_data_event_types
    );
}

#[test]
fn retry_policy_decisions() {
    let mut budget = RetryBudget::new();
    assert_eq!(CONNECT_MAX_ATTEMPTS, budget.attempts_left);

    assert_eq!(
        RetryDecision::Proceed,
        next_retry_decision(&mut budget, ConnectAttemptOutcome::Connected)
    );
    assert_eq!(CONNECT_MAX_ATTEMPTS, budget.attempts_left);

    assert_eq!(
        RetryDecision::AbortNoAdapter,
        next_retry_decision(&mut budget, ConnectAttemptOutcome::FatalNoAdapter)
    );
    assert_eq!(CONNECT_MAX_ATTEMPTS, budget.attempts_left);

    assert_eq!(
        RetryDecision::RetryAfterDelay,
        next_retry_decision(&mut budget, ConnectAttemptOutcome::OtherFailure)
    );
    assert_eq!(CONNECT_MAX_ATTEMPTS - 1, budget.attempts_left);

    let mut last = RetryBudget { attempts_left: 1 };
    assert_eq!(
        RetryDecision::GiveUp,
        next_retry_decision(&mut last, ConnectAttemptOutcome::OtherFailure)
    );
    assert_eq!(0, last.attempts_left);
}

#[test]
fn device_info_is_memoized_once() {
    let mut sensor = BBitSensor::new();
    assert!(sensor.device_info.is_none());

    let first = DeviceInfo::new(
        String::from("BrainBit"),
        String::from("SN-1"),
        String::from("HW-1"),
        String::from("FW-1"),
    );
    sensor.record_device_info(first.clone());
    assert_eq!(Some(first.clone()), sensor.device_info);

    let second = DeviceInfo::new(
        String::from("Other"),
        String::from("SN-2"),
        String::from("HW-2"),
        String::from("FW-2"),
    );
    sensor.record_device_info(second);
    assert_eq!(Some(first), sensor.device_info);
}

#[test]
fn paused_frames_are_dropped_resumed_frames_arrive_in_order() {
    let status_frame = |battery: u8| -> Vec<u8> { vec![0x02, 0x00, battery, 0x01] };

    // N = 3 frames while paused: read but dropped
    let mut forwarded: Vec<BluetoothEvent> = Vec::new();
    for battery in [10u8, 11, 12] {
        let r = ingest_frame(true, DEVICE_STATE_NOTIFY_CHARACTERISTIC_UUID, status_frame(battery));
        assert!(r.is_none());
    }
    // M = 2 frames after resume: forwarded in order
    for battery in [13u8, 14] {
        let r = ingest_frame(false, DEVICE_STATE_NOTIFY_CHARACTERISTIC_UUID, status_frame(battery));
        forwarded.push(r.unwrap());
    }
    assert_eq!(2, forwarded.len());
    for (event, expected_battery) in forwarded.iter().zip([13u8, 14]) {
        match event {
            BluetoothEvent::DeviceStatus(status) => {
                assert_eq!(expected_battery, status.battery_level)
            }
            other => panic!("unexpected event {other:?}"),
        }
    }
}

#[test]
fn ingest_classifies_by_characteristic() {
    // data frames pass through raw
    let r = ingest_frame(false, EEG_DATA_NOTIFY_CHARACTERISTIC_UUID, vec![1, 2, 3]);
    assert_eq!(Some(BluetoothEvent::EegOrResistanceData(vec![1, 2, 3])), r);

    // malformed status frames are dropped, not fatal
    let r = ingest_frame(false, DEVICE_STATE_NOTIFY_CHARACTERISTIC_UUID, vec![0xFF, 0, 0, 0]);
    assert!(r.is_none());
    // the next good frame still arrives
    let r = ingest_frame(false, DEVICE_STATE_NOTIFY_CHARACTERISTIC_UUID, vec![0x01, 0, 50, 1]);
    assert!(r.is_some());

    // frames from foreign characteristics are ignored
    let r = ingest_frame(false, NSS2_SERVICE_UUID, vec![0x01, 0, 50, 1]);
    assert!(r.is_none());
}

#[derive(Default)]
struct RecordingHandler {
    statuses: Vec<DeviceStatusData>,
    data_frames: Vec<Vec<u8>>,
}

impl EventHandler for RecordingHandler {
    fn device_status_update(&mut self, status: DeviceStatusData) {
        self.statuses.push(status);
    }

    fn eeg_update(&mut self, eeg_data: Vec<u8>) {
        self.data_frames.push(eeg_data);
    }

    fn send_command(&mut self, _command_data: brainbit::device::CommandData) {}

    fn should_continue(&mut self) -> bool {
        true
    }
}

#[test]
fn stop_sends_stop_all_before_exit_and_nothing_after() {
    enum Msg {
        Data(BluetoothEvent),
        Control(BleDeviceEvent),
    }

    let status = DeviceStatusData::decode(&vec![0x02, 0x00, 0x50, 0x01]).unwrap();
    let messages = vec![
        Msg::Data(BluetoothEvent::DeviceStatus(status)),
        Msg::Control(BleDeviceEvent::StartResistance(ChannelType::O1)),
        Msg::Control(BleDeviceEvent::Stop),
        Msg::Data(BluetoothEvent::EegOrResistanceData(vec![9, 9])),
    ];

    let mut handler = RecordingHandler::default();
    let mut writes: Vec<Vec<u8>> = Vec::new();
    let mut exited = false;
    for message in messages {
        match message {
            Msg::Data(event) => dispatch_data_event(&mut handler, event),
            Msg::Control(event) => {
                let (command, keep_running) = on_control_event(event);
                writes.push(command.encode());
                if !keep_running {
                    exited = true;
                    break;
                }
            }
        }
    }

    assert!(exited);
    // the StopAll write happened, last, before the exit
    assert_eq!(Some(&vec![0x01u8]), writes.last());
    assert_eq!(2, writes.len());
    assert_eq!(
        vec![0x03, 0x91, 0x48, 0x48, 0x48, 0x01, 0x01, 0x00],
        writes[0]
    );
    // only the event from before the stop reached the handler
    assert_eq!(1, handler.statuses.len());
    assert_eq!(0x50, handler.statuses[0].battery_level);
    assert!(handler.data_frames.is_empty());
}

#[test]
fn control_events_map_to_commands() {
    let (command, keep_running) = on_control_event(BleDeviceEvent::Stop);
    assert_eq!(ControlPointCommand::StopAll, command);
    assert!(!keep_running);

    let (command, keep_running) = on_control_event(BleDeviceEvent::StartSignal);
    assert_eq!(measurement_command(MeasurementType::Eeg), command);
    assert!(keep_running);

    let (command, keep_running) = on_control_event(BleDeviceEvent::StartResistance(ChannelType::T4));
    assert_eq!(
        measurement_command(MeasurementType::Resistance(ChannelType::T4)),
        command
    );
    assert!(keep_running);
}

#[test]
fn event_type_uuid_table() {
    assert_eq!(
        DEVICE_STATE_NOTIFY_CHARACTERISTIC_UUID,
        EventType::State.to_uuid()
    );
    assert_eq!(
        EEG_DATA_NOTIFY_CHARACTERISTIC_UUID,
        EventType::EegOrResistance.to_uuid()
    );
    assert_eq!(
        DEVICE_STATE_NOTIFY_CHARACTERISTIC_UUID,
        NotifyStream::DeviceState.to_uuid()
    );
}

#[test]
fn resist_state_starts_unmeasured() {
    let state = ResistState::default();
    assert_eq!(ResistsMeasureResult::NONE, state.ch_o1);
    assert_eq!(ResistsMeasureResult::NONE, state.ch_o2);
    assert_eq!(ResistsMeasureResult::NONE, state.ch_t3);
    assert_eq!(ResistsMeasureResult::NONE, state.ch_t4);
}

#[test]
fn string_characteristic_uuid_table() {
    assert_eq!(MODEL_NUMBER_STRING_UUID, StringUuid::ModelNumber.to_uuid());
    assert_eq!(SERIAL_NUMBER_STRING_UUID, StringUuid::SerialNumber.to_uuid());
    assert_eq!(HARDWARE_REVISION_STRING_UUID, StringUuid::HardwareRevision.to_uuid());
    assert_eq!(FIRMWARE_REVISION_STRING_UUID, StringUuid::FirmwareRevision.to_uuid());
}
