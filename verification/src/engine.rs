//! Decision core of the event dispatch engine.
//!
//! Two cooperating units run per streaming session. The ingestion unit reads
//! each raw notification, classifies it by its characteristic and either
//! forwards a typed event or drops the frame; while the session is paused
//! every frame is read but dropped, so no backlog accumulates. The dispatch
//! unit multiplexes the forwarded events with caller commands, invoking the
//! handler strictly sequentially and turning each command into one
//! control-point write. The loops, queues and the pause flag live with the
//! caller; the functions here decide, for each frame and each message, what
//! happens to it.

use vstd::prelude::*;

use crate::control::ControlPointCommand;
use crate::eeg_uuids::{DEVICE_STATE_NOTIFY_CHARACTERISTIC_UUID, EEG_DATA_NOTIFY_CHARACTERISTIC_UUID};
use crate::responses::DeviceStatusData;
use crate::spec_measurement_command;
use crate::ChannelType;
use crate::MeasurementType;

verus! {

/// A typed event forwarded from the ingestion unit to the dispatch unit.
#[derive(Debug, Clone, PartialEq, Eq)]
pub enum BluetoothEvent {
    /// A decoded device status frame
    DeviceStatus(DeviceStatusData),
    /// A raw EEG or resistance data frame
    EegOrResistanceData(Vec<u8>),
}

/// A caller command delivered to the dispatch unit through its control
/// queue.
#[derive(Debug, Clone, Copy, PartialEq, Eq, Structural)]
pub enum BleDeviceEvent {
    /// Stop the session: send `StopAll` to the device, then exit
    Stop,
    /// Start an EEG signal measurement
    StartSignal,
    /// Start a resistance measurement on one channel
    StartResistance(ChannelType),
}

/// Spec-level image of a forwarded event, with the payload as a sequence.
pub enum EventModel {
    /// A decoded device status frame
    Status(DeviceStatusData),
    /// A raw EEG or resistance data frame
    Data(Seq<u8>),
}

impl BluetoothEvent {
    /// The spec-level image of this event.
    pub open spec fn model(self) -> EventModel {
        match self {
            BluetoothEvent::DeviceStatus(d) => EventModel::Status(d),
            BluetoothEvent::EegOrResistanceData(v) => EventModel::Data(v@),
        }
    }
}

/// How the ingestion unit classifies one notification: a device-state frame
/// is decoded (and dropped if malformed), a data frame is forwarded raw, a
/// frame from any other characteristic is ignored.
pub open spec fn spec_classify_frame(uuid: u128, value: Seq<u8>) -> Option<EventModel> {
    if uuid == DEVICE_STATE_NOTIFY_CHARACTERISTIC_UUID {
        match DeviceStatusData::spec_decode(value) {
            Ok(d) => Some(EventModel::Status(d)),
            Err(_) => None,
        }
    } else if uuid == EEG_DATA_NOTIFY_CHARACTERISTIC_UUID {
        Some(EventModel::Data(value))
    } else {
        None
    }
}

/// What the ingestion unit forwards for one frame: nothing while paused,
/// otherwise the frame's classification.
pub open spec fn spec_ingest_frame(paused: bool, uuid: u128, value: Seq<u8>) -> Option<EventModel> {
    if paused {
        None
    } else {
        spec_classify_frame(uuid, value)
    }
}

/// Process one raw notification frame as the ingestion unit does. Returns
/// the typed event to forward, or `None` when the frame is dropped: while
/// paused, on a malformed status frame, or for a foreign characteristic.
/// A malformed frame never ends the session.
pub fn ingest_frame(paused: bool, uuid: u128, value: Vec<u8>) -> (r: Option<BluetoothEvent>)
    ensures
        (match r {
            Some(e) => Some(e.model()),
            None => None,
        }) == spec_ingest_frame(paused, uuid, value@),
{
    if paused {
        None
    } else if uuid == DEVICE_STATE_NOTIFY_CHARACTERISTIC_UUID {
        match DeviceStatusData::decode(&value) {
            Ok(status_data) => Some(BluetoothEvent::DeviceStatus(status_data)),
            Err(_) => None,
        }
    } else if uuid == EEG_DATA_NOTIFY_CHARACTERISTIC_UUID {
        Some(BluetoothEvent::EegOrResistanceData(value))
    } else {
        None
    }
}

/// Spec-level image of one frame as it reaches the ingestion unit, with the
/// pause flag it was read under.
pub struct FrameModel {
    /// Whether the session was paused when the frame was read
    pub paused: bool,
    /// Characteristic the notification arrived on
    pub uuid: u128,
    /// Payload bytes
    pub value: Seq<u8>,
}

/// The events the ingestion unit forwards for a sequence of frames, in
/// arrival order.
pub open spec fn spec_ingested_events(frames: Seq<FrameModel>) -> Seq<EventModel>
    decreases frames.len(),
{
    if frames.len() == 0 {
        Seq::empty()
    } else {
        let rest = spec_ingested_events(frames.drop_first());
        match spec_ingest_frame(frames.first().paused, frames.first().uuid, frames.first().value) {
            Some(e) => seq![e] + rest,
            None => rest,
        }
    }
}

/// Frames read while paused contribute nothing to the forwarded events.
pub proof fn lemma_ingest_skips_paused(paused_frames: Seq<FrameModel>, rest: Seq<FrameModel>)
    requires
        forall|i: int| 0 <= i < paused_frames.len() ==> paused_frames[i].paused,
    ensures
        spec_ingested_events(paused_frames + rest) == spec_ingested_events(rest),
    decreases paused_frames.len(),
{
    if paused_frames.len() == 0 {
        assert(paused_frames + rest =~= rest);
    } else {
        let all = paused_frames + rest;
        assert(all.first() == paused_frames.first());
        assert(all.first().paused);
        assert(all.drop_first() =~= paused_frames.drop_first() + rest);
        lemma_ingest_skips_paused(paused_frames.drop_first(), rest);
    }
}

/// Unpaused frames that classify successfully are all forwarded, one event
/// each, in arrival order.
pub proof fn lemma_live_frames_forwarded(frames: Seq<FrameModel>)
    requires
        forall|i: int|
            0 <= i < frames.len() ==> !frames[i].paused && spec_classify_frame(
                frames[i].uuid,
                frames[i].value,
            ) is Some,
    ensures
        spec_ingested_events(frames).len() == frames.len(),
        forall|i: int|
            0 <= i < frames.len() ==> Some(spec_ingested_events(frames)[i]) == spec_classify_frame(
                frames[i].uuid,
                frames[i].value,
            ),
    decreases frames.len(),
{
    if frames.len() == 0 {
    } else {
        let rest = frames.drop_first();
        assert(forall|i: int|
            0 <= i < rest.len() ==> !rest[i].paused && spec_classify_frame(
                rest[i].uuid,
                rest[i].value,
            ) is Some) by {
            assert(forall|i: int| 0 <= i < rest.len() ==> rest[i] == frames[i + 1]);
        }
        lemma_live_frames_forwarded(rest);
        assert(spec_classify_frame(frames.first().uuid, frames.first().value) is Some);
        assert(forall|i: int|
            0 <= i < frames.len() ==> Some(spec_ingested_events(frames)[i]) == spec_classify_frame(
                frames[i].uuid,
                frames[i].value,
            )) by {
            assert(forall|i: int| 1 <= i < frames.len() ==> frames[i] == rest[i - 1]);
            assert(forall|i: int|
                1 <= i < frames.len() ==> spec_ingested_events(frames)[i] == spec_ingested_events(
                    rest,
                )[i - 1]);
        }
    }
}

/// Law: frames received while paused are never dispatched. If a session
/// reads a run of paused frames followed by a run of unpaused, decodable
/// frames, exactly the unpaused frames are forwarded, one handler event
/// each, in their original relative order.
pub proof fn lemma_paused_then_resumed(
    paused_frames: Seq<FrameModel>,
    live_frames: Seq<FrameModel>,
)
    requires
        forall|i: int| 0 <= i < paused_frames.len() ==> paused_frames[i].paused,
        forall|i: int|
            0 <= i < live_frames.len() ==> !live_frames[i].paused && spec_classify_frame(
                live_frames[i].uuid,
                live_frames[i].value,
            ) is Some,
    ensures
        spec_ingested_events(paused_frames + live_frames).len() == live_frames.len(),
        forall|i: int|
            0 <= i < live_frames.len() ==> Some(
                spec_ingested_events(paused_frames + live_frames)[i],
            ) == spec_classify_frame(live_frames[i].uuid, live_frames[i].value),
{
    lemma_ingest_skips_paused(paused_frames, live_frames);
    lemma_live_frames_forwarded(live_frames);
}

/// The handler invocation one forwarded event produces.
pub open spec fn spec_notify_step(e: EventModel) -> TraceStep {
    match e {
        EventModel::Status(d) => TraceStep::NotifyStatus(d),
        EventModel::Data(v) => TraceStep::NotifyData(v),
    }
}

/// A message the dispatch unit receives: a forwarded event from the
/// ingestion queue or a caller command from the control queue.
pub enum MsgModel {
    /// A forwarded event
    Data(EventModel),
    /// A caller command
    Control(BleDeviceEvent),
}

/// One observable step the dispatch unit takes.
pub enum TraceStep {
    /// The handler is invoked with a status update
    NotifyStatus(DeviceStatusData),
    /// The handler is invoked with a data update
    NotifyData(Seq<u8>),
    /// A command is written to the device's control point
    SendCommand(ControlPointCommand),
    /// The dispatch unit exits
    Exited,
}

/// The steps the dispatch unit takes for a sequence of inbound messages:
/// events are handed to the handler in order, start commands are written to
/// the device, and a stop command writes `StopAll` and exits, ignoring
/// everything after it.
pub open spec fn spec_dispatch_trace(msgs: Seq<MsgModel>) -> Seq<TraceStep>
    decreases msgs.len(),
{
    if msgs.len() == 0 {
        Seq::empty()
    } else {
        match msgs.first() {
            MsgModel::Data(EventModel::Status(d)) => seq![TraceStep::NotifyStatus(d)]
                + spec_dispatch_trace(msgs.drop_first()),
            MsgModel::Data(EventModel::Data(v)) => seq![TraceStep::NotifyData(v)]
                + spec_dispatch_trace(msgs.drop_first()),
            MsgModel::Control(BleDeviceEvent::Stop) => seq![
                TraceStep::SendCommand(ControlPointCommand::StopAll),
                TraceStep::Exited,
            ],
            MsgModel::Control(BleDeviceEvent::StartSignal) => seq![
                TraceStep::SendCommand(spec_measurement_command(MeasurementType::Eeg)),
            ] + spec_dispatch_trace(msgs.drop_first()),
            MsgModel::Control(BleDeviceEvent::StartResistance(c)) => seq![
                TraceStep::SendCommand(spec_measurement_command(MeasurementType::Resistance(c))),
            ] + spec_dispatch_trace(msgs.drop_first()),
        }
    }
}

/// The forwarded events wrapped as dispatch messages, in order.
pub open spec fn spec_as_data_messages(events: Seq<EventModel>) -> Seq<MsgModel> {
    events.map_values(|e: EventModel| MsgModel::Data(e))
}

/// Forwarded events alone produce exactly one handler invocation each, in
/// forwarding order: a status event its status callback, a data event its
/// data callback.
pub proof fn lemma_events_dispatch_in_order(events: Seq<EventModel>)
    ensures
        spec_dispatch_trace(spec_as_data_messages(events)).len() == events.len(),
        forall|i: int|
            0 <= i < events.len() ==> spec_dispatch_trace(spec_as_data_messages(events))[i]
                == spec_notify_step(events[i]),
    decreases events.len(),
{
    let msgs = spec_as_data_messages(events);
    if events.len() == 0 {
    } else {
        let rest = events.drop_first();
        lemma_events_dispatch_in_order(rest);
        let rest_msgs = spec_as_data_messages(rest);
        assert(msgs.first() == MsgModel::Data(events.first()));
        assert(msgs.drop_first() =~= rest_msgs);
        match events.first() {
            EventModel::Status(d) => {
                assert(spec_dispatch_trace(msgs) =~= seq![TraceStep::NotifyStatus(d)]
                    + spec_dispatch_trace(rest_msgs));
            }
            EventModel::Data(v) => {
                assert(spec_dispatch_trace(msgs) =~= seq![TraceStep::NotifyData(v)]
                    + spec_dispatch_trace(rest_msgs));
            }
        }
        assert(forall|i: int| 1 <= i < events.len() ==> events[i] == rest[i - 1]);
    }
}

/// Law: a run of paused frames followed by a run of unpaused, decodable
/// frames results in exactly one handler invocation per unpaused frame,
/// none for the paused frames, in their original relative order.
pub proof fn lemma_paused_then_resumed_dispatch(
    paused_frames: Seq<FrameModel>,
    live_frames: Seq<FrameModel>,
)
    requires
        forall|i: int| 0 <= i < paused_frames.len() ==> paused_frames[i].paused,
        forall|i: int|
            0 <= i < live_frames.len() ==> !live_frames[i].paused && spec_classify_frame(
                live_frames[i].uuid,
                live_frames[i].value,
            ) is Some,
    ensures
        spec_dispatch_trace(
            spec_as_data_messages(spec_ingested_events(paused_frames + live_frames)),
        ).len() == live_frames.len(),
        forall|i: int|
            0 <= i < live_frames.len() ==> Some(
                #[trigger] spec_ingested_events(paused_frames + live_frames)[i],
            ) == spec_classify_frame(live_frames[i].uuid, live_frames[i].value),
        forall|i: int|
            0 <= i < live_frames.len() ==> #[trigger] spec_dispatch_trace(
                spec_as_data_messages(spec_ingested_events(paused_frames + live_frames)),
            )[i] == spec_notify_step(spec_ingested_events(paused_frames + live_frames)[i]),
{
    lemma_paused_then_resumed(paused_frames, live_frames);
    lemma_events_dispatch_in_order(spec_ingested_events(paused_frames + live_frames));
}

/// While no stop command arrives, the dispatch unit never exits.
pub proof fn lemma_no_stop_no_exit(msgs: Seq<MsgModel>)
    requires
        forall|j: int| 0 <= j < msgs.len() ==> msgs[j] != MsgModel::Control(BleDeviceEvent::Stop),
    ensures
        forall|k: int|
            0 <= k < spec_dispatch_trace(msgs).len() ==> spec_dispatch_trace(msgs)[k]
                != TraceStep::Exited,
    decreases msgs.len(),
{
    if msgs.len() == 0 {
    } else {
        let rest = msgs.drop_first();
        assert(forall|j: int| 0 <= j < rest.len() ==> rest[j] == msgs[j + 1]);
        lemma_no_stop_no_exit(rest);
        assert(msgs.first() != MsgModel::Control(BleDeviceEvent::Stop));
    }
}

/// Law: a stop command makes the dispatch unit write `StopAll` to the
/// device and then exit, and nothing is dispatched after it. The whole
/// trace is the trace of the messages before the stop — which contains no
/// exit — followed exactly by the `StopAll` write and the exit.
pub proof fn lemma_stop_sends_stop_all_then_exits(msgs: Seq<MsgModel>, i: int)
    requires
        0 <= i < msgs.len(),
        msgs[i] == MsgModel::Control(BleDeviceEvent::Stop),
        forall|j: int| 0 <= j < i ==> msgs[j] != MsgModel::Control(BleDeviceEvent::Stop),
    ensures
        spec_dispatch_trace(msgs) == spec_dispatch_trace(msgs.take(i)) + seq![
            TraceStep::SendCommand(ControlPointCommand::StopAll),
            TraceStep::Exited,
        ],
        forall|k: int|
            0 <= k < spec_dispatch_trace(msgs.take(i)).len() ==> spec_dispatch_trace(msgs.take(i))[k]
                != TraceStep::Exited,
    decreases i,
{
    assert(forall|j: int| 0 <= j < i ==> msgs.take(i)[j] == msgs[j]);
    lemma_no_stop_no_exit(msgs.take(i));
    if i == 0 {
        assert(msgs.first() == MsgModel::Control(BleDeviceEvent::Stop));
        assert(msgs.take(0) =~= Seq::<MsgModel>::empty());
        assert(spec_dispatch_trace(msgs) =~= spec_dispatch_trace(msgs.take(0)) + seq![
            TraceStep::SendCommand(ControlPointCommand::StopAll),
            TraceStep::Exited,
        ]);
    } else {
        let rest = msgs.drop_first();
        assert(msgs.first() != MsgModel::Control(BleDeviceEvent::Stop));
        assert(rest[i - 1] == msgs[i]);
        assert(forall|j: int| 0 <= j < i - 1 ==> rest[j] == msgs[j + 1]);
        lemma_stop_sends_stop_all_then_exits(rest, i - 1);
        assert(msgs.take(i).first() == msgs.first());
        assert(msgs.take(i).drop_first() =~= rest.take(i - 1));
        match msgs.first() {
            MsgModel::Data(EventModel::Status(d)) => {
                assert(spec_dispatch_trace(msgs) =~= spec_dispatch_trace(msgs.take(i)) + seq![
                    TraceStep::SendCommand(ControlPointCommand::StopAll),
                    TraceStep::Exited,
                ]);
            }
            MsgModel::Data(EventModel::Data(v)) => {
                assert(spec_dispatch_trace(msgs) =~= spec_dispatch_trace(msgs.take(i)) + seq![
                    TraceStep::SendCommand(ControlPointCommand::StopAll),
                    TraceStep::Exited,
                ]);
            }
            MsgModel::Control(BleDeviceEvent::Stop) => {
                assert(false);
            }
            MsgModel::Control(BleDeviceEvent::StartSignal) => {
                assert(spec_dispatch_trace(msgs) =~= spec_dispatch_trace(msgs.take(i)) + seq![
                    TraceStep::SendCommand(ControlPointCommand::StopAll),
                    TraceStep::Exited,
                ]);
            }
            MsgModel::Control(BleDeviceEvent::StartResistance(c)) => {
                assert(spec_dispatch_trace(msgs) =~= spec_dispatch_trace(msgs.take(i)) + seq![
                    TraceStep::SendCommand(ControlPointCommand::StopAll),
                    TraceStep::Exited,
                ]);
            }
        }
    }
}

/// Turn one caller command into the control-point command to write and the
/// decision whether the dispatch loop continues: a stop command maps to
/// `StopAll` and ends the loop, a start command maps to its measurement
/// command and the loop goes on.
pub fn on_control_event(event: BleDeviceEvent) -> (r: (ControlPointCommand, bool))
    ensures
        r.0 == (match event {
            BleDeviceEvent::Stop => ControlPointCommand::StopAll,
            BleDeviceEvent::StartSignal => spec_measurement_command(MeasurementType::Eeg),
            BleDeviceEvent::StartResistance(c) => spec_measurement_command(
                MeasurementType::Resistance(c),
            ),
        }),
        r.1 == (event != BleDeviceEvent::Stop),
{
    match event {
        BleDeviceEvent::Stop => (ControlPointCommand::StopAll, false),
        BleDeviceEvent::StartSignal => (
            crate::measurement_command(MeasurementType::Eeg),
            true,
        ),
        BleDeviceEvent::StartResistance(c) => (
            crate::measurement_command(MeasurementType::Resistance(c)),
            true,
        ),
    }
}

/// Hand one forwarded event to the handler: a status event goes to the
/// status callback, a data event to the data callback. The dispatch unit
/// calls this sequentially, so the handler never runs concurrently with
/// itself.
pub fn dispatch_data_event<H: crate::EventHandler>(handler: &mut H, event: BluetoothEvent) {
    match event {
        BluetoothEvent::DeviceStatus(status_data) => {
            handler.device_status_update(status_data);
        }
        BluetoothEvent::EegOrResistanceData(eeg_data) => {
            handler.eeg_update(eeg_data);
        }
    }
}

} // verus!
