//! The sensor's connection-phase state machine and the decisions of its
//! connect/configure path.
//!
//! Each phase-advancing operation consumes the current phase value and
//! returns the next, so an operation of a later phase cannot be reached
//! before the earlier phases are done. The transport work between the
//! decisions — scanning, connecting, subscribing, writing — is carried out by
//! the caller, who feeds the outcome of each step back in.

use vstd::prelude::*;

use crate::control::ControlPointCommand;
use crate::eeg_uuids::{EventType, NotifyStream};
use crate::responses::DeviceInfo;
use crate::sealed::{Bluetooth, Configure, EventLoop, Level};

verus! {

/// How many connect attempts are made before the last error is surfaced.
pub const CONNECT_MAX_ATTEMPTS: u32 = 20;

/// Seconds slept between two connect attempts.
pub const CONNECT_RETRY_DELAY_SECS: u64 = 2;

/// Capacity of the queue between the ingestion and dispatch units, sized to
/// absorb notification bursts.
pub const EVENT_QUEUE_CAPACITY: usize = 128;

/// Capacity of the control-command queue feeding the dispatch unit.
pub const CONTROL_QUEUE_CAPACITY: usize = 4;

/// Measurement data attached to a command, as handed to an event handler.
#[derive(Debug, Clone, Copy, PartialEq, Eq, Structural)]
pub struct CommandData {
    /// Measured value
    pub data: i16,
    /// Command the value belongs to
    pub cmd_type: ControlPointCommand,
}

/// The core sensor state, parameterized by its construction phase.
///
/// It holds what the session logic reads and decides on; the transport
/// handles (adapter, peripheral, characteristics) stay with the caller.
pub struct BBitSensor<L: Level> {
    /// Event types subscribed and processed
    pub subscribed_data_event_types: Vec<EventType>,
    /// Phase marker, with the phase's own bookkeeping
    pub level: L,
    /// Device information, memoized on first read
    pub device_info: Option<DeviceInfo>,
}

impl BBitSensor<Bluetooth> {
    /// A fresh sensor with nothing resolved yet.
    pub fn new() -> (r: Self)
        ensures
            r.subscribed_data_event_types@ =~= Seq::<EventType>::empty(),
            r.device_info is None,
    {
        BBitSensor { subscribed_data_event_types: Vec::new(), level: Bluetooth, device_info: None }
    }

    /// Advance to the configuration phase once a connect attempt reported
    /// success. Consumes the resolving-phase value.
    pub fn into_configure(self) -> (r: BBitSensor<Configure>)
        ensures
            r.subscribed_data_event_types@ == self.subscribed_data_event_types@,
            r.device_info == self.device_info,
            !r.level.device_status,
            !r.level.eeg_rate,
    {
        BBitSensor {
            subscribed_data_event_types: self.subscribed_data_event_types,
            level: Configure::default(),
            device_info: self.device_info,
        }
    }
}

/// Outcome of one connect attempt, as the caller's transport reported it.
#[derive(Debug, Clone, Copy, PartialEq, Eq, Structural)]
pub enum ConnectAttemptOutcome {
    /// The device is resolved, connected and its control point found
    Connected,
    /// The transport reported that no Bluetooth adapter exists
    FatalNoAdapter,
    /// The attempt failed for any other, transient reason
    OtherFailure,
}

/// What the connect loop does next after an attempt.
#[derive(Debug, Clone, Copy, PartialEq, Eq, Structural)]
pub enum RetryDecision {
    /// Connected: advance to the configuration phase
    Proceed,
    /// A missing adapter is a fatal capability absence: fail without retrying
    AbortNoAdapter,
    /// Sleep for `CONNECT_RETRY_DELAY_SECS` and try again
    RetryAfterDelay,
    /// The attempt budget is exhausted: surface the last error
    GiveUp,
}

/// Remaining attempt budget of the connect loop.
#[derive(Debug, Clone, Copy, PartialEq, Eq, Structural)]
pub struct RetryBudget {
    /// Attempts left before the loop gives up
    pub attempts_left: u32,
}

impl RetryBudget {
    /// A full budget of `CONNECT_MAX_ATTEMPTS` attempts.
    pub fn new() -> (r: Self)
        ensures
            r.attempts_left == CONNECT_MAX_ATTEMPTS,
    {
        RetryBudget { attempts_left: CONNECT_MAX_ATTEMPTS }
    }
}

/// Decide what the connect loop does after one attempt: success proceeds, a
/// missing adapter aborts at once, any other failure consumes one attempt
/// and retries after the fixed delay until the budget runs out.
pub fn next_retry_decision(budget: &mut RetryBudget, outcome: ConnectAttemptOutcome) -> (r:
    RetryDecision)
    ensures
        outcome == ConnectAttemptOutcome::Connected ==> r == RetryDecision::Proceed
            && *final(budget) == *old(budget),
        outcome == ConnectAttemptOutcome::FatalNoAdapter ==> r == RetryDecision::AbortNoAdapter
            && *final(budget) == *old(budget),
        outcome == ConnectAttemptOutcome::OtherFailure ==> final(budget).attempts_left == (
        if old(budget).attempts_left > 0 {
            (old(budget).attempts_left - 1) as u32
        } else {
            0u32
        }) && r == (if old(budget).attempts_left > 1 {
            RetryDecision::RetryAfterDelay
        } else {
            RetryDecision::GiveUp
        }),
{
    match outcome {
        ConnectAttemptOutcome::Connected => RetryDecision::Proceed,
        ConnectAttemptOutcome::FatalNoAdapter => RetryDecision::AbortNoAdapter,
        ConnectAttemptOutcome::OtherFailure => {
            if budget.attempts_left > 0 {
                budget.attempts_left = budget.attempts_left - 1;
            }
            if budget.attempts_left > 0 {
                RetryDecision::RetryAfterDelay
            } else {
                RetryDecision::GiveUp
            }
        }
    }
}

/// One step of bringing a configured sensor up to streaming, carried out by
/// the caller's transport.
#[derive(Debug, Clone, Copy, PartialEq, Eq, Structural)]
pub enum BuildStep {
    /// Write a `StopAll` command, clearing any measurement a prior session
    /// left active
    SendStopAll,
    /// Subscribe to the characteristic carrying this stream
    Subscribe(NotifyStream),
}

/// The steps `build_steps` plans for a configuration: first the defensive
/// stop, then one subscription per recorded interest.
pub open spec fn spec_build_steps(level: Configure) -> Seq<BuildStep> {
    let s = seq![BuildStep::SendStopAll];
    let s = if level.eeg_rate {
        s.push(BuildStep::Subscribe(NotifyStream::EegOrResistanceMeasurement))
    } else {
        s
    };
    if level.device_status {
        s.push(BuildStep::Subscribe(NotifyStream::DeviceState))
    } else {
        s
    }
}

impl BBitSensor<Configure> {
    /// Record interest in an event type. Idempotent: an event type already
    /// recorded leaves the sensor unchanged.
    pub fn listen(self, event_type: EventType) -> (r: Self)
        ensures
            r.subscribed_data_event_types@ == (if self.subscribed_data_event_types@.contains(
                event_type,
            ) {
                self.subscribed_data_event_types@
            } else {
                self.subscribed_data_event_types@.push(event_type)
            }),
            r.level.device_status == (self.level.device_status || (
            !self.subscribed_data_event_types@.contains(event_type) && event_type
                == EventType::State)),
            r.level.eeg_rate == (self.level.eeg_rate || (
            !self.subscribed_data_event_types@.contains(event_type) && event_type
                == EventType::EegOrResistance)),
            r.device_info == self.device_info,
    {
        let mut found = false;
        let mut i: usize = 0;
        let n = self.subscribed_data_event_types.len();
        while i < n
            invariant
                i <= n,
                n == self.subscribed_data_event_types@.len(),
                found == exists|j: int|
                    0 <= j < i && self.subscribed_data_event_types@[j] == event_type,
            decreases n - i,
        {
            if self.subscribed_data_event_types[i] == event_type {
                found = true;
            }
            i = i + 1;
        }
        assert(found == self.subscribed_data_event_types@.contains(event_type));
        if found {
            return self;
        }
        let mut r = self;
        match event_type {
            EventType::State => {
                r.level.device_status = true;
            }
            EventType::EegOrResistance => {
                r.level.eeg_rate = true;
            }
        }
        r.subscribed_data_event_types.push(event_type);
        r
    }

    /// Plan the transport steps that make the sensor ready for streaming:
    /// send `StopAll` defensively, then subscribe to each stream an interest
    /// was recorded for.
    pub fn build_steps(&self) -> (r: Vec<BuildStep>)
        ensures
            r@ == spec_build_steps(self.level),
    {
        let mut steps: Vec<BuildStep> = Vec::new();
        steps.push(BuildStep::SendStopAll);
        if self.level.eeg_rate {
            steps.push(BuildStep::Subscribe(NotifyStream::EegOrResistanceMeasurement));
        }
        if self.level.device_status {
            steps.push(BuildStep::Subscribe(NotifyStream::DeviceState));
        }
        assert(steps@ =~= spec_build_steps(self.level));
        steps
    }

    /// Advance to the event-loop phase once the planned steps succeeded.
    /// Consumes the configuration-phase value.
    pub fn into_event_loop(self) -> (r: BBitSensor<EventLoop>)
        ensures
            r.subscribed_data_event_types@ == self.subscribed_data_event_types@,
            r.device_info == self.device_info,
    {
        BBitSensor {
            subscribed_data_event_types: self.subscribed_data_event_types,
            level: EventLoop,
            device_info: self.device_info,
        }
    }
}

impl<L: Level> BBitSensor<L> {
    /// Memoize the device information record: the first record sticks,
    /// every later write is a no-op.
    pub fn record_device_info(&mut self, info: DeviceInfo)
        ensures
            final(self).device_info == (if old(self).device_info is Some {
                old(self).device_info
            } else {
                Some(info)
            }),
            final(self).subscribed_data_event_types@ == old(self).subscribed_data_event_types@,
            final(self).level == old(self).level,
    {
        if self.device_info.is_none() {
            self.device_info = Some(info);
        }
    }
}

} // verus!
