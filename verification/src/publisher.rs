//! The measurement publisher loop, as a step machine.
//!
//! The loop around this machine owns the reading device handle, the broker
//! session and the shared shutdown signal; the machine owns every decision.
//! Each step consumes the outcome of the operation the previous action
//! asked for and answers with the next action: check the flags, run the
//! reconnector, read one record, publish one value, back off, stop, or
//! abort. The blocking read itself is never interrupted cooperatively; the
//! shutdown signal is observed at the top of the loop only.

use vstd::prelude::*;
use crate::codec::{spec_decode, decode_record, MeasurementRecord, RECORD_BYTES};
use crate::decimal::{spec_decimal, u64_to_decimal};

verus! {

/// Backoff after a failed or short device read, in milliseconds.
pub const READ_BACKOFF_MS: u64 = 500;

/// Delivery guarantee for published measurements: at least once.
pub const PUBLISH_QOS: i32 = 1;

/// Where the publisher loop stands between two outside operations.
#[derive(Debug, Clone, Copy, PartialEq, Eq, Structural)]
pub enum PublisherState {
    /// About to run the top-of-loop checks.
    Idle,
    /// The broker was found disconnected; the reconnector is running.
    Reconnecting,
    /// A blocking device read is in flight.
    Reading,
    /// A broker publish is in flight.
    Publishing,
    /// The loop is over; no further event is consumed.
    Stopped,
}

/// The outcome of the operation the previous action asked for.
#[derive(Debug)]
pub enum PublisherEvent {
    /// Top-of-loop observations: the shutdown signal (`running` is true
    /// while the signal is clear) and whether the broker session reports
    /// itself connected.
    Status { running: bool, connected: bool },
    /// The reconnector finished. `restored` is false only for a reconnector
    /// that gave up — the one in this crate never does, but a caller must
    /// still tear the loop down rather than keep a broken session.
    ReconnectorDone { restored: bool },
    /// The device read finished: the bytes read, or nothing on a read
    /// error.
    ReadDone { data: Option<Vec<u8>> },
    /// The broker publish finished.
    PublishDone { ok: bool },
}

/// The next operation the caller must perform.
#[derive(Debug, PartialEq)]
pub enum PublisherAction {
    /// Observe the shutdown signal and the broker session, then report
    /// `Status`.
    CheckStatus,
    /// Run the broker reconnector to completion, then report
    /// `ReconnectorDone`.
    Reconnect,
    /// Perform one blocking 16-byte device read, then report `ReadDone`.
    Read,
    /// Publish the payload — the decimal text of the measured value — to
    /// the configured topic at the given delivery guarantee, then report
    /// `PublishDone`.
    Publish { payload: String, qos: i32 },
    /// Sleep for the given backoff, then report `Status` as at the top of
    /// the loop.
    Backoff { delay_ms: u64 },
    /// Stop cleanly: disconnect the broker session if it is still up. When
    /// `request_shutdown` is set, also raise the shutdown signal, so the
    /// command driver stops too.
    Stop { request_shutdown: bool },
    /// A fatal condition: a publish failed, and measurements would silently
    /// be lost. The caller must terminate the process.
    Abort,
}

/// The record carried by a read outcome: only a full 16-byte buffer holds
/// one.
pub open spec fn spec_read_record(data: Option<Vec<u8>>) -> Option<MeasurementRecord> {
    match data {
        Option::None => Option::None,
        Option::Some(d) => if d@.len() == RECORD_BYTES {
            Option::Some(spec_decode(d@))
        } else {
            Option::None
        },
    }
}

/// Which event kind each state awaits.
pub open spec fn spec_expects(s: PublisherState, e: PublisherEvent) -> bool {
    match s {
        PublisherState::Idle => e is Status,
        PublisherState::Reconnecting => e is ReconnectorDone,
        PublisherState::Reading => e is ReadDone,
        PublisherState::Publishing => e is PublishDone,
        PublisherState::Stopped => false,
    }
}

/// The publisher loop's state machine.
pub struct Publisher {
    pub state: PublisherState,
}

impl Publisher {
    /// A fresh publisher, about to run its first top-of-loop checks.
    pub fn new() -> (p: Publisher)
        ensures
            p.state == PublisherState::Idle,
    {
        Publisher { state: PublisherState::Idle }
    }

    /// Whether `event` is the kind of outcome this machine awaits; the
    /// caller reports outcomes in the order its actions asked for them.
    pub fn accepts(&self, event: &PublisherEvent) -> (r: bool)
        ensures
            r == spec_expects(self.state, *event),
    {
        match self.state {
            PublisherState::Idle => matches!(event, PublisherEvent::Status { .. }),
            PublisherState::Reconnecting => matches!(event, PublisherEvent::ReconnectorDone { .. }),
            PublisherState::Reading => matches!(event, PublisherEvent::ReadDone { .. }),
            PublisherState::Publishing => matches!(event, PublisherEvent::PublishDone { .. }),
            PublisherState::Stopped => false,
        }
    }

    /// One step of the publisher loop: consume the outcome of the previous
    /// action and decide the next one.
    ///
    /// A publish is asked for exactly when a read handed back a full
    /// record, and its payload is that record's value in decimal; a failed
    /// or short read never publishes and always backs off for the same
    /// fixed duration. A raised shutdown signal stops the loop at the
    /// top-of-loop check only. A failed publish is fatal; a reconnector
    /// that gave up raises the shutdown signal and stops.
    pub fn step(&mut self, event: PublisherEvent) -> (a: PublisherAction)
        requires
            spec_expects(old(self).state, event),
        ensures
            match event {
                PublisherEvent::Status { running, connected } => {
                    if !running {
                        &&& a == (PublisherAction::Stop { request_shutdown: false })
                        &&& final(self).state == PublisherState::Stopped
                    } else if !connected {
                        &&& a == PublisherAction::Reconnect
                        &&& final(self).state == PublisherState::Reconnecting
                    } else {
                        &&& a == PublisherAction::Read
                        &&& final(self).state == PublisherState::Reading
                    }
                },
                PublisherEvent::ReconnectorDone { restored } => {
                    if restored {
                        &&& a == PublisherAction::Read
                        &&& final(self).state == PublisherState::Reading
                    } else {
                        &&& a == (PublisherAction::Stop { request_shutdown: true })
                        &&& final(self).state == PublisherState::Stopped
                    }
                },
                PublisherEvent::ReadDone { data } => {
                    match spec_read_record(data) {
                        Option::Some(rec) => {
                            &&& a matches PublisherAction::Publish { payload, qos }
                            &&& payload@ == spec_decimal(rec.value as nat)
                            &&& qos == PUBLISH_QOS
                            &&& final(self).state == PublisherState::Publishing
                        },
                        Option::None => {
                            &&& a == (PublisherAction::Backoff { delay_ms: READ_BACKOFF_MS })
                            &&& final(self).state == PublisherState::Idle
                        },
                    }
                },
                PublisherEvent::PublishDone { ok } => {
                    if ok {
                        &&& a == PublisherAction::CheckStatus
                        &&& final(self).state == PublisherState::Idle
                    } else {
                        &&& a == PublisherAction::Abort
                        &&& final(self).state == PublisherState::Stopped
                    }
                },
            },
            a is Publish ==> (match event {
                PublisherEvent::ReadDone { data } => spec_read_record(data) is Some,
                _ => false,
            }),
    {
        match event {
            PublisherEvent::Status { running, connected } => {
                if !running {
                    self.state = PublisherState::Stopped;
                    PublisherAction::Stop { request_shutdown: false }
                } else if !connected {
                    self.state = PublisherState::Reconnecting;
                    PublisherAction::Reconnect
                } else {
                    self.state = PublisherState::Reading;
                    PublisherAction::Read
                }
            },
            PublisherEvent::ReconnectorDone { restored } => {
                if restored {
                    self.state = PublisherState::Reading;
                    PublisherAction::Read
                } else {
                    self.state = PublisherState::Stopped;
                    PublisherAction::Stop { request_shutdown: true }
                }
            },
            PublisherEvent::ReadDone { data } => {
                let record = match &data {
                    Option::Some(d) => decode_record(d.as_slice()),
                    Option::None => Option::None,
                };
                match record {
                    Option::Some(rec) => {
                        self.state = PublisherState::Publishing;
                        PublisherAction::Publish {
                            payload: u64_to_decimal(rec.value),
                            qos: PUBLISH_QOS,
                        }
                    },
                    Option::None => {
                        self.state = PublisherState::Idle;
                        PublisherAction::Backoff { delay_ms: READ_BACKOFF_MS }
                    },
                }
            },
            PublisherEvent::PublishDone { ok } => {
                if ok {
                    self.state = PublisherState::Idle;
                    PublisherAction::CheckStatus
                } else {
                    self.state = PublisherState::Stopped;
                    PublisherAction::Abort
                }
            },
        }
    }
}

} // verus!
