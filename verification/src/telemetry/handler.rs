//! The telemetry actor: it forwards what it is handed only while the
//! messaging session is up.

use crate::events::{Event, MessagingEvent, ProvisioningEvent};
use vstd::prelude::*;

verus! {

/// What the telemetry actor is set up with.
#[derive(Clone, Debug, PartialEq, Eq)]
pub struct Settings {
    pub export_endpoint: String,
}

/// What the telemetry actor is made from.
#[derive(Clone, Debug, PartialEq, Eq)]
pub struct TelemetryOptions {
    pub settings: Settings,
}

/// What the telemetry actor is handed.
#[derive(Clone, Debug, PartialEq, Eq)]
pub enum TelemetryMessage {
    SendLogs { logs: Vec<u8>, logs_type: String },
    SendMetrics { metrics: Vec<u8>, metrics_type: String },
}

/// The telemetry actor.
pub struct TelemetryHandler {
    pub settings: Settings,
    pub is_messaging_connected: bool,
}

/// Whether the session counts as up after an event: `Connected` sets the
/// latch, `Disconnected` and `Deprovisioned` release it, nothing else
/// touches it.
pub open spec fn latch_after(latched: bool, event: Event) -> bool {
    match event {
        Event::Messaging(MessagingEvent::Connected) => true,
        Event::Messaging(MessagingEvent::Disconnected) => false,
        Event::Provisioning(ProvisioningEvent::Deprovisioned) => false,
        _ => latched,
    }
}

impl TelemetryHandler {
    /// Whether the messaging session counts as up.
    pub open spec fn latched(&self) -> bool {
        self.is_messaging_connected
    }

    /// Makes the actor; the session does not count as up yet.
    pub fn new(options: TelemetryOptions) -> (handler: TelemetryHandler)
        ensures
            !handler.latched(),
            handler.settings == options.settings,
    {
        TelemetryHandler { settings: options.settings, is_messaging_connected: false }
    }

    /// Whether the messaging session counts as up.
    pub fn is_messaging_connected(&self) -> (up: bool)
        ensures
            up == self.latched(),
    {
        self.is_messaging_connected
    }

    /// Takes in an event of the bus. Returns whether the metrics are to be
    /// set up now: that is so whenever the session comes up.
    pub fn on_event(&mut self, event: &Event) -> (initialize_metrics: bool)
        ensures
            final(self).latched() == latch_after(old(self).latched(), *event),
            final(self).settings == old(self).settings,
            initialize_metrics == (*event == Event::Messaging(MessagingEvent::Connected)),
    {
        match event {
            Event::Messaging(MessagingEvent::Connected) => {
                self.is_messaging_connected = true;
                true
            },
            Event::Messaging(MessagingEvent::Disconnected) => {
                self.is_messaging_connected = false;
                false
            },
            Event::Provisioning(ProvisioningEvent::Deprovisioned) => {
                self.is_messaging_connected = false;
                false
            },
            _ => false,
        }
    }

    /// Decides whether what was handed in is forwarded: only while the
    /// session counts as up. What is not forwarded is dropped.
    pub fn on_message(&self, message: TelemetryMessage) -> (forward: Option<TelemetryMessage>)
        ensures
            forward == if self.latched() {
                Some(message)
            } else {
                None
            },
    {
        if self.is_messaging_connected {
            Some(message)
        } else {
            None
        }
    }
}

} // verus!
