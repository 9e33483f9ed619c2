//! The lifecycle events that travel on the broadcast bus.

use vstd::prelude::*;

verus! {

/// The machine gained or lost its identity.
#[derive(Clone, Copy, Debug, PartialEq, Eq, Structural)]
pub enum ProvisioningEvent {
    Provisioned,
    Deprovisioned,
}

/// The messaging session changed.
#[derive(Clone, Copy, Debug, PartialEq, Eq, Structural)]
pub enum MessagingEvent {
    Connected,
    Disconnected,
    Reconnected,
}

/// Settings were synchronised or changed. Each list holds key/value pairs.
#[derive(Clone, Debug, PartialEq, Eq)]
pub enum SettingEvent {
    Synced,
    Updated { existing_settings: Vec<(String, String)>, new_settings: Vec<(String, String)> },
}

/// What the broker connection itself reports.
#[derive(Clone, Debug, PartialEq, Eq)]
pub enum NatsEvent {
    Connected,
    Disconnected,
    ServerError(String),
}

/// An event on the bus.
#[derive(Clone, Debug, PartialEq, Eq)]
pub enum Event {
    Provisioning(ProvisioningEvent),
    Messaging(MessagingEvent),
    Settings(SettingEvent),
    Nats(NatsEvent),
}

/// `tokio::sync::broadcast::Sender`, the sending half of the bus.
#[verifier::external_type_specification]
#[verifier::external_body]
#[verifier::reject_recursive_types(T)]
pub struct ExBroadcastSender<T>(tokio::sync::broadcast::Sender<T>);

/// Calls `send` of `tokio::sync::broadcast::Sender` and reports whether the
/// event was taken. Whether it is depends on who listens at that moment: a
/// bus without a receiver takes nothing.
#[verifier::external_body]
pub(crate) fn send_event(event_tx: &tokio::sync::broadcast::Sender<Event>, event: Event) -> (taken:
    bool) {
    event_tx.send(event).is_ok()
}

} // verus!
