//! The messaging actor: what it does with the commands it is sent and with
//! the events it sees on the bus.

use crate::constants::{ISSUE_TOKEN_URL_QUERY_PATH, NONCE_URL_QUERY_PATH, PRIVATE_KEY_PATH};
use crate::errors::MessagingErrorCodes;
use crate::events::{Event, MessagingEvent, NatsEvent, ProvisioningEvent};
use crate::messaging::service::{
    connect_action, connect_begun, connect_next, initial, is_open, BrokerCommand,
    BrokerCommandModel, ConnectAction, ConnectEvent, ConnectOptions, Messaging, MessagingModel,
};
use crate::text::{join2, pair_views};
use vstd::prelude::*;
use vstd::string::*;

verus! {

/// A service that can be started.
pub trait ServiceHandler {
    /// Starts the service for the machine the identity actor named, `None`
    /// where it named none. Returns whether the service runs, and what it
    /// is to do first.
    fn start(&mut self, machine_id: Option<String>) -> (r: (bool, Option<HandlerAction>));
}

/// What the messaging actor is set up with.
#[derive(Clone, Debug, PartialEq, Eq)]
pub struct Settings {
    pub nats_addr: String,
    pub data_dir: String,
    pub service_url: String,
}

/// The commands the messaging actor takes.
#[derive(Clone, Debug, PartialEq, Eq)]
pub enum MessagingMessage {
    Connect,
    Disconnect,
    Reconnect,
    Subscriber { subject: String },
    Send { message: String, subject: String, headers: Option<Vec<(String, String)>> },
    Request { message: String, subject: String },
    InitJetStream,
}

/// What the messaging actor is made from.
#[derive(Clone, Debug, PartialEq, Eq)]
pub struct MessagingOptions {
    pub settings: Settings,
}

/// What the messaging actor is to do.
#[derive(Clone, Debug, PartialEq, Eq)]
pub enum HandlerAction {
    /// Connect, and publish this event once connected.
    Connect(MessagingEvent),
    /// Give the session up.
    Disconnect,
    /// Publish this event on the bus.
    Emit(MessagingEvent),
    /// Hand this command to the broker and answer with what it gives.
    Broker(BrokerCommand),
    /// Answer with this error.
    Refuse(MessagingErrorCodes),
}

/// An action of the actor, as texts.
pub enum HandlerActionModel {
    Connect(MessagingEvent),
    Disconnect,
    Emit(MessagingEvent),
    Broker(BrokerCommandModel),
    Refuse(MessagingErrorCodes),
}

impl View for HandlerAction {
    type V = HandlerActionModel;

    open spec fn view(&self) -> HandlerActionModel {
        match *self {
            HandlerAction::Connect(event) => HandlerActionModel::Connect(event),
            HandlerAction::Disconnect => HandlerActionModel::Disconnect,
            HandlerAction::Emit(event) => HandlerActionModel::Emit(event),
            HandlerAction::Broker(command) => HandlerActionModel::Broker(command@),
            HandlerAction::Refuse(e) => HandlerActionModel::Refuse(e),
        }
    }
}

/// The views of a list of actions.
pub open spec fn action_views(actions: Seq<HandlerAction>) -> Seq<HandlerActionModel> {
    Seq::new(actions.len(), |i: int| actions[i]@)
}

/// The command for the broker that a command for the actor asks for, if it
/// asks for one.
pub open spec fn broker_command_of(message: MessagingMessage) -> Option<BrokerCommandModel> {
    match message {
        MessagingMessage::Send { message, subject, headers } => Some(
            BrokerCommandModel::Publish {
                subject: subject@,
                headers: match headers {
                    Some(pairs) => Some(pair_views(pairs@)),
                    None => None,
                },
                data: vstd::utf8::encode_utf8(message@),
            },
        ),
        MessagingMessage::Request { message, subject } => Some(
            BrokerCommandModel::Request { subject: subject@, data: vstd::utf8::encode_utf8(message@) },
        ),
        MessagingMessage::Subscriber { subject } => Some(
            BrokerCommandModel::Subscribe { subject: subject@ },
        ),
        MessagingMessage::InitJetStream => Some(BrokerCommandModel::InitJetStream),
        _ => None,
    }
}

/// What the actor does with a command. `Connect` connects with the event
/// `Connected`, `Reconnect` with `Reconnected`; `Disconnect` gives the
/// session up; every other command goes to the broker while the client is
/// open and is refused with `NatsClientNotInitialized` while it is not.
pub open spec fn reaction(open: bool, message: MessagingMessage) -> HandlerActionModel {
    match message {
        MessagingMessage::Connect => HandlerActionModel::Connect(MessagingEvent::Connected),
        MessagingMessage::Reconnect => HandlerActionModel::Connect(MessagingEvent::Reconnected),
        MessagingMessage::Disconnect => HandlerActionModel::Disconnect,
        _ => if open {
            HandlerActionModel::Broker(broker_command_of(message).unwrap())
        } else {
            HandlerActionModel::Refuse(MessagingErrorCodes::NatsClientNotInitialized)
        },
    }
}

/// What the actor does when it sees an event on the bus, in order. A
/// machine that was provisioned connects; one that was deprovisioned gives
/// its session up; a broker that dropped the connection makes the actor
/// publish `Disconnected` and connect again, with `Reconnected` to follow; a
/// broker that reports its connection makes it publish `Connected`. Nothing
/// else concerns it.
pub open spec fn reactions(event: Event) -> Seq<HandlerActionModel> {
    match event {
        Event::Provisioning(ProvisioningEvent::Provisioned) => seq![
            HandlerActionModel::Connect(MessagingEvent::Connected),
        ],
        Event::Provisioning(ProvisioningEvent::Deprovisioned) => seq![
            HandlerActionModel::Disconnect,
        ],
        Event::Nats(NatsEvent::Disconnected) => seq![
            HandlerActionModel::Emit(MessagingEvent::Disconnected),
            HandlerActionModel::Connect(MessagingEvent::Reconnected),
        ],
        Event::Nats(NatsEvent::Connected) => seq![
            HandlerActionModel::Emit(MessagingEvent::Connected),
        ],
        _ => Seq::<HandlerActionModel>::empty(),
    }
}

/// The messaging actor.
pub struct MessagingHandler {
    settings: Settings,
    messaging_client: Messaging,
}

impl MessagingHandler {
    /// The client of the actor.
    pub closed spec fn client(&self) -> MessagingModel {
        self.messaging_client@
    }

    /// What the actor was set up with.
    pub closed spec fn settings(&self) -> Settings {
        self.settings
    }

    /// Makes the actor, with a client for the broker the settings name.
    pub fn new(options: MessagingOptions) -> (handler: MessagingHandler)
        ensures
            handler.client() == initial(true, options.settings.nats_addr@),
            handler.settings() == options.settings,
    {
        MessagingHandler {
            messaging_client: Messaging::new(true, options.settings.nats_addr.clone()),
            settings: options.settings,
        }
    }

    /// The options a connect is made with: the private key below the data
    /// directory, the endpoints for nonce and token below the service URL,
    /// and the event to publish once connected.
    pub fn connect_options(&self, event_type: MessagingEvent) -> (options: ConnectOptions)
        ensures
            options.nats_url@ == self.settings().nats_addr@,
            options.event_type == Some(event_type),
            options.private_key_path@ == self.settings().data_dir@ + PRIVATE_KEY_PATH@,
            options.service_url@ == self.settings().service_url@,
            options.get_nonce_url@ == NONCE_URL_QUERY_PATH@,
            options.issue_auth_token_url@ == ISSUE_TOKEN_URL_QUERY_PATH@,
    {
        ConnectOptions {
            nats_url: self.settings.nats_addr.clone(),
            event_type: Some(event_type),
            private_key_path: join2(self.settings.data_dir.as_str(), PRIVATE_KEY_PATH),
            service_url: self.settings.service_url.clone(),
            get_nonce_url: NONCE_URL_QUERY_PATH.to_owned(),
            issue_auth_token_url: ISSUE_TOKEN_URL_QUERY_PATH.to_owned(),
        }
    }

    /// Begins a connect of the actor's client.
    pub fn connect(&mut self, options: &ConnectOptions, nats_client_public_key: &str) -> (action:
        ConnectAction)
        ensures
            final(self).client() == connect_begun(
                old(self).client(),
                *options,
                nats_client_public_key@,
            ),
            final(self).settings() == old(self).settings(),
            action@ == connect_action(final(self).client()),
    {
        self.messaging_client.connect(options, nats_client_public_key)
    }

    /// Hands a report on the connect to the actor's client.
    pub fn advance(&mut self, event: ConnectEvent) -> (action: ConnectAction)
        ensures
            final(self).client() == connect_next(old(self).client(), event),
            final(self).settings() == old(self).settings(),
            action@ == connect_action(final(self).client()),
    {
        self.messaging_client.advance(event)
    }

    /// Gives the session of the actor's client up.
    pub fn disconnect(&mut self) -> (event: MessagingEvent)
        ensures
            final(self).client() == initial(
                old(self).client().initialized,
                old(self).client().nats_addr,
            ),
            final(self).settings() == old(self).settings(),
            event == MessagingEvent::Disconnected,
    {
        self.messaging_client.disconnect()
    }

    /// Decides what to do with a command.
    pub fn on_message(&self, message: MessagingMessage) -> (action: HandlerAction)
        ensures
            action@ == reaction(is_open(self.client()), message),
    {
        match message {
            MessagingMessage::Connect => HandlerAction::Connect(MessagingEvent::Connected),
            MessagingMessage::Reconnect => HandlerAction::Connect(MessagingEvent::Reconnected),
            MessagingMessage::Disconnect => HandlerAction::Disconnect,
            MessagingMessage::Send { message, subject, headers } => {
                let data = message.as_str().as_bytes_vec();
                match self.messaging_client.publish(subject.as_str(), headers, data) {
                    Ok(command) => HandlerAction::Broker(command),
                    Err(e) => HandlerAction::Refuse(e),
                }
            },
            MessagingMessage::Request { message, subject } => {
                let data = message.as_str().as_bytes_vec();
                match self.messaging_client.request(subject.as_str(), data) {
                    Ok(command) => HandlerAction::Broker(command),
                    Err(e) => HandlerAction::Refuse(e),
                }
            },
            MessagingMessage::Subscriber { subject } => {
                match self.messaging_client.subscribe(subject.as_str()) {
                    Ok(command) => HandlerAction::Broker(command),
                    Err(e) => HandlerAction::Refuse(e),
                }
            },
            MessagingMessage::InitJetStream => match self.messaging_client.init_jetstream() {
                Ok(command) => HandlerAction::Broker(command),
                Err(e) => HandlerAction::Refuse(e),
            },
        }
    }

    /// Decides what to do on an event of the bus.
    pub fn on_event(&self, event: &Event) -> (actions: Vec<HandlerAction>)
        ensures
            action_views(actions@) == reactions(*event),
    {
        let mut actions: Vec<HandlerAction> = Vec::new();
        match event {
            Event::Provisioning(ProvisioningEvent::Provisioned) => {
                actions.push(HandlerAction::Connect(MessagingEvent::Connected));
            },
            Event::Provisioning(ProvisioningEvent::Deprovisioned) => {
                actions.push(HandlerAction::Disconnect);
            },
            Event::Nats(NatsEvent::Disconnected) => {
                actions.push(HandlerAction::Emit(MessagingEvent::Disconnected));
                actions.push(HandlerAction::Connect(MessagingEvent::Reconnected));
            },
            Event::Nats(NatsEvent::Connected) => {
                actions.push(HandlerAction::Emit(MessagingEvent::Connected));
            },
            _ => {},
        }
        assert(action_views(actions@) =~= reactions(*event));
        actions
    }
}

/// What starting the messaging actor amounts to: without a machine id it
/// does not run; with an empty one it runs and waits; with any other it
/// runs and connects.
pub open spec fn start_plan(machine_id: Option<String>) -> (bool, Option<HandlerActionModel>) {
    match machine_id {
        None => (false, None),
        Some(id) => if id@.len() == 0 {
            (true, None)
        } else {
            (true, Some(HandlerActionModel::Connect(MessagingEvent::Connected)))
        },
    }
}

impl ServiceHandler for MessagingHandler {
    fn start(&mut self, machine_id: Option<String>) -> (r: (bool, Option<HandlerAction>))
        ensures
            r.0 == start_plan(machine_id).0,
            match r.1 {
                Some(action) => start_plan(machine_id).1 == Some(action@),
                None => start_plan(machine_id).1.is_none(),
            },
            final(self).client() == old(self).client(),
            final(self).settings() == old(self).settings(),
    {
        match machine_id {
            None => (false, None),
            Some(id) => {
                if id.as_str().unicode_len() == 0 {
                    (true, None)
                } else {
                    (true, Some(HandlerAction::Connect(MessagingEvent::Connected)))
                }
            },
        }
    }
}

} // verus!
