//! The supervisor: which services there are, what each needs from the
//! others, and the order in which they are started.

use crate::constants::CHANNEL_SIZE;
use crate::errors::AgentErrorCodes;
use vstd::prelude::*;

verus! {

/// The services of the agent.
#[derive(Clone, Copy, Debug, PartialEq, Eq, Structural)]
pub enum Service {
    Identity,
    Messaging,
    Provisioning,
    Heartbeat,
    Settings,
    Networking,
    Telemetry,
    AppServices,
}

/// Whether `service` needs a handle of `other` to be made. Identity needs
/// nothing; messaging needs identity; every other service needs messaging,
/// and with it identity; networking needs settings as well.
pub open spec fn needs(service: Service, other: Service) -> bool {
    match service {
        Service::Identity => false,
        Service::Messaging => other == Service::Identity,
        Service::Networking => other == Service::Identity || other == Service::Messaging || other
            == Service::Settings,
        _ => other == Service::Identity || other == Service::Messaging,
    }
}

/// The order in which the services are started.
pub open spec fn start_order() -> Seq<Service> {
    seq![
        Service::Identity,
        Service::Messaging,
        Service::Provisioning,
        Service::Heartbeat,
        Service::Settings,
        Service::Networking,
        Service::Telemetry,
        Service::AppServices,
    ]
}

/// The place of a service in the start order.
pub open spec fn place(service: Service) -> int {
    match service {
        Service::Identity => 0,
        Service::Messaging => 1,
        Service::Provisioning => 2,
        Service::Heartbeat => 3,
        Service::Settings => 4,
        Service::Networking => 5,
        Service::Telemetry => 6,
        Service::AppServices => 7,
    }
}

/// Every service is started, once, and after all it needs: no service
/// waits for one that waits for it.
pub proof fn lemma_start_order_respects_needs()
    ensures
        start_order().len() == 8,
        forall|s: Service| 0 <= #[trigger] place(s) < 8 && start_order()[place(s)] == s,
        forall|s: Service, t: Service| #[trigger] needs(s, t) ==> place(t) < place(s),
{
}

/// The number of slots of the bus and of every command channel.
pub fn channel_size() -> (n: usize)
    ensures
        n == 32,
{
    CHANNEL_SIZE
}

/// Tells whether `service` needs a handle of `other`.
pub fn service_needs(service: Service, other: Service) -> (r: bool)
    ensures
        r == needs(service, other),
{
    let basic = match other {
        Service::Identity => true,
        Service::Messaging => true,
        _ => false,
    };
    match service {
        Service::Identity => false,
        Service::Messaging => match other {
            Service::Identity => true,
            _ => false,
        },
        Service::Networking => basic || match other {
            Service::Settings => true,
            _ => false,
        },
        _ => basic,
    }
}

/// Names the services in the order in which they are started.
pub fn init_services() -> (order: Vec<Service>)
    ensures
        order@ == start_order(),
{
    let mut order: Vec<Service> = Vec::new();
    order.push(Service::Identity);
    order.push(Service::Messaging);
    order.push(Service::Provisioning);
    order.push(Service::Heartbeat);
    order.push(Service::Settings);
    order.push(Service::Networking);
    order.push(Service::Telemetry);
    order.push(Service::AppServices);
    assert(order@ =~= start_order());
    order
}

/// The error the supervisor records when a service ends with one.
pub open spec fn init_error(service: Service) -> AgentErrorCodes {
    match service {
        Service::Identity => AgentErrorCodes::IdentityInitError,
        Service::Messaging => AgentErrorCodes::MessagingInitError,
        Service::Provisioning => AgentErrorCodes::ProvisioningInitError,
        Service::Heartbeat => AgentErrorCodes::HeartbeatInitError,
        Service::Settings => AgentErrorCodes::SettingsInitError,
        Service::Networking => AgentErrorCodes::NetworkingInitError,
        Service::Telemetry => AgentErrorCodes::TelemetryInitError,
        Service::AppServices => AgentErrorCodes::AppServicesInitError,
    }
}

/// The error to record for a service that ended with one. The other
/// services go on.
pub fn service_error(service: Service) -> (e: AgentErrorCodes)
    ensures
        e == init_error(service),
{
    match service {
        Service::Identity => AgentErrorCodes::IdentityInitError,
        Service::Messaging => AgentErrorCodes::MessagingInitError,
        Service::Provisioning => AgentErrorCodes::ProvisioningInitError,
        Service::Heartbeat => AgentErrorCodes::HeartbeatInitError,
        Service::Settings => AgentErrorCodes::SettingsInitError,
        Service::Networking => AgentErrorCodes::NetworkingInitError,
        Service::Telemetry => AgentErrorCodes::TelemetryInitError,
        Service::AppServices => AgentErrorCodes::AppServicesInitError,
    }
}

} // verus!
