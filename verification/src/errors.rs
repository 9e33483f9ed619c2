//! What can go wrong, by component.

use vstd::prelude::*;

verus! {

/// Failures of the application-service gateway.
#[derive(Clone, Copy, Debug, PartialEq, Eq, Structural)]
pub enum AppServicesErrorCodes {
    AckHeaderNotFoundError,
    ReqIdParseError,
    RequestPayloadParseError,
    ContentLengthParseError,
    OversizedBodyError,
    UrlParseError,
    ServiceSettingsParseError,
    PortParseError,
}

/// Failures of the messaging client and its actor.
#[derive(Clone, Copy, Debug, PartialEq, Eq, Structural)]
pub enum MessagingErrorCodes {
    UnknownError,
    EventSendError,
    NatsClientNotInitialized,
    NatsConnectError,
    SignNonceError,
    GetAuthNonceServerError,
    GetAuthNonceBadRequestError,
    GetAuthNonceNotFoundError,
    AuthNonceResponseParseError,
    GetAuthTokenServerError,
    GetAuthTokenBadRequestError,
    GetAuthTokenNotFoundError,
    AuthTokenResponseParseError,
    ChannelSendMessageError,
    ChannelReceiveMessageError,
}

/// Failures of provisioning and deprovisioning.
#[derive(Clone, Copy, Debug, PartialEq, Eq, Structural)]
pub enum ProvisioningErrorCodes {
    UnknownError,
    UnauthorizedError,
    NotFoundError,
    BadRequestError,
    InternalServerError,
    UnreachableError,
    ParseResponseError,
    CryptoGeneratePrivateKeyError,
    CryptoGenerateCSRError,
    CSRSignReadFileError,
    CertificateWriteError,
    CertificateRemoveError,
    SendEventError,
    SettingsDatabaseDeleteError,
    PayloadDeserializationError,
    InvalidMachineIdError,
}

/// Failures of the key-value store.
#[derive(Clone, Copy, Debug, PartialEq, Eq, Structural)]
pub enum KeyValueStoreErrorCodes {
    DbInitializationError,
    InsertError,
    RetrieveValueError,
}

/// Failures when reading the machine identity.
#[derive(Clone, Copy, Debug, PartialEq, Eq, Structural)]
pub enum IdentityErrorCodes {
    IdentityReadError,
}

/// Failures of a receive on a reply channel.
#[derive(Clone, Copy, Debug, PartialEq, Eq, Structural)]
pub enum ChannelErrorCodes {
    ChannelReceiveError,
    ChannelReceiveTimeout,
}

/// An actor that ended with an error, as the supervisor records it.
#[derive(Clone, Copy, Debug, PartialEq, Eq, Structural)]
pub enum AgentErrorCodes {
    ProvisioningInitError,
    IdentityInitError,
    MessagingInitError,
    HeartbeatInitError,
    SettingsInitError,
    NetworkingInitError,
    TelemetryInitError,
    AppServicesInitError,
}

} // verus!
