//! The messaging client: how it authenticates against the backend with a
//! signed nonce, how it opens its session with the broker, and what it lets
//! through while it is connected.
//!
//! The client itself neither asks the backend nor speaks to the broker. It
//! names one action at a time; whoever drives it performs the action and
//! reports what came of it.

use crate::codec::{b64_encode, base64_bytes, base64_of, encodable};
use crate::constants::{AGENT_NAME, AGENT_VERSION};
use crate::digest::{digest, sha256_hex};
use crate::errors::MessagingErrorCodes;
use crate::events::MessagingEvent;
use crate::http::{classify_status, status_class, HttpReply, StatusClass};
use crate::text::{join2, pair_views};
use vstd::prelude::*;

verus! {

/// The frame the backend puts round every payload.
#[derive(Clone, Debug, PartialEq, Eq)]
pub struct MessagingServerResponseGeneric<T> {
    pub success: bool,
    pub status: String,
    pub status_code: i16,
    pub message: Option<String>,
    pub error_code: Option<String>,
    pub sub_errors: Option<String>,
    pub payload: T,
}

/// Whom a token is for.
#[derive(Clone, Copy, Debug, PartialEq, Eq, Structural)]
pub enum MessagingScope {
    System,
    User,
}

/// What kind of principal asks for a token.
#[derive(Clone, Copy, Debug, PartialEq, Eq, Structural)]
pub enum MessagingAuthTokenType {
    Device,
}

/// A request for a token, in the wording of the token service.
#[derive(Clone, Debug, PartialEq, Eq)]
pub struct MessagingAuthTokenRequest {
    pub id: String,
    pub _type: MessagingAuthTokenType,
    pub scope: MessagingScope,
    pub nonce: String,
    pub signed_noce: String,
    pub public_key: String,
}

/// The request that exchanges a signed nonce for a token.
#[derive(Clone, Debug, PartialEq, Eq)]
pub struct GetAuthTokenRequest {
    pub machine_id: String,
    pub _type: MessagingAuthTokenType,
    pub scope: MessagingScope,
    pub nonce: String,
    pub signed_nonce: String,
    pub public_key: String,
}

/// The request for a nonce.
#[derive(Clone, Debug, PartialEq, Eq)]
pub struct AuthNonceRequest {
    pub agent_name: String,
    pub agent_version: String,
}

/// How a session with the broker is to be opened.
#[derive(Clone, Debug, PartialEq, Eq)]
pub struct ConnectOptions {
    pub nats_url: String,
    pub event_type: Option<MessagingEvent>,
    pub private_key_path: String,
    pub service_url: String,
    pub get_nonce_url: String,
    pub issue_auth_token_url: String,
}

/// The steps of an authentication.
#[derive(Clone, Copy, Debug, PartialEq, Eq)]
pub enum AuthStep {
    /// A nonce is being asked for.
    Nonce,
    /// The nonce is being signed.
    Sign,
    /// The signed nonce is being exchanged for a token.
    Token,
    /// Nothing is left to do. Where it ended well the token is at hand.
    Done(Result<(), MessagingErrorCodes>),
}

/// What the driver of an authentication reports.
#[derive(Clone, Debug, PartialEq, Eq)]
pub enum AuthEvent {
    /// The backend's answer to the request for a nonce.
    Nonce(HttpReply<String>),
    /// The signature over the bytes of the nonce, `None` where signing
    /// failed.
    Signature(Option<Vec<u8>>),
    /// The backend's answer to the request for a token.
    Token(HttpReply<String>),
}

/// What the driver of an authentication is to do next.
#[derive(Debug, PartialEq, Eq)]
#[allow(inconsistent_fields)]
pub enum AuthAction {
    RequestNonce { url: String, request: AuthNonceRequest },
    SignNonce { private_key_path: String, nonce: String },
    RequestToken { url: String, request: GetAuthTokenRequest },
    Finished(Result<String, MessagingErrorCodes>),
}

/// An action of an authentication, as texts.
pub enum AuthActionModel {
    RequestNonce { url: Seq<char>, agent_name: Seq<char>, agent_version: Seq<char> },
    SignNonce { private_key_path: Seq<char>, nonce: Seq<char> },
    RequestToken {
        url: Seq<char>,
        machine_id: Seq<char>,
        token_type: MessagingAuthTokenType,
        scope: MessagingScope,
        nonce: Seq<char>,
        signed_nonce: Seq<char>,
        public_key: Seq<char>,
    },
    Finished(Result<Seq<char>, MessagingErrorCodes>),
}

impl View for AuthAction {
    type V = AuthActionModel;

    open spec fn view(&self) -> AuthActionModel {
        match *self {
            AuthAction::RequestNonce { url, request } => AuthActionModel::RequestNonce {
                url: url@,
                agent_name: request.agent_name@,
                agent_version: request.agent_version@,
            },
            AuthAction::SignNonce { private_key_path, nonce } => AuthActionModel::SignNonce {
                private_key_path: private_key_path@,
                nonce: nonce@,
            },
            AuthAction::RequestToken { url, request } => AuthActionModel::RequestToken {
                url: url@,
                machine_id: request.machine_id@,
                token_type: request._type,
                scope: request.scope,
                nonce: request.nonce@,
                signed_nonce: request.signed_nonce@,
                public_key: request.public_key@,
            },
            AuthAction::Finished(Ok(token)) => AuthActionModel::Finished(Ok(token@)),
            AuthAction::Finished(Err(e)) => AuthActionModel::Finished(Err(e)),
        }
    }
}

/// An authentication under way.
pub struct Authentication {
    machine_id: String,
    public_key: String,
    private_key_path: String,
    service_url: String,
    get_nonce_url: String,
    issue_auth_token_url: String,
    nonce: String,
    signed_nonce: String,
    token: String,
    step: AuthStep,
}

/// What an authentication under way is.
pub struct AuthModel {
    pub machine_id: Seq<char>,
    pub public_key: Seq<char>,
    pub private_key_path: Seq<char>,
    pub service_url: Seq<char>,
    pub get_nonce_url: Seq<char>,
    pub issue_auth_token_url: Seq<char>,
    pub nonce: Seq<char>,
    pub signed_nonce: Seq<char>,
    pub token: Seq<char>,
    pub step: AuthStep,
}

impl View for Authentication {
    type V = AuthModel;

    closed spec fn view(&self) -> AuthModel {
        AuthModel {
            machine_id: self.machine_id@,
            public_key: self.public_key@,
            private_key_path: self.private_key_path@,
            service_url: self.service_url@,
            get_nonce_url: self.get_nonce_url@,
            issue_auth_token_url: self.issue_auth_token_url@,
            nonce: self.nonce@,
            signed_nonce: self.signed_nonce@,
            token: self.token@,
            step: self.step,
        }
    }
}

/// The errors of the two exchanges with the backend, by what went wrong.
pub struct ReplyErrors {
    pub server: MessagingErrorCodes,
    pub bad_request: MessagingErrorCodes,
    pub not_found: MessagingErrorCodes,
    pub parse: MessagingErrorCodes,
}

/// The errors of the request for a nonce.
pub open spec fn nonce_errors() -> ReplyErrors {
    ReplyErrors {
        server: MessagingErrorCodes::GetAuthNonceServerError,
        bad_request: MessagingErrorCodes::GetAuthNonceBadRequestError,
        not_found: MessagingErrorCodes::GetAuthNonceNotFoundError,
        parse: MessagingErrorCodes::AuthNonceResponseParseError,
    }
}

/// The errors of the request for a token.
pub open spec fn token_errors() -> ReplyErrors {
    ReplyErrors {
        server: MessagingErrorCodes::GetAuthTokenServerError,
        bad_request: MessagingErrorCodes::GetAuthTokenBadRequestError,
        not_found: MessagingErrorCodes::GetAuthTokenNotFoundError,
        parse: MessagingErrorCodes::AuthTokenResponseParseError,
    }
}

/// How an answer of the backend is read: status 500, 400 and 404 have an
/// error of their own; nothing heard, and any other status outside 2xx, is
/// `UnknownError`; a 2xx answer whose payload could not be decoded is a
/// parse error; otherwise the payload.
pub open spec fn reply_outcome(reply: HttpReply<String>, errors: ReplyErrors) -> Result<
    Seq<char>,
    MessagingErrorCodes,
> {
    match reply {
        HttpReply::Unreachable => Err(MessagingErrorCodes::UnknownError),
        HttpReply::Answered { status, payload } => match status_class(status) {
            StatusClass::Success => match payload {
                Some(p) => Ok(p@),
                None => Err(errors.parse),
            },
            StatusClass::ServerError => Err(errors.server),
            StatusClass::BadRequest => Err(errors.bad_request),
            StatusClass::NotFound => Err(errors.not_found),
            _ => Err(MessagingErrorCodes::UnknownError),
        },
    }
}

/// The view of a text or an error.
pub open spec fn text_result_view(r: Result<String, MessagingErrorCodes>) -> Result<
    Seq<char>,
    MessagingErrorCodes,
> {
    match r {
        Ok(s) => Ok(s@),
        Err(e) => Err(e),
    }
}

/// Reads the answer to the request for a nonce.
pub fn get_auth_nonce(reply: HttpReply<String>) -> (r: Result<String, MessagingErrorCodes>)
    ensures
        text_result_view(r) == reply_outcome(reply, nonce_errors()),
{
    match reply {
        HttpReply::Unreachable => Err(MessagingErrorCodes::UnknownError),
        HttpReply::Answered { status, payload } => match classify_status(status) {
            StatusClass::Success => match payload {
                Some(p) => Ok(p),
                None => Err(MessagingErrorCodes::AuthNonceResponseParseError),
            },
            StatusClass::ServerError => Err(MessagingErrorCodes::GetAuthNonceServerError),
            StatusClass::BadRequest => Err(MessagingErrorCodes::GetAuthNonceBadRequestError),
            StatusClass::NotFound => Err(MessagingErrorCodes::GetAuthNonceNotFoundError),
            _ => Err(MessagingErrorCodes::UnknownError),
        },
    }
}

/// Reads the answer to the request for a token.
pub fn get_auth_token(reply: HttpReply<String>) -> (r: Result<String, MessagingErrorCodes>)
    ensures
        text_result_view(r) == reply_outcome(reply, token_errors()),
{
    match reply {
        HttpReply::Unreachable => Err(MessagingErrorCodes::UnknownError),
        HttpReply::Answered { status, payload } => match classify_status(status) {
            StatusClass::Success => match payload {
                Some(p) => Ok(p),
                None => Err(MessagingErrorCodes::AuthTokenResponseParseError),
            },
            StatusClass::ServerError => Err(MessagingErrorCodes::GetAuthTokenServerError),
            StatusClass::BadRequest => Err(MessagingErrorCodes::GetAuthTokenBadRequestError),
            StatusClass::NotFound => Err(MessagingErrorCodes::GetAuthTokenNotFoundError),
            _ => Err(MessagingErrorCodes::UnknownError),
        },
    }
}

/// The signed nonce as it is sent: the signature in base64. No signature,
/// or one too long to encode, is `SignNonceError`.
pub open spec fn signed_nonce_of(signature: Option<Vec<u8>>) -> Result<
    Seq<char>,
    MessagingErrorCodes,
> {
    match signature {
        Some(bytes) => if encodable(bytes@) {
            Ok(base64_of(bytes@))
        } else {
            Err(MessagingErrorCodes::SignNonceError)
        },
        None => Err(MessagingErrorCodes::SignNonceError),
    }
}

/// Turns the signature over a nonce into the signed nonce that is sent.
/// The signed nonce decodes to the signature it was made from.
pub fn sign_nonce(signature: Option<Vec<u8>>) -> (r: Result<String, MessagingErrorCodes>)
    ensures
        text_result_view(r) == signed_nonce_of(signature),
        r matches Ok(text) ==> signature matches Some(bytes) && base64_bytes(text@) == Some(
            bytes@,
        ),
{
    match signature {
        Some(bytes) => match b64_encode(bytes.as_slice()) {
            Some(text) => Ok(text),
            None => Err(MessagingErrorCodes::SignNonceError),
        },
        None => Err(MessagingErrorCodes::SignNonceError),
    }
}

/// The action an authentication waits for at its step.
pub open spec fn auth_action(m: AuthModel) -> AuthActionModel {
    match m.step {
        AuthStep::Nonce => AuthActionModel::RequestNonce {
            url: m.service_url + m.get_nonce_url,
            agent_name: AGENT_NAME@,
            agent_version: AGENT_VERSION@,
        },
        AuthStep::Sign => AuthActionModel::SignNonce {
            private_key_path: m.private_key_path,
            nonce: m.nonce,
        },
        AuthStep::Token => AuthActionModel::RequestToken {
            url: m.service_url + m.issue_auth_token_url,
            machine_id: m.machine_id,
            token_type: MessagingAuthTokenType::Device,
            scope: MessagingScope::User,
            nonce: m.nonce,
            signed_nonce: m.signed_nonce,
            public_key: m.public_key,
        },
        AuthStep::Done(Ok(())) => AuthActionModel::Finished(Ok(m.token)),
        AuthStep::Done(Err(e)) => AuthActionModel::Finished(Err(e)),
    }
}

/// An authentication that has failed.
pub open spec fn auth_failed(m: AuthModel, e: MessagingErrorCodes) -> AuthModel {
    AuthModel { step: AuthStep::Done(Err(e)), ..m }
}

/// Where an authentication stands after a report: the nonce is signed once
/// it is there, the token asked for once the nonce is signed, and the token
/// kept once it is there. An exchange that fails ends the authentication
/// with its error, and so does a report the step does not wait for, with
/// `UnknownError`. An authentication that is done stays as it is.
pub open spec fn auth_next(m: AuthModel, event: AuthEvent) -> AuthModel {
    match (m.step, event) {
        (AuthStep::Done(_), _) => m,
        (AuthStep::Nonce, AuthEvent::Nonce(reply)) => match reply_outcome(reply, nonce_errors()) {
            Ok(nonce) => AuthModel { nonce, step: AuthStep::Sign, ..m },
            Err(e) => auth_failed(m, e),
        },
        (AuthStep::Sign, AuthEvent::Signature(signature)) => match signed_nonce_of(signature) {
            Ok(signed_nonce) => AuthModel { signed_nonce, step: AuthStep::Token, ..m },
            Err(e) => auth_failed(m, e),
        },
        (AuthStep::Token, AuthEvent::Token(reply)) => match reply_outcome(reply, token_errors()) {
            Ok(token) => AuthModel { token, step: AuthStep::Done(Ok(())), ..m },
            Err(e) => auth_failed(m, e),
        },
        _ => auth_failed(m, MessagingErrorCodes::UnknownError),
    }
}

/// An authentication at its start.
pub open spec fn authentication(
    machine_id: Seq<char>,
    nats_client_public_key: Seq<char>,
    private_key_path: Seq<char>,
    service_url: Seq<char>,
    get_nonce_url: Seq<char>,
    issue_auth_token_url: Seq<char>,
) -> AuthModel {
    AuthModel {
        machine_id,
        public_key: nats_client_public_key,
        private_key_path,
        service_url,
        get_nonce_url,
        issue_auth_token_url,
        nonce: Seq::<char>::empty(),
        signed_nonce: Seq::<char>::empty(),
        token: Seq::<char>::empty(),
        step: AuthStep::Nonce,
    }
}

/// Starts an authentication: a nonce is asked for, signed with the key of
/// the machine, and exchanged for a token.
pub fn authenticate(
    machine_id: &str,
    nats_client_public_key: &str,
    private_key_path: &str,
    service_url: &str,
    get_nonce_url: &str,
    issue_auth_token_url: &str,
) -> (a: Authentication)
    ensures
        a@ == authentication(
            machine_id@,
            nats_client_public_key@,
            private_key_path@,
            service_url@,
            get_nonce_url@,
            issue_auth_token_url@,
        ),
{
    Authentication {
        machine_id: machine_id.to_owned(),
        public_key: nats_client_public_key.to_owned(),
        private_key_path: private_key_path.to_owned(),
        service_url: service_url.to_owned(),
        get_nonce_url: get_nonce_url.to_owned(),
        issue_auth_token_url: issue_auth_token_url.to_owned(),
        nonce: String::new(),
        signed_nonce: String::new(),
        token: String::new(),
        step: AuthStep::Nonce,
    }
}

impl Authentication {
    /// Where the authentication stands.
    pub fn step(&self) -> (step: AuthStep)
        ensures
            step == self@.step,
    {
        self.step
    }

    /// The action the authentication waits for.
    pub fn action(&self) -> (action: AuthAction)
        ensures
            action@ == auth_action(self@),
    {
        match self.step {
            AuthStep::Nonce => AuthAction::RequestNonce {
                url: join2(self.service_url.as_str(), self.get_nonce_url.as_str()),
                request: AuthNonceRequest {
                    agent_name: AGENT_NAME.to_owned(),
                    agent_version: AGENT_VERSION.to_owned(),
                },
            },
            AuthStep::Sign => AuthAction::SignNonce {
                private_key_path: self.private_key_path.clone(),
                nonce: self.nonce.clone(),
            },
            AuthStep::Token => AuthAction::RequestToken {
                url: join2(self.service_url.as_str(), self.issue_auth_token_url.as_str()),
                request: GetAuthTokenRequest {
                    machine_id: self.machine_id.clone(),
                    _type: MessagingAuthTokenType::Device,
                    scope: MessagingScope::User,
                    nonce: self.nonce.clone(),
                    signed_nonce: self.signed_nonce.clone(),
                    public_key: self.public_key.clone(),
                },
            },
            AuthStep::Done(Ok(())) => AuthAction::Finished(Ok(self.token.clone())),
            AuthStep::Done(Err(e)) => AuthAction::Finished(Err(e)),
        }
    }

    /// Takes the report on the action the authentication waited for and
    /// names the next action.
    pub fn advance(&mut self, event: AuthEvent) -> (action: AuthAction)
        ensures
            final(self)@ == auth_next(old(self)@, event),
            action@ == auth_action(final(self)@),
    {
        match (self.step, event) {
            (AuthStep::Done(_), _) => {},
            (AuthStep::Nonce, AuthEvent::Nonce(reply)) => match get_auth_nonce(reply) {
                Ok(nonce) => {
                    self.nonce = nonce;
                    self.step = AuthStep::Sign;
                },
                Err(e) => {
                    self.step = AuthStep::Done(Err(e));
                },
            },
            (AuthStep::Sign, AuthEvent::Signature(signature)) => match sign_nonce(signature) {
                Ok(signed_nonce) => {
                    self.signed_nonce = signed_nonce;
                    self.step = AuthStep::Token;
                },
                Err(e) => {
                    self.step = AuthStep::Done(Err(e));
                },
            },
            (AuthStep::Token, AuthEvent::Token(reply)) => match get_auth_token(reply) {
                Ok(token) => {
                    self.token = token;
                    self.step = AuthStep::Done(Ok(()));
                },
                Err(e) => {
                    self.step = AuthStep::Done(Err(e));
                },
            },
            _ => {
                self.step = AuthStep::Done(Err(MessagingErrorCodes::UnknownError));
            },
        }
        self.action()
    }
}

/// The request for a token depends on nothing but what went into it: two
/// authentications with the same machine, key, endpoints, nonce and signed
/// nonce ask for their token in the same words.
pub proof fn lemma_token_request_determined(a: AuthModel, b: AuthModel)
    requires
        a.step == AuthStep::Token,
        b.step == AuthStep::Token,
        a.machine_id == b.machine_id,
        a.public_key == b.public_key,
        a.service_url == b.service_url,
        a.issue_auth_token_url == b.issue_auth_token_url,
        a.nonce == b.nonce,
        a.signed_nonce == b.signed_nonce,
    ensures
        auth_action(a) == auth_action(b),
{
}

/// An authentication whose nonce exchange fails ends there: no token is
/// ever asked for.
pub proof fn lemma_failed_nonce_ends(m: AuthModel, reply: HttpReply<String>, later: AuthEvent)
    requires
        m.step == AuthStep::Nonce,
        reply_outcome(reply, nonce_errors()).is_err(),
    ensures
        auth_action(auth_next(m, AuthEvent::Nonce(reply))) == AuthActionModel::Finished(
            Err(reply_outcome(reply, nonce_errors())->Err_0),
        ),
        auth_next(auth_next(m, AuthEvent::Nonce(reply)), later) == auth_next(
            m,
            AuthEvent::Nonce(reply),
        ),
{
}

/// The inbox prefix of a machine.
pub open spec fn inbox_prefix_of(machine_id: Seq<char>) -> Seq<char> {
    "inbox."@ + sha256_hex(machine_id)
}

/// The private inbox prefix under which the broker answers a machine.
pub fn inbox_prefix(machine_id: &str) -> (prefix: String)
    ensures
        prefix@ == inbox_prefix_of(machine_id@),
{
    let hash = digest(machine_id);
    join2("inbox.", hash.as_str())
}

/// The states of the client.
#[derive(Clone, Copy, Debug, PartialEq, Eq, Structural)]
pub enum ClientState {
    Disconnected,
    Authenticating,
    Connected,
}

/// The steps of a connect.
#[derive(Clone, Copy, Debug, PartialEq, Eq, Structural)]
pub enum ConnectStep {
    /// No connect is under way.
    Idle,
    /// The identity actor is being asked for the machine id.
    MachineId,
    /// The authentication is under way.
    Authenticate,
    /// The session with the broker is being opened.
    Session,
    /// The event that tells of the connection is being published.
    Announce,
}

/// What the driver of a connect reports.
#[derive(Debug, PartialEq, Eq)]
pub enum ConnectEvent {
    /// The machine id, or why it could not be had.
    MachineId(Result<String, MessagingErrorCodes>),
    /// A report for the authentication.
    Auth(AuthEvent),
    /// Whether the session was opened, or the event published.
    Completed(bool),
}

/// What the driver of a connect is to do next.
#[derive(Debug, PartialEq, Eq)]
pub enum ConnectAction {
    QueryMachineId,
    Auth(AuthAction),
    OpenSession { nats_url: String, token: String, inbox_prefix: String },
    Publish(MessagingEvent),
    Finished(Result<bool, MessagingErrorCodes>),
}

/// An action of a connect, as texts.
pub enum ConnectActionModel {
    QueryMachineId,
    Auth(AuthActionModel),
    OpenSession { nats_url: Seq<char>, token: Seq<char>, inbox_prefix: Seq<char> },
    Publish(MessagingEvent),
    Finished(Result<bool, MessagingErrorCodes>),
}

impl View for ConnectAction {
    type V = ConnectActionModel;

    open spec fn view(&self) -> ConnectActionModel {
        match *self {
            ConnectAction::QueryMachineId => ConnectActionModel::QueryMachineId,
            ConnectAction::Auth(action) => ConnectActionModel::Auth(action@),
            ConnectAction::OpenSession {
                nats_url,
                token,
                inbox_prefix,
            } => ConnectActionModel::OpenSession {
                nats_url: nats_url@,
                token: token@,
                inbox_prefix: inbox_prefix@,
            },
            ConnectAction::Publish(event) => ConnectActionModel::Publish(event),
            ConnectAction::Finished(result) => ConnectActionModel::Finished(result),
        }
    }
}

/// What the broker is to be asked.
#[derive(Clone, Debug, PartialEq, Eq)]
pub enum BrokerCommand {
    Publish { subject: String, headers: Option<Vec<(String, String)>>, data: Vec<u8> },
    Subscribe { subject: String },
    Request { subject: String, data: Vec<u8> },
    InitJetStream,
}

/// A command for the broker, as texts and bytes.
pub enum BrokerCommandModel {
    Publish { subject: Seq<char>, headers: Option<Seq<(Seq<char>, Seq<char>)>>, data: Seq<u8> },
    Subscribe { subject: Seq<char> },
    Request { subject: Seq<char>, data: Seq<u8> },
    InitJetStream,
}

impl View for BrokerCommand {
    type V = BrokerCommandModel;

    open spec fn view(&self) -> BrokerCommandModel {
        match *self {
            BrokerCommand::Publish { subject, headers, data } => BrokerCommandModel::Publish {
                subject: subject@,
                headers: match headers {
                    Some(pairs) => Some(pair_views(pairs@)),
                    None => None,
                },
                data: data@,
            },
            BrokerCommand::Subscribe { subject } => BrokerCommandModel::Subscribe {
                subject: subject@,
            },
            BrokerCommand::Request { subject, data } => BrokerCommandModel::Request {
                subject: subject@,
                data: data@,
            },
            BrokerCommand::InitJetStream => BrokerCommandModel::InitJetStream,
        }
    }
}

/// The messaging client.
pub struct Messaging {
    nats_addr: String,
    initialized: bool,
    state: ClientState,
    step: ConnectStep,
    event_type: MessagingEvent,
    machine_id: String,
    token: String,
    auth: Authentication,
    outcome: Result<bool, MessagingErrorCodes>,
}

/// What the messaging client is: whether it was set up with a broker
/// client, where it stands, and what a connect under way has learnt.
pub struct MessagingModel {
    pub nats_addr: Seq<char>,
    pub initialized: bool,
    pub state: ClientState,
    pub step: ConnectStep,
    pub event_type: MessagingEvent,
    pub machine_id: Seq<char>,
    pub token: Seq<char>,
    pub auth: AuthModel,
    pub outcome: Result<bool, MessagingErrorCodes>,
}

impl View for Messaging {
    type V = MessagingModel;

    closed spec fn view(&self) -> MessagingModel {
        MessagingModel {
            nats_addr: self.nats_addr@,
            initialized: self.initialized,
            state: self.state,
            step: self.step,
            event_type: self.event_type,
            machine_id: self.machine_id@,
            token: self.token@,
            auth: self.auth@,
            outcome: self.outcome,
        }
    }
}

/// An authentication of which nothing is known.
pub open spec fn no_authentication() -> AuthModel {
    authentication(
        Seq::<char>::empty(),
        Seq::<char>::empty(),
        Seq::<char>::empty(),
        Seq::<char>::empty(),
        Seq::<char>::empty(),
        Seq::<char>::empty(),
    )
}

/// The client as it is made: disconnected, with no connect under way.
pub open spec fn initial(initialize_client: bool, nats_addr: Seq<char>) -> MessagingModel {
    MessagingModel {
        nats_addr,
        initialized: initialize_client,
        state: ClientState::Disconnected,
        step: ConnectStep::Idle,
        event_type: MessagingEvent::Connected,
        machine_id: Seq::<char>::empty(),
        token: Seq::<char>::empty(),
        auth: no_authentication(),
        outcome: Ok(false),
    }
}

/// The client when a connect begins. A client that was set up without a
/// broker client cannot connect; any other goes to `Authenticating` and
/// asks for the machine id first. The event to publish at the end is the
/// one the options name, `Connected` where they name none.
pub open spec fn connect_begun(
    m: MessagingModel,
    options: ConnectOptions,
    public_key: Seq<char>,
) -> MessagingModel {
    if !m.initialized {
        MessagingModel {
            outcome: Err(MessagingErrorCodes::NatsClientNotInitialized),
            ..initial(m.initialized, m.nats_addr)
        }
    } else {
        MessagingModel {
            state: ClientState::Authenticating,
            step: ConnectStep::MachineId,
            event_type: match options.event_type {
                Some(event) => event,
                None => MessagingEvent::Connected,
            },
            auth: authentication(
                Seq::<char>::empty(),
                public_key,
                options.private_key_path@,
                options.service_url@,
                options.get_nonce_url@,
                options.issue_auth_token_url@,
            ),
            ..initial(m.initialized, m.nats_addr)
        }
    }
}

/// A connect that has failed: the client is disconnected, the token, if
/// one was at hand, is gone.
pub open spec fn connect_failed(m: MessagingModel, e: MessagingErrorCodes) -> MessagingModel {
    MessagingModel { outcome: Err(e), ..initial(m.initialized, m.nats_addr) }
}

/// Where the client stands after a report on its connect. The token an
/// authentication gave is kept for the one session it opens and dropped as
/// soon as the broker has answered. The client is connected once the event
/// that tells of it is published.
pub open spec fn connect_next(m: MessagingModel, event: ConnectEvent) -> MessagingModel {
    match (m.step, event) {
        (ConnectStep::Idle, _) => m,
        (ConnectStep::MachineId, ConnectEvent::MachineId(Ok(id))) => MessagingModel {
            machine_id: id@,
            auth: AuthModel { machine_id: id@, ..m.auth },
            step: ConnectStep::Authenticate,
            ..m
        },
        (ConnectStep::MachineId, ConnectEvent::MachineId(Err(e))) => connect_failed(m, e),
        (ConnectStep::Authenticate, ConnectEvent::Auth(report)) => {
            let auth = auth_next(m.auth, report);
            match auth.step {
                AuthStep::Done(Ok(())) => MessagingModel {
                    token: auth.token,
                    auth: no_authentication(),
                    step: ConnectStep::Session,
                    ..m
                },
                AuthStep::Done(Err(e)) => connect_failed(m, e),
                _ => MessagingModel { auth, ..m },
            }
        },
        (ConnectStep::Session, ConnectEvent::Completed(true)) => MessagingModel {
            token: Seq::<char>::empty(),
            step: ConnectStep::Announce,
            ..m
        },
        (ConnectStep::Session, ConnectEvent::Completed(false)) => connect_failed(
            m,
            MessagingErrorCodes::NatsConnectError,
        ),
        (ConnectStep::Announce, ConnectEvent::Completed(true)) => MessagingModel {
            state: ClientState::Connected,
            outcome: Ok(true),
            ..initial(m.initialized, m.nats_addr)
        },
        (ConnectStep::Announce, ConnectEvent::Completed(false)) => connect_failed(
            m,
            MessagingErrorCodes::EventSendError,
        ),
        _ => connect_failed(m, MessagingErrorCodes::UnknownError),
    }
}

/// The action the client waits for.
pub open spec fn connect_action(m: MessagingModel) -> ConnectActionModel {
    match m.step {
        ConnectStep::Idle => ConnectActionModel::Finished(m.outcome),
        ConnectStep::MachineId => ConnectActionModel::QueryMachineId,
        ConnectStep::Authenticate => ConnectActionModel::Auth(auth_action(m.auth)),
        ConnectStep::Session => ConnectActionModel::OpenSession {
            nats_url: m.nats_addr,
            token: m.token,
            inbox_prefix: inbox_prefix_of(m.machine_id),
        },
        ConnectStep::Announce => ConnectActionModel::Publish(m.event_type),
    }
}

/// Whether the client lets commands through to the broker.
pub open spec fn is_open(m: MessagingModel) -> bool {
    m.initialized && m.state == ClientState::Connected
}

fn no_auth() -> (a: Authentication)
    ensures
        a@ == no_authentication(),
{
    proof {
        reveal_strlit("");
        assert(""@ =~= Seq::<char>::empty());
    }
    authenticate("", "", "", "", "", "")
}

impl Messaging {
    /// Makes a client for the broker at `nats_addr`. One that is made
    /// without a broker client (`initialize_client` false) never connects.
    pub fn new(initialize_client: bool, nats_addr: String) -> (m: Messaging)
        ensures
            m@ == initial(initialize_client, nats_addr@),
    {
        Messaging {
            nats_addr,
            initialized: initialize_client,
            state: ClientState::Disconnected,
            step: ConnectStep::Idle,
            event_type: MessagingEvent::Connected,
            machine_id: String::new(),
            token: String::new(),
            auth: no_auth(),
            outcome: Ok(false),
        }
    }

    /// The state of the client.
    pub fn state(&self) -> (state: ClientState)
        ensures
            state == self@.state,
    {
        self.state
    }

    fn reset(&mut self)
        ensures
            final(self)@ == initial(old(self)@.initialized, old(self)@.nats_addr),
    {
        self.state = ClientState::Disconnected;
        self.step = ConnectStep::Idle;
        self.event_type = MessagingEvent::Connected;
        self.machine_id = String::new();
        self.token = String::new();
        self.auth = no_auth();
        self.outcome = Ok(false);
    }

    /// The action the client waits for.
    pub fn action(&self) -> (action: ConnectAction)
        ensures
            action@ == connect_action(self@),
    {
        match self.step {
            ConnectStep::Idle => ConnectAction::Finished(self.outcome),
            ConnectStep::MachineId => ConnectAction::QueryMachineId,
            ConnectStep::Authenticate => ConnectAction::Auth(self.auth.action()),
            ConnectStep::Session => ConnectAction::OpenSession {
                nats_url: self.nats_addr.clone(),
                token: self.token.clone(),
                inbox_prefix: inbox_prefix(self.machine_id.as_str()),
            },
            ConnectStep::Announce => ConnectAction::Publish(self.event_type),
        }
    }

    /// Begins a connect: the client authenticates, opens its session with
    /// the token it is given, and publishes the event the options name.
    /// `nats_client_public_key` is the public key the broker client goes by.
    pub fn connect(&mut self, nats_connect_options: &ConnectOptions, nats_client_public_key: &str) -> (action:
        ConnectAction)
        ensures
            final(self)@ == connect_begun(
                old(self)@,
                *nats_connect_options,
                nats_client_public_key@,
            ),
            action@ == connect_action(final(self)@),
    {
        proof {
            reveal_strlit("");
            assert(""@ =~= Seq::<char>::empty());
        }
        self.reset();
        if !self.initialized {
            self.outcome = Err(MessagingErrorCodes::NatsClientNotInitialized);
        } else {
            self.state = ClientState::Authenticating;
            self.step = ConnectStep::MachineId;
            self.event_type = match nats_connect_options.event_type {
                Some(event) => event,
                None => MessagingEvent::Connected,
            };
            self.auth = authenticate(
                "",
                nats_client_public_key,
                nats_connect_options.private_key_path.as_str(),
                nats_connect_options.service_url.as_str(),
                nats_connect_options.get_nonce_url.as_str(),
                nats_connect_options.issue_auth_token_url.as_str(),
            );
        }
        self.action()
    }

    /// Takes the report on the action the connect waited for and names the
    /// next action.
    pub fn advance(&mut self, event: ConnectEvent) -> (action: ConnectAction)
        ensures
            final(self)@ == connect_next(old(self)@, event),
            action@ == connect_action(final(self)@),
    {
        match (self.step, event) {
            (ConnectStep::Idle, _) => {},
            (ConnectStep::MachineId, ConnectEvent::MachineId(Ok(id))) => {
                self.auth.machine_id = id.clone();
                self.machine_id = id;
                self.step = ConnectStep::Authenticate;
            },
            (ConnectStep::MachineId, ConnectEvent::MachineId(Err(e))) => {
                self.reset();
                self.outcome = Err(e);
            },
            (ConnectStep::Authenticate, ConnectEvent::Auth(report)) => {
                let _ = self.auth.advance(report);
                match self.auth.step {
                    AuthStep::Done(Ok(())) => {
                        self.token = self.auth.token.clone();
                        self.auth = no_auth();
                        self.step = ConnectStep::Session;
                    },
                    AuthStep::Done(Err(e)) => {
                        self.reset();
                        self.outcome = Err(e);
                    },
                    _ => {},
                }
            },
            (ConnectStep::Session, ConnectEvent::Completed(true)) => {
                self.token = String::new();
                self.step = ConnectStep::Announce;
            },
            (ConnectStep::Session, ConnectEvent::Completed(false)) => {
                self.reset();
                self.outcome = Err(MessagingErrorCodes::NatsConnectError);
            },
            (ConnectStep::Announce, ConnectEvent::Completed(true)) => {
                self.reset();
                self.state = ClientState::Connected;
                self.outcome = Ok(true);
            },
            (ConnectStep::Announce, ConnectEvent::Completed(false)) => {
                self.reset();
                self.outcome = Err(MessagingErrorCodes::EventSendError);
            },
            _ => {
                self.reset();
                self.outcome = Err(MessagingErrorCodes::UnknownError);
            },
        }
        self.action()
    }

    /// Gives the session up: the client is as it was made, and
    /// `Disconnected` is to be published.
    pub fn disconnect(&mut self) -> (event: MessagingEvent)
        ensures
            final(self)@ == initial(old(self)@.initialized, old(self)@.nats_addr),
            event == MessagingEvent::Disconnected,
    {
        self.reset();
        MessagingEvent::Disconnected
    }

    /// Asks the broker to publish `data` on `subject`. Before a connect has
    /// succeeded nothing is let through.
    pub fn publish(&self, subject: &str, headers: Option<Vec<(String, String)>>, data: Vec<u8>) -> (r:
        Result<BrokerCommand, MessagingErrorCodes>)
        ensures
            match r {
                Ok(command) => is_open(self@) && command == (BrokerCommand::Publish {
                    subject: command->Publish_subject,
                    headers,
                    data,
                }) && command->Publish_subject@ == subject@,
                Err(e) => !is_open(self@) && e == MessagingErrorCodes::NatsClientNotInitialized,
            },
    {
        if !self.is_connected() {
            return Err(MessagingErrorCodes::NatsClientNotInitialized);
        }
        Ok(BrokerCommand::Publish { subject: subject.to_owned(), headers, data })
    }

    /// Asks the broker for a subscription to `subject`.
    pub fn subscribe(&self, subject: &str) -> (r: Result<BrokerCommand, MessagingErrorCodes>)
        ensures
            match r {
                Ok(command) => is_open(self@) && command@ == (BrokerCommandModel::Subscribe {
                    subject: subject@,
                }),
                Err(e) => !is_open(self@) && e == MessagingErrorCodes::NatsClientNotInitialized,
            },
    {
        if !self.is_connected() {
            return Err(MessagingErrorCodes::NatsClientNotInitialized);
        }
        Ok(BrokerCommand::Subscribe { subject: subject.to_owned() })
    }

    /// Asks the broker for the jetstream handle of the session.
    pub fn init_jetstream(&self) -> (r: Result<BrokerCommand, MessagingErrorCodes>)
        ensures
            match r {
                Ok(command) => is_open(self@) && command@ == BrokerCommandModel::InitJetStream,
                Err(e) => !is_open(self@) && e == MessagingErrorCodes::NatsClientNotInitialized,
            },
    {
        if !self.is_connected() {
            return Err(MessagingErrorCodes::NatsClientNotInitialized);
        }
        Ok(BrokerCommand::InitJetStream)
    }

    /// Asks the broker to send `data` on `subject` and to wait for the
    /// answer.
    pub fn request(&self, subject: &str, data: Vec<u8>) -> (r: Result<
        BrokerCommand,
        MessagingErrorCodes,
    >)
        ensures
            match r {
                Ok(command) => is_open(self@) && command@ == (BrokerCommandModel::Request {
                    subject: subject@,
                    data: data@,
                }),
                Err(e) => !is_open(self@) && e == MessagingErrorCodes::NatsClientNotInitialized,
            },
    {
        if !self.is_connected() {
            return Err(MessagingErrorCodes::NatsClientNotInitialized);
        }
        Ok(BrokerCommand::Request { subject: subject.to_owned(), data })
    }

    /// Whether the client lets commands through to the broker.
    pub fn is_connected(&self) -> (open: bool)
        ensures
            open == is_open(self@),
    {
        self.initialized && match self.state {
            ClientState::Connected => true,
            _ => false,
        }
    }
}

/// The machine id as the identity actor answered, or the failure of the
/// exchange with it: `sent` tells whether the question went out, `reply`
/// is the answer, `None` where none came.
pub fn get_machine_id(sent: bool, reply: Option<String>) -> (r: Result<String, MessagingErrorCodes>)
    ensures
        match r {
            Ok(id) => sent && reply == Some(id),
            Err(e) => if !sent {
                e == MessagingErrorCodes::ChannelSendMessageError
            } else {
                reply.is_none() && e == MessagingErrorCodes::ChannelReceiveMessageError
            },
        },
{
    if !sent {
        return Err(MessagingErrorCodes::ChannelSendMessageError);
    }
    match reply {
        Some(id) => Ok(id),
        None => Err(MessagingErrorCodes::ChannelReceiveMessageError),
    }
}

/// Where the client stands after a run of reports on a connect.
pub open spec fn connect_run(m: MessagingModel, events: Seq<ConnectEvent>) -> MessagingModel
    decreases events.len(),
{
    if events.len() == 0 {
        m
    } else {
        connect_next(connect_run(m, events.drop_last()), events.last())
    }
}

/// A connect followed by a disconnect leaves no trace: whatever the
/// options, and whatever was reported in between, the client is again what
/// it was when it was made.
pub proof fn lemma_connect_then_disconnect(
    initialize_client: bool,
    nats_addr: Seq<char>,
    options: ConnectOptions,
    public_key: Seq<char>,
    events: Seq<ConnectEvent>,
)
    ensures
        ({
            let made = initial(initialize_client, nats_addr);
            let connected = connect_run(connect_begun(made, options, public_key), events);
            initial(connected.initialized, connected.nats_addr) == made
        }),
    decreases events.len(),
{
    if events.len() > 0 {
        lemma_connect_then_disconnect(
            initialize_client,
            nats_addr,
            options,
            public_key,
            events.drop_last(),
        );
    }
}

/// Nothing is let through to the broker before a connect has succeeded: a
/// client is open only after the event that tells of its connection has
/// been published, and a token is at hand only while the session is being
/// opened.
pub proof fn lemma_open_only_when_announced(m: MessagingModel, event: ConnectEvent)
    requires
        m.step != ConnectStep::Idle ==> !is_open(m),
        m.step != ConnectStep::Session ==> m.token.len() == 0,
    ensures
        is_open(connect_next(m, event)) ==> is_open(m) || (m.step == ConnectStep::Announce && event
            == ConnectEvent::Completed(true)),
        connect_next(m, event).step != ConnectStep::Idle ==> !is_open(connect_next(m, event)),
        connect_next(m, event).step != ConnectStep::Session ==> connect_next(m, event).token.len()
            == 0,
{
}

} // verus!
