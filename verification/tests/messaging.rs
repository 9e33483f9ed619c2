use mecha_agent::codec::{b64_decode, b64_encode, b64_round_trip};
use mecha_agent::errors::MessagingErrorCodes;
use mecha_agent::events::{Event, MessagingEvent, NatsEvent, ProvisioningEvent, SettingEvent};
use mecha_agent::http::HttpReply;
use mecha_agent::messaging::handler::{
    HandlerAction, MessagingHandler, MessagingMessage, MessagingOptions, ServiceHandler, Settings,
};
use mecha_agent::messaging::service::{
    authenticate, get_auth_nonce, get_auth_token, get_machine_id, inbox_prefix, sign_nonce,
    AuthAction, AuthEvent, AuthNonceRequest, AuthStep, BrokerCommand, ClientState, ConnectAction,
    ConnectEvent, ConnectOptions, GetAuthTokenRequest, Messaging, MessagingAuthTokenType,
    MessagingScope,
};

fn answered(status: u16, payload: Option<&str>) -> HttpReply<String> {
    HttpReply::Answered { status, payload: payload.map(|p| p.to_string()) }
}

fn start() -> mecha_agent::messaging::service::Authentication {
    authenticate("m-1", "UPUBKEY", "/d/private_key.pem", "http://stub", "/v1/auth/nonce", "/v1/auth/token")
}

fn token_request(nonce: &str, signed_nonce: &str) -> AuthAction {
    AuthAction::RequestToken {
        url: "http://stub/v1/auth/token".to_string(),
        request: GetAuthTokenRequest {
            machine_id: "m-1".to_string(),
            _type: MessagingAuthTokenType::Device,
            scope: MessagingScope::User,
            nonce: nonce.to_string(),
            signed_nonce: signed_nonce.to_string(),
            public_key: "UPUBKEY".to_string(),
        },
    }
}

#[test]
fn an_authentication_asks_signs_and_exchanges() {
    let mut auth = start();
    assert_eq!(auth.step(), AuthStep::Nonce);
    assert_eq!(
        auth.action(),
        AuthAction::RequestNonce {
            url: "http://stub/v1/auth/nonce".to_string(),
            request: AuthNonceRequest {
                agent_name: "mecha_agent".to_string(),
                agent_version: "0.1.0".to_string(),
            },
        }
    );
    assert_eq!(
        auth.advance(AuthEvent::Nonce(answered(200, Some("nonce-1")))),
        AuthAction::SignNonce { private_key_path: "/d/private_key.pem".to_string(), nonce: "nonce-1".to_string() }
    );
    assert_eq!(auth.advance(AuthEvent::Signature(Some(b"hello".to_vec()))), token_request("nonce-1", "aGVsbG8="));
    assert_eq!(
        auth.advance(AuthEvent::Token(answered(200, Some("jwt")))),
        AuthAction::Finished(Ok("jwt".to_string()))
    );
    assert_eq!(auth.step(), AuthStep::Done(Ok(())));
    assert_eq!(auth.advance(AuthEvent::Signature(None)), AuthAction::Finished(Ok("jwt".to_string())));
}

#[test]
fn the_token_request_depends_on_its_inputs_alone() {
    let mut one = start();
    let mut two = start();
    one.advance(AuthEvent::Nonce(answered(200, Some("n"))));
    two.advance(AuthEvent::Nonce(answered(201, Some("n"))));
    let first = one.advance(AuthEvent::Signature(Some(vec![1, 2, 3])));
    let second = two.advance(AuthEvent::Signature(Some(vec![1, 2, 3])));
    assert_eq!(first, second);
    assert_eq!(first, token_request("n", "AQID"));
}

#[test]
fn auth_failure() {
    let mut auth = start();
    let action = auth.advance(AuthEvent::Nonce(answered(500, None)));
    assert_eq!(action, AuthAction::Finished(Err(MessagingErrorCodes::GetAuthNonceServerError)));
    // no token request is issued, whatever is reported afterwards
    for event in [
        AuthEvent::Signature(Some(vec![1])),
        AuthEvent::Token(answered(200, Some("jwt"))),
        AuthEvent::Nonce(answered(200, Some("n"))),
    ] {
        let next = auth.advance(event);
        assert_eq!(next, AuthAction::Finished(Err(MessagingErrorCodes::GetAuthNonceServerError)));
    }
}

#[test]
fn every_failure_of_an_exchange_has_its_error() {
    use_errors();
}

fn use_errors() {
    assert_eq!(get_auth_nonce(answered(200, Some("n"))), Ok("n".to_string()));
    assert_eq!(get_auth_nonce(answered(500, Some("n"))), Err(MessagingErrorCodes::GetAuthNonceServerError));
    assert_eq!(get_auth_nonce(answered(400, None)), Err(MessagingErrorCodes::GetAuthNonceBadRequestError));
    assert_eq!(get_auth_nonce(answered(404, None)), Err(MessagingErrorCodes::GetAuthNonceNotFoundError));
    assert_eq!(get_auth_nonce(answered(403, None)), Err(MessagingErrorCodes::UnknownError));
    assert_eq!(get_auth_nonce(HttpReply::Unreachable), Err(MessagingErrorCodes::UnknownError));
    assert_eq!(get_auth_nonce(answered(200, None)), Err(MessagingErrorCodes::AuthNonceResponseParseError));
    assert_eq!(get_auth_token(answered(200, Some("t"))), Ok("t".to_string()));
    assert_eq!(get_auth_token(answered(500, None)), Err(MessagingErrorCodes::GetAuthTokenServerError));
    assert_eq!(get_auth_token(answered(400, None)), Err(MessagingErrorCodes::GetAuthTokenBadRequestError));
    assert_eq!(get_auth_token(answered(404, None)), Err(MessagingErrorCodes::GetAuthTokenNotFoundError));
    assert_eq!(get_auth_token(answered(418, None)), Err(MessagingErrorCodes::UnknownError));
    assert_eq!(get_auth_token(HttpReply::Unreachable), Err(MessagingErrorCodes::UnknownError));
    assert_eq!(get_auth_token(answered(204, None)), Err(MessagingErrorCodes::AuthTokenResponseParseError));
    assert_eq!(sign_nonce(None), Err(MessagingErrorCodes::SignNonceError));
    assert_eq!(sign_nonce(Some(Vec::new())), Ok("".to_string()));
    assert_eq!(sign_nonce(Some(vec![0xff, 0xee])), Ok("/+4=".to_string()));

    let mut auth = start();
    assert_eq!(
        auth.advance(AuthEvent::Token(answered(200, Some("t")))),
        AuthAction::Finished(Err(MessagingErrorCodes::UnknownError))
    );
    let mut auth = start();
    auth.advance(AuthEvent::Nonce(answered(200, Some("n"))));
    assert_eq!(
        auth.advance(AuthEvent::Signature(None)),
        AuthAction::Finished(Err(MessagingErrorCodes::SignNonceError))
    );
    let mut auth = start();
    auth.advance(AuthEvent::Nonce(answered(200, Some("n"))));
    auth.advance(AuthEvent::Signature(Some(vec![9])));
    assert_eq!(
        auth.advance(AuthEvent::Token(answered(404, None))),
        AuthAction::Finished(Err(MessagingErrorCodes::GetAuthTokenNotFoundError))
    );
}

#[test]
fn a_signed_nonce_decodes_to_its_signature() {
    let mut signature = Vec::new();
    for length in 0..300u32 {
        let text = sign_nonce(Some(signature.clone())).unwrap();
        assert_eq!(Some(text.clone()), b64_encode(&signature));
        assert_eq!(b64_decode(&text), Some(signature.clone()));
        signature.push((length * 131 % 256) as u8);
    }
}

#[test]
fn base64_round_trip() {
    assert_eq!(b64_encode(b"hello world~"), Some("aGVsbG8gd29ybGR+".to_string()));
    assert_eq!(b64_encode(b""), Some("".to_string()));
    assert_eq!(b64_encode(b"a"), Some("YQ==".to_string()));
    assert_eq!(b64_decode("aGVsbG8gd29ybGR+"), Some(b"hello world~".to_vec()));
    assert_eq!(b64_decode("YQ=="), Some(b"a".to_vec()));
    assert_eq!(b64_decode("YQ"), None);
    assert_eq!(b64_decode("not base64!"), None);
    let mut bytes = Vec::new();
    for length in 0..70u32 {
        assert_eq!(b64_round_trip(&bytes), Some(bytes.clone()));
        let text = b64_encode(&bytes).unwrap();
        assert_eq!(b64_decode(&text), Some(bytes.clone()));
        bytes.push((length * 37 % 256) as u8);
    }
}

fn options(event_type: Option<MessagingEvent>) -> ConnectOptions {
    ConnectOptions {
        nats_url: "nats://broker:4222".to_string(),
        event_type,
        private_key_path: "/d/private_key.pem".to_string(),
        service_url: "http://stub".to_string(),
        get_nonce_url: "/v1/auth/nonce".to_string(),
        issue_auth_token_url: "/v1/auth/token".to_string(),
    }
}

fn connect(client: &mut Messaging, event_type: Option<MessagingEvent>) -> ConnectAction {
    assert_eq!(client.connect(&options(event_type), "UPUBKEY"), ConnectAction::QueryMachineId);
    assert_eq!(client.state(), ClientState::Authenticating);
    let action = client.advance(ConnectEvent::MachineId(Ok("m-1".to_string())));
    assert!(matches!(action, ConnectAction::Auth(AuthAction::RequestNonce { .. })));
    let action = client.advance(ConnectEvent::Auth(AuthEvent::Nonce(answered(200, Some("n")))));
    assert_eq!(
        action,
        ConnectAction::Auth(AuthAction::SignNonce {
            private_key_path: "/d/private_key.pem".to_string(),
            nonce: "n".to_string()
        })
    );
    let action = client.advance(ConnectEvent::Auth(AuthEvent::Signature(Some(b"hello".to_vec()))));
    assert_eq!(action, ConnectAction::Auth(token_request("n", "aGVsbG8=")));
    let action = client.advance(ConnectEvent::Auth(AuthEvent::Token(answered(200, Some("jwt")))));
    assert_eq!(
        action,
        ConnectAction::OpenSession {
            nats_url: "nats://broker:4222".to_string(),
            token: "jwt".to_string(),
            inbox_prefix: format!("inbox.{}", sha256::digest("m-1")),
        }
    );
    assert!(!client.is_connected());
    client.advance(ConnectEvent::Completed(true))
}

#[test]
fn a_connect_ends_with_the_event() {
    let mut client = Messaging::new(true, "nats://broker:4222".to_string());
    assert_eq!(client.state(), ClientState::Disconnected);
    assert_eq!(client.action(), ConnectAction::Finished(Ok(false)));
    assert_eq!(connect(&mut client, None), ConnectAction::Publish(MessagingEvent::Connected));
    assert!(!client.is_connected());
    assert_eq!(client.advance(ConnectEvent::Completed(true)), ConnectAction::Finished(Ok(true)));
    assert_eq!(client.state(), ClientState::Connected);
    assert!(client.is_connected());

    assert_eq!(
        connect(&mut client, Some(MessagingEvent::Reconnected)),
        ConnectAction::Publish(MessagingEvent::Reconnected)
    );
    assert_eq!(client.advance(ConnectEvent::Completed(true)), ConnectAction::Finished(Ok(true)));
    // nothing is under way any more
    assert_eq!(client.advance(ConnectEvent::Completed(false)), ConnectAction::Finished(Ok(true)));
    assert_eq!(client.state(), ClientState::Connected);
}

#[test]
fn the_inbox_prefix_carries_the_digest_of_the_machine_id() {
    assert_eq!(
        inbox_prefix("12345"),
        "inbox.5994471abb01112afcc18159f6cc74b4f511b99806da59b3caf5a9c173cacfc5"
    );
}

fn broker_commands(client: &Messaging) -> Vec<Result<BrokerCommand, MessagingErrorCodes>> {
    vec![
        client.publish("s", None, b"d".to_vec()),
        client.subscribe("s"),
        client.request("s", b"d".to_vec()),
        client.init_jetstream(),
    ]
}

#[test]
fn nothing_reaches_the_broker_before_a_connect_has_succeeded() {
    let mut client = Messaging::new(true, "nats://broker:4222".to_string());
    let refused = vec![Err(MessagingErrorCodes::NatsClientNotInitialized); 4];
    assert_eq!(broker_commands(&client), refused);
    connect(&mut client, None);
    assert_eq!(broker_commands(&client), refused);
    client.advance(ConnectEvent::Completed(true));
    let headers = Some(vec![("k".to_string(), "v".to_string())]);
    assert_eq!(
        client.publish("s", headers.clone(), b"d".to_vec()),
        Ok(BrokerCommand::Publish { subject: "s".to_string(), headers, data: b"d".to_vec() })
    );
    assert_eq!(client.subscribe("a.b"), Ok(BrokerCommand::Subscribe { subject: "a.b".to_string() }));
    assert_eq!(
        client.request("q", b"x".to_vec()),
        Ok(BrokerCommand::Request { subject: "q".to_string(), data: b"x".to_vec() })
    );
    assert_eq!(client.init_jetstream(), Ok(BrokerCommand::InitJetStream));
    assert_eq!(client.disconnect(), MessagingEvent::Disconnected);
    assert_eq!(broker_commands(&client), refused);
}

#[test]
fn connect_then_disconnect_leaves_no_trace() {
    let mut client = Messaging::new(true, "nats://broker:4222".to_string());
    let fresh = Messaging::new(true, "nats://broker:4222".to_string());
    connect(&mut client, Some(MessagingEvent::Reconnected));
    client.advance(ConnectEvent::Completed(true));
    assert_eq!(client.disconnect(), MessagingEvent::Disconnected);
    assert_eq!(client.state(), fresh.state());
    assert_eq!(client.action(), fresh.action());
    assert_eq!(client.is_connected(), fresh.is_connected());
    assert_eq!(broker_commands(&client), broker_commands(&fresh));
    assert_eq!(
        client.connect(&options(None), "UPUBKEY"),
        Messaging::new(true, "nats://broker:4222".to_string()).connect(&options(None), "UPUBKEY")
    );

    // also in the middle of a connect
    let mut client = Messaging::new(true, "nats://broker:4222".to_string());
    client.connect(&options(None), "UPUBKEY");
    client.advance(ConnectEvent::MachineId(Ok("m-1".to_string())));
    client.disconnect();
    assert_eq!(client.state(), ClientState::Disconnected);
    assert_eq!(client.action(), ConnectAction::Finished(Ok(false)));
}

#[test]
fn a_connect_that_fails_leaves_the_client_disconnected() {
    let failed = |e| ConnectAction::Finished(Err(e));
    let mut client = Messaging::new(false, "a".to_string());
    assert_eq!(client.connect(&options(None), "K"), failed(MessagingErrorCodes::NatsClientNotInitialized));
    assert_eq!(client.state(), ClientState::Disconnected);

    let mut client = Messaging::new(true, "nats://broker:4222".to_string());
    client.connect(&options(None), "K");
    let e = MessagingErrorCodes::ChannelReceiveMessageError;
    assert_eq!(client.advance(ConnectEvent::MachineId(Err(e))), failed(e));

    client.connect(&options(None), "K");
    assert_eq!(client.advance(ConnectEvent::Completed(true)), failed(MessagingErrorCodes::UnknownError));

    client.connect(&options(None), "K");
    client.advance(ConnectEvent::MachineId(Ok("m".to_string())));
    assert_eq!(
        client.advance(ConnectEvent::Auth(AuthEvent::Nonce(answered(400, None)))),
        failed(MessagingErrorCodes::GetAuthNonceBadRequestError)
    );

    connect(&mut client, None);
    assert_eq!(client.advance(ConnectEvent::Completed(false)), failed(MessagingErrorCodes::EventSendError));
    assert_eq!(client.state(), ClientState::Disconnected);

    client.connect(&options(None), "K");
    client.advance(ConnectEvent::MachineId(Ok("m".to_string())));
    client.advance(ConnectEvent::Auth(AuthEvent::Nonce(answered(200, Some("n")))));
    client.advance(ConnectEvent::Auth(AuthEvent::Signature(Some(vec![1]))));
    client.advance(ConnectEvent::Auth(AuthEvent::Token(answered(200, Some("t")))));
    assert_eq!(client.advance(ConnectEvent::Completed(false)), failed(MessagingErrorCodes::NatsConnectError));
    assert!(!client.is_connected());
}

#[test]
fn the_machine_id_or_the_failure_to_get_it() {
    assert_eq!(get_machine_id(true, Some("m".to_string())), Ok("m".to_string()));
    assert_eq!(get_machine_id(true, None), Err(MessagingErrorCodes::ChannelReceiveMessageError));
    assert_eq!(get_machine_id(false, None), Err(MessagingErrorCodes::ChannelSendMessageError));
    assert_eq!(get_machine_id(false, Some("m".to_string())), Err(MessagingErrorCodes::ChannelSendMessageError));
}

fn handler() -> MessagingHandler {
    MessagingHandler::new(MessagingOptions {
        settings: Settings {
            nats_addr: "nats://broker:4222".to_string(),
            data_dir: "/d".to_string(),
            service_url: "http://stub".to_string(),
        },
    })
}

#[test]
fn reconnect_on_broker_drop() {
    let actor = handler();
    let actions = actor.on_event(&Event::Nats(NatsEvent::Disconnected));
    assert_eq!(
        actions,
        vec![
            HandlerAction::Emit(MessagingEvent::Disconnected),
            HandlerAction::Connect(MessagingEvent::Reconnected),
        ]
    );
    let connect_with = actor.connect_options(MessagingEvent::Reconnected);
    assert_eq!(connect_with.event_type, Some(MessagingEvent::Reconnected));
}

#[test]
fn the_actor_reacts_to_the_bus() {
    let actor = handler();
    assert_eq!(
        actor.on_event(&Event::Provisioning(ProvisioningEvent::Provisioned)),
        vec![HandlerAction::Connect(MessagingEvent::Connected)]
    );
    assert_eq!(
        actor.on_event(&Event::Provisioning(ProvisioningEvent::Deprovisioned)),
        vec![HandlerAction::Disconnect]
    );
    assert_eq!(
        actor.on_event(&Event::Nats(NatsEvent::Connected)),
        vec![HandlerAction::Emit(MessagingEvent::Connected)]
    );
    assert!(actor.on_event(&Event::Nats(NatsEvent::ServerError("x".to_string()))).is_empty());
    assert!(actor.on_event(&Event::Messaging(MessagingEvent::Connected)).is_empty());
    assert!(actor.on_event(&Event::Settings(SettingEvent::Synced)).is_empty());
}

#[test]
fn the_actor_takes_commands() {
    let mut actor = handler();
    assert_eq!(actor.on_message(MessagingMessage::Connect), HandlerAction::Connect(MessagingEvent::Connected));
    assert_eq!(actor.on_message(MessagingMessage::Reconnect), HandlerAction::Connect(MessagingEvent::Reconnected));
    assert_eq!(actor.on_message(MessagingMessage::Disconnect), HandlerAction::Disconnect);
    let refused = HandlerAction::Refuse(MessagingErrorCodes::NatsClientNotInitialized);
    let send = MessagingMessage::Send { message: "héllo".to_string(), subject: "s".to_string(), headers: None };
    let request = MessagingMessage::Request { message: "q".to_string(), subject: "s".to_string() };
    let subscriber = MessagingMessage::Subscriber { subject: "s.>".to_string() };
    assert_eq!(actor.on_message(send.clone()), refused);
    assert_eq!(actor.on_message(request.clone()), refused);
    assert_eq!(actor.on_message(subscriber.clone()), refused);
    assert_eq!(actor.on_message(MessagingMessage::InitJetStream), refused);

    let options = actor.connect_options(MessagingEvent::Connected);
    assert_eq!(options.nats_url, "nats://broker:4222");
    assert_eq!(options.private_key_path, "/d/private_key.pem");
    assert_eq!(options.service_url, "http://stub");
    assert_eq!(options.get_nonce_url, "/v1/auth/nonce");
    assert_eq!(options.issue_auth_token_url, "/v1/auth/token");
    assert_eq!(actor.connect(&options, "K"), ConnectAction::QueryMachineId);
    actor.advance(ConnectEvent::MachineId(Ok("m".to_string())));
    actor.advance(ConnectEvent::Auth(AuthEvent::Nonce(answered(200, Some("n")))));
    actor.advance(ConnectEvent::Auth(AuthEvent::Signature(Some(vec![1]))));
    actor.advance(ConnectEvent::Auth(AuthEvent::Token(answered(200, Some("t")))));
    assert_eq!(actor.on_message(subscriber.clone()), refused);
    actor.advance(ConnectEvent::Completed(true));
    assert_eq!(actor.advance(ConnectEvent::Completed(true)), ConnectAction::Finished(Ok(true)));

    assert_eq!(
        actor.on_message(send),
        HandlerAction::Broker(BrokerCommand::Publish {
            subject: "s".to_string(),
            headers: None,
            data: "héllo".as_bytes().to_vec()
        })
    );
    assert_eq!(
        actor.on_message(request),
        HandlerAction::Broker(BrokerCommand::Request { subject: "s".to_string(), data: b"q".to_vec() })
    );
    assert_eq!(
        actor.on_message(subscriber.clone()),
        HandlerAction::Broker(BrokerCommand::Subscribe { subject: "s.>".to_string() })
    );
    assert_eq!(actor.on_message(MessagingMessage::InitJetStream), HandlerAction::Broker(BrokerCommand::InitJetStream));
    assert_eq!(actor.disconnect(), MessagingEvent::Disconnected);
    assert_eq!(actor.on_message(subscriber), refused);
}

#[test]
fn starting_the_actor() {
    let mut actor = handler();
    assert_eq!(actor.start(None), (false, None));
    assert_eq!(actor.start(Some("".to_string())), (true, None));
    assert_eq!(
        actor.start(Some("m-1".to_string())),
        (true, Some(HandlerAction::Connect(MessagingEvent::Connected)))
    );
}
