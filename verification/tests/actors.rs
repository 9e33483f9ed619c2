use mecha_agent::agent::init::{channel_size, init_services, service_error, service_needs, Service};
use mecha_agent::channel::{recv_timeout_millis, recv_with_timeout, Received};
use mecha_agent::cli::cmd::{Reset, Setup, SetupStep, Whoami};
use mecha_agent::digest::digest;
use mecha_agent::errors::{
    AgentErrorCodes, ChannelErrorCodes, IdentityErrorCodes, KeyValueStoreErrorCodes,
};
use mecha_agent::events::{Event, MessagingEvent, NatsEvent, ProvisioningEvent, SettingEvent};
use mecha_agent::http::{classify_status, StatusClass};
use mecha_agent::identity::handler::{
    IdentityHandler, IdentityMessage, IdentityOptions, IdentityRead, Settings as IdentitySettings,
};
use mecha_agent::identity::service::{
    get_machine_cert, get_machine_details, get_machine_id, get_provision_status, identity_files,
    MachineCert,
};
use mecha_agent::key_value_store::KeyValueStoreClient;
use mecha_agent::telemetry::handler::{
    Settings as TelemetrySettings, TelemetryHandler, TelemetryMessage, TelemetryOptions,
};

fn certificate() -> MachineCert {
    MachineCert {
        common_name: "m-1".to_string(),
        serial_number: "0A:1B".to_string(),
        fingerprint: "ff00".to_string(),
        public_cert: "CERT".to_string(),
        ca_bundle: "BUNDLE".to_string(),
        root_cert: "ROOT".to_string(),
    }
}

#[test]
fn a_machine_is_provisioned_when_certificate_and_key_are_there() {
    assert_eq!(get_provision_status(true, true), Ok(true));
    assert_eq!(get_provision_status(true, false), Ok(false));
    assert_eq!(get_provision_status(false, true), Ok(false));
    assert_eq!(get_provision_status(false, false), Ok(false));
}

#[test]
fn the_identity_is_read_from_the_certificate() {
    let cert = certificate();
    assert_eq!(get_machine_id(Some(&cert)), Ok("m-1".to_string()));
    assert_eq!(get_machine_id(None), Err(IdentityErrorCodes::IdentityReadError));
    assert_eq!(get_machine_cert(Some(cert.clone())), Ok(cert.clone()));
    assert_eq!(get_machine_cert(None), Err(IdentityErrorCodes::IdentityReadError));
    let details = get_machine_details(Some(cert)).unwrap();
    assert_eq!(details.machine_id, "m-1");
    assert_eq!(details.certificate_serial_number, "0A:1B");
    assert_eq!(details.certificate_fingerprint, "ff00");
    assert_eq!(get_machine_details(None), Err(IdentityErrorCodes::IdentityReadError));
}

#[test]
fn the_identity_actor_reads_below_the_data_directory() {
    let files = identity_files("/d");
    assert_eq!(files.cert_path, "/d/machine.pem");
    assert_eq!(files.private_key_path, "/d/private_key.pem");
    assert_eq!(files.ca_bundle_path, "/d/ca_bundle.pem");
    assert_eq!(files.root_cert_path, "/d/root.pem");
    let actor = IdentityHandler::new(IdentityOptions {
        settings: IdentitySettings { data_dir: "/d".to_string() },
    });
    assert_eq!(
        actor.on_message(IdentityMessage::GetMachineId),
        IdentityRead::MachineId { cert_path: "/d/machine.pem".to_string() }
    );
    assert_eq!(
        actor.on_message(IdentityMessage::GetProvisionStatus),
        IdentityRead::ProvisionStatus {
            cert_path: "/d/machine.pem".to_string(),
            private_key_path: "/d/private_key.pem".to_string()
        }
    );
    assert_eq!(
        actor.on_message(IdentityMessage::GetMachineCert),
        IdentityRead::MachineCert {
            cert_path: "/d/machine.pem".to_string(),
            ca_bundle_path: "/d/ca_bundle.pem".to_string(),
            root_cert_path: "/d/root.pem".to_string()
        }
    );
}

#[test]
fn telemetry_is_forwarded_only_while_the_session_is_up() {
    let mut actor = TelemetryHandler::new(TelemetryOptions {
        settings: TelemetrySettings { export_endpoint: "http://127.0.0.1:4317".to_string() },
    });
    let logs = TelemetryMessage::SendLogs { logs: vec![1, 2], logs_type: "otlp".to_string() };
    let metrics = TelemetryMessage::SendMetrics { metrics: vec![3], metrics_type: "otlp".to_string() };
    assert!(!actor.is_messaging_connected());
    assert_eq!(actor.on_message(logs.clone()), None);
    assert!(!actor.on_event(&Event::Messaging(MessagingEvent::Reconnected)));
    assert!(!actor.is_messaging_connected());
    assert!(actor.on_event(&Event::Messaging(MessagingEvent::Connected)));
    assert!(actor.is_messaging_connected());
    assert_eq!(actor.on_message(logs.clone()), Some(logs.clone()));
    assert_eq!(actor.on_message(metrics.clone()), Some(metrics.clone()));
    assert!(!actor.on_event(&Event::Nats(NatsEvent::Disconnected)));
    assert!(!actor.on_event(&Event::Settings(SettingEvent::Synced)));
    assert!(!actor.on_event(&Event::Provisioning(ProvisioningEvent::Provisioned)));
    assert!(actor.is_messaging_connected());
    assert!(!actor.on_event(&Event::Messaging(MessagingEvent::Disconnected)));
    assert_eq!(actor.on_message(metrics), None);
    actor.on_event(&Event::Messaging(MessagingEvent::Connected));
    assert!(!actor.on_event(&Event::Provisioning(ProvisioningEvent::Deprovisioned)));
    assert_eq!(actor.on_message(logs), None);
}

#[test]
fn setup_tries_every_ten_seconds_for_a_minute() {
    let setup = Setup { settings: "./settings.yml".to_string() };
    assert_eq!(setup.attempts(), vec![10, 20, 30, 40, 50]);
    assert_eq!(setup.run(0), SetupStep::Attempt);
    assert_eq!(setup.run(59), SetupStep::Attempt);
    assert_eq!(setup.run(60), SetupStep::TimedOut);
    assert_eq!(setup.run(u64::MAX), SetupStep::TimedOut);
}

#[test]
fn reset_asks_for_a_yes() {
    let reset = Reset { settings: "./settings.yml".to_string() };
    for answer in ["y", "Y", "yes", "YES", "Yes\n", "  yEs \r\n", "\ty"] {
        assert!(reset.run(answer), "{:?}", answer);
    }
    for answer in ["", "n", "no", "yess", "ye", "y e s", "yes!", "\n", "ｙ"] {
        assert!(!reset.run(answer), "{:?}", answer);
    }
}

#[test]
fn whoami_shows_five_lines() {
    let whoami = Whoami { settings: "./settings.yml".to_string() };
    let details = get_machine_details(Some(certificate())).unwrap();
    let lines = whoami.run(&details, "name", "alias");
    let shown: Vec<(String, String)> = lines.into_iter().map(|l| (l.label, l.value)).collect();
    let expected = [
        ("Id", "m-1"),
        ("Name", "name"),
        ("Alias", "alias"),
        ("Certificate Serial Number", "0A:1B"),
        ("Certificate Fingerprint", "ff00"),
    ];
    assert_eq!(shown.len(), expected.len());
    for (line, (label, value)) in shown.iter().zip(expected) {
        assert_eq!((line.0.as_str(), line.1.as_str()), (label, value));
    }
}

#[test]
fn a_reply_that_does_not_come_is_an_error() {
    assert_eq!(recv_timeout_millis(), 2000);
    assert_eq!(recv_with_timeout(Received::Reply(7)), Ok(7));
    assert_eq!(recv_with_timeout(Received::<u8>::Closed), Err(ChannelErrorCodes::ChannelReceiveError));
    assert_eq!(recv_with_timeout(Received::<u8>::TimedOut), Err(ChannelErrorCodes::ChannelReceiveTimeout));
}

#[test]
fn services_start_after_what_they_need() {
    assert_eq!(channel_size(), 32);
    let order = init_services();
    assert_eq!(order.len(), 8);
    assert_eq!(order[0], Service::Identity);
    assert_eq!(order[1], Service::Messaging);
    for (place, service) in order.iter().enumerate() {
        for (other_place, other) in order.iter().enumerate() {
            if service_needs(*service, *other) {
                assert!(other_place < place, "{:?} needs {:?}", service, other);
            }
            if place != other_place {
                assert_ne!(service, other);
            }
        }
    }
    assert!(service_needs(Service::Messaging, Service::Identity));
    assert!(!service_needs(Service::Identity, Service::Messaging));
    assert!(service_needs(Service::Networking, Service::Settings));
    assert!(!service_needs(Service::Telemetry, Service::Settings));
    assert!(service_needs(Service::Provisioning, Service::Messaging));
    assert_eq!(service_error(Service::Provisioning), AgentErrorCodes::ProvisioningInitError);
    assert_eq!(service_error(Service::Identity), AgentErrorCodes::IdentityInitError);
    assert_eq!(service_error(Service::Messaging), AgentErrorCodes::MessagingInitError);
    assert_eq!(service_error(Service::Heartbeat), AgentErrorCodes::HeartbeatInitError);
    assert_eq!(service_error(Service::Settings), AgentErrorCodes::SettingsInitError);
    assert_eq!(service_error(Service::Networking), AgentErrorCodes::NetworkingInitError);
    assert_eq!(service_error(Service::Telemetry), AgentErrorCodes::TelemetryInitError);
    assert_eq!(service_error(Service::AppServices), AgentErrorCodes::AppServicesInitError);
}

#[test]
fn status_codes_have_their_classes() {
    assert_eq!(classify_status(200), StatusClass::Success);
    assert_eq!(classify_status(299), StatusClass::Success);
    assert_eq!(classify_status(199), StatusClass::Other);
    assert_eq!(classify_status(300), StatusClass::Other);
    assert_eq!(classify_status(400), StatusClass::BadRequest);
    assert_eq!(classify_status(401), StatusClass::Unauthorized);
    assert_eq!(classify_status(404), StatusClass::NotFound);
    assert_eq!(classify_status(500), StatusClass::ServerError);
    assert_eq!(classify_status(501), StatusClass::Other);
    assert_eq!(classify_status(0), StatusClass::Other);
}

#[test]
fn the_store_gives_back_what_was_kept() {
    let mut store = KeyValueStoreClient::new("/tmp/mecha_agent_store_kept").unwrap();
    assert_eq!(store.set("app_services.config", "{\"dns_name\":\"a\"}"), Ok(true));
    assert_eq!(store.get("app_services.config"), Ok(Some("{\"dns_name\":\"a\"}".to_string())));
    assert_eq!(store.set("app_services.config", "überschrieben"), Ok(true));
    assert_eq!(store.get("app_services.config"), Ok(Some("überschrieben".to_string())));
    assert_eq!(store.set("schlüssel", ""), Ok(true));
    assert_eq!(store.get("schlüssel"), Ok(Some("".to_string())));
    assert_eq!(store.get("never.set"), Ok(None));
}

#[test]
fn what_is_kept_must_be_text_to_be_read() {
    let path = "/tmp/mecha_agent_store_bytes";
    let db = sled::open(path).unwrap();
    db.insert("binary", vec![0xff, 0xfe]).unwrap();
    db.insert("text", "plain").unwrap();
    db.flush().unwrap();
    drop(db);
    let store = KeyValueStoreClient::new(path).unwrap();
    assert_eq!(store.get("binary"), Err(KeyValueStoreErrorCodes::RetrieveValueError));
    assert_eq!(store.get("text"), Ok(Some("plain".to_string())));
}

#[test]
fn the_answer_of_the_store_is_read_as_text() {
    assert_eq!(KeyValueStoreClient::read_answer(Ok(None)), Ok(None));
    assert_eq!(KeyValueStoreClient::read_answer(Ok(Some(Vec::new()))), Ok(Some("".to_string())));
    assert_eq!(
        KeyValueStoreClient::read_answer(Ok(Some("zäh".as_bytes().to_vec()))),
        Ok(Some("zäh".to_string()))
    );
    assert_eq!(
        KeyValueStoreClient::read_answer(Ok(Some(vec![0x7a, 0xc3]))),
        Err(KeyValueStoreErrorCodes::RetrieveValueError)
    );
    assert_eq!(
        KeyValueStoreClient::read_answer(Ok(Some(vec![0xed, 0xa0, 0x80]))),
        Err(KeyValueStoreErrorCodes::RetrieveValueError)
    );
    assert_eq!(KeyValueStoreClient::read_answer(Err(())), Err(KeyValueStoreErrorCodes::RetrieveValueError));
}

#[test]
fn a_digest_is_sixty_four_hexadecimal_digits() {
    for text in ["", "12345", "svc.example", "ünï"] {
        let hex = digest(text);
        assert_eq!(hex.len(), 64);
        assert!(hex.chars().all(|c| c.is_ascii_digit() || ('a'..='f').contains(&c)), "{}", hex);
        assert_eq!(hex, sha256::digest(text));
    }
    assert_eq!(digest(""), "e3b0c44298fc1c149afbf4c8996fb92427ae41e4649b934ca495991b7852b855");
}

#[test]
fn a_client_is_made_of_a_database_that_was_opened() {
    assert_eq!(
        KeyValueStoreClient::from_opened(None).err(),
        Some(KeyValueStoreErrorCodes::DbInitializationError)
    );
    let path = "/tmp/mecha_agent_store_opened";
    let db = sled::open(path).unwrap();
    db.insert("held", "before").unwrap();
    let mut store = KeyValueStoreClient::from_opened(Some(db)).unwrap();
    assert_eq!(store.get("held"), Ok(Some("before".to_string())));
    assert_eq!(store.set("held", "after"), Ok(true));
    drop(store);
    // the store is the one in the directory it was opened in
    let again = KeyValueStoreClient::new(path).unwrap();
    assert_eq!(again.get("held"), Ok(Some("after".to_string())));
}

#[test]
fn a_store_that_cannot_be_opened_is_an_error() {
    assert_eq!(
        KeyValueStoreClient::new("/proc/mecha_agent/no/such/place").err(),
        Some(KeyValueStoreErrorCodes::DbInitializationError)
    );
}
