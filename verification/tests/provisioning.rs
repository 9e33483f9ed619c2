use mecha_agent::errors::ProvisioningErrorCodes;
use mecha_agent::errors::ProvisioningErrorCodes::{
    CSRSignReadFileError, CertificateWriteError, CryptoGenerateCSRError,
    CryptoGeneratePrivateKeyError, InternalServerError, NotFoundError, ParseResponseError,
    SendEventError, UnknownError,
};
use mecha_agent::events::{Event, ProvisioningEvent};
use mecha_agent::http::HttpReply;
use mecha_agent::provisioning::crypto::{generate_csr, generate_ec_private_key, PrivateKeySize};
use mecha_agent::provisioning::service::{
    await_deprovision_message, ca_bundle_text, code_char, de_provision, generate_code, serve_first, BrokerRequest, identity_file_list, lookup_manifest,
    manifest_url, perform_cryptography_operation, ping, ping_url,
    process_re_issue_certificate_request, provision_by_code, sign_csr, subscribe_to_nats,
    write_certificates_to_path, CertSignRequestType, DeprovisionAction, DeprovisionRequest,
    DeprovisionStep, Deprovisioning, FileSystem, FileSystemError, ProvisionAction, ProvisionEvent,
    ProvisionStep, Provisioning, ProvisioningManifest, ProvisioningServerResponseGeneric,
    ProvisioningSubject, ProvisioningSubscriber, ReIssueCertificateRequest, SignCSRRequest,
    SignedCertificates,
};
use std::cell::RefCell;
use std::rc::Rc;

fn manifest() -> ProvisioningManifest {
    ProvisioningManifest {
        machine_id: "12345".to_string(),
        cert_sign_url: "/cert-sign".to_string(),
        cert_valid_upto: "2024-12-31T23:59:59Z".to_string(),
    }
}

fn signed() -> SignedCertificates {
    SignedCertificates {
        cert: "cert".to_string(),
        root_cert: "root_cert".to_string(),
        ca_bundle: vec!["ca_bundle".to_string()],
    }
}

fn answered<T>(status: u16, payload: Option<T>) -> HttpReply<T> {
    HttpReply::Answered { status, payload }
}

#[test]
fn test_generate_code() {
    let code = generate_code();
    assert!(code.is_ok());
}

#[test]
fn a_code_has_six_upper_case_letters_or_digits() {
    for _ in 0..200 {
        let code = generate_code().unwrap();
        assert_eq!(code.chars().count(), 6);
        assert!(code.chars().all(|c| c.is_ascii_uppercase() || c.is_ascii_digit()), "{}", code);
    }
}

#[test]
fn codes_differ() {
    let first = generate_code().unwrap();
    let mut differs = false;
    for _ in 0..50 {
        if generate_code().unwrap() != first {
            differs = true;
        }
    }
    assert!(differs);
}

#[test]
fn test_ping() {
    let service_url = "https://services.sandbox-v1.mecha.build";
    assert_eq!(ping_url(service_url), "https://services.sandbox-v1.mecha.build/v1/ping");
    let ping_result = ping(Some(200));
    assert!(ping_result.is_ok());
    let response = ping_result.unwrap();
    assert_eq!(response.code, "success");
    assert_eq!(response.message, "");
}

#[test]
fn a_ping_is_read_by_its_status() {
    assert!(ping(Some(201)).is_ok());
    assert!(ping(Some(299)).is_ok());
    assert_eq!(ping(None), Err(ProvisioningErrorCodes::UnreachableError));
    assert_eq!(ping(Some(401)), Err(ProvisioningErrorCodes::UnauthorizedError));
    assert_eq!(ping(Some(404)), Err(ProvisioningErrorCodes::NotFoundError));
    assert_eq!(ping(Some(400)), Err(ProvisioningErrorCodes::BadRequestError));
    assert_eq!(ping(Some(500)), Err(ProvisioningErrorCodes::InternalServerError));
    assert_eq!(ping(Some(503)), Err(ProvisioningErrorCodes::UnknownError));
    assert_eq!(ping(Some(199)), Err(ProvisioningErrorCodes::UnknownError));
    assert_eq!(ping(Some(300)), Err(ProvisioningErrorCodes::UnknownError));
}

#[test]
fn get_manifest_by_provisioning_code() {
    let mock_manifest = ProvisioningManifest {
        machine_id: "12345".to_string(),
        cert_sign_url: "https://example.com/cert-sign".to_string(),
        cert_valid_upto: "2024-12-31T23:59:59Z".to_string(),
    };
    let payload: ProvisioningServerResponseGeneric<ProvisioningManifest> =
        ProvisioningServerResponseGeneric {
            success: true,
            status: "200 SUCCESS".to_string(),
            status_code: 200,
            message: None,
            error_code: None,
            sub_errors: None,
            payload: mock_manifest.clone(),
        };
    let mock_url = format!("http://{}", "127.0.0.1:1234");
    let code = "12345";
    assert_eq!(
        manifest_url(&mock_url, code),
        format!("http://127.0.0.1:1234/v1/provisioning/manifest/find?code={}", code)
    );

    let manifest = lookup_manifest(answered(200, Some(payload.payload))).unwrap();

    assert_eq!(manifest.machine_id, "12345");
    assert_eq!(manifest.cert_sign_url, "https://example.com/cert-sign");
    assert_eq!(manifest.cert_valid_upto, "2024-12-31T23:59:59Z");
}

#[test]
fn an_answer_with_a_payload_is_read_by_its_status() {
    assert_eq!(lookup_manifest(HttpReply::Unreachable), Err(ProvisioningErrorCodes::UnknownError));
    assert_eq!(lookup_manifest(answered(500, Some(manifest()))), Err(ProvisioningErrorCodes::InternalServerError));
    assert_eq!(lookup_manifest(answered(400, None)), Err(ProvisioningErrorCodes::BadRequestError));
    assert_eq!(lookup_manifest(answered(404, None)), Err(ProvisioningErrorCodes::NotFoundError));
    assert_eq!(lookup_manifest(answered(401, None)), Err(ProvisioningErrorCodes::UnknownError));
    assert_eq!(lookup_manifest(answered(302, None)), Err(ProvisioningErrorCodes::UnknownError));
    assert_eq!(lookup_manifest(answered(200, None)), Err(ProvisioningErrorCodes::ParseResponseError));
    assert_eq!(sign_csr(answered(201, Some(signed()))), Ok(signed()));
    assert_eq!(sign_csr(answered(200, None)), Err(ProvisioningErrorCodes::ParseResponseError));
    assert_eq!(sign_csr(answered(500, None)), Err(ProvisioningErrorCodes::InternalServerError));
}

fn write(path: &str, contents: &str) -> ProvisionAction {
    ProvisionAction::WriteFile { path: path.to_string(), contents: contents.to_string() }
}

fn run_cryptography(p: &mut Provisioning, url: &str, request_type: CertSignRequestType) {
    assert_eq!(p.step(), ProvisionStep::PrivateKey);
    assert_eq!(
        p.action(),
        ProvisionAction::GeneratePrivateKey { path: "~/.mecha_test/private_key.pem".to_string() }
    );
    assert_eq!(
        p.advance(ProvisionEvent::Completed(true)),
        ProvisionAction::GenerateCsr {
            path: "~/.mecha_test/csr.pem".to_string(),
            private_key_path: "~/.mecha_test/private_key.pem".to_string(),
            common_name: "12345".to_string(),
        }
    );
    assert_eq!(
        p.advance(ProvisionEvent::Completed(true)),
        ProvisionAction::ReadCsr { path: "~/.mecha_test/csr.pem".to_string() }
    );
    assert_eq!(
        p.advance(ProvisionEvent::CsrText(Some("PEM".to_string()))),
        ProvisionAction::SignCsr {
            url: url.to_string(),
            request: SignCSRRequest {
                csr: "PEM".to_string(),
                machine_id: "12345".to_string(),
                request_type,
            },
        }
    );
    assert_eq!(
        p.advance(ProvisionEvent::Certificates(answered(200, Some(signed())))),
        write("~/.mecha_test/machine.pem", "cert")
    );
    assert_eq!(
        p.advance(ProvisionEvent::Completed(true)),
        write("~/.mecha_test/ca_bundle.pem", "[\"ca_bundle\"]")
    );
    assert_eq!(p.advance(ProvisionEvent::Completed(true)), write("~/.mecha_test/root.pem", "root_cert"));
}

#[test]
fn test_perform_cryptography_operations() {
    let mock_url = "http://127.0.0.1:1234";
    let mut p = perform_cryptography_operation(
        mock_url,
        "12345",
        "/cert-sign",
        "~/.mecha_test",
        CertSignRequestType::Provision,
    );
    run_cryptography(&mut p, "http://127.0.0.1:1234/cert-sign", CertSignRequestType::Provision);
    let result = p.advance(ProvisionEvent::Completed(true));
    assert_eq!(result, ProvisionAction::Finished(Ok(true)));
    let result = p.outcome().unwrap();
    assert!(result.is_ok());
}

#[test]
fn get_machine_provisioned_by_code() {
    let mock_url = "http://127.0.0.1:1234";
    let code = "12345";
    let data_dir = "~/.mecha_test";
    let mut p = provision_by_code(mock_url, data_dir, code);
    assert_eq!(p.step(), ProvisionStep::Manifest);
    assert_eq!(p.outcome(), None);
    assert_eq!(
        p.action(),
        ProvisionAction::LookupManifest {
            url: "http://127.0.0.1:1234/v1/provisioning/manifest/find?code=12345".to_string()
        }
    );
    assert_eq!(
        p.advance(ProvisionEvent::Manifest(answered(200, Some(manifest())))),
        ProvisionAction::GeneratePrivateKey { path: "~/.mecha_test/private_key.pem".to_string() }
    );
    run_cryptography(&mut p, "http://127.0.0.1:1234/cert-sign", CertSignRequestType::Provision);
    let event = p.advance(ProvisionEvent::Completed(true));
    assert!(matches!(event, ProvisionAction::Publish(ProvisioningEvent::Provisioned)));
    assert_eq!(p.step(), ProvisionStep::Announce);
    assert_eq!(p.advance(ProvisionEvent::Completed(true)), ProvisionAction::Finished(Ok(true)));

    let res = p.outcome().unwrap();
    assert!(res.is_ok());
    assert!(res.unwrap());
    // a provisioning that is done stays done
    assert_eq!(p.advance(ProvisionEvent::Completed(false)), ProvisionAction::Finished(Ok(true)));
}

#[test]
fn happy_provision() {
    let mut p = provision_by_code("http://stub", "~/.m", "ABC123");
    assert_eq!(
        p.action(),
        ProvisionAction::LookupManifest {
            url: "http://stub/v1/provisioning/manifest/find?code=ABC123".to_string()
        }
    );
    let mut written = Vec::new();
    let mut published = Vec::new();
    let mut action = p.advance(ProvisionEvent::Manifest(answered(200, Some(manifest()))));
    let result = loop {
        let event = match action {
            ProvisionAction::GeneratePrivateKey { path } => {
                written.push(path);
                ProvisionEvent::Completed(true)
            }
            ProvisionAction::GenerateCsr { path, .. } => {
                written.push(path);
                ProvisionEvent::Completed(true)
            }
            ProvisionAction::ReadCsr { .. } => ProvisionEvent::CsrText(Some("CSR".to_string())),
            ProvisionAction::SignCsr { url, request } => {
                assert_eq!(url, "http://stub/cert-sign");
                assert_eq!(request.csr, "CSR");
                ProvisionEvent::Certificates(answered(
                    200,
                    Some(SignedCertificates {
                        cert: "C".to_string(),
                        root_cert: "R".to_string(),
                        ca_bundle: vec!["B".to_string()],
                    }),
                ))
            }
            ProvisionAction::WriteFile { path, contents } => {
                written.push(format!("{}={}", path, contents));
                ProvisionEvent::Completed(true)
            }
            ProvisionAction::Publish(event) => {
                published.push(event);
                ProvisionEvent::Completed(true)
            }
            ProvisionAction::Finished(result) => break result,
            ProvisionAction::LookupManifest { .. } => panic!("the manifest is looked up once"),
        };
        action = p.advance(event);
    };
    assert_eq!(result, Ok(true));
    assert_eq!(published, vec![ProvisioningEvent::Provisioned]);
    assert_eq!(
        written,
        vec![
            "~/.m/private_key.pem",
            "~/.m/csr.pem",
            "~/.m/machine.pem=C",
            "~/.m/ca_bundle.pem=[\"B\"]",
            "~/.m/root.pem=R",
        ]
    );
}

fn fails_with(events: Vec<ProvisionEvent>, expected: ProvisioningErrorCodes) {
    let mut p = provision_by_code("http://stub", "/d", "c");
    let mut last = p.action();
    for event in events {
        last = p.advance(event);
    }
    assert_eq!(last, ProvisionAction::Finished(Err(expected)));
    assert_eq!(p.outcome(), Some(Err(expected)));
    assert_eq!(p.advance(ProvisionEvent::Completed(true)), ProvisionAction::Finished(Err(expected)));
}

fn ok() -> ProvisionEvent {
    ProvisionEvent::Completed(true)
}

fn bad() -> ProvisionEvent {
    ProvisionEvent::Completed(false)
}

fn found() -> ProvisionEvent {
    ProvisionEvent::Manifest(answered(200, Some(manifest())))
}

fn csr() -> ProvisionEvent {
    ProvisionEvent::CsrText(Some("PEM".to_string()))
}

fn certs() -> ProvisionEvent {
    ProvisionEvent::Certificates(answered(200, Some(signed())))
}

#[test]
fn a_step_that_fails_ends_the_provisioning_with_its_error() {
    fails_with(vec![ProvisionEvent::Manifest(answered(404, None))], NotFoundError);
    fails_with(vec![ProvisionEvent::Manifest(HttpReply::Unreachable)], UnknownError);
    fails_with(vec![ProvisionEvent::Manifest(answered(200, None))], ParseResponseError);
    fails_with(vec![bad()], UnknownError);
    fails_with(vec![ok()], UnknownError);
    fails_with(vec![found(), bad()], CryptoGeneratePrivateKeyError);
    fails_with(vec![found(), ok(), bad()], CryptoGenerateCSRError);
    fails_with(vec![found(), ok(), ok(), ProvisionEvent::CsrText(None)], CSRSignReadFileError);
    fails_with(vec![found(), ok(), ok(), bad()], CSRSignReadFileError);
    fails_with(vec![found(), ok(), ok(), ok()], UnknownError);
    fails_with(
        vec![found(), ok(), ok(), csr(), ProvisionEvent::Certificates(answered(500, None))],
        InternalServerError,
    );
    fails_with(vec![found(), ok(), ok(), csr(), bad()], UnknownError);
    fails_with(vec![found(), ok(), ok(), csr(), certs(), bad()], CertificateWriteError);
    fails_with(vec![found(), ok(), ok(), csr(), certs(), ok(), bad()], CertificateWriteError);
    fails_with(vec![found(), ok(), ok(), csr(), certs(), ok(), ok(), bad()], CertificateWriteError);
    fails_with(vec![found(), ok(), ok(), csr(), certs(), ok(), ok(), ok(), bad()], SendEventError);
    fails_with(vec![found(), ok(), ok(), csr(), certs(), ok(), found()], UnknownError);
}

#[test]
fn certificates_are_written_in_their_order() {
    assert_eq!(
        write_certificates_to_path("/d", "C", "[\"B\"]", "R"),
        vec![
            ("/d/machine.pem".to_string(), "C".to_string()),
            ("/d/ca_bundle.pem".to_string(), "[\"B\"]".to_string()),
            ("/d/root.pem".to_string(), "R".to_string()),
        ]
    );
    assert_eq!(
        identity_file_list("/d"),
        vec!["/d/machine.pem", "/d/private_key.pem", "/d/csr.pem", "/d/ca_bundle.pem", "/d/root.pem"]
    );
}

#[test]
fn a_bundle_always_has_a_text() {
    assert_eq!(ca_bundle_text(&Vec::new()), "[]");
    assert_eq!(ca_bundle_text(&vec!["B".to_string()]), "[\"B\"]");
    assert_eq!(ca_bundle_text(&vec!["ä\u{1}".to_string(), "".to_string()]), "[\"ä\\u0001\",\"\"]");
}

#[test]
fn the_bundle_is_written_as_json() {
    let mut p = perform_cryptography_operation("u", "m", "/s", "/d", CertSignRequestType::ReIssue);
    p.advance(ok());
    p.advance(ok());
    p.advance(csr());
    let certificates = SignedCertificates {
        cert: "C".to_string(),
        root_cert: "R".to_string(),
        ca_bundle: vec!["a\"b".to_string(), "c\n".to_string()],
    };
    p.advance(ProvisionEvent::Certificates(answered(200, Some(certificates))));
    assert_eq!(p.advance(ok()), write("/d/ca_bundle.pem", "[\"a\\\"b\",\"c\\n\"]"));
}

struct Calls {
    files: Vec<Vec<String>>,
    dirs: Vec<String>,
}

struct RecordingFileSystem {
    calls: Rc<RefCell<Calls>>,
    files_fail: bool,
    dir_fails: bool,
}

impl FileSystem for RecordingFileSystem {
    fn remove_files(&self, files: Vec<String>) -> Result<(), FileSystemError> {
        self.calls.borrow_mut().files.push(files);
        if self.files_fail {
            Err(FileSystemError { message: "remove_files".to_string() })
        } else {
            Ok(())
        }
    }

    fn remove_dir_all(&self, path: &str) -> Result<(), FileSystemError> {
        self.calls.borrow_mut().dirs.push(path.to_string());
        if self.dir_fails {
            Err(FileSystemError { message: "remove_dir_all".to_string() })
        } else {
            Ok(())
        }
    }
}

fn recording(files_fail: bool, dir_fails: bool) -> (RecordingFileSystem, Rc<RefCell<Calls>>) {
    let calls = Rc::new(RefCell::new(Calls { files: Vec::new(), dirs: Vec::new() }));
    (RecordingFileSystem { calls: calls.clone(), files_fail, dir_fails }, calls)
}

#[test]
fn test_de_provision() {
    let (event_tx, _) = tokio::sync::broadcast::channel(32);
    let event_tx_2 = event_tx.clone();
    let mut event_rx = event_tx_2.subscribe();

    let data_dir = "~/.mecha_test";
    let (mock_fs, calls) = recording(false, false);
    let res = de_provision(&data_dir, mock_fs, event_tx.clone());
    assert!(res.is_ok());
    assert!(res.unwrap());

    assert_eq!(
        calls.borrow().files,
        vec![vec![
            data_dir.to_owned() + "/machine.pem",
            data_dir.to_owned() + "/private_key.pem",
            data_dir.to_owned() + "/csr.pem",
            data_dir.to_owned() + "/ca_bundle.pem",
            data_dir.to_owned() + "/root.pem",
        ]]
    );
    assert_eq!(calls.borrow().dirs.len(), 1);
    assert!(calls.borrow().dirs[0].contains(".mecha_test/db"));
    let event: Event = event_rx.try_recv().unwrap();
    assert!(matches!(event, Event::Provisioning(ProvisioningEvent::Deprovisioned)));
    assert!(event_rx.try_recv().is_err());
}

#[test]
fn deprovision_after_provision() {
    let (event_tx, mut event_rx) = tokio::sync::broadcast::channel(32);
    let (fs, calls) = recording(false, false);
    assert_eq!(de_provision("~/.m", fs, event_tx), Ok(true));
    assert_eq!(event_rx.try_recv().unwrap(), Event::Provisioning(ProvisioningEvent::Deprovisioned));
    assert_eq!(calls.borrow().files.len(), 1);
    assert_eq!(calls.borrow().files[0].len(), 5);
    assert_eq!(calls.borrow().dirs, vec!["~/.m/db"]);
}

#[test]
fn a_deprovisioning_stops_at_the_first_failure() {
    let (event_tx, mut event_rx) = tokio::sync::broadcast::channel(32);
    let (fs, calls) = recording(true, false);
    assert_eq!(de_provision("/d", fs, event_tx.clone()), Err(ProvisioningErrorCodes::CertificateRemoveError));
    assert!(event_rx.try_recv().is_err());
    assert!(calls.borrow().dirs.is_empty());

    let (fs, calls) = recording(false, true);
    assert_eq!(
        de_provision("/d", fs, event_tx.clone()),
        Err(ProvisioningErrorCodes::SettingsDatabaseDeleteError)
    );
    assert_eq!(event_rx.try_recv().unwrap(), Event::Provisioning(ProvisioningEvent::Deprovisioned));
    assert_eq!(calls.borrow().dirs, vec!["/d/db"]);

    // nobody listens: the event cannot be sent, the store stays
    let (lonely_tx, lonely_rx) = tokio::sync::broadcast::channel(32);
    drop(lonely_rx);
    let (fs, calls) = recording(false, false);
    assert_eq!(de_provision("/d", fs, lonely_tx), Err(ProvisioningErrorCodes::SendEventError));
    assert_eq!(calls.borrow().files.len(), 1);
    assert!(calls.borrow().dirs.is_empty());
}

#[test]
fn deprovisioning_names_its_actions_in_order() {
    let mut d = Deprovisioning::start("/d");
    assert_eq!(d.step(), DeprovisionStep::RemoveFiles);
    assert_eq!(d.action(), DeprovisionAction::RemoveFiles(identity_file_list("/d")));
    assert_eq!(d.advance(true), DeprovisionAction::Publish(ProvisioningEvent::Deprovisioned));
    assert_eq!(d.advance(true), DeprovisionAction::RemoveDirAll("/d/db".to_string()));
    assert_eq!(d.advance(true), DeprovisionAction::Finished(Ok(true)));
    assert_eq!(d.advance(false), DeprovisionAction::Finished(Ok(true)));
    assert_eq!(d.step(), DeprovisionStep::Done(Ok(true)));

    let mut d = Deprovisioning::start("/d");
    d.advance(true);
    assert_eq!(d.advance(false), DeprovisionAction::Finished(Err(ProvisioningErrorCodes::SendEventError)));
}

#[test]
fn subjects_carry_the_digest_of_the_machine_id() {
    let digest = "5994471abb01112afcc18159f6cc74b4f511b99806da59b3caf5a9c173cacfc5";
    assert_eq!(sha256::digest("12345"), digest);
    assert_eq!(
        subscribe_to_nats("12345"),
        vec![
            ProvisioningSubject::DeProvision(format!("machine.{}.deprovision", digest)),
            ProvisioningSubject::ReIssueCertificate(format!("machine.{}.provisioning.cert.re_issue", digest)),
        ]
    );
}

#[test]
fn subscriptions_are_filed_by_subject() {
    let mut held: ProvisioningSubscriber<u8> = ProvisioningSubscriber::new();
    assert_eq!(held.de_provisioning_request, None);
    assert_eq!(held.re_issue_certificate, None);
    held.assign(&ProvisioningSubject::ReIssueCertificate("s".to_string()), 2);
    assert_eq!(held.de_provisioning_request, None);
    assert_eq!(held.re_issue_certificate, Some(2));
    held.assign(&ProvisioningSubject::DeProvision("s".to_string()), 1);
    assert_eq!(held.de_provisioning_request, Some(1));
    assert_eq!(held.re_issue_certificate, Some(2));
}

#[test]
fn a_request_to_deprovision_must_name_this_machine() {
    let named = |id: &str| Some(DeprovisionRequest { machine_id: id.to_string() });
    assert!(await_deprovision_message(named("12345"), "12345"));
    assert!(!await_deprovision_message(named("12346"), "12345"));
    assert!(!await_deprovision_message(None, "12345"));
}

#[test]
fn a_certificate_is_issued_again_for_the_machine_the_subject_names() {
    let subject = format!("machine.{}.provisioning.cert.re_issue", sha256::digest("12345"));
    let request = |id: &str| Some(ReIssueCertificateRequest { machine_id: id.to_string() });
    let mut p =
        process_re_issue_certificate_request("http://stub", "~/.mecha_test", &subject, request("12345")).unwrap();
    run_cryptography(&mut p, "http://stub/v1/provisioning/cert/sign", CertSignRequestType::ReIssue);
    assert_eq!(p.advance(ok()), ProvisionAction::Finished(Ok(true)));

    assert_eq!(
        process_re_issue_certificate_request("http://stub", "/d", &subject, request("54321")).err(),
        Some(ProvisioningErrorCodes::InvalidMachineIdError)
    );
    assert_eq!(
        process_re_issue_certificate_request("http://stub", "/d", "machine.12345.x", request("12345")).err(),
        Some(ProvisioningErrorCodes::InvalidMachineIdError)
    );
    assert_eq!(
        process_re_issue_certificate_request("http://stub", "/d", &subject, None).err(),
        Some(ProvisioningErrorCodes::PayloadDeserializationError)
    );
}

#[test]
fn a_request_to_deprovision_goes_first() {
    assert_eq!(serve_first(true, true), Some(BrokerRequest::Deprovision));
    assert_eq!(serve_first(true, false), Some(BrokerRequest::Deprovision));
    assert_eq!(serve_first(false, true), Some(BrokerRequest::ReIssueCertificate));
    assert_eq!(serve_first(false, false), None);
}

#[test]
fn a_code_character_is_the_upper_case_form() {
    assert_eq!(code_char(b'a'), 'A');
    assert_eq!(code_char(b'z'), 'Z');
    assert_eq!(code_char(b'Q'), 'Q');
    assert_eq!(code_char(b'0'), '0');
    assert_eq!(code_char(b'9'), '9');
    assert_eq!(code_char(b'-'), '-');
}

#[test]
fn the_key_and_the_request_are_made_with_these_arguments() {
    assert_eq!(
        generate_ec_private_key("key.pem", PrivateKeySize::EcP521),
        vec!["ecparam", "-name", "secp521r1", "-genkey", "-noout", "-out", "key.pem"]
    );
    assert_eq!(generate_ec_private_key("k", PrivateKeySize::EcP256)[2], "secp256r1");
    assert_eq!(generate_ec_private_key("k", PrivateKeySize::EcP384)[2], "secp384r1");
    assert_eq!(
        generate_csr("req.pem", "key.pem", "12345"),
        vec!["req", "-new", "-sha256", "-key", "key.pem", "-subj", "/C=/ST=/L=/O=/OU=/CN=12345", "-out", "req.pem"]
    );
    assert_eq!(PrivateKeySize::EcP256.to_string(), "EC_P256");
    assert_eq!(PrivateKeySize::EcP384.to_string(), "EC_P384");
    assert_eq!(PrivateKeySize::EcP521.to_string(), "EC_P521");
}
