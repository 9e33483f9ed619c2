//! The provisioning state machine: code generation, manifest lookup,
//! key and signing request, certificate signing, persistence of the signed
//! certificates; and the way back, deprovisioning.
//!
//! The machine itself touches neither network nor disk. It names one action
//! at a time; whoever drives it performs the action and reports how it
//! went.

use crate::constants::{
    CA_BUNDLE_PATH, CERT_PATH, CERT_SIGN_URL_QUERY_PATH, CSR_PATH, DB_PATH,
    FIND_MANIFEST_URL_QUERY_PATH, PING_QUERY_PATH, PRIVATE_KEY_PATH, ROOT_CERT_PATH,
};
use crate::digest::{digest, sha256_hex};
use crate::errors::ProvisioningErrorCodes;
use crate::events::{send_event, Event, ProvisioningEvent};
use crate::headers::opt_view;
use crate::http::{classify_status, status_class, HttpReply, StatusClass};
use crate::text::{
    ascii_upper, contains, has_infix, join2, join3, same_text, to_ascii_upper, views,
};
use vstd::prelude::*;

verus! {

/// An error as the backend words it.
#[derive(Clone, Debug, PartialEq, Eq)]
pub struct ErrorResponse {
    pub status: i32,
    pub message: String,
}

/// What a ping that was answered well gives.
#[derive(Clone, Debug, PartialEq, Eq)]
pub struct PingResponse {
    pub code: String,
    pub message: String,
}

/// The frame the backend puts round every payload.
#[derive(Clone, Debug, PartialEq, Eq)]
pub struct ProvisioningServerResponseGeneric<T> {
    pub success: bool,
    pub status: String,
    pub status_code: i16,
    pub message: Option<String>,
    pub error_code: Option<String>,
    pub sub_errors: Option<String>,
    pub payload: T,
}

/// What the backend knows of a machine that is to be provisioned.
#[derive(Clone, Debug, PartialEq, Eq)]
pub struct ProvisioningManifest {
    pub machine_id: String,
    pub cert_sign_url: String,
    pub cert_valid_upto: String,
}

/// Why a certificate is asked for.
#[derive(Clone, Copy, Debug, PartialEq, Eq, Structural)]
pub enum CertSignRequestType {
    Provision,
    ReIssue,
}

/// The request to sign a certificate signing request.
#[derive(Clone, Debug, PartialEq, Eq)]
pub struct SignCSRRequest {
    pub csr: String,
    pub machine_id: String,
    pub request_type: CertSignRequestType,
}

/// The certificates the backend signs and sends.
#[derive(Clone, Debug, PartialEq, Eq)]
pub struct SignedCertificates {
    pub cert: String,
    pub root_cert: String,
    pub ca_bundle: Vec<String>,
}

/// The subscriptions provisioning holds; `S` is the broker's subscription.
#[derive(Debug)]
pub struct ProvisioningSubscriber<S> {
    pub de_provisioning_request: Option<S>,
    pub re_issue_certificate: Option<S>,
}

/// The subjects provisioning listens on.
#[derive(Clone, Debug, PartialEq, Eq)]
pub enum ProvisioningSubject {
    DeProvision(String),
    ReIssueCertificate(String),
}

/// A request to deprovision, as it arrives over the bus.
#[derive(Clone, Debug, PartialEq, Eq)]
pub struct DeprovisionRequest {
    pub machine_id: String,
}

/// A request to issue the certificate again, as it arrives over the bus.
#[derive(Clone, Debug, PartialEq, Eq)]
pub struct ReIssueCertificateRequest {
    pub machine_id: String,
}

/// Why the file system refused.
#[derive(Clone, Debug, PartialEq, Eq)]
pub struct FileSystemError {
    pub message: String,
}

/// The file system as deprovisioning needs it. An implementation may say
/// itself what it stands for when it reports success: `removes` and
/// `removes_dir` are its own account of having removed what it was told
/// to. One that gives no account promises nothing by its success.
pub trait FileSystem {
    /// This file system's account of having removed these files.
    open spec fn removes(&self, files: Seq<Seq<char>>) -> bool {
        true
    }

    /// This file system's account of having removed this directory.
    open spec fn removes_dir(&self, path: Seq<char>) -> bool {
        true
    }

    /// Removes the files named; a file that is not there is no failure.
    fn remove_files(&self, files: Vec<String>) -> (r: Result<(), FileSystemError>)
        ensures
            r is Ok ==> self.removes(views(files@)),
    ;

    /// Removes a directory and all that is in it.
    fn remove_dir_all(&self, path: &str) -> (r: Result<(), FileSystemError>)
        ensures
            r is Ok ==> self.removes_dir(path@),
    ;
}

impl<S> ProvisioningSubscriber<S> {
    /// No subscription yet.
    pub fn new() -> (s: Self)
        ensures
            s.de_provisioning_request.is_none(),
            s.re_issue_certificate.is_none(),
    {
        ProvisioningSubscriber { de_provisioning_request: None, re_issue_certificate: None }
    }

    /// Files the subscription the broker gave for `subject` under the
    /// field that belongs to it.
    pub fn assign(&mut self, subject: &ProvisioningSubject, subscriber: S)
        ensures
            ({
                let before = *old(self);
                let after = *final(self);
                match *subject {
                    ProvisioningSubject::DeProvision(_) => {
                        &&& after.de_provisioning_request == Some(subscriber)
                        &&& after.re_issue_certificate == before.re_issue_certificate
                    },
                    ProvisioningSubject::ReIssueCertificate(_) => {
                        &&& after.re_issue_certificate == Some(subscriber)
                        &&& after.de_provisioning_request == before.de_provisioning_request
                    },
                }
            }),
    {
        match subject {
            ProvisioningSubject::DeProvision(_) => {
                self.de_provisioning_request = Some(subscriber);
            },
            ProvisioningSubject::ReIssueCertificate(_) => {
                self.re_issue_certificate = Some(subscriber);
            },
        }
    }
}

/// The subject on which a machine is told to deprovision.
pub open spec fn deprovision_subject(machine_id: Seq<char>) -> Seq<char> {
    "machine."@ + sha256_hex(machine_id) + ".deprovision"@
}

/// The subject on which a machine is told to have its certificate issued
/// again.
pub open spec fn re_issue_subject(machine_id: Seq<char>) -> Seq<char> {
    "machine."@ + sha256_hex(machine_id) + ".provisioning.cert.re_issue"@
}

/// The subjects to subscribe to for the machine `machine_id`: first the one
/// for deprovisioning, then the one for a new certificate.
pub fn subscribe_to_nats(machine_id: &str) -> (subjects: Vec<ProvisioningSubject>)
    ensures
        subjects@.len() == 2,
        subjects@[0] matches ProvisioningSubject::DeProvision(s) && s@ == deprovision_subject(
            machine_id@,
        ),
        subjects@[1] matches ProvisioningSubject::ReIssueCertificate(s) && s@ == re_issue_subject(
            machine_id@,
        ),
{
    let hash = digest(machine_id);
    let mut subjects: Vec<ProvisioningSubject> = Vec::new();
    subjects.push(
        ProvisioningSubject::DeProvision(join3("machine.", hash.as_str(), ".deprovision")),
    );
    subjects.push(
        ProvisioningSubject::ReIssueCertificate(
            join3("machine.", hash.as_str(), ".provisioning.cert.re_issue"),
        ),
    );
    subjects
}

/// What a ping gives, by the status the backend answered with: nothing
/// heard is `UnreachableError`; a 2xx status is success; 401, 404, 400 and
/// 500 have errors of their own; any other status is `UnknownError`.
pub open spec fn ping_outcome(status: Option<u16>) -> Result<(), ProvisioningErrorCodes> {
    match status {
        None => Err(ProvisioningErrorCodes::UnreachableError),
        Some(code) => match status_class(code) {
            StatusClass::Success => Ok(()),
            StatusClass::Unauthorized => Err(ProvisioningErrorCodes::UnauthorizedError),
            StatusClass::NotFound => Err(ProvisioningErrorCodes::NotFoundError),
            StatusClass::BadRequest => Err(ProvisioningErrorCodes::BadRequestError),
            StatusClass::ServerError => Err(ProvisioningErrorCodes::InternalServerError),
            StatusClass::Other => Err(ProvisioningErrorCodes::UnknownError),
        },
    }
}

/// The URL a ping goes to.
pub fn ping_url(service_url: &str) -> (url: String)
    ensures
        url@ == service_url@ + PING_QUERY_PATH@,
{
    join2(service_url, PING_QUERY_PATH)
}

/// Reads the answer to a ping: `status` is the status code the backend
/// answered with, `None` where it did not answer.
pub fn ping(status: Option<u16>) -> (r: Result<PingResponse, ProvisioningErrorCodes>)
    ensures
        match r {
            Ok(response) => ping_outcome(status) == Ok::<(), ProvisioningErrorCodes>(())
                && response.code@ == "success"@ && response.message@ == ""@,
            Err(e) => ping_outcome(status) == Err::<(), ProvisioningErrorCodes>(e),
        },
{
    match status {
        None => Err(ProvisioningErrorCodes::UnreachableError),
        Some(code) => match classify_status(code) {
            StatusClass::Success => Ok(
                PingResponse { code: "success".to_owned(), message: "".to_owned() },
            ),
            StatusClass::Unauthorized => Err(ProvisioningErrorCodes::UnauthorizedError),
            StatusClass::NotFound => Err(ProvisioningErrorCodes::NotFoundError),
            StatusClass::BadRequest => Err(ProvisioningErrorCodes::BadRequestError),
            StatusClass::ServerError => Err(ProvisioningErrorCodes::InternalServerError),
            StatusClass::Other => Err(ProvisioningErrorCodes::UnknownError),
        },
    }
}

/// A character of a provisioning code: an upper-case letter or a digit.
pub open spec fn is_code_char(c: char) -> bool {
    ('A' <= c && c <= 'Z') || ('0' <= c && c <= '9')
}

/// A letter of either case or a digit, as a byte.
pub open spec fn is_alphanumeric_byte(b: u8) -> bool {
    (0x41 <= b && b <= 0x5a) || (0x61 <= b && b <= 0x7a) || (0x30 <= b && b <= 0x39)
}

/// Draws one byte from `rand`'s `Alphanumeric` distribution with the
/// thread's generator. Every draw is an ASCII letter or digit; which one is
/// left to chance.
#[verifier::external_body]
fn random_alphanumeric() -> (b: u8)
    ensures
        is_alphanumeric_byte(b),
{
    rand::Rng::sample(&mut rand::thread_rng(), rand::distributions::Alphanumeric)
}

/// The code character a byte is turned into: its upper-case form. Every
/// letter and digit gives a character of a code.
pub fn code_char(b: u8) -> (c: char)
    ensures
        c == ascii_upper(b as char),
        is_alphanumeric_byte(b) ==> is_code_char(c),
{
    to_ascii_upper(b as char)
}

/// Makes a provisioning code: six characters, each an upper-case letter or
/// a digit, drawn at random.
pub fn generate_code() -> (r: Result<String, ProvisioningErrorCodes>)
    ensures
        r matches Ok(code) && code@.len() == 6 && forall|i: int|
            0 <= i < 6 ==> is_code_char(#[trigger] code@[i]),
{
    let mut code = String::new();
    let mut i: usize = 0;
    while i < 6
        invariant
            i <= 6,
            code@.len() == i,
            forall|j: int| 0 <= j < i ==> is_code_char(#[trigger] code@[j]),
        decreases 6 - i,
    {
        let c = code_char(random_alphanumeric());
        code.push(c);
        i += 1;
    }
    Ok(code)
}

/// How an answer of the backend is read that carries a payload: nothing
/// heard, and any status besides 2xx, 400, 404 and 500, is `UnknownError`;
/// 500, 400 and 404 have errors of their own; a 2xx answer whose body
/// could not be decoded is `ParseResponseError`; otherwise the payload.
pub open spec fn reply_outcome<T>(reply: HttpReply<T>) -> Result<T, ProvisioningErrorCodes> {
    match reply {
        HttpReply::Unreachable => Err(ProvisioningErrorCodes::UnknownError),
        HttpReply::Answered { status, payload } => match status_class(status) {
            StatusClass::Success => match payload {
                Some(p) => Ok(p),
                None => Err(ProvisioningErrorCodes::ParseResponseError),
            },
            StatusClass::ServerError => Err(ProvisioningErrorCodes::InternalServerError),
            StatusClass::BadRequest => Err(ProvisioningErrorCodes::BadRequestError),
            StatusClass::NotFound => Err(ProvisioningErrorCodes::NotFoundError),
            _ => Err(ProvisioningErrorCodes::UnknownError),
        },
    }
}

fn read_reply<T>(reply: HttpReply<T>) -> (r: Result<T, ProvisioningErrorCodes>)
    ensures
        r == reply_outcome(reply),
{
    match reply {
        HttpReply::Unreachable => Err(ProvisioningErrorCodes::UnknownError),
        HttpReply::Answered { status, payload } => match classify_status(status) {
            StatusClass::Success => match payload {
                Some(p) => Ok(p),
                None => Err(ProvisioningErrorCodes::ParseResponseError),
            },
            StatusClass::ServerError => Err(ProvisioningErrorCodes::InternalServerError),
            StatusClass::BadRequest => Err(ProvisioningErrorCodes::BadRequestError),
            StatusClass::NotFound => Err(ProvisioningErrorCodes::NotFoundError),
            _ => Err(ProvisioningErrorCodes::UnknownError),
        },
    }
}

/// The URL at which the manifest for a code is looked up.
pub fn manifest_url(service_url: &str, code: &str) -> (url: String)
    ensures
        url@ == service_url@ + FIND_MANIFEST_URL_QUERY_PATH@ + code@,
{
    join3(service_url, FIND_MANIFEST_URL_QUERY_PATH, code)
}

/// Reads the answer to a manifest lookup.
pub fn lookup_manifest(reply: HttpReply<ProvisioningManifest>) -> (r: Result<
    ProvisioningManifest,
    ProvisioningErrorCodes,
>)
    ensures
        r == reply_outcome(reply),
{
    read_reply(reply)
}

/// Reads the answer to a request for signing.
pub fn sign_csr(reply: HttpReply<SignedCertificates>) -> (r: Result<
    SignedCertificates,
    ProvisioningErrorCodes,
>)
    ensures
        r == reply_outcome(reply),
{
    read_reply(reply)
}

/// The JSON text of a list of strings, as `serde_json` writes it.
pub uninterp spec fn json_of_strings(items: Seq<Seq<char>>) -> Seq<char>;

/// Calls `serde_json::to_string` on a list of strings: the list as a JSON
/// array of JSON strings. The serialiser fails only where a value refuses
/// to be written or a map has keys that are no strings; a list of strings
/// does neither, so there is always a text, and the same list always gives
/// the same text.
#[verifier::external_body]
fn json_string_list(items: &Vec<String>) -> (r: Option<String>)
    ensures
        r is Some,
        opt_view(r) == Some(json_of_strings(views(items@))),
{
    serde_json::to_string(items).ok()
}

/// The bundle of intermediate certificates as it is written to disk: the
/// list as JSON.
pub fn ca_bundle_text(ca_bundle: &Vec<String>) -> (text: String)
    ensures
        text@ == json_of_strings(views(ca_bundle@)),
{
    match json_string_list(ca_bundle) {
        Some(text) => text,
        None => String::new(),
    }
}

/// The files of a data directory that hold the identity of the machine.
pub struct IdentityPaths {
    pub cert: Seq<char>,
    pub private_key: Seq<char>,
    pub csr: Seq<char>,
    pub ca_bundle: Seq<char>,
    pub root_cert: Seq<char>,
}

/// Where the identity files lie below `data_dir`.
pub open spec fn identity_paths(data_dir: Seq<char>) -> IdentityPaths {
    IdentityPaths {
        cert: data_dir + CERT_PATH@,
        private_key: data_dir + PRIVATE_KEY_PATH@,
        csr: data_dir + CSR_PATH@,
        ca_bundle: data_dir + CA_BUNDLE_PATH@,
        root_cert: data_dir + ROOT_CERT_PATH@,
    }
}

/// The files deprovisioning removes, in the order in which they are named:
/// certificate, private key, signing request, bundle, root certificate.
pub open spec fn identity_files(data_dir: Seq<char>) -> Seq<Seq<char>> {
    let p = identity_paths(data_dir);
    seq![p.cert, p.private_key, p.csr, p.ca_bundle, p.root_cert]
}

/// Names the files that hold the identity of the machine.
pub fn identity_file_list(data_dir: &str) -> (files: Vec<String>)
    ensures
        views(files@) == identity_files(data_dir@),
{
    let mut files: Vec<String> = Vec::new();
    files.push(join2(data_dir, CERT_PATH));
    files.push(join2(data_dir, PRIVATE_KEY_PATH));
    files.push(join2(data_dir, CSR_PATH));
    files.push(join2(data_dir, CA_BUNDLE_PATH));
    files.push(join2(data_dir, ROOT_CERT_PATH));
    assert(views(files@) =~= identity_files(data_dir@));
    files
}

/// The steps of provisioning. Each but the last waits for the report on
/// one action.
#[derive(Clone, Copy, Debug, PartialEq, Eq)]
pub enum ProvisionStep {
    /// The manifest is being looked up.
    Manifest,
    /// The private key is being generated.
    PrivateKey,
    /// The signing request is being generated.
    Csr,
    /// The signing request is being read back.
    CsrRead,
    /// The backend is signing.
    Sign,
    /// The machine certificate is being written.
    WriteCert,
    /// The bundle of intermediate certificates is being written.
    WriteCaBundle,
    /// The root certificate is being written.
    WriteRootCert,
    /// `Provisioned` is being published.
    Announce,
    /// Nothing is left to do; the outcome is known.
    Done(Result<bool, ProvisioningErrorCodes>),
}

/// What the driver of a provisioning reports.
#[derive(Clone, Debug, PartialEq, Eq)]
pub enum ProvisionEvent {
    /// The backend's answer to the manifest lookup.
    Manifest(HttpReply<ProvisioningManifest>),
    /// Whether the action that neither reads nor asks (generate, write,
    /// publish) succeeded.
    Completed(bool),
    /// The text of the signing request, `None` where it could not be read.
    CsrText(Option<String>),
    /// The backend's answer to the request for signing.
    Certificates(HttpReply<SignedCertificates>),
}

/// What the driver of a provisioning is to do next.
#[derive(Debug, PartialEq, Eq)]
pub enum ProvisionAction {
    LookupManifest { url: String },
    GeneratePrivateKey { path: String },
    GenerateCsr { path: String, private_key_path: String, common_name: String },
    ReadCsr { path: String },
    SignCsr { url: String, request: SignCSRRequest },
    WriteFile { path: String, contents: String },
    Publish(ProvisioningEvent),
    Finished(Result<bool, ProvisioningErrorCodes>),
}

/// An action, as texts.
pub enum ActionModel {
    LookupManifest { url: Seq<char> },
    GeneratePrivateKey { path: Seq<char> },
    GenerateCsr { path: Seq<char>, private_key_path: Seq<char>, common_name: Seq<char> },
    ReadCsr { path: Seq<char> },
    SignCsr {
        url: Seq<char>,
        csr: Seq<char>,
        machine_id: Seq<char>,
        request_type: CertSignRequestType,
    },
    WriteFile { path: Seq<char>, contents: Seq<char> },
    Publish(ProvisioningEvent),
    Finished(Result<bool, ProvisioningErrorCodes>),
}

impl View for ProvisionAction {
    type V = ActionModel;

    open spec fn view(&self) -> ActionModel {
        match *self {
            ProvisionAction::LookupManifest { url } => ActionModel::LookupManifest { url: url@ },
            ProvisionAction::GeneratePrivateKey { path } => ActionModel::GeneratePrivateKey {
                path: path@,
            },
            ProvisionAction::GenerateCsr {
                path,
                private_key_path,
                common_name,
            } => ActionModel::GenerateCsr {
                path: path@,
                private_key_path: private_key_path@,
                common_name: common_name@,
            },
            ProvisionAction::ReadCsr { path } => ActionModel::ReadCsr { path: path@ },
            ProvisionAction::SignCsr { url, request } => ActionModel::SignCsr {
                url: url@,
                csr: request.csr@,
                machine_id: request.machine_id@,
                request_type: request.request_type,
            },
            ProvisionAction::WriteFile { path, contents } => ActionModel::WriteFile {
                path: path@,
                contents: contents@,
            },
            ProvisionAction::Publish(event) => ActionModel::Publish(event),
            ProvisionAction::Finished(result) => ActionModel::Finished(result),
        }
    }
}

/// A provisioning under way.
pub struct Provisioning {
    service_url: String,
    data_dir: String,
    code: String,
    machine_id: String,
    cert_sign_url: String,
    request_type: CertSignRequestType,
    announce: bool,
    csr: String,
    cert: String,
    ca_bundle: String,
    root_cert: String,
    step: ProvisionStep,
}

/// What a provisioning under way is: where it stands and what it has
/// learnt so far.
pub struct ProvisioningModel {
    pub service_url: Seq<char>,
    pub data_dir: Seq<char>,
    pub code: Seq<char>,
    pub machine_id: Seq<char>,
    pub cert_sign_url: Seq<char>,
    pub request_type: CertSignRequestType,
    pub announce: bool,
    pub csr: Seq<char>,
    pub cert: Seq<char>,
    pub ca_bundle: Seq<char>,
    pub root_cert: Seq<char>,
    pub step: ProvisionStep,
}

/// The action a provisioning waits for at its step.
pub open spec fn action_of(m: ProvisioningModel) -> ActionModel {
    let p = identity_paths(m.data_dir);
    match m.step {
        ProvisionStep::Manifest => ActionModel::LookupManifest {
            url: m.service_url + FIND_MANIFEST_URL_QUERY_PATH@ + m.code,
        },
        ProvisionStep::PrivateKey => ActionModel::GeneratePrivateKey { path: p.private_key },
        ProvisionStep::Csr => ActionModel::GenerateCsr {
            path: p.csr,
            private_key_path: p.private_key,
            common_name: m.machine_id,
        },
        ProvisionStep::CsrRead => ActionModel::ReadCsr { path: p.csr },
        ProvisionStep::Sign => ActionModel::SignCsr {
            url: m.service_url + m.cert_sign_url,
            csr: m.csr,
            machine_id: m.machine_id,
            request_type: m.request_type,
        },
        ProvisionStep::WriteCert => ActionModel::WriteFile { path: p.cert, contents: m.cert },
        ProvisionStep::WriteCaBundle => ActionModel::WriteFile {
            path: p.ca_bundle,
            contents: m.ca_bundle,
        },
        ProvisionStep::WriteRootCert => ActionModel::WriteFile {
            path: p.root_cert,
            contents: m.root_cert,
        },
        ProvisionStep::Announce => ActionModel::Publish(ProvisioningEvent::Provisioned),
        ProvisionStep::Done(result) => ActionModel::Finished(result),
    }
}

/// A provisioning that has failed.
pub open spec fn failed(m: ProvisioningModel, e: ProvisioningErrorCodes) -> ProvisioningModel {
    ProvisioningModel { step: ProvisionStep::Done(Err(e)), ..m }
}

/// A provisioning moved on to another step.
pub open spec fn at(m: ProvisioningModel, step: ProvisionStep) -> ProvisioningModel {
    ProvisioningModel { step, ..m }
}

/// The error a step ends with when its action is reported to have failed.
pub open spec fn failure_of(step: ProvisionStep) -> ProvisioningErrorCodes {
    match step {
        ProvisionStep::PrivateKey => ProvisioningErrorCodes::CryptoGeneratePrivateKeyError,
        ProvisionStep::Csr => ProvisioningErrorCodes::CryptoGenerateCSRError,
        ProvisionStep::CsrRead => ProvisioningErrorCodes::CSRSignReadFileError,
        ProvisionStep::WriteCert => ProvisioningErrorCodes::CertificateWriteError,
        ProvisionStep::WriteCaBundle => ProvisioningErrorCodes::CertificateWriteError,
        ProvisionStep::WriteRootCert => ProvisioningErrorCodes::CertificateWriteError,
        ProvisionStep::Announce => ProvisioningErrorCodes::SendEventError,
        _ => ProvisioningErrorCodes::UnknownError,
    }
}

/// Where a provisioning stands after a report. Each step goes on to the
/// next when its action succeeded and ends the provisioning with the step's
/// error when it failed; a report of a kind the step does not wait for ends
/// it with `UnknownError`; a provisioning that is done stays as it is.
pub open spec fn next(m: ProvisioningModel, event: ProvisionEvent) -> ProvisioningModel {
    match (m.step, event) {
        (ProvisionStep::Done(_), _) => m,
        (ProvisionStep::Manifest, ProvisionEvent::Manifest(reply)) => match reply_outcome(reply) {
            Ok(manifest) => ProvisioningModel {
                machine_id: manifest.machine_id@,
                cert_sign_url: manifest.cert_sign_url@,
                step: ProvisionStep::PrivateKey,
                ..m
            },
            Err(e) => failed(m, e),
        },
        (ProvisionStep::PrivateKey, ProvisionEvent::Completed(true)) => at(m, ProvisionStep::Csr),
        (ProvisionStep::Csr, ProvisionEvent::Completed(true)) => at(m, ProvisionStep::CsrRead),
        (ProvisionStep::CsrRead, ProvisionEvent::CsrText(Some(text))) => ProvisioningModel {
            csr: text@,
            step: ProvisionStep::Sign,
            ..m
        },
        (ProvisionStep::CsrRead, ProvisionEvent::CsrText(None)) => failed(
            m,
            failure_of(ProvisionStep::CsrRead),
        ),
        (ProvisionStep::Sign, ProvisionEvent::Certificates(reply)) => match reply_outcome(reply) {
            Ok(signed) => ProvisioningModel {
                cert: signed.cert@,
                ca_bundle: json_of_strings(views(signed.ca_bundle@)),
                root_cert: signed.root_cert@,
                step: ProvisionStep::WriteCert,
                ..m
            },
            Err(e) => failed(m, e),
        },
        (ProvisionStep::WriteCert, ProvisionEvent::Completed(true)) => at(
            m,
            ProvisionStep::WriteCaBundle,
        ),
        (ProvisionStep::WriteCaBundle, ProvisionEvent::Completed(true)) => at(
            m,
            ProvisionStep::WriteRootCert,
        ),
        (ProvisionStep::WriteRootCert, ProvisionEvent::Completed(true)) => if m.announce {
            at(m, ProvisionStep::Announce)
        } else {
            at(m, ProvisionStep::Done(Ok(true)))
        },
        (ProvisionStep::Announce, ProvisionEvent::Completed(true)) => at(
            m,
            ProvisionStep::Done(Ok(true)),
        ),
        (_, ProvisionEvent::Completed(false)) => failed(m, failure_of(m.step)),
        _ => failed(m, ProvisioningErrorCodes::UnknownError),
    }
}

impl View for Provisioning {
    type V = ProvisioningModel;

    closed spec fn view(&self) -> ProvisioningModel {
        ProvisioningModel {
            service_url: self.service_url@,
            data_dir: self.data_dir@,
            code: self.code@,
            machine_id: self.machine_id@,
            cert_sign_url: self.cert_sign_url@,
            request_type: self.request_type,
            announce: self.announce,
            csr: self.csr@,
            cert: self.cert@,
            ca_bundle: self.ca_bundle@,
            root_cert: self.root_cert@,
            step: self.step,
        }
    }
}

/// A provisioning before anything is known.
pub open spec fn fresh(
    service_url: Seq<char>,
    data_dir: Seq<char>,
    request_type: CertSignRequestType,
) -> ProvisioningModel {
    ProvisioningModel {
        service_url,
        data_dir,
        code: Seq::<char>::empty(),
        machine_id: Seq::<char>::empty(),
        cert_sign_url: Seq::<char>::empty(),
        request_type,
        announce: false,
        csr: Seq::<char>::empty(),
        cert: Seq::<char>::empty(),
        ca_bundle: Seq::<char>::empty(),
        root_cert: Seq::<char>::empty(),
        step: ProvisionStep::Manifest,
    }
}

/// How provisioning by a code starts: with the lookup of the manifest, and
/// with `Provisioned` to be published at the end.
pub open spec fn provisioning_by_code(
    service_url: Seq<char>,
    data_dir: Seq<char>,
    code: Seq<char>,
) -> ProvisioningModel {
    ProvisioningModel {
        code,
        announce: true,
        ..fresh(service_url, data_dir, CertSignRequestType::Provision)
    }
}

/// How the key and certificate work for a known machine starts: with the
/// private key, and with nothing to publish at the end.
pub open spec fn cryptography_operation(
    service_url: Seq<char>,
    machine_id: Seq<char>,
    cert_sign_url: Seq<char>,
    data_dir: Seq<char>,
    request_type: CertSignRequestType,
) -> ProvisioningModel {
    ProvisioningModel {
        machine_id,
        cert_sign_url,
        step: ProvisionStep::PrivateKey,
        ..fresh(service_url, data_dir, request_type)
    }
}

impl Provisioning {
    /// Where the provisioning stands.
    pub fn step(&self) -> (step: ProvisionStep)
        ensures
            step == self@.step,
    {
        self.step
    }

    /// The outcome, once the provisioning is done.
    pub fn outcome(&self) -> (r: Option<Result<bool, ProvisioningErrorCodes>>)
        ensures
            r == match self@.step {
                ProvisionStep::Done(result) => Some(result),
                _ => None,
            },
    {
        match self.step {
            ProvisionStep::Done(result) => Some(result),
            _ => None,
        }
    }

    /// The action the provisioning waits for.
    pub fn action(&self) -> (action: ProvisionAction)
        ensures
            action@ == action_of(self@),
    {
        let data_dir = self.data_dir.as_str();
        match self.step {
            ProvisionStep::Manifest => ProvisionAction::LookupManifest {
                url: manifest_url(self.service_url.as_str(), self.code.as_str()),
            },
            ProvisionStep::PrivateKey => ProvisionAction::GeneratePrivateKey {
                path: join2(data_dir, PRIVATE_KEY_PATH),
            },
            ProvisionStep::Csr => ProvisionAction::GenerateCsr {
                path: join2(data_dir, CSR_PATH),
                private_key_path: join2(data_dir, PRIVATE_KEY_PATH),
                common_name: self.machine_id.clone(),
            },
            ProvisionStep::CsrRead => ProvisionAction::ReadCsr { path: join2(data_dir, CSR_PATH) },
            ProvisionStep::Sign => ProvisionAction::SignCsr {
                url: join2(self.service_url.as_str(), self.cert_sign_url.as_str()),
                request: SignCSRRequest {
                    csr: self.csr.clone(),
                    machine_id: self.machine_id.clone(),
                    request_type: self.request_type,
                },
            },
            ProvisionStep::WriteCert => ProvisionAction::WriteFile {
                path: join2(data_dir, CERT_PATH),
                contents: self.cert.clone(),
            },
            ProvisionStep::WriteCaBundle => ProvisionAction::WriteFile {
                path: join2(data_dir, CA_BUNDLE_PATH),
                contents: self.ca_bundle.clone(),
            },
            ProvisionStep::WriteRootCert => ProvisionAction::WriteFile {
                path: join2(data_dir, ROOT_CERT_PATH),
                contents: self.root_cert.clone(),
            },
            ProvisionStep::Announce => ProvisionAction::Publish(ProvisioningEvent::Provisioned),
            ProvisionStep::Done(result) => ProvisionAction::Finished(result),
        }
    }

    /// Takes the report on the action the provisioning waited for and names
    /// the next action.
    pub fn advance(&mut self, event: ProvisionEvent) -> (action: ProvisionAction)
        ensures
            final(self)@ == next(old(self)@, event),
            action@ == action_of(final(self)@),
    {
        match (self.step, event) {
            (ProvisionStep::Done(_), _) => {},
            (ProvisionStep::Manifest, ProvisionEvent::Manifest(reply)) => {
                match lookup_manifest(reply) {
                    Ok(manifest) => {
                        self.machine_id = manifest.machine_id;
                        self.cert_sign_url = manifest.cert_sign_url;
                        self.step = ProvisionStep::PrivateKey;
                    },
                    Err(e) => {
                        self.step = ProvisionStep::Done(Err(e));
                    },
                }
            },
            (ProvisionStep::PrivateKey, ProvisionEvent::Completed(true)) => {
                self.step = ProvisionStep::Csr;
            },
            (ProvisionStep::Csr, ProvisionEvent::Completed(true)) => {
                self.step = ProvisionStep::CsrRead;
            },
            (ProvisionStep::CsrRead, ProvisionEvent::CsrText(Some(text))) => {
                self.csr = text;
                self.step = ProvisionStep::Sign;
            },
            (ProvisionStep::CsrRead, ProvisionEvent::CsrText(None)) => {
                self.step = ProvisionStep::Done(Err(ProvisioningErrorCodes::CSRSignReadFileError));
            },
            (ProvisionStep::Sign, ProvisionEvent::Certificates(reply)) => {
                match sign_csr(reply) {
                    Ok(signed) => {
                        self.ca_bundle = ca_bundle_text(&signed.ca_bundle);
                        self.cert = signed.cert;
                        self.root_cert = signed.root_cert;
                        self.step = ProvisionStep::WriteCert;
                    },
                    Err(e) => {
                        self.step = ProvisionStep::Done(Err(e));
                    },
                }
            },
            (ProvisionStep::WriteCert, ProvisionEvent::Completed(true)) => {
                self.step = ProvisionStep::WriteCaBundle;
            },
            (ProvisionStep::WriteCaBundle, ProvisionEvent::Completed(true)) => {
                self.step = ProvisionStep::WriteRootCert;
            },
            (ProvisionStep::WriteRootCert, ProvisionEvent::Completed(true)) => {
                if self.announce {
                    self.step = ProvisionStep::Announce;
                } else {
                    self.step = ProvisionStep::Done(Ok(true));
                }
            },
            (ProvisionStep::Announce, ProvisionEvent::Completed(true)) => {
                self.step = ProvisionStep::Done(Ok(true));
            },
            (step, ProvisionEvent::Completed(false)) => {
                let e = match step {
                    ProvisionStep::PrivateKey => ProvisioningErrorCodes::CryptoGeneratePrivateKeyError,
                    ProvisionStep::Csr => ProvisioningErrorCodes::CryptoGenerateCSRError,
                    ProvisionStep::CsrRead => ProvisioningErrorCodes::CSRSignReadFileError,
                    ProvisionStep::WriteCert => ProvisioningErrorCodes::CertificateWriteError,
                    ProvisionStep::WriteCaBundle => ProvisioningErrorCodes::CertificateWriteError,
                    ProvisionStep::WriteRootCert => ProvisioningErrorCodes::CertificateWriteError,
                    ProvisionStep::Announce => ProvisioningErrorCodes::SendEventError,
                    _ => ProvisioningErrorCodes::UnknownError,
                };
                self.step = ProvisionStep::Done(Err(e));
            },
            _ => {
                self.step = ProvisionStep::Done(Err(ProvisioningErrorCodes::UnknownError));
            },
        }
        self.action()
    }
}

fn fresh_provisioning(service_url: &str, data_dir: &str, request_type: CertSignRequestType) -> (p:
    Provisioning)
    ensures
        p@ == fresh(service_url@, data_dir@, request_type),
{
    Provisioning {
        service_url: service_url.to_owned(),
        data_dir: data_dir.to_owned(),
        code: String::new(),
        machine_id: String::new(),
        cert_sign_url: String::new(),
        request_type,
        announce: false,
        csr: String::new(),
        cert: String::new(),
        ca_bundle: String::new(),
        root_cert: String::new(),
        step: ProvisionStep::Manifest,
    }
}

/// Starts the provisioning of this machine by a code: the manifest for the
/// code is looked up, a key and a signing request for the machine it names
/// are made, the backend signs at the URL the manifest gives, the signed
/// certificates are written, and `Provisioned` is published.
pub fn provision_by_code(service_url: &str, data_dir: &str, code: &str) -> (p: Provisioning)
    ensures
        p@ == provisioning_by_code(service_url@, data_dir@, code@),
{
    let mut p = fresh_provisioning(service_url, data_dir, CertSignRequestType::Provision);
    p.code = code.to_owned();
    p.announce = true;
    p
}

/// Starts the key and certificate work for a machine that is known: as
/// provisioning by a code, without the lookup before and the event after.
pub fn perform_cryptography_operation(
    service_url: &str,
    machine_id: &str,
    cert_sign_url: &str,
    data_dir: &str,
    request_type: CertSignRequestType,
) -> (p: Provisioning)
    ensures
        p@ == cryptography_operation(
            service_url@,
            machine_id@,
            cert_sign_url@,
            data_dir@,
            request_type,
        ),
{
    let mut p = fresh_provisioning(service_url, data_dir, request_type);
    p.machine_id = machine_id.to_owned();
    p.cert_sign_url = cert_sign_url.to_owned();
    p.step = ProvisionStep::PrivateKey;
    p
}

/// The writes that persist signed certificates, in their order: the
/// machine certificate, the bundle, the root certificate.
pub open spec fn certificate_writes(
    data_dir: Seq<char>,
    cert: Seq<char>,
    ca_bundle: Seq<char>,
    root_cert: Seq<char>,
) -> Seq<(Seq<char>, Seq<char>)> {
    let p = identity_paths(data_dir);
    seq![(p.cert, cert), (p.ca_bundle, ca_bundle), (p.root_cert, root_cert)]
}

/// Names the files to write for signed certificates, each with its
/// contents, in the order in which they are written.
pub fn write_certificates_to_path(data_dir: &str, cert: &str, ca_bundle: &str, root_cert: &str) -> (w:
    Vec<(String, String)>)
    ensures
        crate::text::pair_views(w@) == certificate_writes(
            data_dir@,
            cert@,
            ca_bundle@,
            root_cert@,
        ),
{
    let mut w: Vec<(String, String)> = Vec::new();
    w.push((join2(data_dir, CERT_PATH), cert.to_owned()));
    w.push((join2(data_dir, CA_BUNDLE_PATH), ca_bundle.to_owned()));
    w.push((join2(data_dir, ROOT_CERT_PATH), root_cert.to_owned()));
    assert(crate::text::pair_views(w@) =~= certificate_writes(
        data_dir@,
        cert@,
        ca_bundle@,
        root_cert@,
    ));
    w
}

/// Whether a request to issue the certificate again is meant for the
/// machine it names: the subject it came on holds the digest of that id.
pub open spec fn re_issue_is_for(subject: Seq<char>, machine_id: Seq<char>) -> bool {
    has_infix(subject, sha256_hex(machine_id))
}

/// Takes in a request to issue the certificate again. `request` is the
/// decoded payload, `None` where it could not be decoded. Where the
/// subject carries the digest of the machine id the request names, the key
/// and certificate work starts, with the signing endpoint for re-issue.
pub fn process_re_issue_certificate_request(
    service_url: &str,
    data_dir: &str,
    subject: &str,
    request: Option<ReIssueCertificateRequest>,
) -> (r: Result<Provisioning, ProvisioningErrorCodes>)
    ensures
        match r {
            Ok(p) => request.is_some() && re_issue_is_for(subject@, request.unwrap().machine_id@)
                && p@ == cryptography_operation(
                service_url@,
                request.unwrap().machine_id@,
                CERT_SIGN_URL_QUERY_PATH@,
                data_dir@,
                CertSignRequestType::ReIssue,
            ),
            Err(e) => match request {
                None => e == ProvisioningErrorCodes::PayloadDeserializationError,
                Some(named) => !re_issue_is_for(subject@, named.machine_id@) && e
                    == ProvisioningErrorCodes::InvalidMachineIdError,
            },
        },
{
    match request {
        None => Err(ProvisioningErrorCodes::PayloadDeserializationError),
        Some(named) => {
            let hashed_machine_id = digest(named.machine_id.as_str());
            if !contains(subject, hashed_machine_id.as_str()) {
                return Err(ProvisioningErrorCodes::InvalidMachineIdError);
            }
            Ok(
                perform_cryptography_operation(
                    service_url,
                    named.machine_id.as_str(),
                    CERT_SIGN_URL_QUERY_PATH,
                    data_dir,
                    CertSignRequestType::ReIssue,
                ),
            )
        },
    }
}

/// Whether a request to deprovision is to be followed: it is decoded and
/// names this machine.
pub fn await_deprovision_message(request: Option<DeprovisionRequest>, machine_id: &str) -> (follow:
    bool)
    ensures
        follow == (request.is_some() && request.unwrap().machine_id@ == machine_id@),
{
    match request {
        Some(named) => same_text(named.machine_id.as_str(), machine_id),
        None => false,
    }
}

/// The requests that can wait for the machine on the bus.
#[derive(Clone, Copy, Debug, PartialEq, Eq, Structural)]
pub enum BrokerRequest {
    Deprovision,
    ReIssueCertificate,
}

/// Which of the requests that wait is served: the one to deprovision
/// before any other, since it takes away the key a new certificate would
/// need; nothing where none waits.
pub fn serve_first(deprovision_waits: bool, re_issue_waits: bool) -> (first: Option<BrokerRequest>)
    ensures
        first == if deprovision_waits {
            Some(BrokerRequest::Deprovision)
        } else if re_issue_waits {
            Some(BrokerRequest::ReIssueCertificate)
        } else {
            None
        },
{
    if deprovision_waits {
        Some(BrokerRequest::Deprovision)
    } else if re_issue_waits {
        Some(BrokerRequest::ReIssueCertificate)
    } else {
        None
    }
}

/// The steps of deprovisioning.
#[derive(Clone, Copy, Debug, PartialEq, Eq)]
pub enum DeprovisionStep {
    /// The identity files are being removed.
    RemoveFiles,
    /// `Deprovisioned` is being published.
    Announce,
    /// The key-value store is being removed.
    RemoveStore,
    /// Nothing is left to do; the outcome is known.
    Done(Result<bool, ProvisioningErrorCodes>),
}

/// What the driver of a deprovisioning is to do next.
#[derive(Debug, PartialEq, Eq)]
pub enum DeprovisionAction {
    RemoveFiles(Vec<String>),
    Publish(ProvisioningEvent),
    RemoveDirAll(String),
    Finished(Result<bool, ProvisioningErrorCodes>),
}

/// An action of deprovisioning, as texts.
pub enum DeprovisionActionModel {
    RemoveFiles(Seq<Seq<char>>),
    Publish(ProvisioningEvent),
    RemoveDirAll(Seq<char>),
    Finished(Result<bool, ProvisioningErrorCodes>),
}

impl View for DeprovisionAction {
    type V = DeprovisionActionModel;

    open spec fn view(&self) -> DeprovisionActionModel {
        match *self {
            DeprovisionAction::RemoveFiles(files) => DeprovisionActionModel::RemoveFiles(
                views(files@),
            ),
            DeprovisionAction::Publish(event) => DeprovisionActionModel::Publish(event),
            DeprovisionAction::RemoveDirAll(path) => DeprovisionActionModel::RemoveDirAll(path@),
            DeprovisionAction::Finished(result) => DeprovisionActionModel::Finished(result),
        }
    }
}

/// The action deprovisioning waits for at a step: first the five identity
/// files are removed, then `Deprovisioned` is published, then the store
/// below the data directory is removed.
pub open spec fn deprovision_action(data_dir: Seq<char>, step: DeprovisionStep) -> DeprovisionActionModel {
    match step {
        DeprovisionStep::RemoveFiles => DeprovisionActionModel::RemoveFiles(
            identity_files(data_dir),
        ),
        DeprovisionStep::Announce => DeprovisionActionModel::Publish(
            ProvisioningEvent::Deprovisioned,
        ),
        DeprovisionStep::RemoveStore => DeprovisionActionModel::RemoveDirAll(data_dir + DB_PATH@),
        DeprovisionStep::Done(result) => DeprovisionActionModel::Finished(result),
    }
}

/// The step after a report: on success the next one, on failure the end,
/// with the error of the step that failed.
pub open spec fn deprovision_next(step: DeprovisionStep, succeeded: bool) -> DeprovisionStep {
    match step {
        DeprovisionStep::RemoveFiles => if succeeded {
            DeprovisionStep::Announce
        } else {
            DeprovisionStep::Done(Err(ProvisioningErrorCodes::CertificateRemoveError))
        },
        DeprovisionStep::Announce => if succeeded {
            DeprovisionStep::RemoveStore
        } else {
            DeprovisionStep::Done(Err(ProvisioningErrorCodes::SendEventError))
        },
        DeprovisionStep::RemoveStore => if succeeded {
            DeprovisionStep::Done(Ok(true))
        } else {
            DeprovisionStep::Done(Err(ProvisioningErrorCodes::SettingsDatabaseDeleteError))
        },
        DeprovisionStep::Done(result) => DeprovisionStep::Done(result),
    }
}

/// How many actions are still to come from a step on, at most.
pub open spec fn deprovision_steps_left(step: DeprovisionStep) -> nat {
    match step {
        DeprovisionStep::RemoveFiles => 3,
        DeprovisionStep::Announce => 2,
        DeprovisionStep::RemoveStore => 1,
        DeprovisionStep::Done(_) => 0,
    }
}

/// A deprovisioning under way.
pub struct Deprovisioning {
    data_dir: String,
    step: DeprovisionStep,
}

impl Deprovisioning {
    /// The data directory that is given up.
    pub closed spec fn data_dir(&self) -> Seq<char> {
        self.data_dir@
    }

    /// Where the deprovisioning stands.
    pub closed spec fn at_step(&self) -> DeprovisionStep {
        self.step
    }

    /// Starts the deprovisioning of the machine whose identity lies in
    /// `data_dir`.
    pub fn start(data_dir: &str) -> (d: Deprovisioning)
        ensures
            d.data_dir() == data_dir@,
            d.at_step() == DeprovisionStep::RemoveFiles,
    {
        Deprovisioning { data_dir: data_dir.to_owned(), step: DeprovisionStep::RemoveFiles }
    }

    /// Where the deprovisioning stands.
    pub fn step(&self) -> (step: DeprovisionStep)
        ensures
            step == self.at_step(),
    {
        self.step
    }

    /// The action the deprovisioning waits for.
    pub fn action(&self) -> (action: DeprovisionAction)
        ensures
            action@ == deprovision_action(self.data_dir(), self.at_step()),
    {
        match self.step {
            DeprovisionStep::RemoveFiles => DeprovisionAction::RemoveFiles(
                identity_file_list(self.data_dir.as_str()),
            ),
            DeprovisionStep::Announce => DeprovisionAction::Publish(
                ProvisioningEvent::Deprovisioned,
            ),
            DeprovisionStep::RemoveStore => DeprovisionAction::RemoveDirAll(
                join2(self.data_dir.as_str(), DB_PATH),
            ),
            DeprovisionStep::Done(result) => DeprovisionAction::Finished(result),
        }
    }

    /// Takes the report on the action the deprovisioning waited for and
    /// names the next action.
    pub fn advance(&mut self, succeeded: bool) -> (action: DeprovisionAction)
        ensures
            final(self).data_dir() == old(self).data_dir(),
            final(self).at_step() == deprovision_next(old(self).at_step(), succeeded),
            action@ == deprovision_action(final(self).data_dir(), final(self).at_step()),
    {
        self.step = match self.step {
            DeprovisionStep::RemoveFiles => if succeeded {
                DeprovisionStep::Announce
            } else {
                DeprovisionStep::Done(Err(ProvisioningErrorCodes::CertificateRemoveError))
            },
            DeprovisionStep::Announce => if succeeded {
                DeprovisionStep::RemoveStore
            } else {
                DeprovisionStep::Done(Err(ProvisioningErrorCodes::SendEventError))
            },
            DeprovisionStep::RemoveStore => if succeeded {
                DeprovisionStep::Done(Ok(true))
            } else {
                DeprovisionStep::Done(Err(ProvisioningErrorCodes::SettingsDatabaseDeleteError))
            },
            DeprovisionStep::Done(result) => DeprovisionStep::Done(result),
        };
        self.action()
    }
}

/// The outcome of a deprovisioning whose three actions went as reported.
pub open spec fn deprovision_outcome(removed: bool, published: bool, store_removed: bool) -> Result<
    bool,
    ProvisioningErrorCodes,
> {
    if !removed {
        Err(ProvisioningErrorCodes::CertificateRemoveError)
    } else if !published {
        Err(ProvisioningErrorCodes::SendEventError)
    } else if !store_removed {
        Err(ProvisioningErrorCodes::SettingsDatabaseDeleteError)
    } else {
        Ok(true)
    }
}

/// Gives up the identity of the machine: removes the identity files
/// through `fs`, publishes `Deprovisioned` on the bus, and removes the
/// key-value store through `fs`. The first of these that fails ends the
/// deprovisioning with its error; what the file system and the bus answer
/// is theirs to decide. It ends well only where the file system accounts
/// for the five identity files and for the store below the data directory,
/// and it fails at the event or at the store only after the file system
/// has accounted for the five identity files.
pub fn de_provision<F: FileSystem>(
    data_dir: &str,
    fs: F,
    event_tx: tokio::sync::broadcast::Sender<Event>,
) -> (r: Result<bool, ProvisioningErrorCodes>)
    ensures
        exists|removed: bool, published: bool, store_removed: bool|
            r == deprovision_outcome(removed, published, store_removed),
        r is Ok ==> fs.removes(identity_files(data_dir@)) && fs.removes_dir(data_dir@ + DB_PATH@),
        r == Err::<bool, ProvisioningErrorCodes>(ProvisioningErrorCodes::SendEventError) || r
            == Err::<bool, ProvisioningErrorCodes>(
            ProvisioningErrorCodes::SettingsDatabaseDeleteError,
        ) ==> fs.removes(identity_files(data_dir@)),
{
    let mut flow = Deprovisioning::start(data_dir);
    let mut action = flow.action();
    let ghost mut removed = true;
    let ghost mut published = true;
    let ghost mut store_removed = true;
    loop
        invariant
            flow.data_dir() == data_dir@,
            action@ == deprovision_action(flow.data_dir(), flow.at_step()),
            flow.at_step() matches DeprovisionStep::Done(result) ==> result == deprovision_outcome(
                removed,
                published,
                store_removed,
            ),
            !(flow.at_step() is Done) ==> removed && published && store_removed,
            !(flow.at_step() is RemoveFiles) && removed ==> fs.removes(identity_files(data_dir@)),
            flow.at_step() matches DeprovisionStep::Done(Ok(_)) ==> fs.removes_dir(
                data_dir@ + DB_PATH@,
            ),
        decreases deprovision_steps_left(flow.at_step()),
    {
        let succeeded = match action {
            DeprovisionAction::RemoveFiles(files) => {
                let done = fs.remove_files(files).is_ok();
                proof {
                    removed = done;
                }
                done
            },
            DeprovisionAction::Publish(event) => {
                let done = send_event(&event_tx, Event::Provisioning(event));
                proof {
                    published = done;
                }
                done
            },
            DeprovisionAction::RemoveDirAll(path) => {
                let done = fs.remove_dir_all(path.as_str()).is_ok();
                proof {
                    store_removed = done;
                }
                done
            },
            DeprovisionAction::Finished(result) => {
                return result;
            },
        };
        action = flow.advance(succeeded);
    }
}

/// Where a deprovisioning stands after a run of reports, from a step on.
pub open spec fn deprovision_run(step: DeprovisionStep, reports: Seq<bool>) -> DeprovisionStep
    decreases reports.len(),
{
    if reports.len() == 0 {
        step
    } else {
        deprovision_next(deprovision_run(step, reports.drop_last()), reports.last())
    }
}

/// Deprovisioning keeps its order. `Deprovisioned` is published only once
/// the removal of the five identity files has succeeded; the store is
/// removed only once the event has been published; and the deprovisioning
/// ends well only where all three succeeded.
pub proof fn lemma_deprovision_order(data_dir: Seq<char>, reports: Seq<bool>)
    ensures
        deprovision_action(data_dir, DeprovisionStep::RemoveFiles)
            == DeprovisionActionModel::RemoveFiles(identity_files(data_dir)),
        identity_files(data_dir).len() == 5,
        deprovision_run(DeprovisionStep::RemoveFiles, reports) == DeprovisionStep::RemoveFiles
            <==> reports.len() == 0,
        deprovision_run(DeprovisionStep::RemoveFiles, reports) == DeprovisionStep::Announce
            <==> reports.len() == 1 && reports[0],
        deprovision_run(DeprovisionStep::RemoveFiles, reports) == DeprovisionStep::RemoveStore
            <==> reports.len() == 2 && reports[0] && reports[1],
        deprovision_run(DeprovisionStep::RemoveFiles, reports) == DeprovisionStep::Done(Ok(true))
            <==> reports.len() >= 3 && reports[0] && reports[1] && reports[2],
        deprovision_run(DeprovisionStep::RemoveFiles, reports) matches DeprovisionStep::Done(
            Ok(done),
        ) ==> done,
    decreases reports.len(),
{
    if reports.len() > 0 {
        lemma_deprovision_order(data_dir, reports.drop_last());
    }
}

/// The file an action leaves behind when it succeeds, if it leaves one.
pub open spec fn produced(action: ActionModel) -> Option<Seq<char>> {
    match action {
        ActionModel::GeneratePrivateKey { path } => Some(path),
        ActionModel::GenerateCsr { path, .. } => Some(path),
        ActionModel::WriteFile { path, .. } => Some(path),
        _ => None,
    }
}

/// The files that exist after a report, given those that existed before:
/// an action that is reported to have succeeded has left its file behind.
pub open spec fn files_after(
    files: Set<Seq<char>>,
    m: ProvisioningModel,
    event: ProvisionEvent,
) -> Set<Seq<char>> {
    match produced(action_of(m)) {
        Some(path) => if event == ProvisionEvent::Completed(true) {
            files.insert(path)
        } else {
            files
        },
        None => files,
    }
}

/// Where a provisioning stands, and which files exist, after a run of
/// reports.
pub open spec fn provision_run(
    m: ProvisioningModel,
    files: Set<Seq<char>>,
    events: Seq<ProvisionEvent>,
) -> (ProvisioningModel, Set<Seq<char>>)
    decreases events.len(),
{
    if events.len() == 0 {
        (m, files)
    } else {
        let before = provision_run(m, files, events.drop_last());
        (next(before.0, events.last()), files_after(before.1, before.0, events.last()))
    }
}

/// Whether a machine counts as provisioned: its certificate and its
/// private key exist.
pub open spec fn is_provisioned(files: Set<Seq<char>>, data_dir: Seq<char>) -> bool {
    files.contains(identity_paths(data_dir).cert) && files.contains(
        identity_paths(data_dir).private_key,
    )
}

/// How many of the identity files a provisioning at a step has left behind,
/// in the order private key, signing request, certificate, bundle, root
/// certificate.
pub open spec fn files_made(step: ProvisionStep) -> nat {
    match step {
        ProvisionStep::Manifest => 0,
        ProvisionStep::PrivateKey => 0,
        ProvisionStep::Csr => 1,
        ProvisionStep::CsrRead => 2,
        ProvisionStep::Sign => 2,
        ProvisionStep::WriteCert => 2,
        ProvisionStep::WriteCaBundle => 3,
        ProvisionStep::WriteRootCert => 4,
        ProvisionStep::Announce => 5,
        ProvisionStep::Done(Ok(_)) => 5,
        ProvisionStep::Done(Err(_)) => 0,
    }
}

/// The first `n` identity files, in the order in which provisioning makes
/// them, exist.
pub open spec fn made(files: Set<Seq<char>>, data_dir: Seq<char>, n: nat) -> bool {
    let p = identity_paths(data_dir);
    &&& n >= 1 ==> files.contains(p.private_key)
    &&& n >= 2 ==> files.contains(p.csr)
    &&& n >= 3 ==> files.contains(p.cert)
    &&& n >= 4 ==> files.contains(p.ca_bundle)
    &&& n >= 5 ==> files.contains(p.root_cert)
}

proof fn lemma_provision_run_keeps(
    m: ProvisioningModel,
    files: Set<Seq<char>>,
    events: Seq<ProvisionEvent>,
)
    requires
        made(files, m.data_dir, files_made(m.step)),
    ensures
        provision_run(m, files, events).0.data_dir == m.data_dir,
        made(
            provision_run(m, files, events).1,
            m.data_dir,
            files_made(provision_run(m, files, events).0.step),
        ),
    decreases events.len(),
{
    if events.len() > 0 {
        lemma_provision_run_keeps(m, files, events.drop_last());
    }
}

/// A provisioning that ends well has left all five identity files behind,
/// and the machine counts as provisioned: whatever the reports were, and
/// whether it started with the lookup of a manifest or with a machine that
/// was known.
pub proof fn lemma_provisioned_files_exist(
    m: ProvisioningModel,
    files: Set<Seq<char>>,
    events: Seq<ProvisionEvent>,
)
    requires
        m.step == ProvisionStep::Manifest || m.step == ProvisionStep::PrivateKey,
        provision_run(m, files, events).0.step matches ProvisionStep::Done(Ok(_)),
    ensures
        forall|i: int|
            0 <= i < 5 ==> provision_run(m, files, events).1.contains(
                #[trigger] identity_files(m.data_dir)[i],
            ),
        is_provisioned(provision_run(m, files, events).1, m.data_dir),
{
    lemma_provision_run_keeps(m, files, events);
}

/// A provisioning has begun to write certificates once its first write
/// has succeeded.
pub open spec fn writing_begun(step: ProvisionStep) -> bool {
    match step {
        ProvisionStep::WriteCaBundle => true,
        ProvisionStep::WriteRootCert => true,
        ProvisionStep::Announce => true,
        ProvisionStep::Done(Ok(_)) => true,
        _ => false,
    }
}

/// No state on the way through a run of reports had begun to write.
pub open spec fn never_wrote(
    m: ProvisioningModel,
    files: Set<Seq<char>>,
    events: Seq<ProvisionEvent>,
) -> bool {
    forall|k: int|
        0 <= k <= events.len() ==> !writing_begun(
            (#[trigger] provision_run(m, files, events.take(k))).0.step,
        )
}

/// A provisioning that fails before a certificate is written leaves the
/// data directory as it was, but for the private key and the signing
/// request it may have made.
pub proof fn lemma_failure_leaves_directory(
    m: ProvisioningModel,
    files: Set<Seq<char>>,
    events: Seq<ProvisionEvent>,
)
    requires
        m.step == ProvisionStep::Manifest || m.step == ProvisionStep::PrivateKey,
        never_wrote(m, files, events),
    ensures
        provision_run(m, files, events).0.data_dir == m.data_dir,
        provision_run(m, files, events).1.subset_of(
            files.insert(identity_paths(m.data_dir).private_key).insert(
                identity_paths(m.data_dir).csr,
            ),
        ),
    decreases events.len(),
{
    if events.len() > 0 {
        let head = events.drop_last();
        assert forall|k: int| 0 <= k <= head.len() implies !writing_begun(
            (#[trigger] provision_run(m, files, head.take(k))).0.step,
        ) by {
            assert(head.take(k) =~= events.take(k));
        }
        lemma_failure_leaves_directory(m, files, head);
        assert(events.take(events.len() as int) =~= events);
        assert(head =~= events.take(events.len() - 1));
    }
}

/// A provisioning by a code in which every action succeeds ends well: the
/// manifest is found, key and signing request are made, the request is read
/// and signed, the three certificates are written, and `Provisioned` is
/// published.
pub proof fn lemma_happy_provisioning(
    service_url: Seq<char>,
    data_dir: Seq<char>,
    code: Seq<char>,
    manifest: HttpReply<ProvisioningManifest>,
    csr: String,
    certificates: HttpReply<SignedCertificates>,
)
    requires
        reply_outcome(manifest) is Ok,
        reply_outcome(certificates) is Ok,
    ensures
        ({
            let done = ProvisionEvent::Completed(true);
            let looked_up = next(
                provisioning_by_code(service_url, data_dir, code),
                ProvisionEvent::Manifest(manifest),
            );
            let read = next(
                next(next(looked_up, done), done),
                ProvisionEvent::CsrText(Some(csr)),
            );
            let signed = next(read, ProvisionEvent::Certificates(certificates));
            let written = next(next(next(signed, done), done), done);
            &&& looked_up.step == ProvisionStep::PrivateKey
            &&& read.step == ProvisionStep::Sign
            &&& signed.step == ProvisionStep::WriteCert
            &&& action_of(written) == ActionModel::Publish(ProvisioningEvent::Provisioned)
            &&& next(written, done).step == ProvisionStep::Done(Ok(true))
        }),
{
}

/// The three writes of a provisioning are the writes of its certificates,
/// in their order.
pub proof fn lemma_writes_in_order(m: ProvisioningModel)
    ensures
        ({
            let writes = certificate_writes(m.data_dir, m.cert, m.ca_bundle, m.root_cert);
            &&& action_of(at(m, ProvisionStep::WriteCert)) == ActionModel::WriteFile {
                path: writes[0].0,
                contents: writes[0].1,
            }
            &&& action_of(at(m, ProvisionStep::WriteCaBundle)) == ActionModel::WriteFile {
                path: writes[1].0,
                contents: writes[1].1,
            }
            &&& action_of(at(m, ProvisionStep::WriteRootCert)) == ActionModel::WriteFile {
                path: writes[2].0,
                contents: writes[2].1,
            }
        }),
{
}

/// A provisioning ends well only with `true`.
pub proof fn lemma_provision_success_is_true(m: ProvisioningModel, event: ProvisionEvent)
    requires
        m.step matches ProvisionStep::Done(Ok(done)) ==> done,
    ensures
        next(m, event).step matches ProvisionStep::Done(Ok(done)) ==> done,
{
}

} // verus!
