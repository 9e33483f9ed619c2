//! What the identity of the machine is read from, and what is made of it.

use crate::constants::{CA_BUNDLE_PATH, CERT_PATH, PRIVATE_KEY_PATH, ROOT_CERT_PATH};
use crate::errors::IdentityErrorCodes;
use crate::text::join2;
use vstd::prelude::*;

verus! {

/// What is shown of a machine.
#[derive(Clone, Debug, PartialEq, Eq)]
pub struct MachineDetails {
    pub machine_id: String,
    pub certificate_serial_number: String,
    pub certificate_fingerprint: String,
}

/// The certificate of the machine with what is derived from it.
#[derive(Clone, Debug, PartialEq, Eq)]
pub struct MachineCert {
    pub common_name: String,
    pub serial_number: String,
    pub fingerprint: String,
    pub public_cert: String,
    pub ca_bundle: String,
    pub root_cert: String,
}

/// The files that hold the identity of a machine.
#[derive(Clone, Debug, PartialEq, Eq)]
pub struct IdentityFiles {
    pub cert_path: String,
    pub private_key_path: String,
    pub ca_bundle_path: String,
    pub root_cert_path: String,
}

/// Names the four files that hold the identity of the machine below
/// `data_dir`.
pub fn identity_files(data_dir: &str) -> (files: IdentityFiles)
    ensures
        files.cert_path@ == data_dir@ + CERT_PATH@,
        files.private_key_path@ == data_dir@ + PRIVATE_KEY_PATH@,
        files.ca_bundle_path@ == data_dir@ + CA_BUNDLE_PATH@,
        files.root_cert_path@ == data_dir@ + ROOT_CERT_PATH@,
{
    IdentityFiles {
        cert_path: join2(data_dir, CERT_PATH),
        private_key_path: join2(data_dir, PRIVATE_KEY_PATH),
        ca_bundle_path: join2(data_dir, CA_BUNDLE_PATH),
        root_cert_path: join2(data_dir, ROOT_CERT_PATH),
    }
}

/// A machine is provisioned where both its certificate and its private
/// key are there.
pub fn get_provision_status(cert_exists: bool, private_key_exists: bool) -> (r: Result<
    bool,
    IdentityErrorCodes,
>)
    ensures
        r == Ok::<bool, IdentityErrorCodes>(cert_exists && private_key_exists),
{
    Ok(cert_exists && private_key_exists)
}

/// The id of the machine: the common name of the subject of its
/// certificate. `certificate` is what was read, `None` where the file is
/// missing or cannot be decoded.
pub fn get_machine_id(certificate: Option<&MachineCert>) -> (r: Result<String, IdentityErrorCodes>)
    ensures
        match r {
            Ok(id) => certificate.is_some() && id@ == certificate.unwrap().common_name@,
            Err(e) => certificate.is_none() && e == IdentityErrorCodes::IdentityReadError,
        },
{
    match certificate {
        Some(cert) => Ok(cert.common_name.clone()),
        None => Err(IdentityErrorCodes::IdentityReadError),
    }
}

/// The certificate of the machine, or the failure to read it.
pub fn get_machine_cert(certificate: Option<MachineCert>) -> (r: Result<
    MachineCert,
    IdentityErrorCodes,
>)
    ensures
        match r {
            Ok(cert) => certificate == Some(cert),
            Err(e) => certificate.is_none() && e == IdentityErrorCodes::IdentityReadError,
        },
{
    match certificate {
        Some(cert) => Ok(cert),
        None => Err(IdentityErrorCodes::IdentityReadError),
    }
}

/// What is shown of the machine: its id, and the serial number and the
/// fingerprint of its certificate.
pub fn get_machine_details(certificate: Option<MachineCert>) -> (r: Result<
    MachineDetails,
    IdentityErrorCodes,
>)
    ensures
        match r {
            Ok(details) => {
                &&& certificate.is_some()
                &&& details.machine_id@ == certificate.unwrap().common_name@
                &&& details.certificate_serial_number@ == certificate.unwrap().serial_number@
                &&& details.certificate_fingerprint@ == certificate.unwrap().fingerprint@
            },
            Err(e) => certificate.is_none() && e == IdentityErrorCodes::IdentityReadError,
        },
{
    match certificate {
        Some(cert) => Ok(
            MachineDetails {
                machine_id: cert.common_name.clone(),
                certificate_serial_number: cert.serial_number.clone(),
                certificate_fingerprint: cert.fingerprint.clone(),
            },
        ),
        None => Err(IdentityErrorCodes::IdentityReadError),
    }
}

} // verus!
