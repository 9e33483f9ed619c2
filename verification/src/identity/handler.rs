//! The identity actor: it answers every question by reading the files
//! again.

use crate::constants::{CA_BUNDLE_PATH, CERT_PATH, PRIVATE_KEY_PATH, ROOT_CERT_PATH};
use crate::identity::service::identity_files;
use vstd::prelude::*;

verus! {

/// What the identity actor is set up with.
#[derive(Clone, Debug, PartialEq, Eq)]
pub struct Settings {
    pub data_dir: String,
}

/// The identity actor.
#[derive(Clone, Debug, PartialEq, Eq)]
pub struct IdentityHandler {
    pub settings: Settings,
}

/// What the identity actor is made from.
#[derive(Clone, Debug, PartialEq, Eq)]
pub struct IdentityOptions {
    pub settings: Settings,
}

/// The questions the identity actor takes.
#[derive(Clone, Copy, Debug, PartialEq, Eq, Structural)]
pub enum IdentityMessage {
    GetMachineId,
    GetProvisionStatus,
    GetMachineCert,
}

/// What is to be read to answer a question.
#[derive(Clone, Debug, PartialEq, Eq)]
pub enum IdentityRead {
    /// The certificate, for the id in its subject.
    MachineId { cert_path: String },
    /// Whether the certificate and the private key are there.
    ProvisionStatus { cert_path: String, private_key_path: String },
    /// The certificate with its bundle and its root.
    MachineCert { cert_path: String, ca_bundle_path: String, root_cert_path: String },
}

impl IdentityHandler {
    /// Makes the actor.
    pub fn new(options: IdentityOptions) -> (handler: IdentityHandler)
        ensures
            handler.settings == options.settings,
    {
        IdentityHandler { settings: options.settings }
    }

    /// Names what is to be read for a question: always the files below the
    /// data directory, whatever was read before.
    pub fn on_message(&self, message: IdentityMessage) -> (read: IdentityRead)
        ensures
            match message {
                IdentityMessage::GetMachineId => read matches IdentityRead::MachineId { cert_path }
                    && cert_path@ == self.settings.data_dir@ + CERT_PATH@,
                IdentityMessage::GetProvisionStatus => read matches IdentityRead::ProvisionStatus {
                    cert_path,
                    private_key_path,
                } && cert_path@ == self.settings.data_dir@ + CERT_PATH@ && private_key_path@
                    == self.settings.data_dir@ + PRIVATE_KEY_PATH@,
                IdentityMessage::GetMachineCert => read matches IdentityRead::MachineCert {
                    cert_path,
                    ca_bundle_path,
                    root_cert_path,
                } && cert_path@ == self.settings.data_dir@ + CERT_PATH@ && ca_bundle_path@
                    == self.settings.data_dir@ + CA_BUNDLE_PATH@ && root_cert_path@
                    == self.settings.data_dir@ + ROOT_CERT_PATH@,
            },
    {
        let files = identity_files(self.settings.data_dir.as_str());
        match message {
            IdentityMessage::GetMachineId => IdentityRead::MachineId { cert_path: files.cert_path },
            IdentityMessage::GetProvisionStatus => IdentityRead::ProvisionStatus {
                cert_path: files.cert_path,
                private_key_path: files.private_key_path,
            },
            IdentityMessage::GetMachineCert => IdentityRead::MachineCert {
                cert_path: files.cert_path,
                ca_bundle_path: files.ca_bundle_path,
                root_cert_path: files.root_cert_path,
            },
        }
    }
}

} // verus!
