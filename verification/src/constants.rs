//! Names the agent shares with the backend and with its own data directory.

use vstd::prelude::*;

verus! {

/// The machine certificate, below the data directory.
pub const CERT_PATH: &'static str = "/machine.pem";

/// The machine's private key, below the data directory.
pub const PRIVATE_KEY_PATH: &'static str = "/private_key.pem";

/// The certificate signing request, below the data directory.
pub const CSR_PATH: &'static str = "/csr.pem";

/// The bundle of intermediate certificates, below the data directory.
pub const CA_BUNDLE_PATH: &'static str = "/ca_bundle.pem";

/// The root certificate, below the data directory.
pub const ROOT_CERT_PATH: &'static str = "/root.pem";

/// The key-value store, a directory below the data directory.
pub const DB_PATH: &'static str = "/db";

/// Liveness probe of the backend.
pub const PING_QUERY_PATH: &'static str = "/v1/ping";

/// Manifest lookup; the provisioning code follows.
pub const FIND_MANIFEST_URL_QUERY_PATH: &'static str = "/v1/provisioning/manifest/find?code=";

/// Certificate signing, used when a certificate is issued again.
pub const CERT_SIGN_URL_QUERY_PATH: &'static str = "/v1/provisioning/cert/sign";

/// Where a nonce for the authentication challenge is asked for.
pub const NONCE_URL_QUERY_PATH: &'static str = "/v1/auth/nonce";

/// Where a signed nonce is exchanged for a token.
pub const ISSUE_TOKEN_URL_QUERY_PATH: &'static str = "/v1/auth/token";

/// The name under which the agent introduces itself to the backend.
pub const AGENT_NAME: &'static str = "mecha_agent";

/// The version the agent reports to the backend.
pub const AGENT_VERSION: &'static str = "0.1.0";

/// Capacity of the broadcast bus and of every actor's command channel.
pub const CHANNEL_SIZE: usize = 32;

/// How long a reply on a one-shot channel is waited for, in milliseconds.
pub const CHANNEL_RECV_TIMEOUT: u64 = 2000;

} // verus!
