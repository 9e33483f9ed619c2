//! What the key material of a machine is described by.

use vstd::prelude::*;

verus! {

/// The attributes of the subject of a certificate.
#[derive(Clone, Debug, PartialEq, Eq)]
pub struct CertificateAttributes {
    pub country: Option<String>,
    pub state: Option<String>,
    pub organization: Option<String>,
    pub common_name: String,
}

/// The algorithms a private key can be made for.
#[derive(Clone, Copy, Debug, PartialEq, Eq, Structural)]
pub enum PrivateKeyAlgorithm {
    ECDSA,
}

/// The curves a private key can be made on.
#[derive(Clone, Copy, Debug, PartialEq, Eq, Structural)]
pub enum PrivateKeySize {
    EcP256,
    EcP384,
    EcP521,
}

impl PrivateKeySize {
    /// The name of the key size as it is written in settings.
    pub open spec fn name(self) -> Seq<char> {
        match self {
            PrivateKeySize::EcP256 => "EC_P256"@,
            PrivateKeySize::EcP384 => "EC_P384"@,
            PrivateKeySize::EcP521 => "EC_P521"@,
        }
    }

    /// The name of the curve as the key generator knows it.
    pub open spec fn curve(self) -> Seq<char> {
        match self {
            PrivateKeySize::EcP256 => "secp256r1"@,
            PrivateKeySize::EcP384 => "secp384r1"@,
            PrivateKeySize::EcP521 => "secp521r1"@,
        }
    }

    /// Writes the key size as settings name it.
    pub fn to_string(&self) -> (s: String)
        ensures
            s@ == self.name(),
    {
        match self {
            PrivateKeySize::EcP256 => "EC_P256".to_owned(),
            PrivateKeySize::EcP384 => "EC_P384".to_owned(),
            PrivateKeySize::EcP521 => "EC_P521".to_owned(),
        }
    }
}

/// The arguments the key generator is run with.
pub open spec fn ec_key_arguments(file_path: Seq<char>, key_size: PrivateKeySize) -> Seq<
    Seq<char>,
> {
    seq![
        "ecparam"@,
        "-name"@,
        key_size.curve(),
        "-genkey"@,
        "-noout"@,
        "-out"@,
        file_path,
    ]
}

/// The arguments with which `openssl` makes an elliptic-curve private key
/// of the given size at `file_path`.
pub fn generate_ec_private_key(file_path: &str, key_size: PrivateKeySize) -> (arguments: Vec<String>)
    ensures
        crate::text::views(arguments@) == ec_key_arguments(file_path@, key_size),
{
    let curve = match key_size {
        PrivateKeySize::EcP256 => "secp256r1",
        PrivateKeySize::EcP384 => "secp384r1",
        PrivateKeySize::EcP521 => "secp521r1",
    };
    let mut arguments: Vec<String> = Vec::new();
    arguments.push("ecparam".to_owned());
    arguments.push("-name".to_owned());
    arguments.push(curve.to_owned());
    arguments.push("-genkey".to_owned());
    arguments.push("-noout".to_owned());
    arguments.push("-out".to_owned());
    arguments.push(file_path.to_owned());
    assert(crate::text::views(arguments@) =~= ec_key_arguments(file_path@, key_size));
    arguments
}

/// The subject of a signing request for `common_name`: every attribute but
/// the common name is empty.
pub open spec fn csr_subject(common_name: Seq<char>) -> Seq<char> {
    "/C=/ST=/L=/O=/OU=/CN="@ + common_name
}

/// The arguments the request generator is run with.
pub open spec fn csr_arguments(
    file_path: Seq<char>,
    private_key_path: Seq<char>,
    common_name: Seq<char>,
) -> Seq<Seq<char>> {
    seq![
        "req"@,
        "-new"@,
        "-sha256"@,
        "-key"@,
        private_key_path,
        "-subj"@,
        csr_subject(common_name),
        "-out"@,
        file_path,
    ]
}

/// The arguments with which `openssl` writes a certificate signing request
/// for `common_name` to `file_path`, signed with the key at
/// `private_key_path`.
pub fn generate_csr(file_path: &str, private_key_path: &str, common_name: &str) -> (arguments: Vec<
    String,
>)
    ensures
        crate::text::views(arguments@) == csr_arguments(
            file_path@,
            private_key_path@,
            common_name@,
        ),
{
    let mut arguments: Vec<String> = Vec::new();
    arguments.push("req".to_owned());
    arguments.push("-new".to_owned());
    arguments.push("-sha256".to_owned());
    arguments.push("-key".to_owned());
    arguments.push(private_key_path.to_owned());
    arguments.push("-subj".to_owned());
    arguments.push(crate::text::join2("/C=/ST=/L=/O=/OU=/CN=", common_name));
    arguments.push("-out".to_owned());
    arguments.push(file_path.to_owned());
    assert(crate::text::views(arguments@) =~= csr_arguments(
        file_path@,
        private_key_path@,
        common_name@,
    ));
    arguments
}

} // verus!
