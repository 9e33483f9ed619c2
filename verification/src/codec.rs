//! Base64, for signatures that travel as text.

use vstd::prelude::*;

verus! {

/// The standard, padded base64 text of a run of bytes.
pub uninterp spec fn base64_of(bytes: Seq<u8>) -> Seq<char>;

/// The bytes a standard, padded base64 text stands for, if it is one.
pub uninterp spec fn base64_bytes(text: Seq<char>) -> Option<Seq<u8>>;

/// The inputs the encoder takes: those whose text, four characters for
/// every three bytes begun, is no longer than a text of this machine can
/// be.
pub open spec fn encodable(bytes: Seq<u8>) -> bool {
    bytes.len() <= (usize::MAX / 8) * 3
}

/// Calls `encode` of `base64`'s `STANDARD` engine: the input in the
/// standard alphabet, with padding. The same bytes always give the same
/// text, and the text decodes to the bytes it was made from.
#[verifier::external_body]
fn standard_encode(bytes: &[u8]) -> (text: String)
    requires
        encodable(bytes@),
    ensures
        text@ == base64_of(bytes@),
        base64_bytes(text@) == Some(bytes@),
{
    base64::Engine::encode(&base64::engine::general_purpose::STANDARD, bytes)
}

/// Calls `decode` of `base64`'s `STANDARD` engine; a text that is no
/// padded base64 in the standard alphabet decodes to nothing.
#[verifier::external_body]
fn standard_decode(text: &str) -> (bytes: Option<Vec<u8>>)
    ensures
        match bytes {
            Some(b) => base64_bytes(text@) == Some(b@),
            None => base64_bytes(text@).is_none(),
        },
{
    base64::Engine::decode(&base64::engine::general_purpose::STANDARD, text).ok()
}

/// Writes bytes as base64. Nothing is written for an input too long for
/// its text to fit the machine.
pub fn b64_encode(bytes: &[u8]) -> (text: Option<String>)
    ensures
        match text {
            Some(t) => encodable(bytes@) && t@ == base64_of(bytes@) && base64_bytes(t@) == Some(
                bytes@,
            ),
            None => !encodable(bytes@),
        },
{
    if bytes.len() <= (usize::MAX / 8) * 3 {
        Some(standard_encode(bytes))
    } else {
        None
    }
}

/// Reads base64 back into bytes.
pub fn b64_decode(text: &str) -> (bytes: Option<Vec<u8>>)
    ensures
        match bytes {
            Some(b) => base64_bytes(text@) == Some(b@),
            None => base64_bytes(text@).is_none(),
        },
{
    standard_decode(text)
}

/// Encodes and decodes again: what comes back is what went in, for every
/// input the encoder takes.
pub fn b64_round_trip(bytes: &[u8]) -> (back: Option<Vec<u8>>)
    ensures
        match back {
            Some(b) => b@ == bytes@,
            None => !encodable(bytes@),
        },
{
    match b64_encode(bytes) {
        Some(text) => b64_decode(text.as_str()),
        None => None,
    }
}

} // verus!
