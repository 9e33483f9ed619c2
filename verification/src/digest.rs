//! SHA-256 as the agent uses it: to turn a machine id or a DNS name into a
//! subject segment.

use vstd::prelude::*;

verus! {

/// The hexadecimal SHA-256 digest of the UTF-8 encoding of a text.
pub uninterp spec fn sha256_hex(input: Seq<char>) -> Seq<char>;

/// A digit of lower-case hexadecimal.
pub open spec fn is_lower_hex(c: char) -> bool {
    ('0' <= c && c <= '9') || ('a' <= c && c <= 'f')
}

/// Calls `sha256::digest` on a string slice. The crate hashes the bytes of
/// the text with SHA-256 and writes the 32 bytes of the digest as 64
/// lower-case hexadecimal digits; the same text always gives the same
/// digest.
#[verifier::external_body]
fn sha256_digest(input: &str) -> (hex: String)
    ensures
        hex@ == sha256_hex(input@),
        hex@.len() == 64,
        forall|i: int| 0 <= i < 64 ==> is_lower_hex(#[trigger] hex@[i]),
{
    sha256::digest(input)
}

/// The digest of `input` as a subject segment: 64 hexadecimal digits, and
/// so a text without a dot.
pub fn digest(input: &str) -> (hex: String)
    ensures
        hex@ == sha256_hex(input@),
        hex@.len() == 64,
        forall|i: int| 0 <= i < 64 ==> is_lower_hex(#[trigger] hex@[i]),
{
    sha256_digest(input)
}

} // verus!
