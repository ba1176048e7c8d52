//! Content fingerprints: SHA-256 of the UTF-8 text, in lowercase hex.
use crate::text::{chars_of, push_str, string_of};
use sha2::Digest;
use vstd::prelude::*;

verus! {

/// The lowercase hex SHA-256 digest of a text's UTF-8 bytes.
pub uninterp spec fn sha256_hex(s: Seq<char>) -> Seq<char>;

/// Relies on `sha2::Sha256::digest` over the text's UTF-8 bytes, printed
/// with `{:x}` (generic-array's `LowerHex`, two digits per byte of the
/// 32-byte digest): the digest depends on the text alone.
#[verifier::external_body]
fn sha256_hex_of(s: &str) -> (r: String)
    ensures
        r@ == sha256_hex(s@),
        r@.len() == 64,
{
    format!("{:x}", sha2::Sha256::digest(s.as_bytes()))
}

/// Fingerprint of a text.
pub fn compute_hash(content: &str) -> (r: String)
    ensures
        r@ == sha256_hex(content@),
        r@.len() == 64,
{
    sha256_hex_of(content)
}

/// Fingerprint of a named body: the digest of `<name>::<body>`.
pub fn compute_signature_hash(name: &str, body: &str) -> (r: String)
    ensures
        r@ == sha256_hex(name@ + "::"@ + body@),
        r@.len() == 64,
{
    let mut v = chars_of(name);
    push_str(&mut v, "::");
    push_str(&mut v, body);
    let s = string_of(&v);
    sha256_hex_of(s.as_str())
}

} // verus!
