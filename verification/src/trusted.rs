//! The library's bridge to outside computation: content digests,
//! checksums, signature verification, and two string conversions.
//!
//! Every function here is a thin wrapper whose body makes one outside
//! call; its contract is what that call's source and documentation
//! promise, and nothing more.

use vstd::prelude::*;

verus! {

/// The SHA-256 digest of a byte sequence, as 64 lowercase hex characters.
pub uninterp spec fn digest_of(bytes: Seq<u8>) -> Seq<char>;

/// Relies on sha256::digest: the SHA-256 digest of the bytes, rendered
/// as 64 hex characters, a function of the bytes alone.
#[verifier::external_body]
pub(crate) fn sha256_hex(bytes: &Vec<u8>) -> (r: String)
    ensures
        r@ == digest_of(bytes@),
        r@.len() == 64,
{
    sha256::digest(bytes.as_slice())
}

/// The CRC-64/GO-ISO checksum of a byte sequence.
pub uninterp spec fn crc64_of(bytes: Seq<u8>) -> u64;

/// Relies on crc::Crc::<u64>::checksum with the CRC-64/GO-ISO algorithm:
/// a function of the bytes alone.
#[verifier::external_body]
pub(crate) fn crc64(bytes: &[u8]) -> (r: u64)
    ensures
        r == crc64_of(bytes@),
{
    crc::Crc::<u64>::new(&crc::CRC_64_GO_ISO).checksum(bytes)
}

#[verifier::external_type_specification]
#[verifier::external_body]
pub struct ExSignatureVerifier(memflow_registry::SignatureVerifier);

/// Whether a PEM text parses as an ECDSA verifying key.
pub uninterp spec fn pem_parses(pem: Seq<char>) -> bool;

/// Whether the detached hex signature verifies for the bytes under the
/// key a PEM text names; a text that names no key verifies nothing.
pub uninterp spec fn sig_valid_of(pem: Seq<char>, bytes: Seq<u8>, signature: Seq<char>) -> bool;

/// Relies on SignatureVerifier::with_str: parses an ECDSA verifying key
/// from PEM text, `Some` exactly when the text parses as such a key —
/// a function of the text alone.
#[verifier::external_body]
pub(crate) fn verifier_with_str(pem: &str) -> (r: Option<
    memflow_registry::SignatureVerifier,
>)
    ensures
        r is Some <==> pem_parses(pem@),
{
    match memflow_registry::SignatureVerifier::with_str(pem) {
        Ok(v) => Some(v),
        Err(_) => None,
    }
}

/// Relies on SignatureVerifier::with_str and SignatureVerifier::is_valid:
/// whether the detached hex signature verifies for the bytes under the
/// key the PEM text names — ECDSA verification is deterministic, a
/// function of the three arguments alone — and false when the text
/// parses as no key.  The signature must be ASCII: the hex decoder
/// slices the string bytewise and panics on a multi-byte character.
#[verifier::external_body]
pub(crate) fn verify_with_pem(pem: &str, bytes: &[u8], signature: &str) -> (r: bool)
    requires
        vstd::string::is_ascii(signature),
    ensures
        r == sig_valid_of(pem@, bytes@, signature@),
{
    match memflow_registry::SignatureVerifier::with_str(pem) {
        Ok(v) => v.is_valid(bytes, signature).is_ok(),
        Err(_) => false,
    }
}

/// Relies on MEMFLOW_DEFAULT_REGISTRY_VERIFYING_KEY and
/// SignatureVerifier::with_str: the public key bundled for the default
/// registry, a PEM constant that parses as a verifying key.
#[verifier::external_body]
pub(crate) fn default_verifying_key() -> (r: &'static str)
    ensures
        pem_parses(r@),
{
    memflow_registry::MEMFLOW_DEFAULT_REGISTRY_VERIFYING_KEY
}

/// Relies on String::from_utf8: bytes below 128 are ASCII, hence valid
/// UTF-8, and decode to exactly one character each.
#[verifier::external_body]
pub(crate) fn ascii_to_string(bytes: Vec<u8>) -> (r: String)
    requires
        forall|i: int| 0 <= i < bytes@.len() ==> bytes@[i] < 128,
    ensures
        r@.len() == bytes@.len(),
        forall|i: int| 0 <= i < bytes@.len() ==> r@[i] == bytes@[i] as char,
{
    match String::from_utf8(bytes) {
        Ok(s) => s,
        Err(_) => String::new(),
    }
}

/// Relies on str::replace: with a one-character pattern and a
/// one-character replacement, each occurrence is replaced and every
/// other character kept.
#[verifier::external_body]
pub(crate) fn replace_dashes(s: &str) -> (r: String)
    ensures
        r@ == s@.map_values(|c: char| if c == '-' { '_' } else { c }),
{
    s.replace('-', "_")
}

} // verus!
