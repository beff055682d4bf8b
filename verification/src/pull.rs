//! The pull flow's decisions: whether an already-present file makes a
//! download unnecessary, and the signature gate that downloaded bytes
//! must pass before anything is written to disk.
//!
//! Signature verification is deterministic in the key, the bytes and
//! the signature, so the check's outcome is pinned exactly: bytes pass
//! through if and only if the variant's signature is ASCII and
//! verifies under the chosen key.

use vstd::prelude::*;

use crate::error::Error;
use crate::registry::PluginEntry;
use crate::strutil::str_eq;
use crate::trusted::{
    default_verifying_key, digest_of, pem_parses, sha256_hex, sig_valid_of, verifier_with_str,
    verify_with_pem,
};

verus! {

/// The public key text used when the caller supplies none: the key
/// bundled for the default registry.
pub fn default_pem() -> (r: &'static str)
    ensures
        pem_parses(r@),
{
    default_verifying_key()
}

/// Loads the signature verifier for a pull: from a caller-supplied
/// public key in PEM form, or from the key bundled for the default
/// registry.  A caller-supplied key is accepted exactly when it parses;
/// one that does not parse is a registry error, reported before any
/// download runs.
pub fn make_verifier(custom_pem: Option<&str>) -> (r: Result<
    memflow_registry::SignatureVerifier,
    Error,
>)
    ensures
        custom_pem matches Some(p) ==> (r is Ok <==> pem_parses(p@)),
        custom_pem is None ==> r is Ok,
        r matches Err(e) ==> e is Registry,
{
    let pem = match custom_pem {
        Some(p) => p,
        None => default_verifying_key(),
    };
    match verifier_with_str(pem) {
        Some(v) => Ok(v),
        None => Err(Error::Registry("unable to parse the public key".to_owned())),
    }
}

/// Whether the download must run: it is skipped exactly when it is not
/// forced, a same-named file already exists, and that file's computed
/// content digest equals the digest the registry reports for the
/// variant.  Any mismatch forces a redownload rather than keeping stale
/// content.
pub fn needs_download(force: bool, existing: Option<&Vec<u8>>, variant: &PluginEntry) -> (r: bool)
    ensures
        r == !(!force && (existing matches Some(b) && digest_of(b@) == variant.digest@)),
{
    if force {
        return true;
    }
    match existing {
        None => true,
        Some(bytes) => {
            let digest = sha256_hex(bytes);
            !str_eq(digest.as_str(), variant.digest.as_str())
        },
    }
}

/// The signature gate on its verification outcome: when the signature
/// verified, the bytes pass through unchanged; when it did not, the
/// result is a fatal signature error carrying no bytes, so a failed
/// download can appear neither as a written file nor as a database
/// record.
pub fn accept_verified(verified: bool, bytes: Vec<u8>) -> (r: Result<Vec<u8>, Error>)
    ensures
        verified ==> r == Ok::<Vec<u8>, Error>(bytes),
        !verified ==> (r matches Err(e) && e is Signature),
{
    if verified {
        Ok(bytes)
    } else {
        Err(Error::Signature("plugin verification failed".to_owned()))
    }
}

/// The signature gate: the downloaded bytes pass, unchanged, if and
/// only if the variant's detached signature is ASCII and verifies for
/// them under the key the PEM text names.  A signature holding a
/// multi-byte character cannot be hex, so it is rejected before the
/// bytewise hex decoder could see it.
pub fn gate_download(pem: &str, bytes: Vec<u8>, variant: &PluginEntry) -> (r: Result<
    Vec<u8>,
    Error,
>)
    ensures
        r matches Ok(b) ==> b@ == bytes@,
        r matches Err(e) ==> e is Signature,
        r is Ok <==> (vstd::string::string_is_ascii(&variant.signature) && sig_valid_of(
            pem@,
            bytes@,
            variant.signature@,
        )),
{
    let signature = variant.signature.as_str();
    let verified = if signature.is_ascii() {
        verify_with_pem(pem, bytes.as_slice(), signature)
    } else {
        false
    };
    accept_verified(verified, bytes)
}

} // verus!
