use memflowup::error::Error;
use memflowup::pull::{accept_verified, default_pem, gate_download, make_verifier, needs_download};
use memflowup::registry::{PluginArchitecture, PluginDescriptor, PluginEntry, PluginFileType};

const SHA256_ABC: &str = "ba7816bf8f01cfea414140de5dae2223b00361a396177a9cb410ff61f20015ad";

fn variant(digest: &str, signature: &str) -> PluginEntry {
    PluginEntry {
        digest: digest.to_string(),
        signature: signature.to_string(),
        created_at: 0,
        descriptor: PluginDescriptor {
            file_type: PluginFileType::Elf,
            architecture: PluginArchitecture::X86_64,
            plugin_version: 1,
            name: "qemu".to_string(),
            version: "0.2.0".to_string(),
            description: String::new(),
        },
    }
}

#[test]
fn download_skipped_only_on_digest_match() {
    let existing = b"abc".to_vec();
    // Same digest, not forced: skip.
    assert!(!needs_download(false, Some(&existing), &variant(SHA256_ABC, "")));
    // Same digest, forced: download anyway.
    assert!(needs_download(true, Some(&existing), &variant(SHA256_ABC, "")));
    // No file yet: download.
    assert!(needs_download(false, None, &variant(SHA256_ABC, "")));
    // Stale content must be redownloaded, never kept.
    let stale = b"abd".to_vec();
    assert!(needs_download(false, Some(&stale), &variant(SHA256_ABC, "")));
}

#[test]
fn signature_gate_rejects_bad_signatures() {
    // The bundled default key with a signature that cannot verify: the
    // gate must yield a signature error and hand no bytes out.
    let bytes = b"plugin binary".to_vec();
    match gate_download(default_pem(), bytes, &variant(SHA256_ABC, "00ff00ff")) {
        Err(Error::Signature(_)) => {}
        other => panic!("expected a signature failure, got {:?}", other),
    }
    let bytes = b"plugin binary".to_vec();
    match gate_download(default_pem(), bytes, &variant(SHA256_ABC, "not even hex")) {
        Err(Error::Signature(_)) => {}
        other => panic!("expected a signature failure, got {:?}", other),
    }
    // A key text that parses as no key verifies nothing.
    let bytes = b"plugin binary".to_vec();
    match gate_download("not a pem key", bytes, &variant(SHA256_ABC, "00ff00ff")) {
        Err(Error::Signature(_)) => {}
        other => panic!("expected a signature failure, got {:?}", other),
    }
}

#[test]
fn signature_gate_rejects_non_ascii_signatures() {
    // A multi-byte character cannot appear in a hex signature; it is
    // rejected before the bytewise hex decoder could see it.
    let bytes = b"plugin binary".to_vec();
    match gate_download(default_pem(), bytes, &variant(SHA256_ABC, "\u{20ac}1")) {
        Err(Error::Signature(_)) => {}
        other => panic!("expected a signature failure, got {:?}", other),
    }
}

#[test]
fn gate_passes_bytes_only_on_verification() {
    let bytes = b"plugin binary".to_vec();
    assert_eq!(accept_verified(true, bytes.clone()).unwrap(), bytes);
    match accept_verified(false, bytes) {
        Err(Error::Signature(_)) => {}
        other => panic!("expected a signature failure, got {:?}", other),
    }
}

#[test]
fn verifier_needs_a_parsable_key() {
    match make_verifier(Some("not a pem key")) {
        Err(Error::Registry(_)) => {}
        Err(other) => panic!("expected a registry error, got {:?}", other),
        Ok(_) => panic!("an unparsable key must be refused"),
    }
    assert!(make_verifier(None).is_ok());
}
