use memflowup::error::Error;
use memflowup::local::{classify_plugin, find_local_plugin, matches_uri, plugin_file_name,
    prune_decisions, LocalPlugin, MetaFile, OrphanReason};
use memflowup::platform::Platform;
use memflowup::registry::{PluginArchitecture, PluginDescriptor, PluginEntry, PluginFileType,
    PluginUri};

const SHA256_ABC: &str = "ba7816bf8f01cfea414140de5dae2223b00361a396177a9cb410ff61f20015ad";

fn meta(name: &str, digest: &str) -> PluginEntry {
    PluginEntry {
        digest: digest.to_string(),
        signature: String::new(),
        created_at: 0,
        descriptor: PluginDescriptor {
            file_type: PluginFileType::Elf,
            architecture: PluginArchitecture::X86_64,
            plugin_version: 1,
            name: name.to_string(),
            version: "0.2.0".to_string(),
            description: String::new(),
        },
    }
}

fn installed(name: &str, version: &str, plugin_version: i32, digest: &str, created_at: i64)
    -> LocalPlugin {
    LocalPlugin {
        plugin_file_name: format!("/plugins/libmemflow_{}.so", name),
        meta_file_name: format!("/plugins/libmemflow_{}.meta", name),
        digest: digest.to_string(),
        created_at,
        descriptor: PluginDescriptor {
            file_type: PluginFileType::Elf,
            architecture: PluginArchitecture::X86_64,
            plugin_version,
            name: name.to_string(),
            version: version.to_string(),
            description: String::new(),
        },
    }
}

fn linux() -> Platform {
    Platform {
        os_tags: vec!["linux".to_string(), "unix".to_string()],
        arch: "x86_64".to_string(),
        lib_prefix: "lib".to_string(),
        lib_extension: "so".to_string(),
    }
}

#[test]
fn digest_round_trip_classifies_clean_file() {
    // Computing the content digest, recording it in the sidecar, and
    // classifying the same bytes must yield "not orphaned".
    let bytes = b"abc".to_vec();
    let sidecar = MetaFile::Parsed(meta("qemu", SHA256_ABC));
    assert_eq!(classify_plugin(&sidecar, &bytes), None);
}

#[test]
fn digest_round_trip_detects_mutation() {
    // One mutated byte must classify the file as orphaned with a
    // checksum mismatch.
    let mutated = b"abd".to_vec();
    let sidecar = MetaFile::Parsed(meta("qemu", SHA256_ABC));
    assert_eq!(classify_plugin(&sidecar, &mutated), Some(OrphanReason::DigestMismatch));
}

#[test]
fn missing_or_corrupted_meta_is_orphaned() {
    let bytes = b"abc".to_vec();
    assert_eq!(classify_plugin(&MetaFile::Missing, &bytes), Some(OrphanReason::MetaMissing));
    assert_eq!(classify_plugin(&MetaFile::Corrupted, &bytes), Some(OrphanReason::MetaCorrupted));
}

#[test]
fn three_versions_prune_to_the_highest() {
    let plugins = vec![
        installed("qemu", "0.1.0", 1, "aaa1111", 10),
        installed("qemu", "0.2.0", 2, "bbb2222", 20),
        installed("qemu", "0.3.0", 3, "ccc3333", 30),
    ];
    let keep = prune_decisions(&plugins);
    assert_eq!(keep, vec![false, false, true]);
}

#[test]
fn prune_breaks_version_ties_by_creation_time() {
    let plugins = vec![
        installed("qemu", "0.2.0", 2, "aaa1111", 10),
        installed("qemu", "0.2.0", 2, "bbb2222", 20),
        installed("coredump", "0.1.0", 1, "ccc3333", 5),
    ];
    let keep = prune_decisions(&plugins);
    assert_eq!(keep, vec![false, true, true]);
}

#[test]
fn prune_keeps_single_records() {
    let plugins = vec![installed("qemu", "0.1.0", 1, "aaa1111", 10)];
    assert_eq!(prune_decisions(&plugins), vec![true]);
}

#[test]
fn uri_matching_accepts_digest_prefix() {
    let p = installed("qemu", "0.2.0", 2, "deadbeef1234", 10);
    let uri = PluginUri::parse("qemu:deadbe").unwrap();
    assert!(matches_uri(&p, "qemu:deadbe", &uri));
    let uri = PluginUri::parse("qemu:0.2.0").unwrap();
    assert!(matches_uri(&p, "qemu:0.2.0", &uri));
    let uri = PluginUri::parse("qemu").unwrap();
    assert!(matches_uri(&p, "qemu", &uri));
    let uri = PluginUri::parse("qemu:0.3.0").unwrap();
    assert!(!matches_uri(&p, "qemu:0.3.0", &uri));
    // The bare digest matches regardless of the name.
    let uri = PluginUri::parse("deadbeef1234").unwrap();
    assert!(matches_uri(&p, "deadbeef1234", &uri));
}

#[test]
fn find_returns_newest_match() {
    let plugins = vec![
        installed("qemu", "0.1.0", 1, "aaa1111", 10),
        installed("qemu", "0.2.0", 2, "bbb2222", 20),
        installed("coredump", "0.1.0", 1, "ccc3333", 5),
    ];
    assert_eq!(find_local_plugin(&plugins, "qemu").unwrap(), 1);
    assert_eq!(find_local_plugin(&plugins, "coredump").unwrap(), 2);
    match find_local_plugin(&plugins, "kvm") {
        Err(Error::NotFound(_)) => {}
        other => panic!("expected not-found, got {:?}", other),
    }
    match find_local_plugin(&plugins, "a/b/c") {
        Err(Error::Parse(_)) => {}
        other => panic!("expected a parse error, got {:?}", other),
    }
}

#[test]
fn plugin_file_name_shape() {
    let name = plugin_file_name(&linux(), &meta("qemu", "deadbeef1234")).unwrap();
    assert_eq!(name, "libmemflow_qemu_deadbee.so");
    match plugin_file_name(&linux(), &meta("qemu", "abc")) {
        Err(Error::Parse(_)) => {}
        other => panic!("expected a short digest to be refused, got {:?}", other),
    }
}
