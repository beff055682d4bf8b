use memflowup::registry::{select_variant, PluginArchitecture, PluginDescriptor, PluginEntry,
    PluginFileType, PluginUri, MEMFLOW_REGISTRY};
use memflowup::Error;

fn entry(name: &str, version: &str, plugin_version: i32, digest: &str, created_at: i64)
    -> PluginEntry {
    PluginEntry {
        digest: digest.to_string(),
        signature: String::new(),
        created_at,
        descriptor: PluginDescriptor {
            file_type: PluginFileType::Elf,
            architecture: PluginArchitecture::X86_64,
            plugin_version,
            name: name.to_string(),
            version: version.to_string(),
            description: String::new(),
        },
    }
}

#[test]
fn plugin_path_simple() {
    let path = PluginUri::parse("coredump").unwrap();
    assert_eq!(path.registry(), MEMFLOW_REGISTRY);
    assert_eq!(path.name(), "coredump");
    assert_eq!(path.version(), "latest");
}

#[test]
fn plugin_path_with_version() {
    let path = PluginUri::parse("coredump:0.2.0").unwrap();
    assert_eq!(path.registry(), MEMFLOW_REGISTRY);
    assert_eq!(path.name(), "coredump");
    assert_eq!(path.version(), "0.2.0");
}

#[test]
fn plugin_path_with_registry() {
    let path = PluginUri::parse("registry.memflow.xyz/coredump:0.2.0").unwrap();
    assert_eq!(path.registry(), "registry.memflow.xyz");
    assert_eq!(path.name(), "coredump");
    assert_eq!(path.version(), "0.2.0");
}

#[test]
fn plugin_path_invalid_path() {
    let path = PluginUri::parse("registry.memflow.xyz/coredump/test1234");
    assert!(path.is_err())
}

#[test]
fn plugin_path_invalid_version() {
    let path = PluginUri::parse("test1234:0.2.0:1.0.0");
    assert!(path.is_err())
}

#[test]
fn plugin_path_latest_explicit() {
    let path = PluginUri::parse("coredump:latest").unwrap();
    assert_eq!(path.version(), "latest");
    assert!(!path.wants_explicit_version());
}

#[test]
fn plugin_path_explicit_version_wanted() {
    let path = PluginUri::parse("coredump:0.2.0").unwrap();
    assert!(path.wants_explicit_version());
}

#[test]
fn plugin_path_invalid_is_parse_error() {
    match PluginUri::parse("a/b/c") {
        Err(Error::Parse(_)) => {}
        other => panic!("expected a parse error, got {:?}", other),
    }
    assert!(PluginUri::parse("a:b:c").is_err());
}

#[test]
fn plugin_path_round_trip_text() {
    let path = PluginUri::parse("reg.example.com/coredump:0.2.0").unwrap();
    assert_eq!(path.to_uri_string(), "reg.example.com/coredump:0.2.0");
    let bare = PluginUri::parse("coredump").unwrap();
    assert_eq!(bare.to_uri_string(), "coredump");
}

#[test]
fn select_variant_takes_newest_first() {
    let plugins = vec![
        entry("coredump", "0.2.0", 1, "aaaa", 10),
        entry("coredump", "0.1.0", 1, "bbbb", 5),
    ];
    let chosen = select_variant(plugins, "coredump").unwrap();
    assert_eq!(chosen.digest, "aaaa");
}

#[test]
fn select_variant_empty_is_not_found() {
    match select_variant(Vec::new(), "coredump") {
        Err(Error::NotFound(msg)) => assert!(msg.contains("coredump")),
        other => panic!("expected not-found, got {:?}", other),
    }
}
