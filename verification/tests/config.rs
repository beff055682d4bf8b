use memflowup::config::{Config, KeyFileCheck};
use memflowup::error::Error;
use memflowup::registry::MEMFLOW_REGISTRY;

#[test]
fn registry_falls_back_to_default() {
    let mut c = Config::default();
    assert_eq!(c.get("registry").unwrap(), Some(MEMFLOW_REGISTRY));
    c.set("registry", "reg.example.com", KeyFileCheck::Missing).unwrap();
    assert_eq!(c.get("registry").unwrap(), Some("reg.example.com"));
    c.unset("registry").unwrap();
    assert_eq!(c.get("registry").unwrap(), Some(MEMFLOW_REGISTRY));
}

#[test]
fn token_round_trip() {
    let mut c = Config::default();
    assert_eq!(c.get("token").unwrap(), None);
    c.set("token", "SECRET-REDACTED", KeyFileCheck::Missing).unwrap();
    assert_eq!(c.get("token").unwrap(), Some("SECRET-REDACTED"));
    c.unset("token").unwrap();
    assert_eq!(c.get("token").unwrap(), None);
}

#[test]
fn key_files_require_validation() {
    let mut c = Config::default();
    match c.set("pub_key_file", "/keys/absent.pem", KeyFileCheck::Missing) {
        Err(Error::NotFound(msg)) => assert!(msg.contains("exist")),
        other => panic!("expected a missing key file to be refused, got {:?}", other),
    }
    match c.set("pub_key_file", "/keys/garbage.pem", KeyFileCheck::Invalid) {
        Err(Error::NotFound(msg)) => assert!(msg.contains("valid")),
        other => panic!("expected an invalid key file to be refused, got {:?}", other),
    }
    assert_eq!(c.get("pub_key_file").unwrap(), None);
    c.set("pub_key_file", "/keys/good.pem", KeyFileCheck::Valid).unwrap();
    assert_eq!(c.get("pub_key_file").unwrap(), Some("/keys/good.pem"));
    c.set("priv_key_file", "/keys/good_priv.pem", KeyFileCheck::Valid).unwrap();
    assert_eq!(c.get("priv_key_file").unwrap(), Some("/keys/good_priv.pem"));
}

#[test]
fn unknown_keys_are_refused() {
    let mut c = Config::default();
    assert!(matches!(c.get("colour"), Err(Error::NotFound(_))));
    assert!(matches!(c.set("colour", "red", KeyFileCheck::Missing), Err(Error::NotFound(_))));
    assert!(matches!(c.unset("colour"), Err(Error::NotFound(_))));
}

#[test]
fn error_classification_and_messages() {
    let e = Error::IO("broken pipe".to_string());
    assert_eq!(e.message(), "broken pipe");
    assert_eq!(e, Error::IO("broken pipe".to_string()));
    assert_ne!(e, Error::Http("broken pipe".to_string()));
    assert_ne!(e, Error::IO("other".to_string()));
    assert_eq!(Error::AlreadyExists("x".to_string()).message(), "x");
    assert_eq!(Error::Parse("bad".to_string()).to_display_string(), "Parse error: bad");
    assert_eq!(Error::Signature("no".to_string()).to_display_string(), "Signature error: no");
    assert_eq!(e.to_display_string(), "IO error: broken pipe");
    assert_eq!(Error::Http("h".to_string()).message(), "h");
    assert_eq!(Error::Unknown("u".to_string()).message(), "u");
}
