use memflowup::database::{db_file_name, Branch, Database, DatabaseEntry, EntryType};

fn record(ty: EntryType) -> DatabaseEntry {
    DatabaseEntry { ty, artifacts: vec!["/plugins/a.so".to_string()] }
}

#[test]
fn empty_database_reads_as_empty_map() {
    let db = Database::new();
    assert!(db.get("qemu").is_none());
    assert_eq!(db.entries.len(), 0);
}

#[test]
fn insert_then_get() {
    let mut db = Database::new();
    db.insert("qemu", record(EntryType::Binary("v0.2.0".to_string())));
    db.insert("coredump", record(EntryType::GitSource("abc".to_string())));
    match &db.get("qemu").unwrap().ty {
        EntryType::Binary(tag) => assert_eq!(tag, "v0.2.0"),
        other => panic!("wrong entry type {:?}", other),
    }
    assert!(db.get("kvm").is_none());
}

#[test]
fn insert_overwrites_same_name_only() {
    let mut db = Database::new();
    db.insert("qemu", record(EntryType::Binary("v0.1.0".to_string())));
    db.insert("coredump", record(EntryType::Binary("v0.5.0".to_string())));
    db.insert("qemu", record(EntryType::Binary("v0.2.0".to_string())));
    assert_eq!(db.entries.len(), 2);
    match &db.get("qemu").unwrap().ty {
        EntryType::Binary(tag) => assert_eq!(tag, "v0.2.0"),
        other => panic!("wrong entry type {:?}", other),
    }
    match &db.get("coredump").unwrap().ty {
        EntryType::Binary(tag) => assert_eq!(tag, "v0.5.0"),
        other => panic!("wrong entry type {:?}", other),
    }
}

#[test]
fn entry_equality_is_variant_and_payload() {
    let a = EntryType::GitSource("abc".to_string());
    assert!(a.same_as(&EntryType::GitSource("abc".to_string())));
    assert!(!a.same_as(&EntryType::GitSource("def".to_string())));
    assert!(!a.same_as(&EntryType::Binary("abc".to_string())));
    assert!(!a.same_as(&EntryType::LocalPath("abc".to_string())));
}

#[test]
fn one_document_per_channel() {
    assert_eq!(db_file_name(Branch::Dev), "db2.dev.json");
    assert_eq!(db_file_name(Branch::Stable), "db2.stable.json");
    assert_eq!(db_file_name(Branch::Local), "db2.local.json");
    assert_eq!(Branch::Stable.filename(), "stable");
    assert_eq!(Branch::from(true), Branch::Dev);
    assert_eq!(Branch::from(false), Branch::Stable);
}
