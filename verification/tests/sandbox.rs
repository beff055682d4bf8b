use memflowup::catalog::{Package, PackageOpts, PackageType};
use memflowup::database::{Branch, EntryType};
use memflowup::error::Error;
use memflowup::platform::Platform;
use memflowup::sandbox::{arch_str, archive_url, checksum_dir_name, hex_u64, may_register_device,
    name2lib, name2lib_with_arch, udev_rule_file_name, InstallContext, ScriptSource};

fn pkg(name: &str) -> Package {
    Package {
        name: name.to_string(),
        ty: PackageType::CorePlugin,
        platforms: None,
        repo_root_url: "https://github.com/memflow/memflow-qemu".to_string(),
        stable_branch: Some("main".to_string()),
        stable_binary_tag: Some("v0.2.0".to_string()),
        dev_branch: None,
        dev_binary_tag: None,
        unsafe_commands: false,
        install_script_path: None,
    }
}

fn linux() -> Platform {
    Platform {
        os_tags: vec!["linux".to_string(), "unix".to_string()],
        arch: "x86_64".to_string(),
        lib_prefix: "lib".to_string(),
        lib_extension: "so".to_string(),
    }
}

fn ctx(opts: PackageOpts) -> InstallContext {
    InstallContext::new(pkg("qemu"), opts, Branch::Stable, "/tmp/build".to_string(),
        "abc123".to_string())
}

#[test]
fn artifact_write_marks_release_and_qualifies_name() {
    let mut c = ctx(PackageOpts::base_opts(false, true));
    let name = c.plan_artifact_write("libmemflow_qemu.so", &linux()).unwrap();
    assert_eq!(name, "libmemflow_qemu.stable.so");
    match &c.installed_release {
        Some(EntryType::GitSource(sha)) => assert_eq!(sha, "abc123"),
        other => panic!("release cell not marked as source install: {:?}", other),
    }
    c.confirm_artifact_written("/plugins/libmemflow_qemu.stable.so".to_string());
    let (ty, artifacts) = c.finish().unwrap();
    assert!(matches!(ty, EntryType::GitSource(_)));
    assert_eq!(artifacts, vec!["/plugins/libmemflow_qemu.stable.so".to_string()]);
}

#[test]
fn local_artifacts_carry_the_architecture_tag() {
    let opts = PackageOpts { is_local: true, ..PackageOpts::base_opts(false, true) };
    let mut c = ctx(opts);
    let name = c.plan_artifact_write("libmemflow_qemu.so", &linux()).unwrap();
    assert_eq!(name, "libmemflow_qemu.x86_64.so");
    match &c.installed_release {
        Some(EntryType::LocalPath(p)) => {
            assert_eq!(p, "https://github.com/memflow/memflow-qemu")
        }
        other => panic!("release cell not marked as local install: {:?}", other),
    }
}

#[test]
fn artifact_without_extension_is_refused() {
    let mut c = ctx(PackageOpts::base_opts(false, true));
    match c.plan_artifact_write("noextension", &linux()) {
        Err(Error::Parse(_)) => {}
        other => panic!("expected an invalid artifact error, got {:?}", other),
    }
}

#[test]
fn unmarked_release_fails_the_install() {
    let mut c = ctx(PackageOpts::base_opts(false, false));
    c.confirm_artifact_written("/plugins/file.so".to_string());
    match c.finish() {
        Err(Error::Unknown(msg)) => assert!(msg.contains("mark")),
        other => panic!("expected the unmarked run to fail, got {:?}", other),
    }
}

#[test]
fn binary_mode_marks_the_release_tag() {
    let mut c = ctx(PackageOpts::base_opts(false, false));
    c.mark_release();
    match c.finish() {
        Ok((EntryType::Binary(tag), artifacts)) => {
            assert_eq!(tag, "v0.2.0");
            assert!(artifacts.is_empty());
        }
        other => panic!("expected a binary release, got {:?}", other),
    }
}

#[test]
fn library_names_for_platform() {
    let p = linux();
    assert_eq!(name2lib("memflow-qemu", &p), "libmemflow_qemu.so");
    assert_eq!(name2lib_with_arch("memflow-qemu", &p), "libmemflow_qemu.x86_64.so");
    assert_eq!(arch_str(&p), "x86_64");
    let windows = Platform {
        os_tags: vec!["windows".to_string()],
        arch: "x86_64".to_string(),
        lib_prefix: String::new(),
        lib_extension: "dll".to_string(),
    };
    assert_eq!(name2lib("memflow-qemu", &windows), "memflow_qemu.dll");
}

#[test]
fn checksum_directories_are_reproducible() {
    // CRC-64/GO-ISO of the standard check input.
    assert_eq!(hex_u64(0xb90956c775a41001), "b90956c775a41001");
    assert_eq!(hex_u64(0), "0");
    let a = checksum_dir_name("/tmp/build", b"123456789");
    let b = checksum_dir_name("/tmp/build", b"123456789");
    assert_eq!(a, b);
    assert_eq!(a, "/tmp/build/b90956c775a41001");
}

#[test]
fn repository_archive_url() {
    assert_eq!(
        archive_url("https://github.com/memflow/memflow-qemu", "abc123"),
        "https://github.com/memflow/memflow-qemu/archive/abc123.zip"
    );
}

#[test]
fn script_resolution_order() {
    let c = ctx(PackageOpts::base_opts(false, true));
    assert!(matches!(c.script_source(), ScriptSource::Builtin));

    let mut with_script = pkg("qemu");
    with_script.install_script_path = Some("install.rhai".to_string());
    let c = InstallContext::new(with_script.clone(), PackageOpts::base_opts(false, true),
        Branch::Stable, "/tmp/build".to_string(), "abc123".to_string());
    match c.script_source() {
        ScriptSource::FetchFromRepo(p) => assert_eq!(p, "install.rhai"),
        other => panic!("expected a repository fetch, got {:?}", other),
    }

    let local = PackageOpts { is_local: true, ..PackageOpts::base_opts(false, true) };
    let c = InstallContext::new(with_script, local, Branch::Local, "/src/qemu".to_string(),
        "LOCAL".to_string());
    match c.script_source() {
        ScriptSource::ReadLocalFile(p) => assert_eq!(p, "/src/qemu/install.rhai"),
        other => panic!("expected a local read, got {:?}", other),
    }
}

#[test]
fn device_registration_is_gated() {
    let mut p = pkg("qemu");
    assert!(!may_register_device(&p));
    p.unsafe_commands = true;
    assert!(may_register_device(&p));
    assert_eq!(udev_rule_file_name("memflow"), "99-memflow.rules");
}
