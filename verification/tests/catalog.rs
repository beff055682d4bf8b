use memflowup::catalog::{dedup_by_name, resolve_catalog, Package, PackageLoadOpts, PackageOpts,
    PackageType};
use memflowup::database::Branch;

fn pkg(name: &str, url: &str) -> Package {
    Package {
        name: name.to_string(),
        ty: PackageType::CorePlugin,
        platforms: None,
        repo_root_url: url.to_string(),
        stable_branch: None,
        stable_binary_tag: None,
        dev_branch: None,
        dev_binary_tag: None,
        unsafe_commands: false,
        install_script_path: None,
    }
}

#[test]
fn dedup_keeps_first_occurrence() {
    let input = vec![pkg("qemu", "user"), pkg("coredump", "user"), pkg("qemu", "upstream")];
    let out = dedup_by_name(input);
    assert_eq!(out.len(), 2);
    assert_eq!(out[0].name, "qemu");
    assert_eq!(out[0].repo_root_url, "user");
    assert_eq!(out[1].name, "coredump");
}

#[test]
fn resolve_prefers_user_then_upstream_then_builtin() {
    let user = vec![pkg("qemu", "user")];
    let upstream = vec![pkg("qemu", "upstream"), pkg("coredump", "upstream")];
    let builtin = vec![pkg("qemu", "builtin"), pkg("coredump", "builtin"), pkg("kvm", "builtin")];
    let out = resolve_catalog(user, upstream, builtin, PackageLoadOpts::new(false, false, false));
    assert_eq!(out.len(), 3);
    let find = |n: &str| out.iter().find(|p| p.name == n).unwrap().repo_root_url.clone();
    assert_eq!(find("qemu"), "user");
    assert_eq!(find("coredump"), "upstream");
    assert_eq!(find("kvm"), "builtin");
}

#[test]
fn dedup_preserves_relative_order() {
    let input = vec![
        pkg("qemu", "a"),
        pkg("kvm", "b"),
        pkg("qemu", "c"),
        pkg("coredump", "d"),
        pkg("kvm", "e"),
    ];
    let out = dedup_by_name(input);
    let names: Vec<&str> = out.iter().map(|p| p.name.as_str()).collect();
    assert_eq!(names, vec!["qemu", "kvm", "coredump"]);
}

#[test]
fn resolve_skips_ignored_tiers() {
    let user = vec![pkg("qemu", "user")];
    let upstream = vec![pkg("qemu", "upstream")];
    let builtin = vec![pkg("qemu", "builtin")];
    let out = resolve_catalog(user, upstream, builtin, PackageLoadOpts::new(true, false, false));
    assert_eq!(out.len(), 1);
    assert_eq!(out[0].repo_root_url, "upstream");
}

#[test]
fn resolve_empty_tiers_yield_empty_catalog() {
    let out = resolve_catalog(Vec::new(), Vec::new(), Vec::new(), PackageLoadOpts::default());
    assert!(out.is_empty());
}

#[test]
fn channel_and_mode_selection() {
    let mut p = pkg("qemu", "url");
    p.stable_branch = Some("main".to_string());
    p.stable_binary_tag = None;
    assert!(p.is_in_channel(Branch::Stable));
    assert!(!p.is_in_channel(Branch::Dev));
    assert!(!p.is_in_channel(Branch::Local));
    assert!(p.supports_install_mode(Branch::Stable, true));
    assert!(!p.supports_install_mode(Branch::Stable, false));
    p.stable_binary_tag = Some("v0.2".to_string());
    assert!(p.supports_install_mode(Branch::Stable, false));
    assert_eq!(p.binary_release_tag(Branch::Stable), Some("v0.2"));
}

#[test]
fn platform_allow_list() {
    let tags = vec!["linux".to_string(), "unix".to_string()];
    let mut p = pkg("qemu", "url");
    assert!(p.supported_by_platform(&tags));
    p.platforms = Some(vec!["windows".to_string()]);
    assert!(!p.supported_by_platform(&tags));
    p.platforms = Some(vec!["windows".to_string(), "unix".to_string()]);
    assert!(p.supported_by_platform(&tags));
    p.platforms = Some(Vec::new());
    assert!(!p.supported_by_platform(&tags));
}

#[test]
fn base_opts_shape() {
    let o = PackageOpts::base_opts(true, false);
    assert!(o.system_wide);
    assert!(!o.from_source);
    assert!(!o.is_local);
    assert!(!o.nocopy);
    assert!(!o.reinstall);
}
