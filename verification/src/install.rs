//! The install orchestrator's state machine: per package, compute the
//! target entry type without side effects, short-circuit on the
//! idempotency check, and otherwise select the script entrypoint for
//! the mode.  The surrounding application resolves commits, runs the
//! install script and commits the returned record.

use vstd::prelude::*;

use crate::catalog::{Package, PackageOpts, PackageType};
use crate::database::{Branch, Database, DatabaseEntry, EntryType};
use crate::error::Error;
use crate::strutil::clone_strings;

verus! {

/// The tag of an entry type, without its payload.
#[derive(Debug, Clone, Copy, PartialEq, Eq, Structural)]
pub enum EntryKind {
    GitSource,
    Binary,
    LocalPath,
}

/// The mathematical content of an entry type: its tag and its payload's
/// characters.
pub open spec fn entry_view(e: EntryType) -> (EntryKind, Seq<char>) {
    match e {
        EntryType::GitSource(s) => (EntryKind::GitSource, s@),
        EntryType::Binary(s) => (EntryKind::Binary, s@),
        EntryType::LocalPath(s) => (EntryKind::LocalPath, s@),
    }
}

/// The target entry type of an install, computed without side effects:
/// the source path for local installs, the resolved commit for source
/// installs, the channel's release tag for binary installs — and
/// nothing when the channel offers no way to install the package.
pub open spec fn spec_target(
    pkg: Package,
    branch: Branch,
    opts: PackageOpts,
    sha: Seq<char>,
) -> Option<(EntryKind, Seq<char>)> {
    if opts.is_local {
        Some((EntryKind::LocalPath, pkg.repo_root_url@))
    } else if opts.from_source {
        Some((EntryKind::GitSource, sha))
    } else {
        match pkg.spec_binary_release_tag(branch) {
            Some(tag) => Some((EntryKind::Binary, tag)),
            None => None,
        }
    }
}

/// The entrypoint procedure the sandbox runs for one install mode.
#[derive(Debug, Clone, Copy, PartialEq, Eq, Structural)]
pub enum Entrypoint {
    BuildLocal,
    BuildFromSource,
    Install,
}

impl Entrypoint {
    /// The entrypoint selected by the options: local builds, source
    /// builds, and binary installs each have their own procedure.
    pub open spec fn spec_for_opts(opts: PackageOpts) -> Entrypoint {
        if opts.is_local {
            Entrypoint::BuildLocal
        } else if opts.from_source {
            Entrypoint::BuildFromSource
        } else {
            Entrypoint::Install
        }
    }

    /// Selects the entrypoint for the options.
    pub fn for_opts(opts: &PackageOpts) -> (r: Entrypoint)
        ensures
            r == Entrypoint::spec_for_opts(*opts),
    {
        if opts.is_local {
            Entrypoint::BuildLocal
        } else if opts.from_source {
            Entrypoint::BuildFromSource
        } else {
            Entrypoint::Install
        }
    }

    /// The entrypoint's name inside the install script.
    pub fn name(&self) -> (r: &'static str)
        ensures
            self == Entrypoint::BuildLocal ==> r@ == "build_local"@,
            self == Entrypoint::BuildFromSource ==> r@ == "build_from_source"@,
            self == Entrypoint::Install ==> r@ == "install"@,
    {
        match self {
            Entrypoint::BuildLocal => "build_local",
            Entrypoint::BuildFromSource => "build_from_source",
            Entrypoint::Install => "install",
        }
    }
}

/// What the orchestrator decides for one package.
#[derive(Debug)]
pub enum InstallDecision {
    /// The package offers no install path in this channel and mode; the
    /// package is skipped, not failed.
    NotSupported,
    /// The persisted record already equals the target: nothing is
    /// written, and the stored artifact list is re-emitted.
    AlreadyInstalled(Vec<String>),
    /// The sandbox must run this entrypoint.
    Proceed(Entrypoint),
}

/// Whether the idempotency check short-circuits: the check is not
/// bypassed, the target exists, and the persisted record's entry type
/// matches it exactly, tag and payload.
pub open spec fn spec_idempotent_hit(
    pkg: Package,
    branch: Branch,
    opts: PackageOpts,
    db: Database,
    sha: Seq<char>,
) -> bool {
    &&& !opts.reinstall
    &&& spec_target(pkg, branch, opts, sha) matches Some(t) && (db.spec_get(pkg.name@) matches Some(
        e,
    ) && entry_view(e.ty) == t)
}

/// The artifact list of the persisted record, if one exists.
pub open spec fn spec_stored_artifacts(pkg: Package, db: Database) -> Option<Seq<String>> {
    match db.spec_get(pkg.name@) {
        Some(e) => Some(e.artifacts@),
        None => None,
    }
}

/// Computes the target entry type, `None` when the package is not
/// installable in this channel and mode.
pub fn target_entry_type(pkg: &Package, branch: Branch, opts: &PackageOpts, sha: &str) -> (r:
    Option<EntryType>)
    ensures
        match r {
            Some(t) => spec_target(*pkg, branch, *opts, sha@) == Some(entry_view(t)),
            None => spec_target(*pkg, branch, *opts, sha@) is None,
        },
{
    if opts.is_local {
        Some(EntryType::LocalPath(pkg.repo_root_url.clone()))
    } else if opts.from_source {
        Some(EntryType::GitSource(sha.to_owned()))
    } else {
        match pkg.binary_release_tag(branch) {
            Some(tag) => Some(EntryType::Binary(tag.to_owned())),
            None => None,
        }
    }
}

/// Decides one package install, given the loaded database document for
/// the channel and scope and the resolved commit hash.
pub fn plan_install(
    pkg: &Package,
    branch: Branch,
    opts: &PackageOpts,
    db: &Database,
    sha: &str,
) -> (r: InstallDecision)
    requires
        db.wf(),
    ensures
        spec_target(*pkg, branch, *opts, sha@) is None <==> r is NotSupported,
        spec_idempotent_hit(*pkg, branch, *opts, *db, sha@) ==> (r matches
            InstallDecision::AlreadyInstalled(a) && Some(a@) == spec_stored_artifacts(*pkg, *db)),
        (spec_target(*pkg, branch, *opts, sha@) is Some && !spec_idempotent_hit(
            *pkg,
            branch,
            *opts,
            *db,
            sha@,
        )) ==> r == InstallDecision::Proceed(Entrypoint::spec_for_opts(*opts)),
{
    let target = target_entry_type(pkg, branch, opts, sha);
    let target = match target {
        Some(t) => t,
        None => {
            return InstallDecision::NotSupported;
        },
    };
    if !opts.reinstall {
        let stored = db.get(pkg.name.as_str());
        match stored {
            Some(entry) => {
                if entry.ty.same_as(&target) {
                    return InstallDecision::AlreadyInstalled(clone_strings(&entry.artifacts));
                }
            },
            None => {},
        }
    }
    InstallDecision::Proceed(Entrypoint::for_opts(opts))
}

/// Idempotency: once a successful install's record — whose entry type
/// is the target — is committed, planning the same install again with
/// the same options and without `reinstall` hits the idempotency check,
/// so the second run performs no write and re-emits the stored artifact
/// list unchanged.
pub proof fn lemma_install_idempotent(
    pkg: Package,
    branch: Branch,
    opts: PackageOpts,
    committed: Database,
    sha: Seq<char>,
    record: DatabaseEntry,
)
    requires
        !opts.reinstall,
        spec_target(pkg, branch, opts, sha) == Some(entry_view(record.ty)),
        committed.spec_get(pkg.name@) == Some(record),
    ensures
        spec_idempotent_hit(pkg, branch, opts, committed, sha),
        spec_stored_artifacts(pkg, committed) == Some(record.artifacts@),
{
}

/// Constructs the synthetic package and the options of a one-shot local
/// build, mapping the textual package kind to its enum; an unknown kind
/// is reported as not implemented.
pub fn build(
    name: &str,
    path: &str,
    script: Option<&str>,
    ty: &str,
    unsafe_commands: bool,
    system_wide: bool,
    nocopy: bool,
) -> (r: Result<(Package, PackageOpts), Error>)
    ensures
        match spec_build_type(ty@) {
            Some(t) => r matches Ok(po) && {
                &&& po.0.name@ == name@
                &&& po.0.ty == t
                &&& po.0.platforms is None
                &&& po.0.repo_root_url@ == path@
                &&& po.0.stable_branch is None
                &&& po.0.stable_binary_tag is None
                &&& po.0.dev_branch is None
                &&& po.0.dev_binary_tag is None
                &&& po.0.unsafe_commands == unsafe_commands
                &&& match (po.0.install_script_path, script) {
                    (Some(sp), Some(s)) => sp@ == s@,
                    (None, None) => true,
                    _ => false,
                }
                &&& po.1 == (PackageOpts {
                    is_local: true,
                    nocopy,
                    system_wide,
                    reinstall: true,
                    from_source: true,
                })
            },
            None => r matches Err(e) && e is NotImplemented,
        },
{
    let ty = match parse_build_type(ty) {
        Some(t) => t,
        None => {
            return Err(Error::NotImplemented("Invalid type".to_owned()));
        },
    };
    let package = Package {
        name: name.to_owned(),
        ty,
        platforms: None,
        repo_root_url: path.to_owned(),
        stable_branch: None,
        stable_binary_tag: None,
        dev_branch: None,
        dev_binary_tag: None,
        unsafe_commands,
        install_script_path: match script {
            Some(s) => Some(s.to_owned()),
            None => None,
        },
    };
    let opts = PackageOpts { is_local: true, nocopy, system_wide, reinstall: true, from_source: true };
    Ok((package, opts))
}

/// The package kind a textual name selects, with its accepted short
/// forms.
pub open spec fn spec_build_type(s: Seq<char>) -> Option<PackageType> {
    if s == "core_plugin"@ || s == "core"@ {
        Some(PackageType::CorePlugin)
    } else if s == "utility"@ || s == "util"@ {
        Some(PackageType::Utility)
    } else if s == "library"@ || s == "lib"@ {
        Some(PackageType::Library)
    } else if s == "daemon_plugin"@ || s == "daemon"@ {
        Some(PackageType::DaemonPlugin)
    } else {
        None
    }
}

/// Maps the textual package kind to its enum.
fn parse_build_type(s: &str) -> (r: Option<PackageType>)
    ensures
        r == spec_build_type(s@),
{
    if crate::strutil::str_eq(s, "core_plugin") || crate::strutil::str_eq(s, "core") {
        Some(PackageType::CorePlugin)
    } else if crate::strutil::str_eq(s, "utility") || crate::strutil::str_eq(s, "util") {
        Some(PackageType::Utility)
    } else if crate::strutil::str_eq(s, "library") || crate::strutil::str_eq(s, "lib") {
        Some(PackageType::Library)
    } else if crate::strutil::str_eq(s, "daemon_plugin") || crate::strutil::str_eq(s, "daemon") {
        Some(PackageType::DaemonPlugin)
    } else {
        None
    }
}

/// What a one-shot install decides for one requested name.
#[derive(Debug, Clone, Copy, PartialEq, Eq, Structural)]
pub enum InstallSelection {
    /// The package at this index is installable in the channel and mode.
    Install(usize),
    /// The package at this index exists but offers no install path in
    /// this channel and mode.
    WrongChannel(usize),
    /// No platform-supported package of that name exists.
    NotFound,
}

/// Whether the catalog entry at `j` is platform-supported and carries
/// the requested name.
pub open spec fn spec_candidate(
    packages: Seq<Package>,
    name: Seq<char>,
    os_tags: Seq<String>,
    j: int,
) -> bool {
    packages[j].spec_supported_by_platform(os_tags) && packages[j].name@ == name
}

/// Selects the install action for one requested package name: the first
/// platform-supported catalog entry of that name decides, and it is
/// installable only when it supports the channel and mode.
pub fn select_install_action(
    packages: &Vec<Package>,
    name: &str,
    branch: Branch,
    from_source: bool,
    os_tags: &Vec<String>,
) -> (r: InstallSelection)
    ensures
        match r {
            InstallSelection::Install(i) => {
                &&& i < packages@.len()
                &&& spec_candidate(packages@, name@, os_tags@, i as int)
                &&& packages@[i as int].spec_supports_install_mode(branch, from_source)
                &&& forall|j: int|
                    0 <= j < i ==> !spec_candidate(packages@, name@, os_tags@, j)
            },
            InstallSelection::WrongChannel(i) => {
                &&& i < packages@.len()
                &&& spec_candidate(packages@, name@, os_tags@, i as int)
                &&& !packages@[i as int].spec_supports_install_mode(branch, from_source)
                &&& forall|j: int|
                    0 <= j < i ==> !spec_candidate(packages@, name@, os_tags@, j)
            },
            InstallSelection::NotFound => forall|j: int|
                0 <= j < packages@.len() ==> !spec_candidate(packages@, name@, os_tags@, j),
        },
{
    let n = packages.len();
    let mut i: usize = 0;
    while i < n
        invariant
            n == packages@.len(),
            i <= n,
            forall|j: int| 0 <= j < i ==> !spec_candidate(packages@, name@, os_tags@, j),
        decreases n - i,
    {
        if packages[i].supported_by_platform(os_tags) && crate::strutil::str_eq(
            packages[i].name.as_str(),
            name,
        ) {
            if packages[i].supports_install_mode(branch, from_source) {
                return InstallSelection::Install(i);
            } else {
                return InstallSelection::WrongChannel(i);
            }
        }
        i = i + 1;
    }
    InstallSelection::NotFound
}

/// What a batch update decides for one package: `Some(from_source)`
/// when the package is in the channel, supported on this platform and
/// already installed — rebuilding from source unless the installed
/// record is a binary release.
pub fn update_action(pkg: &Package, db: &Database, branch: Branch, os_tags: &Vec<String>) -> (r:
    Option<bool>)
    requires
        db.wf(),
    ensures
        r is Some <==> (pkg.spec_is_in_channel(branch) && pkg.spec_supported_by_platform(os_tags@)
            && db.spec_get(pkg.name@) is Some),
        r matches Some(fs) ==> (db.spec_get(pkg.name@) matches Some(e) ==> fs == !(e.ty
            is Binary)),
{
    if !pkg.is_in_channel(branch) {
        return None;
    }
    if !pkg.supported_by_platform(os_tags) {
        return None;
    }
    let stored = db.get(pkg.name.as_str());
    match stored {
        Some(entry) => match &entry.ty {
            EntryType::Binary(_) => Some(false),
            _ => Some(true),
        },
        None => None,
    }
}

/// Whether the cached upstream index must be refreshed: when no cached
/// copy exists, or the copy is older than sixty seconds.  A transient
/// refresh failure afterwards leaves the stale cache in use; it is
/// never a hard error.
pub fn should_refresh_index(cache_age_secs: Option<u64>) -> (r: bool)
    ensures
        r == match cache_age_secs {
            None => true,
            Some(age) => age > 60,
        },
{
    match cache_age_secs {
        None => true,
        Some(age) => age > 60,
    }
}

} // verus!
