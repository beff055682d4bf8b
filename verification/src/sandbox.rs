//! The install-script sandbox's host side: the per-run call context
//! with its append-only artifact list and one-shot release-type cell,
//! and the pure computations behind the capability surface — artifact
//! naming, library file names, checksum-keyed directory names, archive
//! URLs and script-source resolution.
//!
//! The interpreter itself and everything it touches (HTTP, git, cargo,
//! the filesystem) live in the surrounding application; the application
//! holds the context and routes every capability call through it.

use vstd::prelude::*;

use crate::catalog::{Package, PackageOpts};
use crate::database::{Branch, EntryType};
use crate::error::Error;
use crate::install::{entry_view, spec_target, EntryKind};
use crate::platform::Platform;
use crate::strutil::{find_last_char, lemma_last_occurrence};
use crate::trusted::{ascii_to_string, crc64, crc64_of, replace_dashes};

verus! {

/// The call context of one synchronous script run.  It aggregates the
/// run's side effects — the artifact paths written so far and the
/// one-shot release-type cell — and must not outlive the run nor be
/// shared across runs.
#[derive(Debug)]
pub struct InstallContext {
    pub package: Package,
    pub opts: PackageOpts,
    pub branch: Branch,
    /// The run's temporary build directory.
    pub tmp_dir: String,
    /// The resolved commit hash, or the synthetic `LOCAL` marker for
    /// path-based installs.
    pub sha: String,
    /// Append-only list of artifact paths written by this run.
    pub installed: Vec<String>,
    /// One-shot cell holding the entry type to persist; a run whose
    /// script never marks it must not be accepted as a success.
    pub installed_release: Option<EntryType>,
}

impl InstallContext {
    /// The entry type this run will persist, as tag and payload.
    pub open spec fn spec_ctx_target(&self) -> Option<(EntryKind, Seq<char>)> {
        spec_target(self.package, self.branch, self.opts, self.sha@)
    }

    /// A fresh context: no artifacts written, release cell unset.
    pub fn new(package: Package, opts: PackageOpts, branch: Branch, tmp_dir: String, sha: String)
        -> (r: InstallContext)
        ensures
            r.package == package,
            r.opts == opts,
            r.branch == branch,
            r.tmp_dir == tmp_dir,
            r.sha == sha,
            r.installed@.len() == 0,
            r.installed_release is None,
    {
        InstallContext {
            package,
            opts,
            branch,
            tmp_dir,
            sha,
            installed: Vec::new(),
            installed_release: None,
        }
    }

    /// The entry type to persist: the local source path, the resolved
    /// commit, or the channel's binary release tag.
    pub fn entry_type(&self) -> (r: EntryType)
        requires
            self.spec_ctx_target() is Some,
        ensures
            Some(entry_view(r)) == self.spec_ctx_target(),
    {
        if self.opts.is_local {
            EntryType::LocalPath(self.package.repo_root_url.clone())
        } else if self.opts.from_source {
            EntryType::GitSource(self.sha.clone())
        } else {
            match self.package.binary_release_tag(self.branch) {
                Some(tag) => EntryType::Binary(tag.to_owned()),
                None => EntryType::Binary(String::new()),  // unreachable under the precondition
            }
        }
    }

    /// Marks the release-type cell; every artifact write does this
    /// first, so that a run that wrote anything also fixed what to
    /// persist.
    pub fn mark_release(&mut self)
        requires
            old(self).spec_ctx_target() is Some,
        ensures
            final(self).installed_release matches Some(t) && Some(entry_view(t)) == old(
                self,
            ).spec_ctx_target(),
            final(self).package == old(self).package,
            final(self).opts == old(self).opts,
            final(self).branch == old(self).branch,
            final(self).tmp_dir == old(self).tmp_dir,
            final(self).sha == old(self).sha,
            final(self).installed == old(self).installed,
    {
        let t = self.entry_type();
        self.installed_release = Some(t);
    }

    /// Appends one successfully written artifact path to the run's
    /// list; the list is append-only.
    pub fn confirm_artifact_written(&mut self, path: String)
        ensures
            final(self).installed@ == old(self).installed@.push(path),
            final(self).package == old(self).package,
            final(self).opts == old(self).opts,
            final(self).branch == old(self).branch,
            final(self).tmp_dir == old(self).tmp_dir,
            final(self).sha == old(self).sha,
            final(self).installed_release == old(self).installed_release,
    {
        self.installed.push(path);
    }

    /// The qualified output file name of one artifact write, and the
    /// marking of the release cell that precedes it.  The artifact name
    /// is split at its last dot into stem and extension, and the
    /// channel name — or, for local installs, the architecture tag — is
    /// inserted between them; a name without a dot is rejected.
    pub fn plan_artifact_write(&mut self, artifact: &str, platform: &Platform) -> (r: Result<
        String,
        Error,
    >)
        requires
            old(self).spec_ctx_target() is Some,
        ensures
            final(self).installed_release matches Some(t) && Some(entry_view(t)) == old(
                self,
            ).spec_ctx_target(),
            final(self).package == old(self).package,
            final(self).opts == old(self).opts,
            final(self).branch == old(self).branch,
            final(self).tmp_dir == old(self).tmp_dir,
            final(self).sha == old(self).sha,
            final(self).installed == old(self).installed,
            artifact@.index_of_last('.') is Some ==> (r matches Ok(name) && name@
                == spec_output_name(
                artifact@,
                spec_artifact_tag(old(self).opts, old(self).branch, *platform),
            )),
            artifact@.index_of_last('.') is None ==> (r matches Err(e) && e is Parse),
    {
        self.mark_release();
        let dot = find_last_char(artifact, '.');
        proof {
            lemma_last_occurrence(artifact@, '.', dot);
        }
        let d = match dot {
            Some(d) => d,
            None => {
                return Err(Error::Parse("invalid artifact passed".to_owned()));
            },
        };
        let n = artifact.unicode_len();
        let stem = artifact.substring_char(0, d);
        let extension = artifact.substring_char(d + 1, n);
        let mut out = String::new();
        out.append(stem);
        out.append(".");
        if self.opts.is_local {
            out.append(platform.arch.as_str());
        } else {
            out.append(self.branch.filename());
        }
        out.append(".");
        out.append(extension);
        Ok(out)
    }

    /// Accepts the run's outcome: the entry type the script marked and
    /// the artifacts it wrote.  A script that never marked the release
    /// cell is a script-author bug, and the whole install fails.
    pub fn finish(self) -> (r: Result<(EntryType, Vec<String>), Error>)
        ensures
            self.installed_release matches Some(t) ==> r == Ok::<_, Error>((t, self.installed)),
            self.installed_release is None ==> (r matches Err(e) && e is Unknown),
    {
        match self.installed_release {
            Some(t) => Ok((t, self.installed)),
            None => Err(Error::Unknown("Script failed to mark installed release!".to_owned())),
        }
    }

    /// Resolution of the script source: an explicit script path is
    /// fetched from the repository at the resolved commit — or read
    /// from the local source tree for local installs — and the built-in
    /// default script is the fallback of last resort.
    pub fn script_source(&self) -> (r: ScriptSource)
        ensures
            match self.package.install_script_path {
                Some(p) => if !self.opts.is_local {
                    r matches ScriptSource::FetchFromRepo(rel) && rel@ == p@
                } else {
                    r matches ScriptSource::ReadLocalFile(full) && full@ == self.tmp_dir@ + "/"@
                        + p@
                },
                None => r is Builtin,
            },
    {
        match &self.package.install_script_path {
            Some(p) => {
                if !self.opts.is_local {
                    ScriptSource::FetchFromRepo(p.clone())
                } else {
                    let mut full = String::new();
                    full.append(self.tmp_dir.as_str());
                    full.append("/");
                    full.append(p.as_str());
                    ScriptSource::ReadLocalFile(full)
                }
            },
            None => ScriptSource::Builtin,
        }
    }
}

/// Where the install script comes from.
#[derive(Debug, Clone)]
pub enum ScriptSource {
    /// Fetch this path from the repository at the resolved commit.
    FetchFromRepo(String),
    /// Read this file from the local source tree.
    ReadLocalFile(String),
    /// Use the built-in default script.
    Builtin,
}

/// The tag inserted into a qualified artifact name: the architecture
/// for local installs, the channel name otherwise.
pub open spec fn spec_artifact_tag(opts: PackageOpts, branch: Branch, platform: Platform) -> Seq<
    char,
> {
    if opts.is_local {
        platform.arch@
    } else {
        branch.spec_filename()
    }
}

/// The qualified artifact name `<stem>.<tag>.<extension>`, splitting
/// the artifact at its last dot.
pub open spec fn spec_output_name(artifact: Seq<char>, tag: Seq<char>) -> Seq<char>
    recommends
        artifact.index_of_last('.') is Some,
{
    let d = artifact.index_of_last('.').unwrap_or(0);
    artifact.subrange(0, d) + "."@ + tag + "."@ + artifact.subrange(d + 1, artifact.len() as int)
}

/// A dynamic-library file name stem: the crate name with dashes turned
/// into underscores.
pub open spec fn lib_name_chars(s: Seq<char>) -> Seq<char> {
    s.map_values(|c: char| if c == '-' { '_' } else { c })
}

/// The platform's dynamic-library file name for a crate name:
/// `<prefix><name-with-underscores>.<extension>`.
pub fn name2lib(name: &str, platform: &Platform) -> (r: String)
    ensures
        r@ == platform.lib_prefix@ + lib_name_chars(name@) + "."@ + platform.lib_extension@,
{
    let underscored = replace_dashes(name);
    let mut out = String::new();
    out.append(platform.lib_prefix.as_str());
    out.append(underscored.as_str());
    out.append(".");
    out.append(platform.lib_extension.as_str());
    out
}

/// The library file name with the architecture tag appended to the
/// crate name.
pub fn name2lib_with_arch(name: &str, platform: &Platform) -> (r: String)
    ensures
        r@ == platform.lib_prefix@ + lib_name_chars(name@ + "."@ + platform.arch@) + "."@
            + platform.lib_extension@,
{
    let mut combined = String::new();
    combined.append(name);
    combined.append(".");
    combined.append(platform.arch.as_str());
    name2lib(combined.as_str(), platform)
}

/// The architecture tag of the running platform.
pub fn arch_str(platform: &Platform) -> (r: &str)
    ensures
        r@ == platform.arch@,
{
    platform.arch.as_str()
}

/// Whether the package may perform privileged device registration:
/// only when its descriptor permits commands considered unsafe.
pub fn may_register_device(pkg: &Package) -> (r: bool)
    ensures
        r == pkg.unsafe_commands,
{
    pkg.unsafe_commands
}

/// The file name of an installed udev rule: `99-<rule-name>.rules`.
pub fn udev_rule_file_name(rule_name: &str) -> (r: String)
    ensures
        r@ == "99-"@ + rule_name@ + ".rules"@,
{
    let mut out = String::new();
    out.append("99-");
    out.append(rule_name);
    out.append(".rules");
    out
}

/// The URL of the repository archive for one commit:
/// `<repository>/archive/<commit>.zip`.
pub fn archive_url(repo_root_url: &str, sha: &str) -> (r: String)
    ensures
        r@ == repo_root_url@ + "/archive/"@ + sha@ + ".zip"@,
{
    let mut out = String::new();
    out.append(repo_root_url);
    out.append("/archive/");
    out.append(sha);
    out.append(".zip");
    out
}

/// The hex digit byte of one value below sixteen.
pub open spec fn hex_digit_byte(d: int) -> u8 {
    if d < 10 {
        (48 + d) as u8
    } else {
        (87 + d) as u8
    }
}

/// The hex digit bytes of a value, most significant first, empty for
/// zero.
pub open spec fn hex_byte_seq(v: nat) -> Seq<u8>
    decreases v,
{
    if v == 0 {
        Seq::empty()
    } else {
        hex_byte_seq(v / 16).push(hex_digit_byte((v % 16) as int))
    }
}

/// The hex rendering of a value as bytes: `0` for zero, no leading
/// zeros otherwise.
pub open spec fn hex_str_bytes(v: nat) -> Seq<u8> {
    if v == 0 {
        seq![48u8]
    } else {
        hex_byte_seq(v)
    }
}

/// Those bytes as characters.
pub open spec fn hex_chars(v: nat) -> Seq<char> {
    hex_str_bytes(v).map_values(|b: u8| b as char)
}

/// Every hex digit byte is ASCII.
proof fn lemma_hex_bytes_ascii(v: nat)
    ensures
        forall|i: int| 0 <= i < hex_byte_seq(v).len() ==> hex_byte_seq(v)[i] < 128,
    decreases v,
{
    if v != 0 {
        lemma_hex_bytes_ascii(v / 16);
        assert forall|i: int| 0 <= i < hex_byte_seq(v).len() implies hex_byte_seq(v)[i] < 128 by {
            if i < hex_byte_seq(v / 16).len() {
                assert(hex_byte_seq(v)[i] == hex_byte_seq(v / 16)[i]);
            } else {
                assert(hex_byte_seq(v)[i] == hex_digit_byte((v % 16) as int));
            }
        }
    }
}

/// Renders a value in lowercase hex.
pub fn hex_u64(v: u64) -> (r: String)
    ensures
        r@ == hex_chars(v as nat),
{
    let mut digits: Vec<u8> = Vec::new();
    if v == 0 {
        digits.push(48);
        proof {
            assert(digits@ =~= hex_str_bytes(0));
        }
    } else {
        let mut x = v;
        while x > 0
            invariant
                hex_byte_seq(v as nat) =~= hex_byte_seq(x as nat) + digits@,
                x <= v,
                v > 0,
                forall|i: int| 0 <= i < digits@.len() ==> digits@[i] < 128,
            decreases x,
        {
            let d = (x % 16) as u8;
            let b: u8 = if d < 10 {
                48 + d
            } else {
                87 + d
            };
            let ghost before = digits@;
            digits.insert(0, b);
            proof {
                assert(b == hex_digit_byte((x % 16) as int));
                assert(digits@ =~= seq![b] + before);
                assert(hex_byte_seq(x as nat) =~= hex_byte_seq((x / 16) as nat).push(b));
                assert(hex_byte_seq(v as nat) =~= hex_byte_seq((x / 16) as nat) + digits@);
            }
            x = x / 16;
        }
        proof {
            assert(hex_byte_seq(0) =~= Seq::<u8>::empty());
            assert(digits@ =~= hex_byte_seq(v as nat));
            assert(digits@ =~= hex_str_bytes(v as nat));
        }
    }
    let r = ascii_to_string(digits);
    proof {
        assert(r@ =~= hex_chars(v as nat));
    }
    r
}

/// The deterministic directory name derived from data: the base
/// directory, a separator, and the hex CRC-64 checksum of the data.
/// The same data always yields the same path, which makes the
/// operations that use it reentrant.
pub fn checksum_dir_name(base: &str, data: &[u8]) -> (r: String)
    ensures
        r@ == base@ + "/"@ + hex_chars(crc64_of(data@) as nat),
{
    let sum = crc64(data);
    let hex = hex_u64(sum);
    let mut out = String::new();
    out.append(base);
    out.append("/");
    out.append(hex.as_str());
    out
}

} // verus!
