//! Locally installed plugins: the sidecar-metadata model, orphan
//! classification, version pruning, and lookup by plugin URI.
//!
//! An installed binary and its sidecar metadata file form a pair; all
//! housekeeping removes or keeps the pair as a whole.

use vstd::prelude::*;

use crate::error::Error;
use crate::platform::Platform;
use crate::registry::{uri_wellformed, PluginDescriptor, PluginEntry, PluginUri};
use crate::strutil::str_eq;
use crate::trusted::{digest_of, sha256_hex};

verus! {

/// One locally installed plugin: its binary, its sidecar metadata file,
/// and what the metadata records.
#[derive(Debug, Clone)]
pub struct LocalPlugin {
    /// Path of the installed binary.
    pub plugin_file_name: String,
    /// Path of the sidecar metadata file.
    pub meta_file_name: String,
    /// Content digest recorded by the metadata.
    pub digest: String,
    /// Creation time recorded by the metadata, in seconds since the
    /// Unix epoch.
    pub created_at: i64,
    pub descriptor: PluginDescriptor,
}

/// What was found beside an installed binary in place of its metadata.
#[derive(Debug, Clone)]
pub enum MetaFile {
    /// No sidecar file exists.
    Missing,
    /// A sidecar file exists but does not parse.
    Corrupted,
    /// The parsed sidecar contents.
    Parsed(PluginEntry),
}

/// Why an installed binary counts as orphaned.
#[derive(Debug, Clone, Copy, PartialEq, Eq, Structural)]
pub enum OrphanReason {
    MetaMissing,
    MetaCorrupted,
    DigestMismatch,
}

/// The classification of one binary against its sidecar: orphaned when
/// the metadata is missing, unparsable, or records a digest other than
/// the file's computed digest.
pub open spec fn spec_classify(meta: MetaFile, file_digest: Seq<char>) -> Option<OrphanReason> {
    match meta {
        MetaFile::Missing => Some(OrphanReason::MetaMissing),
        MetaFile::Corrupted => Some(OrphanReason::MetaCorrupted),
        MetaFile::Parsed(m) => if m.digest@ == file_digest {
            None
        } else {
            Some(OrphanReason::DigestMismatch)
        },
    }
}

/// Classifies one installed binary: computes the file's content digest
/// and holds it against the sidecar metadata.  `None` means the file is
/// not orphaned.
pub fn classify_plugin(meta: &MetaFile, file_bytes: &Vec<u8>) -> (r: Option<OrphanReason>)
    ensures
        r == spec_classify(*meta, digest_of(file_bytes@)),
{
    match meta {
        MetaFile::Missing => Some(OrphanReason::MetaMissing),
        MetaFile::Corrupted => Some(OrphanReason::MetaCorrupted),
        MetaFile::Parsed(m) => {
            let digest = sha256_hex(file_bytes);
            if str_eq(m.digest.as_str(), digest.as_str()) {
                None
            } else {
                Some(OrphanReason::DigestMismatch)
            }
        },
    }
}

/// Digest round-trip: sidecar metadata recording exactly the computed
/// digest of its file is never classified as orphaned, and metadata
/// recording any other digest is always classified as a checksum
/// mismatch.
pub proof fn lemma_digest_round_trip(m: PluginEntry, file_digest: Seq<char>)
    ensures
        m.digest@ == file_digest ==> spec_classify(MetaFile::Parsed(m), file_digest) is None,
        m.digest@ != file_digest ==> spec_classify(MetaFile::Parsed(m), file_digest) == Some(
            OrphanReason::DigestMismatch,
        ),
{
}

/// Strict preference between two installed records: by plugin ABI
/// version, then by creation time, then — to break exact ties
/// deterministically — by position.
pub open spec fn spec_better(s: Seq<LocalPlugin>, i: int, j: int) -> bool {
    ||| s[i].descriptor.plugin_version > s[j].descriptor.plugin_version
    ||| (s[i].descriptor.plugin_version == s[j].descriptor.plugin_version && s[i].created_at
        > s[j].created_at)
    ||| (s[i].descriptor.plugin_version == s[j].descriptor.plugin_version && s[i].created_at
        == s[j].created_at && i < j)
}

/// Whether the record at `i` is the one version pruning keeps: it is
/// preferred over every other record of the same plugin name.
pub open spec fn spec_keeps(s: Seq<LocalPlugin>, i: int) -> bool {
    &&& 0 <= i < s.len()
    &&& forall|j: int|
        0 <= j < s.len() && j != i && #[trigger] s[j].descriptor.name@ == s[i].descriptor.name@
            ==> spec_better(s, i, j)
}

/// Decides `spec_better` for two indices.
fn better(s: &Vec<LocalPlugin>, i: usize, j: usize) -> (r: bool)
    requires
        i < s@.len(),
        j < s@.len(),
    ensures
        r == spec_better(s@, i as int, j as int),
{
    if s[i].descriptor.plugin_version > s[j].descriptor.plugin_version {
        true
    } else if s[i].descriptor.plugin_version == s[j].descriptor.plugin_version {
        if s[i].created_at > s[j].created_at {
            true
        } else if s[i].created_at == s[j].created_at {
            i < j
        } else {
            false
        }
    } else {
        false
    }
}

/// Version pruning: marks, for each installed record, whether cleanup
/// keeps it.  Exactly the newest record of each plugin name — by plugin
/// ABI version, then creation time — is kept; every other record's pair
/// of binary and metadata files is to be removed.
pub fn prune_decisions(s: &Vec<LocalPlugin>) -> (r: Vec<bool>)
    ensures
        r@.len() == s@.len(),
        forall|i: int| 0 <= i < s@.len() ==> #[trigger] r@[i] == spec_keeps(s@, i),
{
    let n = s.len();
    let mut r: Vec<bool> = Vec::new();
    let mut i: usize = 0;
    while i < n
        invariant
            n == s@.len(),
            i <= n,
            r@.len() == i,
            forall|x: int| 0 <= x < i ==> #[trigger] r@[x] == spec_keeps(s@, x),
        decreases n - i,
    {
        let mut keep = true;
        let mut j: usize = 0;
        while j < n
            invariant
                n == s@.len(),
                i < n,
                j <= n,
                keep == (forall|y: int|
                    0 <= y < j && y != i && #[trigger] s@[y].descriptor.name@
                        == s@[i as int].descriptor.name@ ==> spec_better(s@, i as int, y)),
            decreases n - j,
        {
            if j != i && str_eq(
                s[j].descriptor.name.as_str(),
                s[i].descriptor.name.as_str(),
            ) && !better(s, i, j) {
                keep = false;
            }
            j = j + 1;
        }
        r.push(keep);
        i = i + 1;
    }
    r
}

/// Version pruning on three same-name records with strictly increasing
/// plugin ABI versions: only the last is kept.
pub proof fn lemma_prune_three(s: Seq<LocalPlugin>)
    requires
        s.len() == 3,
        s[0].descriptor.name@ == s[1].descriptor.name@,
        s[1].descriptor.name@ == s[2].descriptor.name@,
        s[0].descriptor.plugin_version < s[1].descriptor.plugin_version,
        s[1].descriptor.plugin_version < s[2].descriptor.plugin_version,
    ensures
        !spec_keeps(s, 0),
        !spec_keeps(s, 1),
        spec_keeps(s, 2),
{
    assert(s[2].descriptor.name@ == s[0].descriptor.name@);
    assert(!spec_better(s, 0, 2));
    assert(!spec_better(s, 1, 2));
    assert forall|j: int|
        0 <= j < s.len() && j != 2 && #[trigger] s[j].descriptor.name@ == s[2].descriptor.name@
        implies spec_better(s, 2, j) by {}
}

/// Whether the record matches a plugin URI given as `uri_str`, parsed
/// into `uri`: the raw string is the record's full digest, or the name
/// matches and the version selector is `latest`, the record's version,
/// or a prefix of the record's digest.  Name and version are given as
/// plain character sequences.
pub open spec fn spec_matches_views(
    p: LocalPlugin,
    uri_str: Seq<char>,
    name: Seq<char>,
    version: Seq<char>,
) -> bool {
    ||| p.digest@ == uri_str
    ||| (p.descriptor.name@ == name && (version == "latest"@ || version == p.descriptor.version@
        || (version.len() <= p.digest@.len() && version == p.digest@.subrange(
        0,
        version.len() as int,
    ))))
}

/// The same match, phrased over a parsed URI.
pub open spec fn spec_matches_uri(p: LocalPlugin, uri_str: Seq<char>, uri: PluginUri) -> bool {
    spec_matches_views(p, uri_str, uri.name_view(), uri.spec_version())
}

/// The version selector a URI carries, with its default applied.
pub open spec fn uri_version_or_latest(s: Seq<char>) -> Seq<char> {
    match crate::registry::uri_version(s) {
        Some(v) => v,
        None => "latest"@,
    }
}

/// Decides `spec_matches_uri` for one record.
pub fn matches_uri(p: &LocalPlugin, uri_str: &str, uri: &PluginUri) -> (r: bool)
    ensures
        r == spec_matches_uri(*p, uri_str@, *uri),
{
    if str_eq(p.digest.as_str(), uri_str) {
        return true;
    }
    if !str_eq(p.descriptor.name.as_str(), uri.name()) {
        return false;
    }
    let version = uri.version();
    if str_eq(version, "latest") {
        return true;
    }
    if str_eq(version, p.descriptor.version.as_str()) {
        return true;
    }
    let vlen = version.unicode_len();
    let dlen = p.digest.as_str().unicode_len();
    if vlen <= dlen {
        let digest_prefix = p.digest.as_str().substring_char(0, vlen);
        str_eq(version, digest_prefix)
    } else {
        false
    }
}

/// Finds the locally installed plugin a URI names: parse failures are
/// parse errors; when some record matches, the preferred match —
/// newest by ABI version, then creation time — is returned by index;
/// `NotFound` comes exactly when no record matches.
pub fn find_local_plugin(plugins: &Vec<LocalPlugin>, uri_str: &str) -> (r: Result<usize, Error>)
    ensures
        !uri_wellformed(uri_str@) ==> (r matches Err(e) && e is Parse),
        uri_wellformed(uri_str@) ==> match r {
            Ok(i) => {
                &&& i < plugins@.len()
                &&& exists|u: PluginUri| spec_found_match(plugins@, uri_str@, u, i as int)
            },
            Err(e) => e is NotFound && forall|j: int|
                0 <= j < plugins@.len() ==> !spec_matches_views(
                    plugins@[j],
                    uri_str@,
                    crate::registry::uri_name(uri_str@),
                    uri_version_or_latest(uri_str@),
                ),
        },
        (r matches Err(e) && e is NotFound) ==> uri_wellformed(uri_str@),
{
    let parsed = PluginUri::parse(uri_str);
    let uri = match parsed {
        Ok(u) => u,
        Err(e) => {
            return Err(e);
        },
    };
    let n = plugins.len();
    let mut best: Option<usize> = None;
    let mut i: usize = 0;
    while i < n
        invariant
            n == plugins@.len(),
            i <= n,
            match best {
                Some(b) => {
                    &&& b < i
                    &&& spec_matches_uri(plugins@[b as int], uri_str@, uri)
                    &&& forall|j: int|
                        0 <= j < i && j != b && #[trigger] spec_matches_uri(
                            plugins@[j],
                            uri_str@,
                            uri,
                        ) ==> spec_better(plugins@, b as int, j)
                },
                None => forall|j: int|
                    0 <= j < i ==> !#[trigger] spec_matches_uri(plugins@[j], uri_str@, uri),
            },
        decreases n - i,
    {
        if matches_uri(&plugins[i], uri_str, &uri) {
            match best {
                Some(b) => {
                    if better(plugins, i, b) {
                        best = Some(i);
                    }
                },
                None => {
                    best = Some(i);
                },
            }
        }
        i = i + 1;
    }
    match best {
        Some(b) => {
            proof {
                assert(uri_wellformed(uri_str@));
                assert(b < plugins@.len());
                assert(spec_matches_uri(plugins@[b as int], uri_str@, uri));
                assert(uri.registry_view() == crate::registry::uri_registry(uri_str@));
                assert(uri.name_view() == crate::registry::uri_name(uri_str@));
                assert(uri.version_view() == crate::registry::uri_version(uri_str@));
                assert(forall|j: int|
                    0 <= j < plugins@.len() && j != b && #[trigger] spec_matches_uri(
                        plugins@[j],
                        uri_str@,
                        uri,
                    ) ==> spec_better(plugins@, b as int, j));
                assert(spec_found_match(plugins@, uri_str@, uri, b as int));
            }
            Ok(b)
        },
        None => {
            proof {
                assert(uri.name_view() == crate::registry::uri_name(uri_str@));
                assert(uri.version_view() == crate::registry::uri_version(uri_str@));
                assert(uri.spec_version() == uri_version_or_latest(uri_str@));
                assert forall|j: int| 0 <= j < plugins@.len() implies !spec_matches_views(
                    plugins@[j],
                    uri_str@,
                    crate::registry::uri_name(uri_str@),
                    uri_version_or_latest(uri_str@),
                ) by {
                    assert(!spec_matches_uri(plugins@[j], uri_str@, uri));
                }
            }
            let mut msg = String::new();
            msg.append("plugin `");
            msg.append(uri_str);
            msg.append("` not found");
            Err(Error::NotFound(msg))
        },
    }
}

/// What `find_local_plugin` returns on success: the index matches the
/// URI and is preferred over every other matching index.
pub open spec fn spec_found_match(
    s: Seq<LocalPlugin>,
    uri_str: Seq<char>,
    uri: PluginUri,
    i: int,
) -> bool {
    &&& 0 <= i < s.len()
    &&& spec_matches_uri(s[i], uri_str, uri)
    &&& uri.registry_view() == crate::registry::uri_registry(uri_str)
    &&& uri.name_view() == crate::registry::uri_name(uri_str)
    &&& uri.version_view() == crate::registry::uri_version(uri_str)
    &&& forall|j: int|
        0 <= j < s.len() && j != i && #[trigger] spec_matches_uri(s[j], uri_str, uri)
            ==> spec_better(s, i, j)
}

/// The file name under which a registry plugin is installed:
/// `<prefix>memflow_<name>_<digest[..7]>.<extension>`, with the
/// platform's dynamic-library prefix and extension.
pub fn plugin_file_name(platform: &Platform, entry: &PluginEntry) -> (r: Result<String, Error>)
    ensures
        entry.digest@.len() >= 7 ==> (r matches Ok(name) && name@ == platform.lib_prefix@
            + "memflow_"@ + entry.descriptor.name@ + "_"@ + entry.digest@.subrange(0, 7) + "."@
            + platform.lib_extension@),
        entry.digest@.len() < 7 ==> (r matches Err(e) && e is Parse),
{
    let dlen = entry.digest.as_str().unicode_len();
    if dlen < 7 {
        return Err(Error::Parse("plugin digest is too short".to_owned()));
    }
    let short = entry.digest.as_str().substring_char(0, 7);
    let mut out = String::new();
    out.append(platform.lib_prefix.as_str());
    out.append("memflow_");
    out.append(entry.descriptor.name.as_str());
    out.append("_");
    out.append(short);
    out.append(".");
    out.append(platform.lib_extension.as_str());
    Ok(out)
}

} // verus!
