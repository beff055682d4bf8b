//! Registry client data model and plugin URI resolution.
//!
//! A plugin URI has the shape `[registry/]name[:version]`; splitting first
//! on `/` and then on `:`, where more than one `/`, or more than one `:`
//! after the optional registry, is a parse error.  The version defaults to
//! `latest` when omitted.

use vstd::prelude::*;

use crate::error::Error;
use crate::strutil::{contains_char, find_char, lemma_first_occurrence, str_eq};

verus! {

/// The registry queried when a URI does not name one.
pub const MEMFLOW_REGISTRY: &'static str = "https://registry.memflow.io";

/// A plugin name with its human-readable description, as listed by the
/// registry's plugin-listing endpoint.
#[derive(Debug, Clone)]
pub struct PluginName {
    pub name: String,
    pub description: String,
}

/// CPU architecture of one plugin variant.
#[derive(Debug, Clone, Copy, PartialEq, Eq, Structural)]
pub enum PluginArchitecture {
    Unknown(u32),
    X86,
    X86_64,
    Arm,
    Arm64,
}

/// Binary file format of one plugin variant.
#[derive(Debug, Clone, Copy, PartialEq, Eq, Structural)]
pub enum PluginFileType {
    Pe,
    Elf,
    Mach,
}

/// Descriptor of one plugin variant: format, architecture, plugin ABI
/// version, name, semantic version and description.
#[derive(Debug, Clone)]
pub struct PluginDescriptor {
    pub file_type: PluginFileType,
    pub architecture: PluginArchitecture,
    pub plugin_version: i32,
    pub name: String,
    pub version: String,
    pub description: String,
}

/// One architecture/format-specific build of a registry plugin.
///
/// Identity is the content digest.  The creation time is carried as
/// seconds since the Unix epoch, so that ordering is plain integer
/// comparison.
#[derive(Debug, Clone)]
pub struct PluginEntry {
    /// Content hash of the binary, as lowercase hex.
    pub digest: String,
    /// Detached signature over the binary bytes.
    pub signature: String,
    /// Creation time, in seconds since the Unix epoch.
    pub created_at: i64,
    pub descriptor: PluginDescriptor,
}

/// The part of a URI after the registry host, i.e. after the first `/`,
/// or the whole string when it has no `/`.
pub open spec fn uri_rest(s: Seq<char>) -> Seq<char> {
    match s.index_of_first('/') {
        Some(i) => s.subrange(i + 1, s.len() as int),
        None => s,
    }
}

/// The registry host named by a URI, if any: the part before the first `/`.
pub open spec fn uri_registry(s: Seq<char>) -> Option<Seq<char>> {
    match s.index_of_first('/') {
        Some(i) => Some(s.subrange(0, i)),
        None => None,
    }
}

/// The plugin name of a URI: the part of the rest before the first `:`.
pub open spec fn uri_name(s: Seq<char>) -> Seq<char> {
    let r = uri_rest(s);
    match r.index_of_first(':') {
        Some(j) => r.subrange(0, j),
        None => r,
    }
}

/// The explicit version selector of a URI, if any: the part of the rest
/// after the first `:`.
pub open spec fn uri_version(s: Seq<char>) -> Option<Seq<char>> {
    let r = uri_rest(s);
    match r.index_of_first(':') {
        Some(j) => Some(r.subrange(j + 1, r.len() as int)),
        None => None,
    }
}

/// A URI is well-formed when it has at most one `/` and, after the
/// optional registry, at most one `:`.
pub open spec fn uri_wellformed(s: Seq<char>) -> bool {
    &&& !uri_rest(s).contains('/')
    &&& match uri_rest(s).index_of_first(':') {
        Some(j) => !uri_rest(s).subrange(j + 1, uri_rest(s).len() as int).contains(':'),
        None => true,
    }
}

/// A plugin URI: optional registry host, plugin name, optional
/// version-or-digest-prefix selector.
#[derive(Debug, Clone)]
pub struct PluginUri {
    pub registry: Option<String>,
    pub name: String,
    pub version: Option<String>,
}

impl PluginUri {
    /// The registry host as parsed, or `None` for the default registry.
    pub open spec fn registry_view(&self) -> Option<Seq<char>> {
        match self.registry {
            Some(ref r) => Some(r@),
            None => None,
        }
    }

    /// The plugin name.
    pub open spec fn name_view(&self) -> Seq<char> {
        self.name@
    }

    /// The explicit version selector, or `None` when omitted.
    pub open spec fn version_view(&self) -> Option<Seq<char>> {
        match self.version {
            Some(ref v) => Some(v@),
            None => None,
        }
    }

    /// The version selector with its default applied.
    pub open spec fn spec_version(&self) -> Seq<char> {
        match self.version_view() {
            Some(v) => v,
            None => "latest"@,
        }
    }

    /// The registry with its default applied.
    pub open spec fn spec_registry(&self) -> Seq<char> {
        match self.registry_view() {
            Some(r) => r,
            None => MEMFLOW_REGISTRY@,
        }
    }

    /// Parses a URI of the shape `[registry/]name[:version]`.
    pub fn parse(s: &str) -> (r: Result<PluginUri, Error>)
        ensures
            uri_wellformed(s@) ==> (r matches Ok(u) && u.registry_view() == uri_registry(s@)
                && u.name_view() == uri_name(s@) && u.version_view() == uri_version(s@)),
            !uri_wellformed(s@) ==> (r matches Err(e) && e is Parse),
    {
        let n = s.unicode_len();
        let slash = find_char(s, '/');
        proof {
            lemma_first_occurrence(s@, '/', slash);
        }
        let (registry, rest): (Option<String>, &str) = match slash {
            Some(i) => (Some(s.substring_char(0, i).to_owned()), s.substring_char(i + 1, n)),
            None => (None, s),
        };
        assert(rest@ == uri_rest(s@));
        if contains_char(rest, '/') {
            return Err(
                Error::Parse(
                    "invalid plugin path. format should be {registry}/{plugin_name}:{plugin_version}".to_owned(),
                ),
            );
        }
        let m = rest.unicode_len();
        let colon = find_char(rest, ':');
        proof {
            lemma_first_occurrence(rest@, ':', colon);
        }
        match colon {
            Some(j) => {
                let name = rest.substring_char(0, j).to_owned();
                let version = rest.substring_char(j + 1, m);
                if contains_char(version, ':') {
                    Err(
                        Error::Parse(
                            "invalid plugin path. format should be {registry}/{plugin_name}:{plugin_version}".to_owned(),
                        ),
                    )
                } else {
                    Ok(PluginUri { registry, name, version: Some(version.to_owned()) })
                }
            },
            None => Ok(PluginUri { registry, name: rest.to_owned(), version: None }),
        }
    }

    /// The registry to query: the parsed host, or the default registry
    /// when the URI named none.
    pub fn registry(&self) -> (r: String)
        ensures
            r@ == self.spec_registry(),
    {
        match &self.registry {
            Some(r) => r.clone(),
            None => MEMFLOW_REGISTRY.to_owned(),
        }
    }

    /// The plugin name.
    pub fn name(&self) -> (r: &str)
        ensures
            r@ == self.name_view(),
    {
        self.name.as_str()
    }

    /// The version selector, defaulting to `latest`.
    pub fn version(&self) -> (r: &str)
        ensures
            r@ == self.spec_version(),
    {
        match &self.version {
            Some(v) => v.as_str(),
            None => "latest",
        }
    }

    /// Whether a lookup must filter by an explicit version, which is the
    /// case exactly when the selector is not `latest`.
    pub fn wants_explicit_version(&self) -> (r: bool)
        ensures
            r == (self.spec_version() != "latest"@),
    {
        match &self.version {
            Some(v) => !str_eq(v.as_str(), "latest"),
            None => false,
        }
    }

    /// The URI rendered back to its textual form.
    pub fn to_uri_string(&self) -> (r: String)
        ensures
            r@ == self.spec_uri_string(),
    {
        let mut out = String::new();
        match &self.registry {
            Some(reg) => {
                out.append(reg.as_str());
                out.append("/");
            },
            None => {},
        }
        out.append(self.name.as_str());
        match &self.version {
            Some(v) => {
                out.append(":");
                out.append(v.as_str());
            },
            None => {},
        }
        out
    }

    /// The textual form: `registry/` when a registry is named, then the
    /// name, then `:version` when a version is named.
    pub open spec fn spec_uri_string(&self) -> Seq<char> {
        let reg_part = match self.registry_view() {
            Some(r) => r + "/"@,
            None => Seq::<char>::empty(),
        };
        let ver_part = match self.version_view() {
            Some(v) => ":"@ + v,
            None => Seq::<char>::empty(),
        };
        reg_part + self.name_view() + ver_part
    }
}

/// The ranked lookup answer: the registry sorts so that the first variant
/// is the newest; an empty answer means the plugin was not found.
pub fn select_variant(plugins: Vec<PluginEntry>, uri_text: &str) -> (r: Result<
    PluginEntry,
    Error,
>)
    ensures
        plugins@.len() > 0 ==> (r matches Ok(v) && v == plugins@[0]),
        plugins@.len() == 0 ==> (r matches Err(e) && e is NotFound),
{
    let mut plugins = plugins;
    if plugins.len() > 0 {
        Ok(plugins.remove(0))
    } else {
        let mut msg = String::new();
        msg.append("plugin `");
        msg.append(uri_text);
        msg.append("` not found");
        Err(Error::NotFound(msg))
    }
}

} // verus!
