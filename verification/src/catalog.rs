//! Package descriptors and multi-source index resolution.
//!
//! A catalog is resolved from up to three tiers of descriptor indices —
//! user-authored fragments, the upstream index, and the built-in
//! fallback — concatenated in that priority order and deduplicated by
//! package name keeping the first occurrence.  The ordering is a
//! deliberate override mechanism: user entries always win over upstream,
//! which always wins over builtin.

use vstd::prelude::*;

use crate::database::Branch;
use crate::strutil::{list_contains_str, str_eq};

verus! {

/// Which index tiers a resolution pass skips.
#[derive(Debug, Clone, Copy, PartialEq, Eq, Structural)]
pub struct PackageLoadOpts {
    pub ignore_user: bool,
    pub ignore_upstream: bool,
    pub ignore_builtin: bool,
}

impl PackageLoadOpts {
    pub fn new(ignore_user: bool, ignore_upstream: bool, ignore_builtin: bool) -> (r:
        PackageLoadOpts)
        ensures
            r == (PackageLoadOpts { ignore_user, ignore_upstream, ignore_builtin }),
    {
        PackageLoadOpts { ignore_user, ignore_upstream, ignore_builtin }
    }
}

impl core::default::Default for PackageLoadOpts {
    /// No tier is skipped by default.
    fn default() -> (r: PackageLoadOpts)
        ensures
            r == (PackageLoadOpts {
                ignore_user: false,
                ignore_upstream: false,
                ignore_builtin: false,
            }),
    {
        PackageLoadOpts { ignore_user: false, ignore_upstream: false, ignore_builtin: false }
    }
}

/// Options of one install invocation; passed by value through the
/// orchestration call chain and never mutated after construction.
#[derive(Debug, Clone, Copy, PartialEq, Eq, Structural)]
pub struct PackageOpts {
    /// Install from a local source tree instead of a remote.
    pub is_local: bool,
    /// Dry run: compute artifact names without writing them.
    pub nocopy: bool,
    /// Install into the system-wide location, which affects the install
    /// path and may require elevation.
    pub system_wide: bool,
    /// Bypass the idempotency check.
    pub reinstall: bool,
    /// Prefer git checkout and build over a binary fetch.
    pub from_source: bool,
}

impl PackageOpts {
    /// The options a batch update or setup pass uses: everything off but
    /// the scope and the source-vs-binary mode.
    pub fn base_opts(system_wide: bool, from_source: bool) -> (r: PackageOpts)
        ensures
            r == (PackageOpts {
                is_local: false,
                nocopy: false,
                system_wide,
                reinstall: false,
                from_source,
            }),
    {
        PackageOpts { is_local: false, nocopy: false, system_wide, reinstall: false, from_source }
    }
}

impl core::default::Default for PackageOpts {
    fn default() -> (r: PackageOpts)
        ensures
            r == (PackageOpts {
                is_local: false,
                nocopy: false,
                system_wide: false,
                reinstall: false,
                from_source: false,
            }),
    {
        PackageOpts {
            is_local: false,
            nocopy: false,
            system_wide: false,
            reinstall: false,
            from_source: false,
        }
    }
}

/// The kind of a package; only core plugins currently have a defined
/// install path.
#[derive(Debug, Clone, Copy, PartialEq, Eq, Structural)]
pub enum PackageType {
    CorePlugin,
    Utility,
    Library,
    DaemonPlugin,
}

impl PackageType {
    /// The install directory of this package kind, for the given scope.
    /// Only core plugins currently have a defined install path.
    pub fn install_path(&self, paths: &crate::platform::PlatformPaths, system_wide: bool) -> (r:
        String)
        requires
            self is CorePlugin,
        ensures
            r@ == if system_wide {
                paths.system_install_dir@
            } else {
                paths.user_install_dir@
            },
    {
        if system_wide {
            paths.system_install_dir.clone()
        } else {
            paths.user_install_dir.clone()
        }
    }
}

/// One package descriptor from a catalog index.  Immutable once loaded;
/// it lives for one resolution pass.
#[derive(Debug, Clone)]
pub struct Package {
    /// Unique key within a resolved catalog.
    pub name: String,
    pub ty: PackageType,
    /// Platform allow-list; `None` means every platform.
    pub platforms: Option<Vec<String>>,
    /// Source repository locator.
    pub repo_root_url: String,
    pub stable_branch: Option<String>,
    pub stable_binary_tag: Option<String>,
    pub dev_branch: Option<String>,
    pub dev_binary_tag: Option<String>,
    /// Permits the install script to run commands considered unsafe.
    pub unsafe_commands: bool,
    /// Path of a custom install script relative to the repository root.
    pub install_script_path: Option<String>,
}

/// Whether one of the tags holds exactly the characters `t`.
pub open spec fn tag_in(os_tags: Seq<String>, t: Seq<char>) -> bool {
    exists|j: int| 0 <= j < os_tags.len() && #[trigger] os_tags[j]@ == t
}

/// The view of an optional string.
pub open spec fn opt_view(o: Option<String>) -> Option<Seq<char>> {
    match o {
        Some(s) => Some(s@),
        None => None,
    }
}

impl Package {
    /// The branch ref this package tracks on the given channel; the
    /// synthetic `Local` channel never has one.
    pub open spec fn spec_branch(&self, branch: Branch) -> Option<Seq<char>> {
        match branch {
            Branch::Dev => opt_view(self.dev_branch),
            Branch::Stable => opt_view(self.stable_branch),
            Branch::Local => None,
        }
    }

    /// The binary release tag this package offers on the given channel.
    pub open spec fn spec_binary_release_tag(&self, branch: Branch) -> Option<Seq<char>> {
        match branch {
            Branch::Dev => opt_view(self.dev_binary_tag),
            Branch::Stable => opt_view(self.stable_binary_tag),
            Branch::Local => None,
        }
    }

    /// A package is in a channel when it has a branch ref for it.
    pub open spec fn spec_is_in_channel(&self, branch: Branch) -> bool {
        self.spec_branch(branch) is Some
    }

    /// A package supports an install mode when it is in the channel and
    /// either installs from source or offers a binary release tag.
    pub open spec fn spec_supports_install_mode(&self, branch: Branch, from_source: bool) -> bool {
        self.spec_is_in_channel(branch) && (from_source || self.spec_binary_release_tag(branch)
            is Some)
    }

    /// A package is supported when it has no allow-list, or the list
    /// shares a tag with the running platform.
    pub open spec fn spec_supported_by_platform(&self, os_tags: Seq<String>) -> bool {
        match self.platforms {
            None => true,
            Some(ps) => exists|i: int|
                0 <= i < ps@.len() && #[trigger] tag_in(os_tags, ps@[i]@),
        }
    }

    pub fn branch(&self, branch: Branch) -> (r: Option<&str>)
        ensures
            match r {
                Some(s) => self.spec_branch(branch) == Some(s@),
                None => self.spec_branch(branch) is None,
            },
    {
        match branch {
            Branch::Dev => match &self.dev_branch {
                Some(s) => Some(s.as_str()),
                None => None,
            },
            Branch::Stable => match &self.stable_branch {
                Some(s) => Some(s.as_str()),
                None => None,
            },
            Branch::Local => None,
        }
    }

    pub fn binary_release_tag(&self, branch: Branch) -> (r: Option<&str>)
        ensures
            match r {
                Some(s) => self.spec_binary_release_tag(branch) == Some(s@),
                None => self.spec_binary_release_tag(branch) is None,
            },
    {
        match branch {
            Branch::Dev => match &self.dev_binary_tag {
                Some(s) => Some(s.as_str()),
                None => None,
            },
            Branch::Stable => match &self.stable_binary_tag {
                Some(s) => Some(s.as_str()),
                None => None,
            },
            Branch::Local => None,
        }
    }

    pub fn is_in_channel(&self, branch: Branch) -> (r: bool)
        ensures
            r == self.spec_is_in_channel(branch),
    {
        self.branch(branch).is_some()
    }

    pub fn supports_install_mode(&self, branch: Branch, from_source: bool) -> (r: bool)
        ensures
            r == self.spec_supports_install_mode(branch, from_source),
    {
        self.is_in_channel(branch) && (from_source || self.binary_release_tag(branch).is_some())
    }

    /// Matches the allow-list against the platform's OS tags.
    pub fn supported_by_platform(&self, os_tags: &Vec<String>) -> (r: bool)
        ensures
            r == self.spec_supported_by_platform(os_tags@),
    {
        if self.platforms.is_none() {
            return true;
        }
        let ps = self.platforms.as_ref().unwrap();
        let n = ps.len();
        let mut i: usize = 0;
        while i < n
            invariant
                self.platforms == Some(*ps),
                n == ps@.len(),
                i <= n,
                forall|x: int, j: int|
                    0 <= x < i && 0 <= j < os_tags@.len() ==> ps@[x]@ != os_tags@[j]@,
            decreases n - i,
        {
            let tag = ps[i].as_str();
            if list_contains_str(os_tags, tag) {
                proof {
                    assert(tag_in(os_tags@, ps@[i as int]@));
                    let l = self.platforms->Some_0;
                    assert(l == *ps);
                    assert(tag_in(os_tags@, l@[i as int]@));
                    assert(self.spec_supported_by_platform(os_tags@));
                }
                return true;
            }
            i = i + 1;
        }
        proof {
            assert forall|x: int| 0 <= x < ps@.len() implies !tag_in(os_tags@, ps@[x]@) by {
                if tag_in(os_tags@, ps@[x]@) {
                    let j = choose|j: int| 0 <= j < os_tags@.len() && #[trigger] os_tags@[j]@
                        == ps@[x]@;
                    assert(ps@[x]@ != os_tags@[j]@);
                }
            }
        }
        false
    }
}


/// Whether the packages' names are pairwise distinct.
pub open spec fn distinct_names(s: Seq<Package>) -> bool {
    forall|i: int, j: int| 0 <= i < j < s.len() ==> s[i].name@ != s[j].name@
}

/// Whether index `k` holds the first occurrence of its package name.
pub open spec fn is_first_occurrence(s: Seq<Package>, k: int) -> bool {
    &&& 0 <= k < s.len()
    &&& forall|j: int| 0 <= j < k ==> s[j].name@ != s[k].name@
}

/// Whether `p` stands in `cat` before index `bound` as the first
/// occurrence of its name.
pub open spec fn first_occurrence_before(cat: Seq<Package>, bound: int, p: Package) -> bool {
    exists|k: int|
        #![trigger cat[k]]
        is_first_occurrence(cat, k) && k < bound && cat[k] == p
}

/// Whether `resolved` holds an entry with exactly this name.
pub open spec fn name_resolved(resolved: Seq<Package>, n: Seq<char>) -> bool {
    exists|i: int| 0 <= i < resolved.len() && #[trigger] resolved[i].name@ == n
}

/// The canonical resolution of a catalog: its subsequence of first
/// occurrences, in their original order.
pub open spec fn spec_dedup(cat: Seq<Package>) -> Seq<Package>
    decreases cat.len(),
{
    if cat.len() == 0 {
        Seq::empty()
    } else {
        let prefix = spec_dedup(cat.drop_last());
        if name_resolved(cat.drop_last(), cat.last().name@) {
            prefix
        } else {
            prefix.push(cat.last())
        }
    }
}

/// A name occurs in the resolution of a catalog exactly when it occurs
/// in the catalog.
pub proof fn lemma_dedup_names(cat: Seq<Package>, n: Seq<char>)
    ensures
        name_resolved(spec_dedup(cat), n) <==> name_resolved(cat, n),
    decreases cat.len(),
{
    if cat.len() == 0 {
        if name_resolved(spec_dedup(cat), n) {
            let i = choose|i: int|
                0 <= i < spec_dedup(cat).len() && #[trigger] spec_dedup(cat)[i].name@ == n;
        }
        if name_resolved(cat, n) {
            let i = choose|i: int| 0 <= i < cat.len() && #[trigger] cat[i].name@ == n;
        }
    } else {
        let pre = cat.drop_last();
        let lst = cat.last();
        lemma_dedup_names(pre, n);
        if name_resolved(pre, n) {
            let i = choose|i: int| 0 <= i < pre.len() && #[trigger] pre[i].name@ == n;
            assert(cat[i].name@ == n);
            assert(name_resolved(cat, n));
        }
        if name_resolved(pre, lst.name@) {
            assert(spec_dedup(cat) == spec_dedup(pre));
            if name_resolved(cat, n) {
                let j = choose|j: int| 0 <= j < cat.len() && #[trigger] cat[j].name@ == n;
                if j < pre.len() {
                    assert(pre[j].name@ == n);
                    assert(name_resolved(pre, n));
                } else {
                    assert(n == lst.name@);
                    assert(name_resolved(pre, n));
                }
            }
        } else {
            let d = spec_dedup(pre);
            assert(spec_dedup(cat) == d.push(lst));
            if name_resolved(spec_dedup(cat), n) {
                let i = choose|i: int|
                    0 <= i < spec_dedup(cat).len() && #[trigger] spec_dedup(cat)[i].name@ == n;
                if i < d.len() {
                    assert(d[i].name@ == n);
                    assert(name_resolved(d, n));
                } else {
                    assert(n == lst.name@);
                    assert(cat[cat.len() - 1].name@ == n);
                    assert(name_resolved(cat, n));
                }
            }
            if name_resolved(cat, n) {
                let j = choose|j: int| 0 <= j < cat.len() && #[trigger] cat[j].name@ == n;
                if j < pre.len() {
                    assert(pre[j].name@ == n);
                    assert(name_resolved(pre, n));
                    let i = choose|i: int| 0 <= i < d.len() && #[trigger] d[i].name@ == n;
                    assert(spec_dedup(cat)[i].name@ == n);
                    assert(name_resolved(spec_dedup(cat), n));
                } else {
                    assert(n == lst.name@);
                    assert(spec_dedup(cat)[d.len() as int].name@ == n);
                    assert(name_resolved(spec_dedup(cat), n));
                }
            }
            if name_resolved(d, n) {
                let i = choose|i: int| 0 <= i < d.len() && #[trigger] d[i].name@ == n;
                assert(spec_dedup(cat)[i].name@ == n);
                assert(name_resolved(spec_dedup(cat), n));
            }
        }
    }
}

/// What it means for `resolved` to be the resolution of the catalog
/// `cat`: exactly the subsequence of first occurrences, in their
/// original order — so one entry per name, each entry the first
/// occurrence of its name in `cat`, no name of `cat` lost, and the
/// retained entries' relative order preserved.
pub open spec fn resolves(cat: Seq<Package>, resolved: Seq<Package>) -> bool {
    &&& distinct_names(resolved)
    &&& forall|i: int|
        0 <= i < resolved.len() ==> first_occurrence_before(
            cat,
            cat.len() as int,
            #[trigger] resolved[i],
        )
    &&& forall|k: int|
        #![trigger cat[k]]
        0 <= k < cat.len() ==> name_resolved(resolved, cat[k].name@)
    &&& resolved == spec_dedup(cat)
}

/// Whether the list holds a package with this name.
fn contains_name(v: &Vec<Package>, name: &str) -> (r: bool)
    ensures
        r == name_resolved(v@, name@),
{
    let n = v.len();
    let mut i: usize = 0;
    while i < n
        invariant
            n == v@.len(),
            i <= n,
            forall|j: int| 0 <= j < i ==> v@[j].name@ != name@,
        decreases n - i,
    {
        if str_eq(v[i].name.as_str(), name) {
            assert(v@[i as int].name@ == name@);
            return true;
        }
        i = i + 1;
    }
    proof {
        if name_resolved(v@, name@) {
            let j = choose|j: int| 0 <= j < v@.len() && #[trigger] v@[j].name@ == name@;
            assert(v@[j].name@ != name@);
        }
    }
    false
}

/// Deduplicates a concatenated catalog by package name, keeping the
/// first occurrence of each name.
#[verifier::rlimit(60)]
pub fn dedup_by_name(input: Vec<Package>) -> (r: Vec<Package>)
    ensures
        resolves(input@, r@),
{
    let ghost original = input@;
    let mut input = input;
    let mut out: Vec<Package> = Vec::new();
    proof {
        assert(original.subrange(0, 0).len() == 0);
    }
    while input.len() > 0
        invariant
            input@.len() <= original.len(),
            input@ =~= original.subrange(original.len() - input@.len(), original.len() as int),
            distinct_names(out@),
            forall|i: int|
                0 <= i < out@.len() ==> first_occurrence_before(
                    original,
                    original.len() - input@.len(),
                    #[trigger] out@[i],
                ),
            forall|k: int|
                #![trigger original[k]]
                0 <= k < original.len() - input@.len() ==> name_resolved(
                    out@,
                    original[k].name@,
                ),
            out@ == spec_dedup(original.subrange(0, original.len() - input@.len())),
        decreases input@.len(),
    {
        let ghost t = original.len() - input@.len();
        let p = input.remove(0);
        proof {
            assert(p == original[t as int]);
            assert(input@ =~= original.subrange(
                original.len() - input@.len(),
                original.len() as int,
            ));
        }
        let dup = contains_name(&out, p.name.as_str());
        let ghost prior = out@;
        if !dup {
            proof {
                // No earlier index holds this name: the completeness
                // invariant would otherwise have put it into `out`.
                assert forall|j: int| 0 <= j < t implies original[j].name@ != p.name@ by {
                    let w = original[j];
                    if original[j].name@ == p.name@ {
                        assert(name_resolved(prior, original[j].name@));
                        assert(name_resolved(prior, p.name@));
                    }
                }
                assert(is_first_occurrence(original, t as int));
            }
            out.push(p);
            proof {
                assert forall|x: int, y: int|
                    0 <= x < y < out@.len() implies out@[x].name@ != out@[y].name@ by {
                    if y == out@.len() - 1 {
                        if out@[x].name@ == p.name@ {
                            assert(prior[x].name@ == p.name@);
                            assert(name_resolved(prior, p.name@));
                        }
                    }
                }
                assert forall|i: int|
                    0 <= i < out@.len() implies first_occurrence_before(
                    original,
                    t + 1,
                    #[trigger] out@[i],
                ) by {
                    if i < prior.len() {
                        assert(first_occurrence_before(original, t as int, prior[i]));
                        let k = choose|k: int|
                            #![trigger original[k]]
                            is_first_occurrence(original, k) && k < t && original[k] == prior[i];
                        assert(is_first_occurrence(original, k) && k < t + 1 && original[k]
                            == out@[i]);
                    } else {
                        assert(out@[i] == p);
                        assert(is_first_occurrence(original, t as int) && t < t + 1 && original[t as int]
                            == out@[i]);
                    }
                }
            }
        }
        proof {
            // The canonical form follows the same step: a seen name
            // leaves the resolution unchanged, a fresh one is appended.
            let prefix_t = original.subrange(0, t as int);
            let prefix_t1 = original.subrange(0, t + 1);
            assert(prefix_t1.drop_last() =~= prefix_t);
            assert(prefix_t1.last() == p);
            lemma_dedup_names(prefix_t, p.name@);
            if dup {
                assert(name_resolved(prefix_t, p.name@));
                assert(name_resolved(prefix_t1.drop_last(), prefix_t1.last().name@));
                assert(spec_dedup(prefix_t1) == spec_dedup(prefix_t1.drop_last()));
                assert(out@ == spec_dedup(prefix_t1));
            } else {
                assert(!name_resolved(prefix_t, p.name@));
                assert(!name_resolved(prefix_t1.drop_last(), prefix_t1.last().name@));
                assert(spec_dedup(prefix_t1) == spec_dedup(prefix_t1.drop_last()).push(p));
                assert(out@ == prior.push(p));
                assert(out@ == spec_dedup(prefix_t1));
            }
            assert forall|k: int|
                #![trigger original[k]]
                0 <= k < t + 1 implies name_resolved(out@, original[k].name@) by {
                if k < t {
                    let i = choose|i: int|
                        0 <= i < prior.len() && #[trigger] prior[i].name@ == original[k].name@;
                    assert(out@[i].name@ == original[k].name@);
                } else {
                    if dup {
                        let i = choose|i: int|
                            0 <= i < prior.len() && #[trigger] prior[i].name@ == p.name@;
                        assert(out@[i].name@ == original[k].name@);
                    } else {
                        assert(out@[out@.len() - 1].name@ == original[k].name@);
                    }
                }
            }
        }
    }
    proof {
        assert(input@.len() == 0);
        assert forall|i: int|
            0 <= i < out@.len() implies first_occurrence_before(
            original,
            original.len() as int,
            #[trigger] out@[i],
        ) by {
            assert(first_occurrence_before(original, original.len() - input@.len(), out@[i]));
            let k = choose|k: int|
                #![trigger original[k]]
                is_first_occurrence(original, k) && k < original.len() - input@.len() && original[k]
                    == out@[i];
            assert(is_first_occurrence(original, k) && k < original.len() && original[k]
                == out@[i]);
        }
        assert forall|k: int|
            #![trigger original[k]]
            0 <= k < original.len() implies name_resolved(out@, original[k].name@) by {
            let w = original[k];
            assert(0 <= k < original.len() - input@.len());
        }
        assert(original.subrange(0, original.len() as int) =~= original);
        assert(out@ == spec_dedup(original));
    }
    out
}

/// The catalog a resolution pass works on: the tiers that are not
/// skipped, concatenated in priority order.
pub open spec fn tier_concat(
    user: Seq<Package>,
    upstream: Seq<Package>,
    builtin: Seq<Package>,
    opts: PackageLoadOpts,
) -> Seq<Package> {
    (if !opts.ignore_user {
        user
    } else {
        Seq::empty()
    }) + (if !opts.ignore_upstream {
        upstream
    } else {
        Seq::empty()
    }) + (if !opts.ignore_builtin {
        builtin
    } else {
        Seq::empty()
    })
}

/// Resolves the catalog from its three tiers: concatenation in priority
/// order — user, then upstream, then builtin — and deduplication by
/// name keeping the first occurrence.
pub fn resolve_catalog(
    user: Vec<Package>,
    upstream: Vec<Package>,
    builtin: Vec<Package>,
    opts: PackageLoadOpts,
) -> (r: Vec<Package>)
    ensures
        resolves(tier_concat(user@, upstream@, builtin@, opts), r@),
{
    let ghost spec_cat = tier_concat(user@, upstream@, builtin@, opts);
    let mut cat: Vec<Package> = Vec::new();
    if !opts.ignore_user {
        let mut tier = user;
        cat.append(&mut tier);
    }
    if !opts.ignore_upstream {
        let mut tier = upstream;
        cat.append(&mut tier);
    }
    if !opts.ignore_builtin {
        let mut tier = builtin;
        cat.append(&mut tier);
    }
    proof {
        assert(cat@ =~= spec_cat);
    }
    dedup_by_name(cat)
}

/// In a resolution there is an entry for the name of every first
/// occurrence in the catalog, and it equals that first occurrence.
pub proof fn lemma_resolved_entry(cat: Seq<Package>, resolved: Seq<Package>, k: int)
    requires
        resolves(cat, resolved),
        is_first_occurrence(cat, k),
    ensures
        exists|i: int| 0 <= i < resolved.len() && #[trigger] resolved[i] == cat[k],
{
    let w = cat[k];
    assert(name_resolved(resolved, cat[k].name@));
    let i = choose|i: int| 0 <= i < resolved.len() && #[trigger] resolved[i].name@ == cat[k].name@;
    assert(first_occurrence_before(cat, cat.len() as int, resolved[i]));
    let k2 = choose|k2: int|
        #![trigger cat[k2]]
        is_first_occurrence(cat, k2) && k2 < cat.len() && cat[k2] == resolved[i];
    if k2 < k {
        assert(cat[k2].name@ != cat[k].name@);
        assert(false);
    }
    if k < k2 {
        assert(cat[k].name@ != cat[k2].name@);
        assert(false);
    }
    assert(resolved[i] == cat[k]);
}

impl PackageLoadOpts {
    /// The options that skip no tier.
    pub open spec fn spec_all_tiers() -> PackageLoadOpts {
        PackageLoadOpts { ignore_user: false, ignore_upstream: false, ignore_builtin: false }
    }
}

/// Dedup invariant, user tier: when no tier is skipped and a name occurs
/// in the user tier, the resolved catalog's entry of that name is the
/// user tier's first entry of it.
pub proof fn lemma_tier_override(
    user: Seq<Package>,
    upstream: Seq<Package>,
    builtin: Seq<Package>,
    resolved: Seq<Package>,
    k: int,
)
    requires
        resolves(tier_concat(user, upstream, builtin, PackageLoadOpts::spec_all_tiers()), resolved),
        is_first_occurrence(user, k),
    ensures
        exists|i: int| 0 <= i < resolved.len() && #[trigger] resolved[i] == user[k],
{
    let cat = tier_concat(user, upstream, builtin, PackageLoadOpts::spec_all_tiers());
    assert(cat[k] == user[k]);
    assert forall|j: int| 0 <= j < k implies cat[j].name@ != cat[k].name@ by {
        assert(cat[j] == user[j]);
    }
    assert(is_first_occurrence(cat, k));
    lemma_resolved_entry(cat, resolved, k);
    let i = choose|i: int| 0 <= i < resolved.len() && #[trigger] resolved[i] == cat[k];
    assert(resolved[i] == user[k]);
}

/// Dedup invariant, fallback tier: when a name occurs in no user entry
/// and its first upstream occurrence is at `k`, the resolved entry of
/// that name is that upstream entry; the builtin tier behaves the same
/// below both.
pub proof fn lemma_tier_fallback(
    user: Seq<Package>,
    upstream: Seq<Package>,
    builtin: Seq<Package>,
    resolved: Seq<Package>,
    k: int,
)
    requires
        resolves(tier_concat(user, upstream, builtin, PackageLoadOpts::spec_all_tiers()), resolved),
        is_first_occurrence(upstream, k),
        forall|j: int| 0 <= j < user.len() ==> #[trigger] user[j].name@ != upstream[k].name@,
    ensures
        exists|i: int| 0 <= i < resolved.len() && #[trigger] resolved[i] == upstream[k],
{
    let cat = tier_concat(user, upstream, builtin, PackageLoadOpts::spec_all_tiers());
    let ck = user.len() + k;
    assert(cat[ck] == upstream[k]);
    assert forall|j: int| 0 <= j < ck implies cat[j].name@ != cat[ck].name@ by {
        if j < user.len() {
            assert(cat[j] == user[j]);
        } else {
            assert(cat[j] == upstream[j - user.len()]);
        }
    }
    assert(is_first_occurrence(cat, ck));
    lemma_resolved_entry(cat, resolved, ck);
    let i = choose|i: int| 0 <= i < resolved.len() && #[trigger] resolved[i] == cat[ck];
    assert(resolved[i] == upstream[k]);
}

/// Dedup invariant, last tier: when a name occurs in no user and no
/// upstream entry and its first builtin occurrence is at `k`, the
/// resolved entry of that name is that builtin entry.
pub proof fn lemma_tier_fallback_builtin(
    user: Seq<Package>,
    upstream: Seq<Package>,
    builtin: Seq<Package>,
    resolved: Seq<Package>,
    k: int,
)
    requires
        resolves(tier_concat(user, upstream, builtin, PackageLoadOpts::spec_all_tiers()), resolved),
        is_first_occurrence(builtin, k),
        forall|j: int| 0 <= j < user.len() ==> #[trigger] user[j].name@ != builtin[k].name@,
        forall|j: int| 0 <= j < upstream.len() ==> #[trigger] upstream[j].name@ != builtin[k].name@,
    ensures
        exists|i: int| 0 <= i < resolved.len() && #[trigger] resolved[i] == builtin[k],
{
    let cat = tier_concat(user, upstream, builtin, PackageLoadOpts::spec_all_tiers());
    let ck = user.len() + upstream.len() + k;
    assert(cat[ck] == builtin[k]);
    assert forall|j: int| 0 <= j < ck implies cat[j].name@ != cat[ck].name@ by {
        if j < user.len() {
            assert(cat[j] == user[j]);
        } else if j < user.len() + upstream.len() {
            assert(cat[j] == upstream[j - user.len()]);
        } else {
            assert(cat[j] == builtin[j - user.len() - upstream.len()]);
        }
    }
    assert(is_first_occurrence(cat, ck));
    lemma_resolved_entry(cat, resolved, ck);
    let i = choose|i: int| 0 <= i < resolved.len() && #[trigger] resolved[i] == cat[ck];
    assert(resolved[i] == builtin[k]);
}

} // verus!
