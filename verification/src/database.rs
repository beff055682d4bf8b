//! The local installation database: the persisted map of installed-package
//! state, keyed by package name.
//!
//! One document exists per (channel, system-wide) pair.  The invariant of
//! a document is that it holds at most one record per package name; a
//! commit is a read-modify-write that inserts or overwrites the record
//! for one name and leaves every other name untouched.
//!
//! No locking is provided: the tool assumes single-process, sequential
//! invocation, and concurrent external invocations against the same
//! document are unsupported.

use vstd::prelude::*;

use crate::strutil::str_eq;

verus! {

/// The installation track a package is installed from.
///
/// `Local` is synthetic: it is used only for path-based installs and is
/// never persisted against a remote branch.
#[derive(Debug, Clone, Copy, PartialEq, Eq, Structural)]
pub enum Branch {
    Dev,
    Stable,
    Local,
}

impl Branch {
    /// The short name of the channel as a sequence of characters.
    pub open spec fn spec_filename(self) -> Seq<char> {
        match self {
            Branch::Dev => "dev"@,
            Branch::Stable => "stable"@,
            Branch::Local => "local"@,
        }
    }

    /// The short name of the channel, used in the database file name and
    /// in qualified artifact file names.
    pub fn filename(&self) -> (r: &'static str)
        ensures
            r@ == self.spec_filename(),
    {
        match self {
            Branch::Dev => "dev",
            Branch::Stable => "stable",
            Branch::Local => "local",
        }
    }
}

impl core::convert::From<bool> for Branch {
    /// `true` selects the dev channel, `false` the stable channel.
    fn from(dev: bool) -> (r: Branch) {
        if dev {
            Branch::Dev
        } else {
            Branch::Stable
        }
    }
}

impl vstd::std_specs::convert::FromSpecImpl<bool> for Branch {
    open spec fn obeys_from_spec() -> bool {
        true
    }

    open spec fn from_spec(dev: bool) -> Branch {
        if dev {
            Branch::Dev
        } else {
            Branch::Stable
        }
    }
}

/// How a package was installed.  Two records are interchangeable exactly
/// when their variant and payload match; this equality is the
/// idempotency test of the install orchestrator.
#[derive(Debug, Clone)]
pub enum EntryType {
    /// Installed from source at this git commit hash.
    GitSource(String),
    /// Installed from the binary release with this tag.
    Binary(String),
    /// Installed from this local source path.
    LocalPath(String),
}

impl EntryType {
    /// Variant and payload equality.
    pub open spec fn spec_eq(&self, other: &EntryType) -> bool {
        match (self, other) {
            (EntryType::GitSource(a), EntryType::GitSource(b)) => a@ == b@,
            (EntryType::Binary(a), EntryType::Binary(b)) => a@ == b@,
            (EntryType::LocalPath(a), EntryType::LocalPath(b)) => a@ == b@,
            _ => false,
        }
    }

    /// Decides variant and payload equality.
    pub fn same_as(&self, other: &EntryType) -> (r: bool)
        ensures
            r == self.spec_eq(other),
    {
        match (self, other) {
            (EntryType::GitSource(a), EntryType::GitSource(b)) => str_eq(a.as_str(), b.as_str()),
            (EntryType::Binary(a), EntryType::Binary(b)) => str_eq(a.as_str(), b.as_str()),
            (EntryType::LocalPath(a), EntryType::LocalPath(b)) => str_eq(a.as_str(), b.as_str()),
            _ => false,
        }
    }
}

/// One persisted installation record: how the package was installed and
/// the absolute paths of every artifact the install wrote.
#[derive(Debug, Clone)]
pub struct DatabaseEntry {
    pub ty: EntryType,
    pub artifacts: Vec<String>,
}

/// One installation-database document: a map from package name to its
/// record, stored as a list of pairs with pairwise-distinct names.
#[derive(Debug, Clone)]
pub struct Database {
    pub entries: Vec<(String, DatabaseEntry)>,
}

impl Database {
    /// Well-formedness: at most one record per package name.
    pub open spec fn wf(&self) -> bool {
        forall|i: int, j: int|
            0 <= i < j < self.entries@.len() ==> self.entries@[i].0@ != self.entries@[j].0@
    }

    /// Whether a record exists for this name.
    pub open spec fn spec_contains(&self, name: Seq<char>) -> bool {
        exists|i: int| 0 <= i < self.entries@.len() && self.entries@[i].0@ == name
    }

    /// The record stored for this name, if any.
    pub open spec fn spec_get(&self, name: Seq<char>) -> Option<DatabaseEntry> {
        if self.spec_contains(name) {
            let i = choose|i: int| 0 <= i < self.entries@.len() && self.entries@[i].0@ == name;
            Some(self.entries@[i].1)
        } else {
            None
        }
    }

    /// In a well-formed document, the record at any index holding the
    /// name is the record of that name.
    pub proof fn lemma_get_at(&self, i: int)
        requires
            self.wf(),
            0 <= i < self.entries@.len(),
        ensures
            self.spec_get(self.entries@[i].0@) == Some(self.entries@[i].1),
    {
        let name = self.entries@[i].0@;
        assert(self.spec_contains(name));
        let k = choose|k: int| 0 <= k < self.entries@.len() && self.entries@[k].0@ == name;
        if k != i {
            if k < i {
                assert(self.entries@[k].0@ != self.entries@[i].0@);
            } else {
                assert(self.entries@[i].0@ != self.entries@[k].0@);
            }
        }
    }

    /// An empty document; reading a missing database file yields this,
    /// never an error.
    pub fn new() -> (r: Database)
        ensures
            r.wf(),
            forall|name: Seq<char>| r.spec_get(name) is None,
            r.entries@.len() == 0,
    {
        Database { entries: Vec::new() }
    }

    /// Index of the record with this name, if any.
    fn find_index(&self, name: &str) -> (r: Option<usize>)
        requires
            self.wf(),
        ensures
            match r {
                Some(i) => i < self.entries@.len() && self.entries@[i as int].0@ == name@,
                None => !self.spec_contains(name@),
            },
    {
        let n = self.entries.len();
        let mut i: usize = 0;
        while i < n
            invariant
                n == self.entries@.len(),
                i <= n,
                forall|j: int| 0 <= j < i ==> self.entries@[j].0@ != name@,
            decreases n - i,
        {
            if str_eq(self.entries[i].0.as_str(), name) {
                return Some(i);
            }
            i = i + 1;
        }
        None
    }

    /// Looks a package name up.
    pub fn get(&self, name: &str) -> (r: Option<&DatabaseEntry>)
        requires
            self.wf(),
        ensures
            match r {
                Some(e) => self.spec_get(name@) == Some(*e),
                None => self.spec_get(name@) is None,
            },
    {
        let found = self.find_index(name);
        match found {
            Some(i) => {
                proof {
                    self.lemma_get_at(i as int);
                }
                Some(&self.entries[i].1)
            },
            None => None,
        }
    }

    /// Inserts or overwrites the record for one name, leaving every
    /// other name untouched.
    pub fn insert(&mut self, name: &str, entry: DatabaseEntry)
        requires
            old(self).wf(),
        ensures
            final(self).wf(),
            final(self).spec_get(name@) == Some(entry),
            forall|m: Seq<char>|
                m != name@ ==> #[trigger] final(self).spec_get(m) == old(self).spec_get(m),
    {
        let found = self.find_index(name);
        match found {
            Some(i) => {
                self.entries.set(i, (name.to_owned(), entry));
                proof {
                    self.lemma_get_at(i as int);
                    assert forall|m: Seq<char>| m != name@ implies #[trigger] self.spec_get(m)
                        == old(self).spec_get(m) by {
                        self.lemma_frame(*old(self), i as int, m);
                    }
                }
            },
            None => {
                let ghost oldlen = self.entries@.len();
                self.entries.push((name.to_owned(), entry));
                proof {
                    assert(self.entries@[oldlen as int].0@ == name@);
                    self.lemma_get_at(oldlen as int);
                    assert forall|m: Seq<char>| m != name@ implies #[trigger] self.spec_get(m)
                        == old(self).spec_get(m) by {
                        self.lemma_frame_push(*old(self), m);
                    }
                }
            },
        }
    }

    /// Replacing or adding the record at one index leaves the lookup of
    /// every other name unchanged.
    proof fn lemma_frame(&self, prior: Database, i: int, m: Seq<char>)
        requires
            prior.wf(),
            self.wf(),
            0 <= i < prior.entries@.len(),
            self.entries@.len() == prior.entries@.len(),
            forall|j: int|
                0 <= j < prior.entries@.len() && j != i ==> self.entries@[j] == prior.entries@[j],
            m != self.entries@[i].0@,
            m != prior.entries@[i].0@,
        ensures
            self.spec_get(m) == prior.spec_get(m),
    {
        if self.spec_contains(m) {
            let k = choose|k: int| 0 <= k < self.entries@.len() && self.entries@[k].0@ == m;
            assert(prior.entries@[k].0@ == m);
            assert(prior.spec_contains(m));
            prior.lemma_get_at(k);
            self.lemma_get_at(k);
        } else if prior.spec_contains(m) {
            let k = choose|k: int| 0 <= k < prior.entries@.len() && prior.entries@[k].0@ == m;
            assert(self.entries@[k].0@ == m);
        }
    }

    /// Appending a record for a fresh name leaves the lookup of every
    /// other name unchanged.
    proof fn lemma_frame_push(&self, prior: Database, m: Seq<char>)
        requires
            prior.wf(),
            self.wf(),
            self.entries@.len() == prior.entries@.len() + 1,
            forall|j: int| 0 <= j < prior.entries@.len() ==> self.entries@[j] == prior.entries@[j],
            m != self.entries@[prior.entries@.len() as int].0@,
        ensures
            self.spec_get(m) == prior.spec_get(m),
    {
        if self.spec_contains(m) {
            let k = choose|k: int| 0 <= k < self.entries@.len() && self.entries@[k].0@ == m;
            assert(k < prior.entries@.len());
            assert(prior.spec_contains(m));
            prior.lemma_get_at(k);
            self.lemma_get_at(k);
        } else if prior.spec_contains(m) {
            let k = choose|k: int| 0 <= k < prior.entries@.len() && prior.entries@[k].0@ == m;
            assert(self.entries@[k].0@ == m);
        }
    }
}

/// The file name of the database document for one channel:
/// `db2.<channel>.json`.
pub fn db_file_name(branch: Branch) -> (r: String)
    ensures
        r@ == "db2."@ + branch.spec_filename() + ".json"@,
{
    let mut out = String::new();
    out.append("db2.");
    out.append(branch.filename());
    out.append(".json");
    out
}

} // verus!
