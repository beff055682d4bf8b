//! Error taxonomy shared by every component of the library.

use vstd::prelude::*;

verus! {

/// Classified library errors.
///
/// Each variant carries a human-readable message; the variant itself is
/// the classification that callers branch on.
#[derive(Debug, Clone)]
pub enum Error {
    /// Catch-all for errors that originate from plain strings.
    Unknown(String),
    /// Filesystem or stream failure.
    IO(String),
    /// Malformed JSON, URI or UTF-8.
    Parse(String),
    /// A package, plugin or key file is absent.
    NotFound(String),
    /// The target already exists.
    AlreadyExists(String),
    /// The operation has no defined behaviour here.
    NotImplemented(String),
    /// Transport-level HTTP failure.
    Http(String),
    /// Protocol-level registry failure.
    Registry(String),
    /// Signature verification failure; always fatal for a download.
    Signature(String),
}

impl Error {
    /// The message carried by the error, without its classification.
    pub fn message(&self) -> (r: &str)
        ensures
            r@ == self.spec_message(),
    {
        match self {
            Error::Unknown(m) => m.as_str(),
            Error::IO(m) => m.as_str(),
            Error::Parse(m) => m.as_str(),
            Error::NotFound(m) => m.as_str(),
            Error::AlreadyExists(m) => m.as_str(),
            Error::NotImplemented(m) => m.as_str(),
            Error::Http(m) => m.as_str(),
            Error::Registry(m) => m.as_str(),
            Error::Signature(m) => m.as_str(),
        }
    }

    /// The user-visible rendering: a short classification prefix,
    /// then the message.
    pub fn to_display_string(&self) -> (r: String)
        ensures
            r@ == self.spec_prefix() + self.spec_message(),
    {
        let mut out = String::new();
        match self {
            Error::Unknown(_) => out.append("Unknown error: "),
            Error::IO(_) => out.append("IO error: "),
            Error::Parse(_) => out.append("Parse error: "),
            Error::NotFound(_) => out.append("Not found: "),
            Error::AlreadyExists(_) => out.append("Already exists: "),
            Error::NotImplemented(_) => out.append("Not implemented: "),
            Error::Http(_) => out.append("HTTP error: "),
            Error::Registry(_) => out.append("Registry error: "),
            Error::Signature(_) => out.append("Signature error: "),
        }
        out.append(self.message());
        out
    }

    /// The classification prefix of each variant.
    pub open spec fn spec_prefix(&self) -> Seq<char> {
        match self {
            Error::Unknown(_) => "Unknown error: "@,
            Error::IO(_) => "IO error: "@,
            Error::Parse(_) => "Parse error: "@,
            Error::NotFound(_) => "Not found: "@,
            Error::AlreadyExists(_) => "Already exists: "@,
            Error::NotImplemented(_) => "Not implemented: "@,
            Error::Http(_) => "HTTP error: "@,
            Error::Registry(_) => "Registry error: "@,
            Error::Signature(_) => "Signature error: "@,
        }
    }

    /// The message as a mathematical sequence of characters.
    pub open spec fn spec_message(&self) -> Seq<char> {
        match self {
            Error::Unknown(m) => m@,
            Error::IO(m) => m@,
            Error::Parse(m) => m@,
            Error::NotFound(m) => m@,
            Error::AlreadyExists(m) => m@,
            Error::NotImplemented(m) => m@,
            Error::Http(m) => m@,
            Error::Registry(m) => m@,
            Error::Signature(m) => m@,
        }
    }

    /// Whether two errors have the same classification and message.
    pub open spec fn spec_eq(&self, other: &Error) -> bool {
        match (self, other) {
            (Error::Unknown(a), Error::Unknown(b)) => a@ == b@,
            (Error::IO(a), Error::IO(b)) => a@ == b@,
            (Error::Parse(a), Error::Parse(b)) => a@ == b@,
            (Error::NotFound(a), Error::NotFound(b)) => a@ == b@,
            (Error::AlreadyExists(a), Error::AlreadyExists(b)) => a@ == b@,
            (Error::NotImplemented(a), Error::NotImplemented(b)) => a@ == b@,
            (Error::Http(a), Error::Http(b)) => a@ == b@,
            (Error::Registry(a), Error::Registry(b)) => a@ == b@,
            (Error::Signature(a), Error::Signature(b)) => a@ == b@,
            _ => false,
        }
    }
}

impl PartialEq for Error {
    fn eq(&self, other: &Error) -> (r: bool) {
        match (self, other) {
            (Error::Unknown(a), Error::Unknown(b)) => *a == *b,
            (Error::IO(a), Error::IO(b)) => *a == *b,
            (Error::Parse(a), Error::Parse(b)) => *a == *b,
            (Error::NotFound(a), Error::NotFound(b)) => *a == *b,
            (Error::AlreadyExists(a), Error::AlreadyExists(b)) => *a == *b,
            (Error::NotImplemented(a), Error::NotImplemented(b)) => *a == *b,
            (Error::Http(a), Error::Http(b)) => *a == *b,
            (Error::Registry(a), Error::Registry(b)) => *a == *b,
            (Error::Signature(a), Error::Signature(b)) => *a == *b,
            _ => false,
        }
    }
}

impl vstd::std_specs::cmp::PartialEqSpecImpl for Error {
    open spec fn obeys_eq_spec() -> bool {
        true
    }

    open spec fn eq_spec(&self, other: &Error) -> bool {
        self.spec_eq(other)
    }
}

} // verus!
