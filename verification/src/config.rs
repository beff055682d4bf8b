//! The persisted key/value configuration with its fixed key set:
//! `registry`, `token`, `pub_key_file` and `priv_key_file`.  Key files
//! are accepted only after their content was validated as the expected
//! key type; reading and writing the file itself is the application's
//! work.

use vstd::prelude::*;

use crate::error::Error;
use crate::registry::MEMFLOW_REGISTRY;
use crate::strutil::str_eq;

verus! {

broadcast use vstd::string::group_string_axioms;

/// The persisted configuration.
#[derive(Debug, Clone)]
pub struct Config {
    /// Registry to use in place of the default.
    pub registry: Option<String>,
    /// Bearer token for publish and remove requests.
    pub token: Option<String>,
    /// Path of the public key file used to verify signatures.
    pub pub_key_file: Option<String>,
    /// Path of the private key file used to sign uploads.
    pub priv_key_file: Option<String>,
}

/// What the application found when it validated a key file.
#[derive(Debug, Clone, Copy, PartialEq, Eq, Structural)]
pub enum KeyFileCheck {
    /// No file exists at the path.
    Missing,
    /// The file exists but does not parse as the expected key type.
    Invalid,
    /// The file parses as the expected key type.
    Valid,
}

impl core::default::Default for Config {
    fn default() -> (r: Config)
        ensures
            r.registry is None,
            r.token is None,
            r.pub_key_file is None,
            r.priv_key_file is None,
    {
        Config { registry: None, token: None, pub_key_file: None, priv_key_file: None }
    }
}

impl Config {
    /// Reads one configuration entry; the registry falls back to the
    /// default registry, every other absent entry reads as `None`, and
    /// an unknown key is an error.
    pub fn get(&self, key: &str) -> (r: Result<Option<&str>, Error>)
        ensures
            key@ == "registry"@ ==> (r matches Ok(v) && (v matches Some(s) && s@ == (
            match self.registry {
                Some(ref x) => x@,
                None => MEMFLOW_REGISTRY@,
            }))),
            key@ == "token"@ ==> (r matches Ok(v) && (match (v, self.token) {
                (Some(s), Some(x)) => s@ == x@,
                (None, None) => true,
                _ => false,
            })),
            key@ == "pub_key_file"@ ==> (r matches Ok(v) && (match (v, self.pub_key_file) {
                (Some(s), Some(x)) => s@ == x@,
                (None, None) => true,
                _ => false,
            })),
            key@ == "priv_key_file"@ ==> (r matches Ok(v) && (match (v, self.priv_key_file) {
                (Some(s), Some(x)) => s@ == x@,
                (None, None) => true,
                _ => false,
            })),
            (key@ != "registry"@ && key@ != "token"@ && key@ != "pub_key_file"@ && key@
                != "priv_key_file"@) ==> (r matches Err(e) && e is NotFound),
    {
        proof {
            reveal_strlit("registry");
            reveal_strlit("token");
            reveal_strlit("pub_key_file");
            reveal_strlit("priv_key_file");
            assert("registry"@.len() == 8);
            assert("token"@.len() == 5);
            assert("pub_key_file"@.len() == 12);
            assert("priv_key_file"@.len() == 13);
        }
        if str_eq(key, "registry") {
            match &self.registry {
                Some(x) => Ok(Some(x.as_str())),
                None => Ok(Some(MEMFLOW_REGISTRY)),
            }
        } else if str_eq(key, "token") {
            match &self.token {
                Some(x) => Ok(Some(x.as_str())),
                None => Ok(None),
            }
        } else if str_eq(key, "pub_key_file") {
            match &self.pub_key_file {
                Some(x) => Ok(Some(x.as_str())),
                None => Ok(None),
            }
        } else if str_eq(key, "priv_key_file") {
            match &self.priv_key_file {
                Some(x) => Ok(Some(x.as_str())),
                None => Ok(None),
            }
        } else {
            Err(Error::NotFound(invalid_option_message(key)))
        }
    }

    /// Writes one configuration entry.  A key-file entry is accepted
    /// only when the application validated the file at the path:
    /// a missing file and a file that is no valid key are each
    /// rejected, and the entry is left unchanged.
    pub fn set(&mut self, key: &str, value: &str, key_file: KeyFileCheck) -> (r: Result<(), Error>)
        ensures
            key@ == "registry"@ ==> (r is Ok && (final(self).registry matches Some(x) && x@
                == value@) && final(self).token == old(self).token && final(self).pub_key_file
                == old(self).pub_key_file && final(self).priv_key_file == old(self).priv_key_file),
            key@ == "token"@ ==> (r is Ok && (final(self).token matches Some(x) && x@ == value@)
                && final(self).registry == old(self).registry && final(self).pub_key_file == old(self).pub_key_file && final(self).priv_key_file == old(self).priv_key_file),
            (key@ == "pub_key_file"@ && key_file == KeyFileCheck::Valid) ==> (r is Ok && (final(self).pub_key_file matches Some(x) && x@ == value@) && final(self).registry == old(self).registry && final(self).token == old(self).token && final(self).priv_key_file == old(self).priv_key_file),
            (key@ == "priv_key_file"@ && key_file == KeyFileCheck::Valid) ==> (r is Ok && (final(self).priv_key_file matches Some(x) && x@ == value@) && final(self).registry == old(self).registry && final(self).token == old(self).token && final(self).pub_key_file == old(self).pub_key_file),
            ((key@ == "pub_key_file"@ || key@ == "priv_key_file"@) && key_file
                != KeyFileCheck::Valid) ==> ((r matches Err(e) && e is NotFound) && *final(self)
                == *old(self)),
            (key@ != "registry"@ && key@ != "token"@ && key@ != "pub_key_file"@ && key@
                != "priv_key_file"@) ==> ((r matches Err(e) && e is NotFound) && *final(self)
                == *old(self)),
    {
        proof {
            reveal_strlit("registry");
            reveal_strlit("token");
            reveal_strlit("pub_key_file");
            reveal_strlit("priv_key_file");
            assert("registry"@.len() == 8);
            assert("token"@.len() == 5);
            assert("pub_key_file"@.len() == 12);
            assert("priv_key_file"@.len() == 13);
        }
        if str_eq(key, "registry") {
            self.registry = Some(value.to_owned());
            Ok(())
        } else if str_eq(key, "token") {
            self.token = Some(value.to_owned());
            Ok(())
        } else if str_eq(key, "pub_key_file") {
            match key_file {
                KeyFileCheck::Valid => {
                    self.pub_key_file = Some(value.to_owned());
                    Ok(())
                },
                KeyFileCheck::Missing => Err(
                    Error::NotFound("Key file does not exist".to_owned()),
                ),
                KeyFileCheck::Invalid => Err(
                    Error::NotFound("File is not a valid public key file".to_owned()),
                ),
            }
        } else if str_eq(key, "priv_key_file") {
            match key_file {
                KeyFileCheck::Valid => {
                    self.priv_key_file = Some(value.to_owned());
                    Ok(())
                },
                KeyFileCheck::Missing => Err(
                    Error::NotFound("Key file does not exist".to_owned()),
                ),
                KeyFileCheck::Invalid => Err(
                    Error::NotFound("File is not a valid private key file".to_owned()),
                ),
            }
        } else {
            Err(Error::NotFound(invalid_option_message(key)))
        }
    }

    /// Clears one configuration entry; an unknown key is an error.
    pub fn unset(&mut self, key: &str) -> (r: Result<(), Error>)
        ensures
            key@ == "registry"@ ==> (r is Ok && final(self).registry is None && final(self).token
                == old(self).token && final(self).pub_key_file == old(self).pub_key_file && final(self).priv_key_file == old(self).priv_key_file),
            key@ == "token"@ ==> (r is Ok && final(self).token is None && final(self).registry
                == old(self).registry && final(self).pub_key_file == old(self).pub_key_file
                && final(self).priv_key_file == old(self).priv_key_file),
            key@ == "pub_key_file"@ ==> (r is Ok && final(self).pub_key_file is None && final(self).registry == old(self).registry && final(self).token == old(self).token && final(self).priv_key_file == old(self).priv_key_file),
            key@ == "priv_key_file"@ ==> (r is Ok && final(self).priv_key_file is None && final(self).registry == old(self).registry && final(self).token == old(self).token && final(self).pub_key_file == old(self).pub_key_file),
            (key@ != "registry"@ && key@ != "token"@ && key@ != "pub_key_file"@ && key@
                != "priv_key_file"@) ==> ((r matches Err(e) && e is NotFound) && *final(self)
                == *old(self)),
    {
        proof {
            reveal_strlit("registry");
            reveal_strlit("token");
            reveal_strlit("pub_key_file");
            reveal_strlit("priv_key_file");
            assert("registry"@.len() == 8);
            assert("token"@.len() == 5);
            assert("pub_key_file"@.len() == 12);
            assert("priv_key_file"@.len() == 13);
        }
        if str_eq(key, "registry") {
            self.registry = None;
            Ok(())
        } else if str_eq(key, "token") {
            self.token = None;
            Ok(())
        } else if str_eq(key, "pub_key_file") {
            self.pub_key_file = None;
            Ok(())
        } else if str_eq(key, "priv_key_file") {
            self.priv_key_file = None;
            Ok(())
        } else {
            Err(Error::NotFound(invalid_option_message(key)))
        }
    }
}

/// The view of an optional borrowed string.
pub open spec fn opt_str_view(o: Option<&str>) -> Option<Seq<char>> {
    match o {
        Some(s) => Some(s@),
        None => None,
    }
}

/// The message rejecting an unknown configuration key.
fn invalid_option_message(key: &str) -> (r: String)
    ensures
        r@ == "option `"@ + key@ + "` is invalid"@,
{
    let mut msg = String::new();
    msg.append("option `");
    msg.append(key);
    msg.append("` is invalid");
    msg
}

} // verus!
