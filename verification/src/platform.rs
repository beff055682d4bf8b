//! The platform capability: everything the library needs to know about
//! the operating system it runs on, handed in once as plain data instead
//! of being read from ambient OS-conditional functions.

use vstd::prelude::*;

verus! {

/// What the running operating system looks like to the library.
#[derive(Debug, Clone)]
pub struct Platform {
    /// Tags that describe the running OS, e.g. `linux` and `unix`; a
    /// package's platform allow-list is matched against these.
    pub os_tags: Vec<String>,
    /// The CPU architecture tag, e.g. `x86_64`.
    pub arch: String,
    /// Prefix of a dynamic library file name, e.g. `lib` on Unix.
    pub lib_prefix: String,
    /// Extension of a dynamic library file name without the dot, e.g.
    /// `so`, `dylib` or `dll`.
    pub lib_extension: String,
}

/// The directories the library writes into, resolved once at startup.
#[derive(Debug, Clone)]
pub struct PlatformPaths {
    /// Plugin install directory for the current user.
    pub user_install_dir: String,
    /// Plugin install directory for system-wide installs.
    pub system_install_dir: String,
    /// Configuration directory for the current user.
    pub user_config_dir: String,
    /// Configuration directory for system-wide state.
    pub system_config_dir: String,
}

impl PlatformPaths {
    /// The configuration directory for the given scope.
    pub fn config_dir(&self, system_wide: bool) -> (r: &str)
        ensures
            r@ == if system_wide {
                self.system_config_dir@
            } else {
                self.user_config_dir@
            },
    {
        if system_wide {
            self.system_config_dir.as_str()
        } else {
            self.user_config_dir.as_str()
        }
    }
}

} // verus!
