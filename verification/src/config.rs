//! How the host was built and where it runs: the two facts that decide where
//! the sidecar's files are looked for and what its interpreter is called.

use vstd::prelude::*;

verus! {

/// Whether the host runs from a source tree or from an installed bundle.
#[derive(Clone, Copy, Debug, PartialEq, Eq, Structural)]
pub enum DeploymentMode {
    /// Files are found under the current working directory.
    Development,
    /// Files are found under the host's resource root.
    Packaged,
}

/// The family of operating system the host runs on.
#[derive(Clone, Copy, Debug, PartialEq, Eq, Structural)]
pub enum Platform {
    /// Executables end in `.exe` and `\` separates path components.
    Windows,
    /// Every other system: no suffix, `/` separates path components.
    Other,
}

/// The host's fixed circumstances.
#[derive(Clone, Copy, Debug, PartialEq, Eq, Structural)]
pub struct Config {
    pub mode: DeploymentMode,
    pub platform: Platform,
}

} // verus!
