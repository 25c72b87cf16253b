//! The remote build machine: connection and environment parameters.

use vstd::prelude::*;

verus! {

/// The machine designated to perform the build, reached over an encrypted
/// remote-shell channel. Constructed once per run from static configuration
/// and read-only thereafter.
#[derive(Debug, Clone)]
pub struct Remote {
    /// Human-readable name of the target.
    pub name: String,
    /// Host name or address the transfer and shell tools connect to.
    pub host: String,
    /// Port the encrypted channel listens on.
    pub ssh_port: u16,
    /// Directory on the remote machine under which persistent build
    /// directories are created.
    pub temp_dir: String,
    /// Script sourced on the remote machine before the build command runs,
    /// so that PATH and toolchain managers are available.
    pub env: String,
}

impl Remote {
    /// The built-in configuration: a host named `crunch` on the standard
    /// port, persistent builds under `~/crunch-builds`, environment from
    /// `~/.profile`.
    pub fn standard() -> (r: Remote)
        ensures
            r.name@ == "crunch"@,
            r.host@ == "crunch"@,
            r.ssh_port == 22u16,
            r.temp_dir@ == "~/crunch-builds"@,
            r.env@ == "~/.profile"@,
    {
        Remote {
            name: String::from_str("crunch"),
            host: String::from_str("crunch"),
            ssh_port: 22,
            temp_dir: String::from_str("~/crunch-builds"),
            env: String::from_str("~/.profile"),
        }
    }
}

} // verus!
