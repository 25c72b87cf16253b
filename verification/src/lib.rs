//! Offload a local cargo build to a remote machine.
//!
//! The crate holds the pure orchestration logic of the pipeline: resolving
//! the remote working directory (mirror, ephemeral or persistent), composing
//! the transfer and remote shell invocations, parsing copy-back pairs, and
//! aggregating per-pair retrieval outcomes into a run report. All process
//! spawning and I/O stays with the caller; every function here is a pure
//! computation on plain values.

use vstd::prelude::*;

pub mod command;
pub mod path;
pub mod remote;
pub mod retrieve;
pub mod sync;
pub mod text;

verus! {

/// A configuration error: detected before any remote interaction and fatal.
#[derive(Debug)]
pub enum ConfigError {
    /// A copy-back entry lacked the `source:destination` separator.
    InvalidCopyBack { entry: String },
    /// The project root path has no derivable directory name.
    NoProjectName,
}

impl ConfigError {
    /// A human-readable description of the error.
    pub fn message(&self) -> (r: String)
        ensures
            match self {
                ConfigError::InvalidCopyBack { entry } => r@ == "Invalid format for --copy-back entry: "@
                    + entry@,
                ConfigError::NoProjectName => r@ == "Project dir should always exist"@,
            },
    {
        match self {
            ConfigError::InvalidCopyBack { entry } => String::from_str(
                "Invalid format for --copy-back entry: ",
            ).concat(entry.as_str()),
            ConfigError::NoProjectName => String::from_str("Project dir should always exist"),
        }
    }
}

/// Exit code when the local project metadata could not be queried.
pub const EXIT_METADATA_FAILED: i32 = -5;

/// Exit code when transferring the sources to the remote machine failed.
pub const EXIT_SYNC_FAILED: i32 = -4;

/// Exit code when the remote shell command could not be executed at all.
pub const EXIT_EXEC_FAILED: i32 = -3;

/// Exit code when one or more artifact retrievals failed.
pub const EXIT_RETRIEVAL_FAILED: i32 = -6;

} // verus!
