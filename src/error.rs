//! The ways an operation of the library can fail.

use vstd::prelude::*;

verus! {

/// A failure surfaced to the command that asked for the work.
#[derive(Debug, Clone)]
pub enum SkillError {
    /// The remote catalog could not be reached.
    Network,
    /// The remote catalog was not a well-formed manifest.
    Parse,
    /// The cached catalog exists but cannot be read as a manifest.
    CacheCorrupt,
    /// No skill has the given name or id.
    NotFound(String),
    /// The named file could not be downloaded or written.
    Transfer(String),
    /// The home or cache directory could not be determined.
    Environment,
}

} // verus!
