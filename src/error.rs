//! Failures of the compose orchestrator.
use vstd::prelude::*;

verus! {

/// Why a compose operation did not go through.
#[derive(Debug, Clone, PartialEq, Eq)]
pub enum ComposeError {
    /// `up` on a project whose root directory already exists.
    ProjectExists(String),
    /// `down` on a project whose root directory does not exist.
    ProjectMissing(String),
    /// A port string that is neither `host:container` nor `ip:host:container`
    /// with numeric ports.
    InvalidPortMapping,
    /// A volume string that is neither `host:container` nor
    /// `host:container:mode`.
    InvalidVolumeMapping,
    /// A service attached to a network that the spec does not declare.
    UnknownNetwork(String),
    /// Two services, or two networks, under one name.
    DuplicateName(String),
    /// No project name was given and none could be derived: `ps` found no
    /// project root and no `name` in the spec, or the working directory has
    /// no name.
    MissingProjectName,
    /// No spec path was given and the directory holds neither
    /// `compose.yml` nor `compose.yaml`.
    SpecFileMissing(String),
    /// A container failed to start; what was started has been rolled back.
    StartFailed,
    /// The state document could not be written.
    PersistFailed,
}

} // verus!
