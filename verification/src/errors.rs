//! The error kinds of the orchestration engine. Every operation returns an
//! explicit result; failures carry the context a caller needs.

use vstd::prelude::*;

verus! {

/// Why provisioning a workload failed.
#[derive(Debug, Clone, PartialEq)]
pub enum ProvisionError {
    /// No backend was detected. Carries the full candidate list for
    /// operator remediation.
    BackendUnavailable { candidates: Vec<String> },
    /// The game record misses its install path.
    InvalidGame,
    /// The gaming-optimized runtime library is not linked into this build.
    BackendNotLinked,
    /// The backend build command exited nonzero; its error output attached.
    BuildFailed { stderr: String },
    /// A freshly generated workload id collided with an existing record.
    DuplicateId,
    /// The active backend kind has no build procedure here.
    UnsupportedRuntime,
}

/// Why launching a workload failed.
#[derive(Debug, Clone, PartialEq)]
pub enum LaunchError {
    /// No backend is active.
    BackendUnavailable,
    /// The workload id is unknown.
    NotFound,
    /// The record is not in a launchable state.
    InvalidState,
    /// The process could not be spawned.
    LaunchFailed { detail: String },
    /// The gaming-optimized runtime library is not linked into this build.
    BackendNotLinked,
    /// The active backend kind has no launch procedure here.
    UnsupportedRuntime,
}

/// Why stopping a workload failed.
#[derive(Debug, Clone, PartialEq)]
pub enum StopError {
    /// The workload id is unknown.
    NotFound,
    /// Only a running workload can be stopped.
    InvalidState,
    /// The backend stop command failed.
    StopFailed { detail: String },
}

/// Why removing a workload failed.
#[derive(Debug, Clone, PartialEq)]
pub enum RemoveError {
    /// The workload id is unknown.
    NotFound,
    /// A running workload cannot be removed.
    WorkloadRunning,
    /// The backend remove command failed.
    RemoveFailed { detail: String },
    /// The active backend kind has no remove procedure here.
    UnsupportedRuntime,
}

} // verus!
