//! The ways a transcription request can fail.

use vstd::prelude::*;

verus! {

/// Why a transcription request failed. Each variant keeps what a person needs
/// to see of the cause.
#[derive(Debug, PartialEq, Eq)]
pub enum TranscribeError {
    /// The audio handed in was not valid base64.
    InvalidAudio,
    /// No worker script was found among the candidate locations.
    ScriptNotFound,
    /// No runtime to launch the worker answered a version query.
    RuntimeNotFound,
    /// The worker process could not be spawned; the system's reason.
    SpawnFailed(String),
    /// The worker's first line was not the readiness signal; the line, trimmed.
    NotReady(String),
    /// A pipe to the worker failed; the worker is treated as dead.
    Io(String),
    /// The audio is too long for a frame's 32-bit length field.
    TooLarge,
    /// The worker answered with an error; its message, after the marker.
    WorkerReported(String),
    /// The lock around the shared worker was poisoned by an earlier holder.
    LockPoisoned,
}

} // verus!
