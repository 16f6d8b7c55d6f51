//! The agent's error type.

use vstd::prelude::*;

verus! {

/// The error `aya` reports when an eBPF object cannot be loaded.
#[verifier::external_type_specification]
#[verifier::external_body]
pub struct ExBpfError(aya::BpfError);

/// The error `aya` reports when a program cannot be converted, loaded or attached.
#[verifier::external_type_specification]
#[verifier::external_body]
pub struct ExProgramError(aya::programs::ProgramError);

/// The error `aya` reports when a map, such as the event ring buffer, cannot be opened.
#[verifier::external_type_specification]
#[verifier::external_body]
pub struct ExMapError(aya::maps::MapError);

/// The error `reqwest` reports for a failed HTTP request.
#[verifier::external_type_specification]
#[verifier::external_body]
pub struct ExReqwestError(reqwest::Error);

/// An operating-system I/O error.
#[verifier::external_type_specification]
#[verifier::external_body]
pub struct ExIoError(std::io::Error);

/// Everything that can go wrong in the agent.
#[derive(Debug)]
pub enum AgentError {
    /// The eBPF object could not be loaded.
    BpfLoadError(aya::BpfError),
    /// A program could not be attached.
    BpfAttachError { program: String, source: aya::programs::ProgramError },
    /// The object holds no program of this name.
    ProgramNotFound { name: String },
    /// The event ring buffer could not be opened.
    RingBufError(aya::maps::MapError),
    /// An HTTP request failed.
    HttpError(reqwest::Error),
    /// The backend answered with an error, or could not be reached.
    BackendError(String),
    /// An event record could not be read.
    InvalidEventData(String),
    /// The configuration is unusable.
    ConfigError(String),
    /// An I/O operation failed.
    IoError(std::io::Error),
}

} // verus!
