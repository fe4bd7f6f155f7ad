//! The errors that the operations of this crate report.

use vstd::prelude::*;
use vstd::string::StringExecFns;

verus! {

/// Why an operation was rejected. No error ends the session: the caller
/// reports it and goes on.
#[derive(Debug, Clone)]
pub enum InstantError {
    /// A file could not be read or written.
    Io(String),
    /// The configuration file is not valid TOML.
    Toml(String),
    /// The display layer failed.
    Smithay(String),
    /// The configuration cannot be used.
    Config(String),
    /// A command could not be delivered or answered.
    Ipc(String),
    /// The theme could not be loaded.
    Theme(String),
    /// Any other failure.
    Other(String),
    /// A command names a window or a tag that is not there.
    NotFound,
    /// A command's argument is out of range or malformed.
    InvalidArgument,
    /// A process could not be started.
    SpawnFailed(String),
}

impl InstantError {
    /// What `message` returns.
    pub open spec fn spec_message(self) -> Seq<char> {
        match self {
            InstantError::Io(detail) => "IO error: "@ + detail@,
            InstantError::Toml(detail) => "TOML parsing error: "@ + detail@,
            InstantError::Smithay(detail) => "Smithay error: "@ + detail@,
            InstantError::Config(detail) => "Configuration error: "@ + detail@,
            InstantError::Ipc(detail) => "IPC error: "@ + detail@,
            InstantError::Theme(detail) => "Theme error: "@ + detail@,
            InstantError::Other(detail) => "Other error: "@ + detail@,
            InstantError::NotFound => "Not found"@,
            InstantError::InvalidArgument => "Invalid argument"@,
            InstantError::SpawnFailed(detail) => "Failed to spawn: "@ + detail@,
        }
    }

    /// The error as a line of text.
    pub fn message(&self) -> (text: String)
        ensures
            text@ == self.spec_message(),
    {
        match self {
            InstantError::Io(detail) => String::from_str("IO error: ").concat(detail.as_str()),
            InstantError::Toml(detail) => String::from_str("TOML parsing error: ").concat(
                detail.as_str(),
            ),
            InstantError::Smithay(detail) => String::from_str("Smithay error: ").concat(
                detail.as_str(),
            ),
            InstantError::Config(detail) => String::from_str("Configuration error: ").concat(
                detail.as_str(),
            ),
            InstantError::Ipc(detail) => String::from_str("IPC error: ").concat(detail.as_str()),
            InstantError::Theme(detail) => String::from_str("Theme error: ").concat(
                detail.as_str(),
            ),
            InstantError::Other(detail) => String::from_str("Other error: ").concat(
                detail.as_str(),
            ),
            InstantError::NotFound => String::from_str("Not found"),
            InstantError::InvalidArgument => String::from_str("Invalid argument"),
            InstantError::SpawnFailed(detail) => String::from_str("Failed to spawn: ").concat(
                detail.as_str(),
            ),
        }
    }
}

} // verus!
