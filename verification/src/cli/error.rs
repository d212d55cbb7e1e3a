//! CLI-specific error types.

use vstd::prelude::*;
use vstd::string::StringExecFns;

verus! {

/// CLI-specific error types.
#[derive(Debug)]
pub enum CliError {
    /// Error communicating with the daemon.
    CommunicationError(String),
    /// Authentication error.
    AuthenticationError(String),
    /// Authorization error.
    AuthorizationError(String),
    /// Validation error.
    ValidationError(String),
    /// File system error.
    FileSystemError(String),
    /// Configuration error.
    ConfigurationError(String),
    /// Command execution error.
    CommandExecutionError(String),
    /// Serialization error.
    SerializationError(String),
    /// Other error.
    Other(String),
}

impl CliError {
    /// The characters of the human-readable description of this error.
    pub open spec fn spec_message(&self) -> Seq<char> {
        match self {
            CliError::CommunicationError(m) => "Communication error: "@ + m@,
            CliError::AuthenticationError(m) => "Authentication error: "@ + m@,
            CliError::AuthorizationError(m) => "Authorization error: "@ + m@,
            CliError::ValidationError(m) => "Validation error: "@ + m@,
            CliError::FileSystemError(m) => "File system error: "@ + m@,
            CliError::ConfigurationError(m) => "Configuration error: "@ + m@,
            CliError::CommandExecutionError(m) => "Command execution error: "@ + m@,
            CliError::SerializationError(m) => "Serialization error: "@ + m@,
            CliError::Other(m) => "Error: "@ + m@,
        }
    }

    /// Human-readable description of this error.
    pub fn message(&self) -> (r: String)
        ensures
            r@ == self.spec_message(),
    {
        match self {
            CliError::CommunicationError(m) => String::from_str("Communication error: ").concat(
                m.as_str(),
            ),
            CliError::AuthenticationError(m) => String::from_str("Authentication error: ").concat(
                m.as_str(),
            ),
            CliError::AuthorizationError(m) => String::from_str("Authorization error: ").concat(
                m.as_str(),
            ),
            CliError::ValidationError(m) => String::from_str("Validation error: ").concat(
                m.as_str(),
            ),
            CliError::FileSystemError(m) => String::from_str("File system error: ").concat(
                m.as_str(),
            ),
            CliError::ConfigurationError(m) => String::from_str("Configuration error: ").concat(
                m.as_str(),
            ),
            CliError::CommandExecutionError(m) => String::from_str(
                "Command execution error: ",
            ).concat(m.as_str()),
            CliError::SerializationError(m) => String::from_str("Serialization error: ").concat(
                m.as_str(),
            ),
            CliError::Other(m) => String::from_str("Error: ").concat(m.as_str()),
        }
    }
}

} // verus!
