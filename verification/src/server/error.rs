//! Error type for server-side operations on the user store.

use vstd::prelude::*;
use vstd::string::StringExecFns;

verus! {

/// Errors raised by the server-side data model.
#[derive(Debug)]
pub enum Error {
    /// Authentication failed.
    Authentication(String),
    /// A referenced resource does not exist.
    NotFound(String),
    /// A resource with the same identity already exists.
    AlreadyExists(String),
    /// A caller-supplied value was malformed.
    InvalidArgument(String),
    /// Any other failure.
    Other(String),
}

impl Error {
    /// The characters of the human-readable description of this error.
    pub open spec fn spec_message(&self) -> Seq<char> {
        match self {
            Error::Authentication(m) => "Authentication error: "@ + m@,
            Error::NotFound(m) => "Resource not found: "@ + m@,
            Error::AlreadyExists(m) => "Resource already exists: "@ + m@,
            Error::InvalidArgument(m) => "Invalid argument: "@ + m@,
            Error::Other(m) => m@,
        }
    }

    /// Human-readable description of this error.
    pub fn message(&self) -> (r: String)
        ensures
            r@ == self.spec_message(),
    {
        match self {
            Error::Authentication(m) => String::from_str("Authentication error: ").concat(
                m.as_str(),
            ),
            Error::NotFound(m) => String::from_str("Resource not found: ").concat(m.as_str()),
            Error::AlreadyExists(m) => String::from_str("Resource already exists: ").concat(
                m.as_str(),
            ),
            Error::InvalidArgument(m) => String::from_str("Invalid argument: ").concat(m.as_str()),
            Error::Other(m) => m.clone(),
        }
    }
}

} // verus!
