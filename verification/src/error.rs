//! Error taxonomy for the daemon and its authentication core.

use vstd::prelude::*;
use vstd::string::StringExecFns;

verus! {

/// Errors raised by authentication providers, the provider factory and the
/// authentication manager.
///
/// The variants separate conditions with different handling policies: only
/// errors from the active provider during credential validation are eligible
/// for the fallback retry; everything else propagates to the caller.
#[derive(Debug)]
pub enum AuthError {
    /// The provider does not implement the requested authentication method.
    UnsupportedMethod(String),
    /// A native provider was requested on a platform with no adapter.
    UnsupportedOnPlatform,
    /// A placeholder backend (internal, LDAP, OAuth) was invoked.
    NotImplemented(String),
    /// The underlying OS identity query failed.
    IdentitySource(String),
    /// A write operation was attempted on a read-only backend.
    Unsupported(String),
}

impl AuthError {
    /// The characters of the human-readable description of this error.
    pub open spec fn spec_message(&self) -> Seq<char> {
        match self {
            AuthError::UnsupportedMethod(m) => "Unsupported authentication method: "@ + m@,
            AuthError::UnsupportedOnPlatform => "Native authentication not supported on this platform"@,
            AuthError::NotImplemented(m) => "Not implemented: "@ + m@,
            AuthError::IdentitySource(m) => "Identity source error: "@ + m@,
            AuthError::Unsupported(m) => "Unsupported operation: "@ + m@,
        }
    }

    /// Human-readable description of this error.
    pub fn message(&self) -> (r: String)
        ensures
            r@ == self.spec_message(),
    {
        match self {
            AuthError::UnsupportedMethod(m) => String::from_str(
                "Unsupported authentication method: ",
            ).concat(m.as_str()),
            AuthError::UnsupportedOnPlatform => String::from_str(
                "Native authentication not supported on this platform",
            ),
            AuthError::NotImplemented(m) => String::from_str("Not implemented: ").concat(m.as_str()),
            AuthError::IdentitySource(m) => String::from_str("Identity source error: ").concat(
                m.as_str(),
            ),
            AuthError::Unsupported(m) => String::from_str("Unsupported operation: ").concat(
                m.as_str(),
            ),
        }
    }
}

/// Errors raised by the daemon's service layer.
#[derive(Debug)]
pub enum ServiceError {
    /// An I/O failure, carried as its rendered description.
    Io(String),
    /// A configuration problem.
    Config(String),
    /// A failure in the service layer itself.
    Service(String),
    /// A failure in the management API.
    Api(String),
    /// A failure in the server component.
    Server(String),
    /// A failure in the storage backend.
    Database(String),
}

impl ServiceError {
    /// The characters of the human-readable description of this error.
    pub open spec fn spec_message(&self) -> Seq<char> {
        match self {
            ServiceError::Io(m) => "IO error: "@ + m@,
            ServiceError::Config(m) => "Config error: "@ + m@,
            ServiceError::Service(m) => "Service error: "@ + m@,
            ServiceError::Api(m) => "API error: "@ + m@,
            ServiceError::Server(m) => "Server error: "@ + m@,
            ServiceError::Database(m) => "Database error: "@ + m@,
        }
    }

    /// Human-readable description of this error.
    pub fn message(&self) -> (r: String)
        ensures
            r@ == self.spec_message(),
    {
        match self {
            ServiceError::Io(m) => String::from_str("IO error: ").concat(m.as_str()),
            ServiceError::Config(m) => String::from_str("Config error: ").concat(m.as_str()),
            ServiceError::Service(m) => String::from_str("Service error: ").concat(m.as_str()),
            ServiceError::Api(m) => String::from_str("API error: ").concat(m.as_str()),
            ServiceError::Server(m) => String::from_str("Server error: ").concat(m.as_str()),
            ServiceError::Database(m) => String::from_str("Database error: ").concat(m.as_str()),
        }
    }
}

} // verus!
