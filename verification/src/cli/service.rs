//! Client-side view of the daemon: status records and the connection
//! settings of the service client.
//!
//! The wire exchange itself (TCP, timeouts, JSON framing) happens in the
//! daemon shell; this module carries the data it works with.

use vstd::prelude::*;
use vstd::string::StringExecFns;

verus! {

/// Service status information.
#[derive(Debug)]
pub struct ServiceStatus {
    /// Whether the daemon is running.
    pub running: bool,
    /// Its process id, if running.
    pub pid: Option<u32>,
    /// Human-readable uptime, if running.
    pub uptime: Option<String>,
    /// Daemon version string.
    pub version: String,
}

/// Application instance information.
#[derive(Debug)]
pub struct AppInstanceInfo {
    /// Instance identifier.
    pub id: String,
    /// Identifier of the launched application.
    pub app_id: String,
    /// Application name.
    pub name: String,
    /// Identifier of the launching user.
    pub user_id: String,
    /// Instance status.
    pub status: String,
    /// Creation timestamp.
    pub created_at: String,
}

/// Application information.
#[derive(Debug)]
pub struct AppInfo {
    /// Application identifier.
    pub id: String,
    /// Application name.
    pub name: String,
    /// Description, if any.
    pub description: Option<String>,
    /// Version, if any.
    pub version: Option<String>,
    /// Publisher, if any.
    pub publisher: Option<String>,
    /// Icon path, if any.
    pub icon_path: Option<String>,
    /// Path of the executable.
    pub executable_path: String,
}

/// Server information.
#[derive(Debug)]
pub struct ServerInfo {
    /// Server version string.
    pub version: String,
    /// Human-readable uptime.
    pub uptime: String,
    /// Bound address.
    pub address: String,
    /// Bound port.
    pub port: u16,
    /// Whether TLS is enabled.
    pub tls_enabled: bool,
    /// Number of active sessions.
    pub active_sessions: usize,
    /// Number of sessions since start.
    pub total_sessions: usize,
}

/// Session information.
#[derive(Debug)]
pub struct SessionInfo {
    /// Session identifier.
    pub id: String,
    /// Identifier of the session's user.
    pub user_id: String,
    /// Username of the session's user.
    pub username: String,
    /// Client address.
    pub client_ip: String,
    /// Creation timestamp.
    pub created_at: String,
    /// Expiry timestamp.
    pub expires_at: String,
    /// Last activity timestamp.
    pub last_active: String,
    /// Whether the session is active.
    pub active: bool,
}

/// Connection settings of the CLI's client to the daemon.
#[derive(Debug)]
pub struct ServiceClient {
    /// Daemon host.
    pub host: String,
    /// Daemon port.
    pub port: u16,
    /// Request timeout in seconds.
    pub timeout_seconds: u64,
    /// Bearer token for authenticated requests, if any.
    pub auth_token: Option<String>,
}

impl ServiceClient {
    /// Create a new service client with no authentication token.
    pub fn new(host: String, port: u16, timeout_seconds: u64) -> (r: Self)
        ensures
            r.host == host,
            r.port == port,
            r.timeout_seconds == timeout_seconds,
            r.auth_token is None,
    {
        ServiceClient { host, port, timeout_seconds, auth_token: None }
    }

    /// Set the authentication token.
    pub fn with_auth(self, token: Option<String>) -> (r: Self)
        ensures
            r.host == self.host,
            r.port == self.port,
            r.timeout_seconds == self.timeout_seconds,
            r.auth_token == token,
    {
        ServiceClient {
            host: self.host,
            port: self.port,
            timeout_seconds: self.timeout_seconds,
            auth_token: token,
        }
    }
}

} // verus!
