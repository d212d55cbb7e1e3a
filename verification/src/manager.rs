//! Status reporting for the daemon's managed components.

use vstd::prelude::*;

verus! {

/// Server status information.
#[derive(Debug)]
pub struct ServerStatus {
    /// Whether the server is running.
    pub running: bool,
    /// Server uptime in seconds, if running.
    pub uptime: Option<u64>,
    /// Number of active sessions, if known.
    pub sessions: Option<usize>,
}

impl ServerStatus {
    /// The status of a server that is not running.
    pub fn stopped() -> (r: Self)
        ensures
            r.running == false,
            r.uptime is None,
            r.sessions is None,
    {
        ServerStatus { running: false, uptime: None, sessions: None }
    }
}

/// API server status information.
#[derive(Debug)]
pub struct ApiStatus {
    /// Whether the API server is running.
    pub running: bool,
    /// API server address and port.
    pub address: String,
}

} // verus!
