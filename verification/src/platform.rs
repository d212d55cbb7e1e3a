//! Platform-specific service plumbing: socket locations and service
//! registration.
//!
//! Removing a stale socket file is filesystem work and belongs to the
//! daemon shell around this crate; the paths and registration decisions
//! live here.

use vstd::prelude::*;
use vstd::string::StringExecFns;
use crate::error::ServiceError;

verus! {

/// Where a platform puts the daemon's control endpoint.
pub trait Platform {
    /// The path of the daemon's local control socket or pipe.
    fn get_socket_path() -> Result<String, ServiceError>;

    /// Prepare the directory the socket lives in.
    fn create_socket_dir() -> Result<(), ServiceError>;
}

/// Unix family: a socket file under `/tmp`.
#[derive(Debug)]
pub struct UnixPlatform;

impl Platform for UnixPlatform {
    fn get_socket_path() -> (r: Result<String, ServiceError>)
        ensures
            r matches Ok(p) && p@ == "/tmp/rcpdaemon.sock"@,
    {
        Ok(String::from_str("/tmp/rcpdaemon.sock"))
    }

    fn create_socket_dir() -> (r: Result<(), ServiceError>)
        ensures
            r is Ok,
    {
        Ok(())
    }
}

/// Windows: a named pipe, which needs no directory and no cleanup.
#[derive(Debug)]
pub struct WindowsPlatform;

impl Platform for WindowsPlatform {
    fn get_socket_path() -> (r: Result<String, ServiceError>)
        ensures
            r matches Ok(p) && p@ == "\\\\.\\pipe\\rcpdaemon"@,
    {
        Ok(String::from_str("\\\\.\\pipe\\rcpdaemon"))
    }

    fn create_socket_dir() -> (r: Result<(), ServiceError>)
        ensures
            r is Ok,
    {
        Ok(())
    }
}

/// Register the daemon as a system service; platform installation is not
/// wired up yet and the call succeeds without effect.
pub fn install_service() -> (r: Result<(), ServiceError>)
    ensures
        r is Ok,
{
    Ok(())
}

/// Unregister the daemon as a system service; platform installation is
/// not wired up yet and the call succeeds without effect.
pub fn uninstall_service() -> (r: Result<(), ServiceError>)
    ensures
        r is Ok,
{
    Ok(())
}

} // verus!
