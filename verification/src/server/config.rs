//! Configuration for the integrated server.

use vstd::prelude::*;
use vstd::string::StringExecFns;
use crate::auth::permissions::PermissionMappings;

verus! {

/// Default address to bind to.
pub fn default_address() -> (r: String)
    ensures
        r@ == "0.0.0.0"@,
{
    String::from_str("0.0.0.0")
}

/// Default port to listen on.
fn default_port() -> (r: u16)
    ensures
        r == 8716,
{
    8716
}

/// Whether a boolean option defaults to on.
pub fn default_true() -> (r: bool)
    ensures
        r == true,
{
    true
}

/// Whether authentication is required by default.
pub fn default_auth_required() -> (r: bool)
    ensures
        r == true,
{
    true
}

/// The OS groups granted admin privileges when none are configured.
pub fn default_admin_groups() -> (r: Vec<String>)
    ensures
        r@.len() == 4,
        r@[0]@ == "administrators"@,
        r@[1]@ == "wheel"@,
        r@[2]@ == "sudo"@,
        r@[3]@ == "admin"@,
{
    let mut v: Vec<String> = Vec::new();
    v.push(String::from_str("administrators"));
    v.push(String::from_str("wheel"));
    v.push(String::from_str("sudo"));
    v.push(String::from_str("admin"));
    v
}

/// Default bound on concurrent sessions.
pub fn default_max_sessions() -> (r: usize)
    ensures
        r == 100,
{
    100
}

/// Default session timeout in seconds.
pub fn default_session_timeout() -> (r: u64)
    ensures
        r == 3600,
{
    3600
}

/// TLS configuration.
#[derive(Debug)]
pub struct TlsConfig {
    /// Whether TLS is enabled.
    pub enabled: bool,
    /// Path to the certificate file.
    pub cert_path: String,
    /// Path to the key file.
    pub key_path: String,
}

impl Default for TlsConfig {
    fn default() -> (r: Self)
        ensures
            r.enabled == false,
            r.cert_path@ == "cert.pem"@,
            r.key_path@ == "key.pem"@,
    {
        TlsConfig {
            enabled: false,
            cert_path: String::from_str("cert.pem"),
            key_path: String::from_str("key.pem"),
        }
    }
}

/// Authentication configuration of the integrated server.
#[derive(Debug)]
pub struct AuthConfig {
    /// Whether authentication is required.
    pub required: bool,
    /// Pre-shared key for authentication.
    pub psk: Option<String>,
    /// Allowed client IDs.
    pub allowed_clients: Vec<String>,
    /// Authentication provider kind (internal, native, ldap, oauth).
    pub provider: String,
    /// Whether to fall back to internal authentication if native fails.
    pub fallback_to_internal: bool,
    /// Native authentication configuration.
    pub native: NativeAuthConfig,
}

impl Default for AuthConfig {
    fn default() -> (r: Self)
        ensures
            r.required == true,
            r.psk is None,
            r.allowed_clients@.len() == 0,
            r.provider@ == "internal"@,
            r.fallback_to_internal == false,
            r.native.allow_all_users == false,
            r.native.require_group is None,
            r.native.permission_mapping == true,
            r.native.permission_mappings.entries@.len() == 0,
    {
        AuthConfig {
            required: true,
            psk: None,
            allowed_clients: Vec::new(),
            provider: String::from_str("internal"),
            fallback_to_internal: false,
            native: NativeAuthConfig::default(),
        }
    }
}

/// Native authentication configuration of the integrated server.
#[derive(Debug)]
pub struct NativeAuthConfig {
    /// Whether to allow all OS users.
    pub allow_all_users: bool,
    /// Required OS group for access.
    pub require_group: Option<String>,
    /// Whether to map OS groups to permissions.
    pub permission_mapping: bool,
    /// OS groups with admin privileges.
    pub admin_groups: Vec<String>,
    /// Custom permission mappings (group -> patterns).
    pub permission_mappings: PermissionMappings,
}

impl Default for NativeAuthConfig {
    fn default() -> (r: Self)
        ensures
            r.allow_all_users == false,
            r.require_group is None,
            r.permission_mapping == true,
            r.admin_groups@.len() == 4,
            r.admin_groups@[0]@ == "administrators"@,
            r.admin_groups@[1]@ == "wheel"@,
            r.admin_groups@[2]@ == "sudo"@,
            r.admin_groups@[3]@ == "admin"@,
            r.permission_mappings.entries@.len() == 0,
            r.permission_mappings.wf(),
    {
        NativeAuthConfig {
            allow_all_users: false,
            require_group: None,
            permission_mapping: true,
            admin_groups: default_admin_groups(),
            permission_mappings: PermissionMappings::new(),
        }
    }
}

/// Session configuration.
#[derive(Debug)]
pub struct SessionConfig {
    /// Maximum number of sessions.
    pub max_sessions: usize,
    /// Session timeout in seconds.
    pub timeout: u64,
}

impl Default for SessionConfig {
    fn default() -> (r: Self)
        ensures
            r.max_sessions == 100,
            r.timeout == 3600,
    {
        SessionConfig { max_sessions: default_max_sessions(), timeout: default_session_timeout() }
    }
}

/// Application management configuration.
#[derive(Debug)]
pub struct ApplicationConfig {
    /// Whether to enable application management.
    pub enabled: bool,
    /// Application directory.
    pub app_dir: String,
}

impl Default for ApplicationConfig {
    fn default() -> (r: Self)
        ensures
            r.enabled == false,
            r.app_dir@ == "apps"@,
    {
        ApplicationConfig { enabled: false, app_dir: String::from_str("apps") }
    }
}

/// Configuration for the integrated server.
#[derive(Debug)]
pub struct ServerConfig {
    /// Server address to bind to.
    pub address: String,
    /// Server port to listen on.
    pub port: u16,
    /// TLS configuration.
    pub tls: TlsConfig,
    /// Authentication configuration.
    pub auth: AuthConfig,
    /// Session configuration.
    pub session: SessionConfig,
    /// Application configuration.
    pub application: ApplicationConfig,
}

impl Default for ServerConfig {
    fn default() -> (r: Self)
        ensures
            r.address@ == "0.0.0.0"@,
            r.port == 8716,
            r.tls.enabled == false,
            r.auth.required == true,
            r.session.max_sessions == 100,
            r.application.enabled == false,
    {
        ServerConfig {
            address: default_address(),
            port: default_port(),
            tls: TlsConfig::default(),
            auth: AuthConfig::default(),
            session: SessionConfig::default(),
            application: ApplicationConfig::default(),
        }
    }
}

} // verus!
