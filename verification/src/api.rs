//! Configuration for the management API component.

use vstd::prelude::*;
use vstd::string::StringExecFns;

verus! {

/// The address the API server binds to by default.
pub fn default_api_address() -> (r: String)
    ensures
        r@ == "127.0.0.1"@,
{
    String::from_str("127.0.0.1")
}

/// The port the API server binds to by default.
pub fn default_api_port() -> (r: u16)
    ensures
        r == 8080,
{
    8080
}

/// The default database connection string.
pub fn default_database_url() -> (r: String)
    ensures
        r@ == "sqlite:rcpdaemon.db"@,
{
    String::from_str("sqlite:rcpdaemon.db")
}

/// Whether API authentication is required by default.
pub fn default_auth_required() -> (r: bool)
    ensures
        r == true,
{
    true
}

/// The default token lifetime: one day, in seconds.
pub fn default_token_expiration() -> (r: u64)
    ensures
        r == 86400,
{
    86400
}

/// Authentication configuration for the API.
#[derive(Debug)]
pub struct ApiAuthConfig {
    /// Whether authentication is required for API access.
    pub required: bool,
    /// Secret for token-based authentication.
    pub jwt_secret: Option<String>,
    /// Token expiration time in seconds.
    pub token_expiration: u64,
}

impl Default for ApiAuthConfig {
    fn default() -> (r: Self)
        ensures
            r.required == true,
            r.jwt_secret is None,
            r.token_expiration == 86400,
    {
        ApiAuthConfig {
            required: default_auth_required(),
            jwt_secret: None,
            token_expiration: default_token_expiration(),
        }
    }
}

/// Configuration for the API server component.
#[derive(Debug)]
pub struct ApiConfig {
    /// The address to bind the API server to.
    pub address: String,
    /// The port to bind the API server to.
    pub port: u16,
    /// Database connection string.
    pub database_url: String,
    /// CORS allowed origins.
    pub cors_allowed_origins: Vec<String>,
    /// Authentication settings.
    pub auth: ApiAuthConfig,
}

impl Default for ApiConfig {
    fn default() -> (r: Self)
        ensures
            r.address@ == "127.0.0.1"@,
            r.port == 8080,
            r.database_url@ == "sqlite:rcpdaemon.db"@,
            r.cors_allowed_origins@.len() == 1,
            r.cors_allowed_origins@[0]@ == "http://localhost:3000"@,
            r.auth.required == true,
    {
        let mut origins: Vec<String> = Vec::new();
        origins.push(String::from_str("http://localhost:3000"));
        ApiConfig {
            address: default_api_address(),
            port: default_api_port(),
            database_url: default_database_url(),
            cors_allowed_origins: origins,
            auth: ApiAuthConfig::default(),
        }
    }
}

} // verus!
