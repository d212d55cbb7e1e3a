//! Top-level configuration of the daemon service.

use vstd::prelude::*;
use vstd::string::StringExecFns;
use crate::server::config::ServerConfig;

verus! {

/// TLS configuration of the service endpoint.
#[derive(Debug)]
pub struct TlsConfig {
    /// Whether TLS is enabled.
    pub enabled: bool,
    /// Path to the certificate file.
    pub cert_path: String,
    /// Path to the key file.
    pub key_path: String,
}

/// Configuration of the daemon service.
#[derive(Debug)]
pub struct ServiceConfig {
    /// Address the service listens on.
    pub address: String,
    /// Port the service listens on.
    pub port: u16,
    /// TLS settings.
    pub tls: TlsConfig,
    /// Integrated server configuration.
    pub server: ServerConfig,
}

impl Default for ServiceConfig {
    fn default() -> (r: Self)
        ensures
            r.address@ == "127.0.0.1"@,
            r.port == 8716,
            r.tls.enabled == false,
            r.tls.cert_path@ == "cert.pem"@,
            r.tls.key_path@ == "key.pem"@,
            r.server.port == 8716,
    {
        ServiceConfig {
            address: String::from_str("127.0.0.1"),
            port: 8716,
            tls: TlsConfig {
                enabled: false,
                cert_path: String::from_str("cert.pem"),
                key_path: String::from_str("key.pem"),
            },
            server: ServerConfig::default(),
        }
    }
}

} // verus!
