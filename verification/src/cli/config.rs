//! CLI configuration types.

use vstd::prelude::*;
use vstd::string::StringExecFns;

verus! {

/// Output format options.
#[derive(Clone, Copy, PartialEq, Eq, Structural, Debug)]
pub enum OutputFormat {
    /// Plain text output.
    Text,
    /// JSON output.
    Json,
    /// YAML output.
    Yaml,
}

/// Global CLI configuration.
#[derive(Debug)]
pub struct GlobalConfig {
    /// Enable color output.
    pub color: bool,
    /// Enable JSON output.
    pub json: bool,
    /// Quiet mode.
    pub quiet: bool,
    /// Default output format.
    pub format: OutputFormat,
}

impl Default for GlobalConfig {
    fn default() -> (r: Self)
        ensures
            r.color == true,
            r.json == false,
            r.quiet == false,
            r.format is Text,
    {
        GlobalConfig { color: true, json: false, quiet: false, format: OutputFormat::Text }
    }
}

/// Connection settings for talking to the daemon.
#[derive(Debug)]
pub struct ServiceConfig {
    /// Service host.
    pub host: String,
    /// Service port.
    pub port: u16,
    /// Service timeout in seconds.
    pub timeout: u64,
    /// Use TLS.
    pub use_tls: bool,
    /// Skip TLS verification.
    pub skip_verify: bool,
}

impl Default for ServiceConfig {
    fn default() -> (r: Self)
        ensures
            r.host@ == "localhost"@,
            r.port == 5000,
            r.timeout == 30,
            r.use_tls == false,
            r.skip_verify == false,
    {
        ServiceConfig {
            host: String::from_str("localhost"),
            port: 5000,
            timeout: 30,
            use_tls: false,
            skip_verify: false,
        }
    }
}

/// CLI configuration.
#[derive(Debug)]
pub struct CliConfig {
    /// Global configuration.
    pub global: GlobalConfig,
    /// Service configuration.
    pub service: ServiceConfig,
}

impl Default for CliConfig {
    fn default() -> (r: Self)
        ensures
            r.global.color == true,
            r.global.quiet == false,
            r.service.port == 5000,
    {
        CliConfig { global: GlobalConfig::default(), service: ServiceConfig::default() }
    }
}

} // verus!
