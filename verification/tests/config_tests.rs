// Tests of the daemon's service configuration and its TLS settings.

use rcpdaemon::config::{ServiceConfig, TlsConfig};
use rcpdaemon::server;

#[test]
fn config_tests_test_default_service_config() {
    // Create a default service configuration
    let config = ServiceConfig::default();

    // Verify default configuration values
    assert_eq!(config.address, "127.0.0.1");
    assert_eq!(config.port, 8716); // Default port for RCP service
    assert!(!config.tls.enabled);
    assert_eq!(config.tls.cert_path, "cert.pem");
    assert_eq!(config.tls.key_path, "key.pem");
}

#[test]
fn config_tests_test_custom_service_config() {
    // Create a custom TLS configuration
    let tls_config = TlsConfig {
        enabled: true,
        cert_path: "/path/to/cert.pem".to_string(),
        key_path: "/path/to/key.pem".to_string(),
    };

    // Create a custom service configuration
    let config = ServiceConfig {
        address: "0.0.0.0".to_string(),
        port: 9999,
        tls: tls_config,
        server: server::config::ServerConfig::default(),
    };

    // Verify custom configuration values
    assert_eq!(config.address, "0.0.0.0");
    assert_eq!(config.port, 9999);
    assert!(config.tls.enabled);
    assert_eq!(config.tls.cert_path, "/path/to/cert.pem");
    assert_eq!(config.tls.key_path, "/path/to/key.pem");
}

#[test]
fn test_tls_config() {
    // Create a TLS configuration
    let tls_config = TlsConfig {
        enabled: true,
        cert_path: "custom-cert.pem".to_string(),
        key_path: "custom-key.pem".to_string(),
    };

    // Verify TLS configuration values
    assert!(tls_config.enabled);
    assert_eq!(tls_config.cert_path, "custom-cert.pem");
    assert_eq!(tls_config.key_path, "custom-key.pem");

    // Test Debug trait implementation
    let debug_str = format!("{:?}", tls_config);
    assert!(debug_str.contains("enabled: true"));
    assert!(debug_str.contains("cert_path: \"custom-cert.pem\""));
    assert!(debug_str.contains("key_path: \"custom-key.pem\""));
}

#[test]
fn test_server_config_defaults() {
    let config = server::config::ServerConfig::default();
    assert_eq!(config.address, "0.0.0.0");
    assert_eq!(config.port, 8716);
    assert!(config.auth.required);
    assert_eq!(config.auth.provider, "internal");
    assert!(!config.auth.fallback_to_internal);
    assert_eq!(config.session.max_sessions, 100);
    assert_eq!(config.session.timeout, 3600);
    assert!(!config.application.enabled);
    assert_eq!(config.application.app_dir, "apps");
    let admins = &config.auth.native.admin_groups;
    assert_eq!(
        admins.iter().map(|s| s.as_str()).collect::<Vec<_>>(),
        vec!["administrators", "wheel", "sudo", "admin"]
    );
}
