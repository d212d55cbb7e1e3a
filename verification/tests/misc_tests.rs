// Tests of the CLI data model, formatting utilities and platform helpers.

use rcpdaemon::api::{ApiAuthConfig, ApiConfig};
use rcpdaemon::auth::factory::NativeAuthConfig;
use rcpdaemon::cli::config::{CliConfig, OutputFormat};
use rcpdaemon::cli::confirmation::ConfirmationRequest;
use rcpdaemon::cli::error::CliError;
use rcpdaemon::cli::service::ServiceClient;
use rcpdaemon::cli::utils::{format_duration, OutputFormatter, TableBuilder};
use rcpdaemon::error::AuthError;
use rcpdaemon::manager::ServerStatus;
use rcpdaemon::platform::{install_service, uninstall_service, Platform, UnixPlatform, WindowsPlatform};
use rcpdaemon::server::user::UserRole;

#[test]
fn test_format_duration_units() {
    assert_eq!(format_duration(0), "0 seconds");
    assert_eq!(format_duration(59), "59 seconds");
    assert_eq!(format_duration(60), "1 minutes");
    assert_eq!(format_duration(3599), "59 minutes");
    assert_eq!(format_duration(3600), "1 hours");
    assert_eq!(format_duration(86399), "23 hours");
    assert_eq!(format_duration(86400), "1 days");
    assert_eq!(format_duration(10 * 86400), "10 days");
}

#[test]
fn test_output_formatter_messages() {
    let plain = OutputFormatter::new(false, false, false);
    assert_eq!(plain.success("done"), "SUCCESS: done");
    assert_eq!(plain.output_success("done"), "SUCCESS: done");
    assert_eq!(plain.error("oops"), "ERROR: oops");
    assert_eq!(plain.info("note"), "INFO: note");
    assert_eq!(plain.warning("careful"), "WARNING: careful");

    let json = OutputFormatter::new(true, false, false);
    assert_eq!(
        json.success("done"),
        "{\"status\":\"success\",\"message\":\"done\"}"
    );

    let quiet = OutputFormatter::new(false, false, true);
    assert_eq!(quiet.success("done"), "");
}

#[test]
fn test_backup_output_formatter_messages() {
    let plain = rcpdaemon::cli::utils_backup::OutputFormatter::new(false, true, false);
    assert_eq!(plain.success("done"), "SUCCESS: done");
    assert_eq!(plain.error("oops"), "ERROR: oops");
}

#[test]
fn test_table_builder() {
    let mut table = TableBuilder::new(vec!["ID", "NAME"]);
    table.add_row(vec!["1", "alice"]);
    table.add_row(vec!["2", "bob"]);
    assert_eq!(table.headers, vec!["ID".to_string(), "NAME".to_string()]);
    assert_eq!(table.rows.len(), 2);
    assert_eq!(table.rows[1], vec!["2".to_string(), "bob".to_string()]);

    let mut backup = rcpdaemon::cli::utils_backup::TableBuilder::new(vec!["H"]);
    backup.add_row(vec!["v"]);
    assert_eq!(backup.rows, vec![vec!["v".to_string()]]);
}

#[test]
fn test_service_client_builders() {
    let client = ServiceClient::new("127.0.0.1".to_string(), 8716, 30);
    assert_eq!(client.host, "127.0.0.1");
    assert_eq!(client.port, 8716);
    assert_eq!(client.timeout_seconds, 30);
    assert!(client.auth_token.is_none());

    let authed = client.with_auth(Some("token".to_string()));
    assert_eq!(authed.auth_token, Some("token".to_string()));
}

#[test]
fn test_confirmation_request_builders() {
    let req = ConfirmationRequest::new();
    assert_eq!(req.prompt, "Are you sure?");
    assert!(req.default);
    assert_eq!(req.answer_hint(), "Y/n");

    let req = ConfirmationRequest::new()
        .with_prompt("Delete everything?")
        .with_default(false);
    assert_eq!(req.prompt, "Delete everything?");
    assert!(!req.default);
    assert_eq!(req.answer_hint(), "y/N");
}

#[test]
fn test_cli_defaults() {
    let config = CliConfig::default();
    assert!(config.global.color);
    assert!(!config.global.json);
    assert!(!config.global.quiet);
    assert_eq!(config.global.format, OutputFormat::Text);
    assert_eq!(config.service.host, "localhost");
    assert_eq!(config.service.port, 5000);
    assert_eq!(config.service.timeout, 30);
}

#[test]
fn test_cli_error_messages() {
    assert_eq!(
        CliError::CommunicationError("refused".to_string()).message(),
        "Communication error: refused"
    );
    assert_eq!(
        CliError::AuthenticationError("denied".to_string()).message(),
        "Authentication error: denied"
    );
    assert_eq!(
        CliError::ValidationError("bad".to_string()).message(),
        "Validation error: bad"
    );
    assert_eq!(
        CliError::Other("misc".to_string()).message(),
        "Error: misc"
    );
}

#[test]
fn test_auth_error_messages() {
    assert_eq!(
        AuthError::UnsupportedMethod("kerberos".to_string()).message(),
        "Unsupported authentication method: kerberos"
    );
    assert_eq!(
        AuthError::UnsupportedOnPlatform.message(),
        "Native authentication not supported on this platform"
    );
    assert_eq!(
        AuthError::NotImplemented("LDAP provider".to_string()).message(),
        "Not implemented: LDAP provider"
    );
    assert_eq!(
        AuthError::IdentitySource("spawn failed".to_string()).message(),
        "Identity source error: spawn failed"
    );
    assert_eq!(
        AuthError::Unsupported("user creation".to_string()).message(),
        "Unsupported operation: user creation"
    );
}

#[test]
fn test_platform_helpers() {
    assert_eq!(
        UnixPlatform::get_socket_path().unwrap(),
        "/tmp/rcpdaemon.sock"
    );
    assert!(UnixPlatform::create_socket_dir().is_ok());
    assert_eq!(
        WindowsPlatform::get_socket_path().unwrap(),
        "\\\\.\\pipe\\rcpdaemon"
    );
    assert!(WindowsPlatform::create_socket_dir().is_ok());
    assert!(install_service().is_ok());
    assert!(uninstall_service().is_ok());
}

#[test]
fn test_api_config_defaults() {
    let config = ApiConfig::default();
    assert_eq!(config.address, "127.0.0.1");
    assert_eq!(config.port, 8080);
    assert_eq!(config.database_url, "sqlite:rcpdaemon.db");
    assert_eq!(config.cors_allowed_origins, vec!["http://localhost:3000"]);
    let auth = ApiAuthConfig::default();
    assert!(auth.required);
    assert!(auth.jwt_secret.is_none());
    assert_eq!(auth.token_expiration, 86400);
}

#[test]
fn test_misc_model_types() {
    let status = ServerStatus::stopped();
    assert!(!status.running);
    assert!(status.uptime.is_none());
    assert!(status.sessions.is_none());

    assert_eq!(UserRole::Admin.as_str(), "admin");
    assert_eq!(UserRole::User.as_str(), "user");
    assert_eq!(UserRole::Guest.as_str(), "guest");

    let mut native = NativeAuthConfig::default();
    assert_eq!(native.require_group.take(), Some("rcp-users".to_string()));
    assert!(native.permission_mapping);
}
