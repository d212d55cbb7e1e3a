// Tests for the daemon's error types.

use rcpdaemon::error::ServiceError;

#[test]
fn test_config_error_creation() {
    // Create a config error
    let config_err = ServiceError::Config("Invalid configuration".to_string());

    // Verify the rendered error message
    let error_message = config_err.message();
    assert!(error_message.contains("Config error"));
    assert!(error_message.contains("Invalid configuration"));
}

#[test]
fn test_service_error_creation() {
    // Create a service error
    let service_err = ServiceError::Service("Service failed to start".to_string());

    // Verify the rendered error message
    let error_message = service_err.message();
    assert!(error_message.contains("Service error"));
    assert!(error_message.contains("Service failed to start"));
}

#[test]
fn test_error_debug() {
    // Create an error
    let err = ServiceError::Service("Test error".to_string());

    // Verify Debug trait implementation works
    let debug_str = format!("{:?}", err);
    assert!(!debug_str.is_empty());
    assert!(debug_str.contains("Service"));
}

#[test]
fn test_io_error_message() {
    let err = ServiceError::Io("file not found".to_string());
    let msg = err.message();
    assert!(msg.contains("IO error"));
    assert!(msg.contains("file not found"));
}

#[test]
fn test_api_server_database_error_messages() {
    assert_eq!(
        ServiceError::Api("bad request".to_string()).message(),
        "API error: bad request"
    );
    assert_eq!(
        ServiceError::Server("listen failed".to_string()).message(),
        "Server error: listen failed"
    );
    assert_eq!(
        ServiceError::Database("no table".to_string()).message(),
        "Database error: no table"
    );
}
