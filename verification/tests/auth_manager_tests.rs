// Tests of the authentication manager over the mock provider.

use rcpdaemon::auth::factory::{
    AuthConfig, AuthProvider, AuthProviderType, HostPlatform, NativeAuthConfig,
};
use rcpdaemon::auth::identity::FixedIdentitySource;
use rcpdaemon::auth::manager::AuthManager;
use rcpdaemon::auth::mock_provider::MockAuthProvider;
use rcpdaemon::auth::permissions::PermissionMappings;
use rcpdaemon::server::user::{User, UserId, UserRole};

/// Create a test user
fn create_test_user() -> User {
    User {
        id: UserId { value: 7 },
        username: "testuser".to_string(),
        full_name: Some("Test User".to_string()),
        email: Some("test@example.com".to_string()),
        role: UserRole::User,
        password_hash: "hash".to_string(),
        created_at: "2023-01-01T00:00:00Z".to_string(),
        updated_at: "2023-01-01T00:00:00Z".to_string(),
    }
}

/// Create test auth configuration
fn create_test_auth_config() -> AuthConfig {
    AuthConfig {
        provider: AuthProviderType::Native,
        required: true,
        psk: Some("testkey".to_string()),
        fallback_to_internal: true,
        native: NativeAuthConfig {
            allow_all_users: false,
            require_group: Some("staff".to_string()),
            permission_mapping: true,
            admin_groups: vec!["admin".to_string(), "wheel".to_string()],
            permission_mappings: PermissionMappings::new(),
        },
        ldap: Vec::new(),
        oauth: Vec::new(),
    }
}

#[test]
fn test_auth_manager_creation() {
    // Create a test auth configuration with the mock provider
    let mut auth_config = create_test_auth_config();
    auth_config.provider = AuthProviderType::Mock;

    // Create the authentication manager
    let manager = AuthManager::new(auth_config, HostPlatform::Linux).unwrap();

    // Verify it was created successfully
    assert!(!manager.initialized);
}

#[test]
fn test_auth_manager_initialization() {
    // Create a test auth configuration with the mock provider
    let mut auth_config = create_test_auth_config();
    auth_config.provider = AuthProviderType::Mock;

    // Create and initialize the authentication manager
    let mut manager = AuthManager::new(auth_config, HostPlatform::Linux).unwrap();
    manager.initialize().unwrap();

    // Verify it was initialized
    assert!(manager.initialized);
}

#[test]
fn test_auth_manager_validate_credentials() {
    // Create a mock provider
    let provider = MockAuthProvider::new()
        .with_user(create_test_user())
        .with_credential("testuser", b"password123");

    // Create a test auth configuration with the mock provider
    let mut auth_config = create_test_auth_config();
    auth_config.provider = AuthProviderType::Mock;

    // Create the authentication manager with our mock provider
    let mut manager = AuthManager::new(auth_config, HostPlatform::Linux).unwrap();
    // Replace the provider with our configured mock
    manager.provider = AuthProvider::Mock(provider);
    manager.initialize().unwrap();

    let mut source = FixedIdentitySource::new();

    // Test valid credentials
    let result = manager
        .validate_credentials("testuser", b"password123", "password", &mut source)
        .unwrap();
    assert!(result, "Valid credentials should be accepted");

    // Test invalid credentials
    let result = manager
        .validate_credentials("testuser", b"wrongpassword", "password", &mut source)
        .unwrap();
    assert!(!result, "Invalid credentials should be rejected");

    // Test nonexistent user
    let result = manager
        .validate_credentials("nonexistent", b"password123", "password", &mut source)
        .unwrap();
    assert!(!result, "Nonexistent user should be rejected");
}

#[test]
fn test_auth_manager_has_permission() {
    // Create a mock provider with permissions
    let provider = MockAuthProvider::new()
        .with_user(create_test_user())
        .with_permission("testuser", "app:safari")
        .with_permission("testuser", "connect:*");

    // Create a test auth configuration with the mock provider
    let mut auth_config = create_test_auth_config();
    auth_config.provider = AuthProviderType::Mock;

    // Create the authentication manager with our mock provider
    let mut manager = AuthManager::new(auth_config, HostPlatform::Linux).unwrap();
    // Replace the provider with our configured mock
    manager.provider = AuthProvider::Mock(provider);
    manager.initialize().unwrap();

    // Get the test user
    let user = create_test_user();
    let mut source = FixedIdentitySource::new();

    // Test permissions the user has
    let result = manager.has_permission(&user, "app:safari", &mut source).unwrap();
    assert!(result, "User should have the app:safari permission");

    let result = manager.has_permission(&user, "connect:basic", &mut source).unwrap();
    assert!(
        result,
        "User should have the connect:basic permission via wildcard"
    );

    // Test permissions the user doesn't have
    let result = manager.has_permission(&user, "admin:users", &mut source).unwrap();
    assert!(!result, "User should not have admin permissions");
}

#[test]
fn test_auth_manager_get_permissions() {
    // Create a mock provider with permissions
    let provider = MockAuthProvider::new()
        .with_user(create_test_user())
        .with_permission("testuser", "app:safari")
        .with_permission("testuser", "connect:*");

    // Create a test auth configuration with the mock provider
    let mut auth_config = create_test_auth_config();
    auth_config.provider = AuthProviderType::Mock;

    // Create the authentication manager with our mock provider
    let mut manager = AuthManager::new(auth_config, HostPlatform::Linux).unwrap();
    // Replace the provider with our configured mock
    manager.provider = AuthProvider::Mock(provider);
    manager.initialize().unwrap();

    // Get the test user
    let user = create_test_user();
    let mut source = FixedIdentitySource::new();

    // Get all permissions
    let permissions = manager.get_permissions(&user, &mut source).unwrap();

    // Verify the permissions
    assert!(
        permissions.contains(&"app:safari".to_string()),
        "Permissions should include app:safari"
    );
    assert!(
        permissions.contains(&"connect:*".to_string()),
        "Permissions should include connect:*"
    );
    assert_eq!(
        permissions.len(),
        2,
        "User should have exactly 2 permissions"
    );
}

#[test]
fn test_auth_manager_initialize_twice_is_noop() {
    let mut auth_config = create_test_auth_config();
    auth_config.provider = AuthProviderType::Mock;
    let mut manager = AuthManager::new(auth_config, HostPlatform::Linux).unwrap();
    assert!(manager.initialize().is_ok());
    assert!(manager.initialized);
    // A second call succeeds and changes nothing observable.
    assert!(manager.initialize().is_ok());
    assert!(manager.initialized);
}

#[test]
fn test_auth_manager_fallback_never_errors() {
    // A native provider whose identity source is unavailable, with
    // fallback enabled: validation must come back as a denial, not an
    // error.
    let auth_config = create_test_auth_config();
    assert!(auth_config.fallback_to_internal);
    let mut manager = AuthManager::new(auth_config, HostPlatform::Linux).unwrap();
    manager.initialize().unwrap();
    let mut source = FixedIdentitySource::failing();
    let result = manager.validate_credentials("testuser", b"secret", "psk", &mut source);
    assert_eq!(result.unwrap(), false);
}

#[test]
fn test_auth_manager_no_fallback_propagates_error() {
    let mut auth_config = create_test_auth_config();
    auth_config.fallback_to_internal = false;
    let mut manager = AuthManager::new(auth_config, HostPlatform::Linux).unwrap();
    manager.initialize().unwrap();
    let mut source = FixedIdentitySource::failing();
    let result = manager.validate_credentials("testuser", b"secret", "psk", &mut source);
    assert!(result.is_err());
}

#[test]
fn test_auth_manager_placeholder_backends_fail_at_construction() {
    for provider in [
        AuthProviderType::Internal,
        AuthProviderType::Ldap,
        AuthProviderType::OAuth,
    ] {
        let mut auth_config = create_test_auth_config();
        auth_config.provider = provider;
        assert!(AuthManager::new(auth_config, HostPlatform::Linux).is_err());
    }
}

#[test]
fn test_auth_manager_native_needs_known_platform() {
    let auth_config = create_test_auth_config();
    let result = AuthManager::new(auth_config, HostPlatform::Unknown);
    assert!(result.is_err());
}
