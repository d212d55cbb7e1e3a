// Tests of the native provider wiring on each platform flavor.

use rcpdaemon::auth::factory::{AuthConfig, AuthProviderType, HostPlatform, NativeAuthConfig};
use rcpdaemon::auth::manager::AuthManager;
use rcpdaemon::auth::permissions::PermissionMappings;

fn native_config(require_group: &str, admin_groups: &[&str], mappings: PermissionMappings) -> AuthConfig {
    AuthConfig {
        provider: AuthProviderType::Native,
        required: true,
        psk: Some("testkey".to_string()),
        fallback_to_internal: true,
        native: NativeAuthConfig {
            allow_all_users: false,
            require_group: Some(require_group.to_string()),
            permission_mapping: true,
            admin_groups: admin_groups.iter().map(|s| s.to_string()).collect(),
            permission_mappings: mappings,
        },
        ldap: Vec::new(),
        oauth: Vec::new(),
    }
}

#[test]
fn test_macos_native_auth() {
    let mut mappings = PermissionMappings::new();
    mappings.insert(
        "staff".to_string(),
        vec!["connect:*".to_string(), "app:safari".to_string()],
    );
    mappings.insert("admin".to_string(), vec!["admin:*".to_string()]);
    let auth_config = native_config("staff", &["admin", "wheel"], mappings);

    // Create the authentication manager
    let mut manager = AuthManager::new(auth_config, HostPlatform::MacOS).unwrap();
    manager.initialize().unwrap();

    // Without real OS users available, check that the manager came up with
    // the native provider initialized.
    assert!(manager.initialized);
}

#[test]
fn test_linux_native_auth() {
    let auth_config = native_config("rcp-users", &["sudo", "wheel", "admin"], PermissionMappings::new());
    let mut manager = AuthManager::new(auth_config, HostPlatform::Linux).unwrap();
    manager.initialize().unwrap();
    assert!(manager.initialized);
}

#[test]
fn test_windows_native_auth() {
    let auth_config = native_config("RCP Users", &["Administrators"], PermissionMappings::new());
    let mut manager = AuthManager::new(auth_config, HostPlatform::Windows).unwrap();
    manager.initialize().unwrap();
    assert!(manager.initialized);
}

#[test]
fn test_unix_native_auth() {
    let mut mappings = PermissionMappings::new();
    mappings.insert("users".to_string(), vec!["connect:basic".to_string()]);
    mappings.insert("wheel".to_string(), vec!["admin:*".to_string()]);
    let auth_config = native_config("wheel", &["wheel", "operator"], mappings);

    let mut manager = AuthManager::new(auth_config, HostPlatform::OtherUnix).unwrap();
    manager.initialize().unwrap();
    assert!(manager.initialized);
}
