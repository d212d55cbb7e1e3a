// Tests of the providers, the factory and the user stores.

use rcpdaemon::auth::factory::{
    AuthConfig, AuthProvider, AuthProviderFactory, AuthProviderType, HostPlatform,
};
use rcpdaemon::auth::identity::FixedIdentitySource;
use rcpdaemon::auth::mock_provider::MockAuthProvider;
use rcpdaemon::auth::native::{NativeAuthProvider, NativeFlavor};
use rcpdaemon::error::AuthError;
use rcpdaemon::server::user::{User, UserId, UserManager, UserRole};

fn user(id: u128, name: &str, role: UserRole) -> User {
    User {
        id: UserId { value: id },
        username: name.to_string(),
        full_name: None,
        email: None,
        password_hash: String::new(),
        role,
        created_at: "1970-01-01T00:00:00Z".to_string(),
        updated_at: "1970-01-01T00:00:00Z".to_string(),
    }
}

#[test]
fn test_mock_provider_validation_paths() {
    let provider = MockAuthProvider::new()
        .with_user(user(1, "alice", UserRole::User))
        .with_credential("alice", b"secret");

    assert_eq!(
        provider.validate_credentials("alice", b"secret", "password").unwrap(),
        true
    );
    assert_eq!(
        provider.validate_credentials("alice", b"wrong", "password").unwrap(),
        false
    );
    // PSK only asks that the user exist.
    assert_eq!(provider.validate_credentials("alice", b"", "psk").unwrap(), true);
    assert_eq!(provider.validate_credentials("eve", b"", "psk").unwrap(), false);
    // An unknown method is refused, not silently denied.
    assert!(matches!(
        provider.validate_credentials("alice", b"secret", "kerberos"),
        Err(AuthError::UnsupportedMethod(_))
    ));
}

#[test]
fn test_mock_provider_admin_implies_all_permissions() {
    let provider = MockAuthProvider::new().with_user(user(2, "root-ish", UserRole::Admin));
    let admin = user(2, "root-ish", UserRole::Admin);
    assert!(provider.has_permission(&admin, "anything:at-all").unwrap());
}

#[test]
fn test_mock_provider_lookup_and_listing() {
    let provider = MockAuthProvider::new()
        .with_user(user(1, "alice", UserRole::User))
        .with_user(user(2, "bob", UserRole::User));

    assert!(provider.get_user_by_username("alice").unwrap().is_some());
    assert!(provider.get_user_by_username("carol").unwrap().is_none());
    assert_eq!(
        provider.get_user(&UserId { value: 2 }).unwrap().unwrap().username,
        "bob"
    );
    assert!(provider.get_user(&UserId { value: 9 }).unwrap().is_none());
    assert_eq!(provider.list_users().unwrap().len(), 2);
    assert!(provider.supports_user_management());
    assert!(provider.supports_auth_method("password"));
    assert!(provider.supports_auth_method("psk"));
    assert!(!provider.supports_auth_method("publickey"));
    assert_eq!(provider.name(), "mock-provider");
}

#[test]
fn test_native_provider_psk_membership() {
    let mut config = rcpdaemon::auth::factory::NativeAuthConfig::default();
    config.require_group = Some("rcp-users".to_string());
    let mut provider = NativeAuthProvider::new(NativeFlavor::Linux, config);
    let mut source = FixedIdentitySource::new();
    source.accounts = vec!["alice".to_string()];
    source.groups_outputs = vec![(
        "alice".to_string(),
        "alice : users rcp-users\n".to_string(),
    )];

    // Membership in the required group admits the user.
    assert_eq!(
        provider.validate_credentials("alice", b"", "psk", &mut source).unwrap(),
        true
    );
    // A user outside the required group is denied.
    let mut provider2 =
        NativeAuthProvider::new(NativeFlavor::Linux, rcpdaemon::auth::factory::NativeAuthConfig::default());
    let mut source2 = FixedIdentitySource::new();
    source2.accounts = vec!["bob".to_string()];
    source2.groups_outputs = vec![("bob".to_string(), "bob : users\n".to_string())];
    assert_eq!(
        provider2.validate_credentials("bob", b"", "psk", &mut source2).unwrap(),
        false
    );
}

#[test]
fn test_native_provider_permissions_and_cache_clear() {
    let mut config = rcpdaemon::auth::factory::NativeAuthConfig::default();
    config.require_group = Some("rcp-users".to_string());
    let mut provider = NativeAuthProvider::new(NativeFlavor::Linux, config);
    let mut source = FixedIdentitySource::new();
    source.groups_outputs = vec![(
        "alice".to_string(),
        "alice : rcp-users\n".to_string(),
    )];

    let alice = user(1, "alice", UserRole::User);
    let perms = provider.get_permissions(&alice, &mut source).unwrap();
    assert_eq!(perms, vec!["connect:basic".to_string()]);
    assert!(provider
        .has_permission(&alice, "connect:basic", &mut source)
        .unwrap());
    assert!(!provider
        .has_permission(&alice, "admin:users", &mut source)
        .unwrap());

    // The resolution is memoized: a now-failing source does not matter.
    let mut failing = FixedIdentitySource::failing();
    assert!(provider
        .has_permission(&alice, "connect:basic", &mut failing)
        .unwrap());

    // initialize() clears the cache, so the failing source now shows.
    provider.initialize().unwrap();
    assert!(provider
        .has_permission(&alice, "connect:basic", &mut failing)
        .is_err());
}

#[test]
fn test_native_provider_user_synthesis() {
    let mut provider = NativeAuthProvider::new(
        NativeFlavor::Linux,
        rcpdaemon::auth::factory::NativeAuthConfig::default(),
    );
    let mut source = FixedIdentitySource::new();
    source.accounts = vec!["alice".to_string()];
    source.groups_outputs = vec![("alice".to_string(), "alice : wheel\n".to_string())];
    source.records = vec![(
        "alice".to_string(),
        "alice:x:1000:1000:Alice Liddell,,,:/home/alice:/bin/bash\n".to_string(),
    )];

    let found = provider.get_user_by_username("alice", &mut source).unwrap().unwrap();
    assert_eq!(found.username, "alice");
    assert_eq!(found.full_name, Some("Alice Liddell".to_string()));
    // wheel is among the default admin groups.
    assert_eq!(found.role, UserRole::Admin);

    // The synthesized id is a deterministic function of the username.
    let mut source2 = FixedIdentitySource::new();
    source2.accounts = vec!["alice".to_string()];
    source2.groups_outputs = vec![("alice".to_string(), "alice : users\n".to_string())];
    let mut provider2 = NativeAuthProvider::new(
        NativeFlavor::Linux,
        rcpdaemon::auth::factory::NativeAuthConfig::default(),
    );
    let again = provider2.get_user_by_username("alice", &mut source2).unwrap().unwrap();
    assert_eq!(found.id, again.id);
    // But not an admin without the group.
    assert_eq!(again.role, UserRole::User);

    // Unknown accounts come back as a clean None.
    assert!(provider.get_user_by_username("eve", &mut source).unwrap().is_none());
    // Reverse lookup by id is a documented None.
    assert!(provider.get_user(&found.id).unwrap().is_none());
}

#[test]
fn test_native_provider_is_read_only() {
    let provider = NativeAuthProvider::new(
        NativeFlavor::Unix,
        rcpdaemon::auth::factory::NativeAuthConfig::default(),
    );
    assert!(matches!(
        provider.create_user(user(5, "x", UserRole::User)),
        Err(AuthError::Unsupported(_))
    ));
    assert!(matches!(
        provider.update_user(user(5, "x", UserRole::User)),
        Err(AuthError::Unsupported(_))
    ));
    assert!(matches!(
        provider.delete_user(&UserId { value: 5 }),
        Err(AuthError::Unsupported(_))
    ));
    assert!(!provider.supports_user_management());
}

#[test]
fn test_factory_selection() {
    let mut config = AuthConfig::default();
    assert!(matches!(
        AuthProviderFactory::create_provider(&config, HostPlatform::Linux),
        Err(AuthError::NotImplemented(_))
    ));
    config.provider = AuthProviderType::Ldap;
    assert!(matches!(
        AuthProviderFactory::create_provider(&config, HostPlatform::Linux),
        Err(AuthError::NotImplemented(_))
    ));
    config.provider = AuthProviderType::OAuth;
    assert!(matches!(
        AuthProviderFactory::create_provider(&config, HostPlatform::Linux),
        Err(AuthError::NotImplemented(_))
    ));
    config.provider = AuthProviderType::Native;
    assert!(matches!(
        AuthProviderFactory::create_provider(&config, HostPlatform::Unknown),
        Err(AuthError::UnsupportedOnPlatform)
    ));
    let provider = AuthProviderFactory::create_provider(&config, HostPlatform::MacOS).unwrap();
    assert_eq!(provider.name(), "macos-native");
    config.provider = AuthProviderType::Mock;
    let provider = AuthProviderFactory::create_provider(&config, HostPlatform::Unknown).unwrap();
    assert_eq!(provider.name(), "mock-provider");
    assert!(!matches!(provider, AuthProvider::Native(_)));
}

#[test]
fn test_server_user_manager_crud() {
    let mut manager = UserManager::new();
    manager.add_user(user(1, "alice", UserRole::User)).unwrap();
    manager.add_user(user(2, "bob", UserRole::User)).unwrap();

    // Duplicate usernames are refused.
    let err = manager.add_user(user(3, "alice", UserRole::Admin)).unwrap_err();
    assert!(err.message().contains("already exists"));

    assert_eq!(manager.get_user(&UserId { value: 1 }).unwrap().username, "alice");
    assert!(manager.get_user_by_username("bob").is_some());
    assert!(manager.get_user_by_username("carol").is_none());

    let mut bob = user(2, "bob", UserRole::User);
    bob.role = UserRole::Admin;
    manager.update_user(bob).unwrap();
    assert_eq!(
        manager.get_user(&UserId { value: 2 }).unwrap().role,
        UserRole::Admin
    );
    let missing = manager.update_user(user(9, "dan", UserRole::User));
    assert!(missing.is_err());

    manager.remove_user(&UserId { value: 1 }).unwrap();
    assert!(manager.get_user(&UserId { value: 1 }).is_none());
    assert!(manager.remove_user(&UserId { value: 1 }).is_err());
    assert_eq!(manager.list_users().len(), 1);
}

#[test]
fn test_service_user_manager_add() {
    let mut manager = rcpdaemon::user::UserManager::new();
    assert!(manager.add_user("alice".to_string(), "admin".to_string()).is_ok());
    let err = manager
        .add_user("alice".to_string(), "user".to_string())
        .unwrap_err();
    assert!(err.message().contains("User already exists"));
}

#[test]
fn test_provider_interface_dispatch() {
    let mut config = AuthConfig::default();
    config.provider = AuthProviderType::Mock;
    let mut provider = AuthProviderFactory::create_provider(&config, HostPlatform::Linux).unwrap();
    assert!(provider.initialize().is_ok());
    assert!(provider.supports_user_management());
    assert!(provider.supports_auth_method("psk"));
    assert!(provider.get_user(&UserId { value: 1 }).unwrap().is_none());
    assert!(provider.create_user(user(1, "x", UserRole::User)).is_ok());
    assert!(provider.update_user(user(1, "x", UserRole::User)).is_ok());
    assert!(provider.delete_user(&UserId { value: 1 }).is_ok());
    let mut source = FixedIdentitySource::new();
    assert!(provider.list_users(&mut source).unwrap().is_empty());

    config.provider = AuthProviderType::Native;
    let mut native = AuthProviderFactory::create_provider(&config, HostPlatform::Linux).unwrap();
    assert!(!native.supports_user_management());
    assert!(matches!(
        native.create_user(user(1, "x", UserRole::User)),
        Err(AuthError::Unsupported(_))
    ));
    assert!(native.get_user(&UserId { value: 1 }).unwrap().is_none());
}

#[test]
fn test_windows_provider_full_name() {
    let mut provider = NativeAuthProvider::new(
        NativeFlavor::Windows,
        rcpdaemon::auth::factory::NativeAuthConfig::default(),
    );
    let mut source = FixedIdentitySource::new();
    source.accounts = vec!["alice".to_string()];
    source.groups_outputs = vec![("alice".to_string(), "Remote Users\n".to_string())];
    source.records = vec![(
        "alice".to_string(),
        "User name                    alice\nFull Name                    Alice Liddell\n"
            .to_string(),
    )];
    let found = provider.get_user_by_username("alice", &mut source).unwrap().unwrap();
    assert_eq!(found.full_name, Some("Alice Liddell".to_string()));
}

#[test]
fn test_macos_groups_include_primary() {
    // The directory-services dump lists supplementary groups; the primary
    // group comes from the per-user query and is unioned in.
    let mut provider = NativeAuthProvider::new(
        NativeFlavor::MacOS,
        rcpdaemon::auth::factory::NativeAuthConfig::default(),
    );
    let mut source = FixedIdentitySource::new();
    source.group_db = "com.apple.access_ssh alice bob\nrcp-users alice\n".to_string();
    source.groups_outputs = vec![("alice".to_string(), "staff\n".to_string())];

    let alice = user(1, "alice", UserRole::User);
    let perms = provider.get_permissions(&alice, &mut source).unwrap();
    // rcp-users is the default required group: with no custom mappings the
    // minimal connect permission comes out, so the dump was read.
    assert_eq!(perms, vec!["connect:basic".to_string()]);
    // And the primary group from the per-user query was unioned in.
    assert!(provider
        .is_member_of_group("alice", "staff", &mut source)
        .unwrap());
    assert!(provider
        .is_member_of_group("alice", "com.apple.access_ssh", &mut source)
        .unwrap());
}

#[test]
fn test_native_list_users_resolves_roles() {
    let mut provider = NativeAuthProvider::new(
        NativeFlavor::Linux,
        rcpdaemon::auth::factory::NativeAuthConfig::default(),
    );
    let mut source = FixedIdentitySource::new();
    source.passwd = "root:x:0:0:root:/root:/bin/bash\n\
                     alice:x:1000:1000:Alice:/home/alice:/bin/bash\n\
                     bob:x:1001:1001:Bob:/home/bob:/bin/sh\n"
        .to_string();
    source.groups_outputs = vec![
        ("alice".to_string(), "alice : wheel\n".to_string()),
        ("bob".to_string(), "bob : users\n".to_string()),
    ];
    let users = provider.list_users(&mut source).unwrap();
    let names: Vec<&str> = users.iter().map(|u| u.username.as_str()).collect();
    assert_eq!(names, vec!["alice", "bob"]);
    // wheel is among the default admin groups; users is not.
    assert_eq!(users[0].role, UserRole::Admin);
    assert_eq!(users[1].role, UserRole::User);
}

#[test]
fn test_unix_provider_cascade_fallbacks() {
    // With the first two stages silent, the id answer decides; with all
    // four silent, the resolution is empty and the permission set too.
    let mut provider = NativeAuthProvider::new(
        NativeFlavor::Unix,
        rcpdaemon::auth::factory::NativeAuthConfig::default(),
    );
    let mut source = FixedIdentitySource::new();
    source.id_groups = vec![("alice".to_string(), "wheel users wheel\n".to_string())];
    assert!(provider
        .is_member_of_group("alice", "wheel", &mut source)
        .unwrap());

    let mut provider2 = NativeAuthProvider::new(
        NativeFlavor::Unix,
        rcpdaemon::auth::factory::NativeAuthConfig::default(),
    );
    let mut source2 = FixedIdentitySource::new();
    source2.group_file = "users:x:100:bob,carol\n".to_string();
    assert!(provider2
        .is_member_of_group("bob", "users", &mut source2)
        .unwrap());
    assert!(!provider2
        .is_member_of_group("bob", "wheel", &mut source2)
        .unwrap());
}
