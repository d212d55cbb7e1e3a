// Tests of the permission mapper and the wildcard matching rule.

use rcpdaemon::auth::improved_native::{get_platform_admin_groups, map_permissions_common};
use rcpdaemon::auth::native::{NativeAuthProvider, NativeFlavor};
use rcpdaemon::auth::factory::NativeAuthConfig;
use rcpdaemon::auth::identity::FixedIdentitySource;
use rcpdaemon::auth::permissions::{pattern_matches_exec, permission_set_grants, PermissionMappings};
use rcpdaemon::error::AuthError;

fn strings(v: &[&str]) -> Vec<String> {
    v.iter().map(|s| s.to_string()).collect()
}

#[test]
fn test_admin_escalation_is_absolute() {
    // A group list touching an admin group maps to the fixed full set,
    // regardless of other mapping entries.
    let mut mappings = PermissionMappings::new();
    mappings.insert("staff".to_string(), strings(&["app:safari"]));
    mappings.insert("wheel".to_string(), strings(&["something:odd"]));
    let perms = map_permissions_common(
        &strings(&["staff", "wheel"]),
        &strings(&["administrators", "wheel", "sudo", "admin"]),
        &Some("staff".to_string()),
        &mappings,
    );
    assert_eq!(perms, strings(&["admin:*", "connect:*", "app:*"]));
}

#[test]
fn test_mapper_unions_custom_mappings_without_duplicates() {
    let mut mappings = PermissionMappings::new();
    mappings.insert("a".to_string(), strings(&["p:1", "p:2"]));
    mappings.insert("b".to_string(), strings(&["p:2", "p:3"]));
    let admins = strings(&["admin"]);
    let perms = map_permissions_common(&strings(&["a", "b"]), &admins, &None, &mappings);
    let mut sorted = perms.clone();
    sorted.sort();
    assert_eq!(sorted, strings(&["p:1", "p:2", "p:3"]));

    // Group order must not affect the resulting set.
    let perms_rev = map_permissions_common(&strings(&["b", "a"]), &admins, &None, &mappings);
    let mut sorted_rev = perms_rev.clone();
    sorted_rev.sort();
    assert_eq!(sorted, sorted_rev);
}

#[test]
fn test_required_group_grants_basic_connect() {
    // Group list ["rcp-users"], require_group "rcp-users", no custom
    // mappings: exactly the minimal permission comes out.
    let perms = map_permissions_common(
        &strings(&["rcp-users"]),
        &strings(&["administrators", "wheel", "sudo", "admin"]),
        &Some("rcp-users".to_string()),
        &PermissionMappings::new(),
    );
    assert_eq!(perms, strings(&["connect:basic"]));
}

#[test]
fn test_no_grant_without_required_group() {
    let perms = map_permissions_common(
        &strings(&["guests"]),
        &strings(&["admin"]),
        &Some("rcp-users".to_string()),
        &PermissionMappings::new(),
    );
    assert!(perms.is_empty());
}

#[test]
fn test_wildcard_matches_same_resource() {
    assert!(pattern_matches_exec("x:*", "x:y"));
    assert!(pattern_matches_exec("x:*", "x:*"));
    assert!(pattern_matches_exec("x:y", "x:y"));
}

#[test]
fn test_wildcard_rejects_other_resource() {
    assert!(!pattern_matches_exec("x:*", "z:y"));
    assert!(!pattern_matches_exec("x:y", "x:z"));
    // The colon is part of the guarded prefix: a longer resource name
    // sharing the first letters is a different resource.
    assert!(!pattern_matches_exec("admin:*", "administration:users"));
}

#[test]
fn test_wildcard_grants_through_set() {
    let perms = strings(&["connect:*"]);
    assert!(permission_set_grants(&perms, "connect:basic"));
    assert!(!permission_set_grants(&perms, "admin:users"));
}

#[test]
fn test_unknown_method_is_unsupported_not_denied() {
    // An unknown method handed to any native flavor is an unsupported-
    // method error, not a silent false.
    for flavor in [
        NativeFlavor::Linux,
        NativeFlavor::MacOS,
        NativeFlavor::Unix,
        NativeFlavor::Windows,
    ] {
        let mut provider = NativeAuthProvider::new(flavor, NativeAuthConfig::default());
        let mut source = FixedIdentitySource::new();
        let result = provider.validate_credentials("testuser", b"creds", "kerberos", &mut source);
        match result {
            Err(AuthError::UnsupportedMethod(m)) => assert_eq!(m, "kerberos"),
            other => panic!("expected an unsupported-method error, got {:?}", other),
        }
    }
}

#[test]
fn test_platform_admin_groups() {
    assert_eq!(
        get_platform_admin_groups("Linux"),
        strings(&["wheel", "sudo", "admin", "adm"])
    );
    assert_eq!(
        get_platform_admin_groups("macOS"),
        strings(&["wheel", "admin", "staff"])
    );
    assert_eq!(
        get_platform_admin_groups("FreeBSD"),
        strings(&["wheel", "operator"])
    );
    assert_eq!(
        get_platform_admin_groups("Solaris"),
        strings(&["wheel", "sys", "root"])
    );
    assert_eq!(
        get_platform_admin_groups("Unknown-Unix"),
        strings(&["wheel", "admin", "root", "system"])
    );
}

#[test]
fn test_mapping_insert_replaces() {
    let mut mappings = PermissionMappings::new();
    mappings.insert("g".to_string(), strings(&["a:1"]));
    mappings.insert("g".to_string(), strings(&["b:2"]));
    assert_eq!(mappings.len(), 1);
    assert_eq!(mappings.get("g"), Some(strings(&["b:2"])));
    assert_eq!(mappings.get("missing"), None);
}

#[test]
fn test_mapper_keeps_first_occurrence_order() {
    // The union runs in group order, then entry order, then pattern
    // order, keeping the first occurrence of each repeated pattern.
    let mut mappings = PermissionMappings::new();
    mappings.insert("b".to_string(), strings(&["p:3", "p:1"]));
    mappings.insert("a".to_string(), strings(&["p:1", "p:2"]));
    let perms = map_permissions_common(
        &strings(&["a", "b"]),
        &strings(&["admin"]),
        &None,
        &mappings,
    );
    assert_eq!(perms, strings(&["p:1", "p:2", "p:3"]));
}
