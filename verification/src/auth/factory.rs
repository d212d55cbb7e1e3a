//! Provider selection: configuration types, the provider variants behind
//! one capability interface, and the factory that wires them up.

use vstd::prelude::*;
use vstd::string::StringExecFns;
use crate::error::AuthError;
use crate::server::user::{has_user_with_name, User};
use crate::auth::mock_provider::{cred_matches, perm_entry_grants, MockAuthProvider};
use crate::auth::native::{NativeAuthProvider, NativeFlavor};
use crate::auth::permissions::{clone_string_vec, PermissionMappings};

verus! {

/// Authentication provider type.
#[derive(Clone, Copy, PartialEq, Eq, Structural, Debug)]
pub enum AuthProviderType {
    /// Internal user database (default); a capability placeholder.
    Internal,
    /// Native OS authentication.
    Native,
    /// LDAP-based authentication; a capability placeholder.
    Ldap,
    /// OAuth-based authentication; a capability placeholder.
    OAuth,
    /// Mock provider for testing.
    Mock,
}

impl Default for AuthProviderType {
    fn default() -> (r: Self)
        ensures
            r is Internal,
    {
        AuthProviderType::Internal
    }
}

/// Whether a boolean option defaults to on.
fn default_true() -> (r: bool)
    ensures
        r == true,
{
    true
}

/// The OS groups granted admin privileges when none are configured.
fn default_admin_groups() -> (r: Vec<String>)
    ensures
        r@.len() == 4,
        r@[0]@ == "administrators"@,
        r@[1]@ == "wheel"@,
        r@[2]@ == "sudo"@,
        r@[3]@ == "admin"@,
{
    let mut v: Vec<String> = Vec::new();
    v.push(String::from_str("administrators"));
    v.push(String::from_str("wheel"));
    v.push(String::from_str("sudo"));
    v.push(String::from_str("admin"));
    v
}

/// Native authentication configuration shared by every OS flavor.
#[derive(Debug)]
pub struct NativeAuthConfig {
    /// Whether to allow all OS users.
    pub allow_all_users: bool,
    /// Required OS group for access.
    pub require_group: Option<String>,
    /// Whether to map OS groups to permissions.
    pub permission_mapping: bool,
    /// OS groups with admin privileges.
    pub admin_groups: Vec<String>,
    /// Custom permission mappings (group -> patterns).
    pub permission_mappings: PermissionMappings,
}

impl Default for NativeAuthConfig {
    fn default() -> (r: Self)
        ensures
            r.allow_all_users == false,
            r.require_group matches Some(g) && g@ == "rcp-users"@,
            r.permission_mapping == true,
            r.admin_groups@.len() == 4,
            r.admin_groups@[0]@ == "administrators"@,
            r.admin_groups@[1]@ == "wheel"@,
            r.admin_groups@[2]@ == "sudo"@,
            r.admin_groups@[3]@ == "admin"@,
            r.permission_mappings.entries@.len() == 0,
            r.permission_mappings.wf(),
    {
        NativeAuthConfig {
            allow_all_users: false,
            require_group: Some(String::from_str("rcp-users")),
            permission_mapping: default_true(),
            admin_groups: default_admin_groups(),
            permission_mappings: PermissionMappings::new(),
        }
    }
}

/// Two native configurations agree on everything the mapper reads.
pub open spec fn native_config_equiv(a: NativeAuthConfig, b: NativeAuthConfig) -> bool {
    &&& a.allow_all_users == b.allow_all_users
    &&& (a.require_group is Some <==> b.require_group is Some)
    &&& (a.require_group matches Some(g) ==> b.require_group matches Some(h) && g@ == h@)
    &&& a.permission_mapping == b.permission_mapping
    &&& a.admin_groups@ == b.admin_groups@
    &&& a.permission_mappings.entries@.len() == b.permission_mappings.entries@.len()
    &&& forall|i: int|
        0 <= i < a.permission_mappings.entries@.len()
            ==> (#[trigger] a.permission_mappings.entries@[i]).0
            == b.permission_mappings.entries@[i].0 && a.permission_mappings.entries@[i].1@
            == b.permission_mappings.entries@[i].1@
}

impl Clone for NativeAuthConfig {
    /// The clone agrees with the original on everything the mapper reads.
    fn clone(&self) -> (r: Self)
        ensures
            native_config_equiv(r, *self),
    {
        NativeAuthConfig {
            allow_all_users: self.allow_all_users,
            require_group: match &self.require_group {
                Some(g) => Some(g.clone()),
                None => None,
            },
            permission_mapping: self.permission_mapping,
            admin_groups: clone_string_vec(&self.admin_groups),
            permission_mappings: self.permission_mappings.clone(),
        }
    }
}

/// Authentication configuration.
#[derive(Debug)]
pub struct AuthConfig {
    /// Authentication provider type.
    pub provider: AuthProviderType,
    /// Whether authentication is required.
    pub required: bool,
    /// Pre-shared key for simple authentication.
    pub psk: Option<String>,
    /// Whether to fall back to internal authentication if native fails.
    pub fallback_to_internal: bool,
    /// Native authentication configuration.
    pub native: NativeAuthConfig,
    /// LDAP settings as key-value pairs; read only by a real LDAP backend.
    pub ldap: Vec<(String, String)>,
    /// OAuth settings as key-value pairs; read only by a real OAuth
    /// backend.
    pub oauth: Vec<(String, String)>,
}

impl Default for AuthConfig {
    fn default() -> (r: Self)
        ensures
            r.provider is Internal,
            r.required == true,
            r.psk is None,
            r.fallback_to_internal == false,
            r.ldap@.len() == 0,
            r.oauth@.len() == 0,
            r.native.permission_mappings.wf(),
    {
        AuthConfig {
            provider: AuthProviderType::Internal,
            required: default_true(),
            psk: None,
            fallback_to_internal: false,
            native: NativeAuthConfig::default(),
            ldap: Vec::new(),
            oauth: Vec::new(),
        }
    }
}

/// Clone a list of key-value settings, preserving every pair's characters.
#[verifier::loop_isolation(false)]
fn clone_string_pairs(v: &Vec<(String, String)>) -> (r: Vec<(String, String)>)
    ensures
        r@.len() == v@.len(),
        forall|i: int|
            0 <= i < v@.len() ==> (#[trigger] r@[i]).0@ == v@[i].0@ && r@[i].1@ == v@[i].1@,
{
    let n = v.len();
    let mut out: Vec<(String, String)> = Vec::new();
    let mut i: usize = 0;
    while i < n
        invariant
            n == v@.len(),
            i <= n,
            out@.len() == i,
            forall|j: int|
                0 <= j < i ==> (#[trigger] out@[j]).0@ == v@[j].0@ && out@[j].1@ == v@[j].1@,
        decreases n - i,
    {
        out.push((v[i].0.clone(), v[i].1.clone()));
        i = i + 1;
    }
    out
}

impl Clone for AuthConfig {
    /// The clone selects the same provider and agrees with the original on
    /// every setting the providers read.
    fn clone(&self) -> (r: Self)
        ensures
            r.provider == self.provider,
            r.required == self.required,
            r.psk is Some <==> self.psk is Some,
            r.psk matches Some(p) ==> (self.psk matches Some(q) && p@ == q@),
            r.fallback_to_internal == self.fallback_to_internal,
            native_config_equiv(r.native, self.native),
            r.ldap@.len() == self.ldap@.len(),
            r.oauth@.len() == self.oauth@.len(),
    {
        AuthConfig {
            provider: self.provider,
            required: self.required,
            psk: match &self.psk {
                Some(p) => Some(p.clone()),
                None => None,
            },
            fallback_to_internal: self.fallback_to_internal,
            native: self.native.clone(),
            ldap: clone_string_pairs(&self.ldap),
            oauth: clone_string_pairs(&self.oauth),
        }
    }
}

/// The platform the daemon is running on, as detected by the caller.
#[derive(Clone, Copy, PartialEq, Eq, Structural, Debug)]
pub enum HostPlatform {
    /// Linux.
    Linux,
    /// macOS.
    MacOS,
    /// Windows.
    Windows,
    /// Another Unix system.
    OtherUnix,
    /// A platform with no implemented identity adapter.
    Unknown,
}

/// The native flavor serving a known platform.
pub open spec fn spec_flavor_of(p: HostPlatform) -> NativeFlavor {
    match p {
        HostPlatform::Linux => NativeFlavor::Linux,
        HostPlatform::MacOS => NativeFlavor::MacOS,
        HostPlatform::Windows => NativeFlavor::Windows,
        _ => NativeFlavor::Unix,
    }
}

/// An authentication provider: one capability interface over a tagged set
/// of variants, dispatched through a match.  The manager never branches on
/// a concrete variant.
pub enum AuthProvider {
    /// The in-memory mock provider.
    Mock(MockAuthProvider),
    /// The OS-group based provider.
    Native(NativeAuthProvider),
}

impl AuthProvider {
    /// The variant's own tables are well formed.
    pub open spec fn wf(&self) -> bool {
        match self {
            AuthProvider::Mock(m) => m.wf(),
            AuthProvider::Native(n) => n.wf(),
        }
    }

    /// True for the OS-backed variant; its name contains `native`, which
    /// the manager's fallback trigger looks for.
    pub open spec fn spec_is_native(&self) -> bool {
        self is Native
    }

    /// The provider's name.
    pub fn name(&self) -> (r: &'static str)
        ensures
            self matches AuthProvider::Mock(m) ==> r@ == "mock-provider"@,
            self matches AuthProvider::Native(n) ==> r@ == n.flavor.spec_provider_name(),
    {
        match self {
            AuthProvider::Mock(m) => m.name(),
            AuthProvider::Native(n) => n.name(),
        }
    }

    /// Whether the provider's name contains the substring `native`:
    /// exactly the OS-backed variant's names do.
    pub fn is_native_named(&self) -> (r: bool)
        ensures
            r == self.spec_is_native(),
    {
        match self {
            AuthProvider::Mock(_) => false,
            AuthProvider::Native(_) => true,
        }
    }

    /// Idempotent provider setup.
    pub fn initialize(&mut self) -> (r: Result<(), AuthError>)
        requires
            old(self).wf(),
        ensures
            final(self).wf(),
            r is Ok,
            *old(self) is Mock <==> *final(self) is Mock,
            (*old(self)) matches AuthProvider::Native(n) ==> (*final(self)) matches AuthProvider::Native(
                m,
            ) && m.flavor == n.flavor && m.config == n.config && m.group_cache.entries@.len() == 0,
            (*old(self)) matches AuthProvider::Mock(n) ==> (*final(self)) matches AuthProvider::Mock(m)
                && m.initialized == true && m.users == n.users && m.credentials == n.credentials
                && m.permissions == n.permissions,
    {
        match self {
            AuthProvider::Mock(m) => m.initialize(),
            AuthProvider::Native(n) => n.initialize(),
        }
    }

    /// Validate a credential against the active variant.
    pub fn validate_credentials<S: crate::auth::identity::IdentitySource>(
        &mut self,
        username: &str,
        credentials: &[u8],
        method: &str,
        source: &mut S,
    ) -> (r: Result<bool, AuthError>)
        requires
            old(self).wf(),
        ensures
            final(self).wf(),
            (*old(self)) matches AuthProvider::Mock(m) ==> *final(self) == *old(self) && (method@
                == "password"@ ==> r == Ok::<bool, AuthError>(
                cred_matches(m.credentials@, username@, credentials@),
            )) && (method@ != "password"@ && method@ == "psk"@ ==> r == Ok::<bool, AuthError>(
                has_user_with_name(m.users@, username@),
            )) && (method@ != "password"@ && method@ != "psk"@ ==> (r matches Err(e) && e
                is UnsupportedMethod)),
            (*old(self)) matches AuthProvider::Native(n) ==> ((*final(self)) matches AuthProvider::Native(
                n2,
            ) && n2.flavor == n.flavor && n2.config == n.config) && (method@ == "publickey"@ ==> r
                == Ok::<bool, AuthError>(false)) && (method@ != "psk"@ && method@ != "password"@
                && method@ != "publickey"@ ==> (r matches Err(e) && e is UnsupportedMethod)) && ((
            method@ == "psk"@ || method@ == "password"@) ==> (r matches Err(e) ==> e
                is IdentitySource)),
            (*old(self)) matches AuthProvider::Native(n) ==> (n.config.require_group matches Some(
                g,
            ) ==> ((method@ == "psk"@ && !n.config.allow_all_users) ==> (r matches Ok(b)
                ==> exists|gs: Seq<String>|
                #[trigger] crate::auth::native::cache_has(
                    (*final(self))->Native_0.group_cache,
                    username@,
                    gs,
                ) && b == crate::strutil::contains_string(gs, g@)))),
            (*old(self)) matches AuthProvider::Native(n) ==> ((method@ == "psk"@
                && !n.config.allow_all_users && n.config.require_group is Some
                && crate::auth::improved_native::cached(n.group_cache.entries@, username@)) ==> r
                is Ok),
    {
        match self {
            AuthProvider::Mock(m) => m.validate_credentials(username, credentials, method),
            AuthProvider::Native(n) => n.validate_credentials(
                username,
                credentials,
                method,
                source,
            ),
        }
    }

    /// Whether the user holds the requested permission.
    pub fn has_permission<S: crate::auth::identity::IdentitySource>(
        &mut self,
        user: &User,
        permission: &str,
        source: &mut S,
    ) -> (r: Result<bool, AuthError>)
        requires
            old(self).wf(),
        ensures
            final(self).wf(),
            (*old(self)) matches AuthProvider::Mock(m) ==> *final(self) == *old(self) && r == Ok::<
                bool,
                AuthError,
            >(user.role is Admin || perm_entry_grants(m.permissions@, user.username@, permission@)),
            (*old(self)) matches AuthProvider::Native(n) ==> ((*final(self)) matches AuthProvider::Native(
                n2,
            ) && n2.flavor == n.flavor && n2.config == n.config) && (r matches Ok(b) ==> exists|
                gs: Seq<String>,
            |
                #[trigger] crate::auth::native::cache_has(
                    final(self)->Native_0.group_cache,
                    user.username@,
                    gs,
                ) && b == crate::auth::native::spec_native_decision(
                    n.config.admin_groups@,
                    n.config.require_group,
                    n.config.permission_mappings.entries@,
                    gs,
                    permission@,
                )) && (r matches Err(e) ==> e is IdentitySource),
            (*old(self)) matches AuthProvider::Native(n) ==> (crate::auth::improved_native::cached(
                n.group_cache.entries@,
                user.username@,
            ) ==> r is Ok),
    {
        match self {
            AuthProvider::Mock(m) => m.has_permission(user, permission),
            AuthProvider::Native(n) => n.has_permission(user, permission, source),
        }
    }

    /// The permissions granted to the user.
    pub fn get_permissions<S: crate::auth::identity::IdentitySource>(
        &mut self,
        user: &User,
        source: &mut S,
    ) -> (r: Result<Vec<String>, AuthError>)
        requires
            old(self).wf(),
        ensures
            final(self).wf(),
            (*old(self)) matches AuthProvider::Mock(m) ==> *final(self) == *old(self) && (r matches Ok(
                v,
            ) && ((exists|i: int|
                0 <= i < m.permissions@.len() && m.permissions@[i].0@ == user.username@)
                ==> exists|i: int|
                0 <= i < m.permissions@.len() && m.permissions@[i].0@ == user.username@ && v@
                    == m.permissions@[i].1@) && ((forall|i: int|
                0 <= i < m.permissions@.len() ==> m.permissions@[i].0@ != user.username@) ==> v@.len()
                == 0)),
            (*old(self)) matches AuthProvider::Native(n) ==> ((*final(self)) matches AuthProvider::Native(
                n2,
            ) && n2.flavor == n.flavor && n2.config == n.config) && (r matches Ok(v) ==> exists|
                gs: Seq<String>,
            |
                #[trigger] crate::auth::native::cache_has(
                    final(self)->Native_0.group_cache,
                    user.username@,
                    gs,
                ) && crate::auth::improved_native::spec_mapper_post(
                    n.config.admin_groups@,
                    n.config.require_group,
                    n.config.permission_mappings.entries@,
                    gs,
                    v@,
                )) && (r matches Err(e) ==> e is IdentitySource),
            (*old(self)) matches AuthProvider::Native(n) ==> (crate::auth::improved_native::cached(
                n.group_cache.entries@,
                user.username@,
            ) ==> r is Ok),
    {
        match self {
            AuthProvider::Mock(m) => m.get_permissions(user),
            AuthProvider::Native(n) => n.get_permissions(user, source),
        }
    }

    /// Look up one user by username.
    pub fn get_user_by_username<S: crate::auth::identity::IdentitySource>(
        &mut self,
        username: &str,
        source: &mut S,
    ) -> (r: Result<Option<User>, AuthError>)
        requires
            old(self).wf(),
        ensures
            final(self).wf(),
            (*old(self)) matches AuthProvider::Mock(m) ==> *final(self) == *old(self) && (r matches Ok(
                o,
            ) && (o is Some <==> has_user_with_name(m.users@, username@))),
            (*old(self)) matches AuthProvider::Native(n) ==> ((*final(self)) matches AuthProvider::Native(
                n2,
            ) && n2.flavor == n.flavor && n2.config == n.config) && (r matches Ok(Some(u))
                ==> u.username@ == username@ && u.id.value == crate::server::user::uuid5_of(
                username@,
            ) && u.password_hash@ == Seq::<char>::empty() && crate::auth::native::cache_role_ok(
                (*final(self))->Native_0.group_cache,
                n.config.admin_groups@,
                u,
            )) && (r matches Err(e) ==> e is IdentitySource),
    {
        match self {
            AuthProvider::Mock(m) => m.get_user_by_username(username),
            AuthProvider::Native(n) => n.get_user_by_username(username, source),
        }
    }

    /// Look up a user by identifier.  The OS-backed variant keeps no
    /// reverse index and answers `None` by design.
    pub fn get_user(&self, id: &crate::server::user::UserId) -> (r: Result<Option<User>, AuthError>)
        ensures
            self matches AuthProvider::Mock(m) ==> (r matches Ok(o) && (o is Some
                <==> crate::server::user::has_user_with_id(m.users@, *id))),
            self is Native ==> r == Ok::<Option<User>, AuthError>(None),
    {
        match self {
            AuthProvider::Mock(m) => m.get_user(id),
            AuthProvider::Native(n) => n.get_user(id),
        }
    }

    /// List all users known to the variant.
    pub fn list_users<S: crate::auth::identity::IdentitySource>(&mut self, source: &mut S) -> (r:
        Result<Vec<User>, AuthError>)
        requires
            old(self).wf(),
        ensures
            final(self).wf(),
            (*old(self)) matches AuthProvider::Mock(m) ==> *final(self) == *old(self) && (
            r matches Ok(v) && v@ == m.users@),
            (*old(self)) matches AuthProvider::Native(n) ==> ((*final(self)) matches AuthProvider::Native(
                n2,
            ) && n2.flavor == n.flavor && n2.config == n.config) && (r matches Ok(v) ==> forall|
                k: int,
            |
                0 <= k < v@.len() ==> (#[trigger] v@[k]).id.value
                    == crate::server::user::uuid5_of(v@[k].username@)
                    && !crate::auth::native::spec_system_account(v@[k].username@)
                    && crate::auth::native::cache_role_ok(
                    (*final(self))->Native_0.group_cache,
                    n.config.admin_groups@,
                    v@[k],
                )) && (r matches Err(e) ==> e is IdentitySource),
    {
        match self {
            AuthProvider::Mock(m) => m.list_users(),
            AuthProvider::Native(n) => n.list_users(source),
        }
    }

    /// Create a user, where the backend allows it; the OS-backed variant
    /// is read-only and always refuses.
    pub fn create_user(&self, user: User) -> (r: Result<(), AuthError>)
        ensures
            self is Mock ==> r is Ok,
            self is Native ==> (r matches Err(e) && e is Unsupported),
    {
        match self {
            AuthProvider::Mock(m) => m.create_user(user),
            AuthProvider::Native(n) => n.create_user(user),
        }
    }

    /// Update a user, where the backend allows it; the OS-backed variant
    /// is read-only and always refuses.
    pub fn update_user(&self, user: User) -> (r: Result<(), AuthError>)
        ensures
            self is Mock ==> r is Ok,
            self is Native ==> (r matches Err(e) && e is Unsupported),
    {
        match self {
            AuthProvider::Mock(m) => m.update_user(user),
            AuthProvider::Native(n) => n.update_user(user),
        }
    }

    /// Delete a user, where the backend allows it; the OS-backed variant
    /// is read-only and always refuses.
    pub fn delete_user(&self, id: &crate::server::user::UserId) -> (r: Result<(), AuthError>)
        ensures
            self is Mock ==> r is Ok,
            self is Native ==> (r matches Err(e) && e is Unsupported),
    {
        match self {
            AuthProvider::Mock(m) => m.delete_user(id),
            AuthProvider::Native(n) => n.delete_user(id),
        }
    }

    /// Whether the variant supports user management.
    pub fn supports_user_management(&self) -> (r: bool)
        ensures
            r == (self is Mock),
    {
        match self {
            AuthProvider::Mock(m) => m.supports_user_management(),
            AuthProvider::Native(n) => n.supports_user_management(),
        }
    }

    /// Whether the variant implements the given authentication method.
    pub fn supports_auth_method(&self, method: &str) -> (r: bool)
        ensures
            r == (method@ == "password"@ || method@ == "psk"@),
    {
        match self {
            AuthProvider::Mock(m) => m.supports_auth_method(method),
            AuthProvider::Native(n) => n.supports_auth_method(method),
        }
    }
}

/// Authentication provider factory.
pub struct AuthProviderFactory;

impl AuthProviderFactory {
    /// Create the provider selected by the configuration.
    ///
    /// `Internal`, `Ldap` and `OAuth` are capability placeholders and
    /// deterministically fail as not implemented until a real backend is
    /// supplied.  `Native` requires a platform with an identity adapter;
    /// on an unknown platform it fails as unsupported.  `Mock` always
    /// succeeds with a fresh, empty mock provider.
    pub fn create_provider(config: &AuthConfig, platform: HostPlatform) -> (r: Result<
        AuthProvider,
        AuthError,
    >)
        ensures
            config.provider is Internal ==> (r matches Err(e) && e is NotImplemented),
            config.provider is Ldap ==> (r matches Err(e) && e is NotImplemented),
            config.provider is OAuth ==> (r matches Err(e) && e is NotImplemented),
            config.provider is Mock ==> (r matches Ok(p) && p matches AuthProvider::Mock(m)
                && m.users@.len() == 0 && m.credentials@.len() == 0 && m.permissions@.len() == 0
                && m.initialized == false && p.wf()),
            config.provider is Native && platform is Unknown ==> (r matches Err(e) && e
                is UnsupportedOnPlatform),
            config.provider is Native && !(platform is Unknown) ==> (r matches Ok(p) && p matches
                AuthProvider::Native(n) && n.flavor == spec_flavor_of(platform)
                && native_config_equiv(n.config, config.native) && n.group_cache.entries@.len()
                == 0 && p.wf()),
    {
        match config.provider {
            AuthProviderType::Internal => Err(
                AuthError::NotImplemented(
                    String::from_str("internal provider has no backend yet"),
                ),
            ),
            AuthProviderType::Native => {
                let flavor = match platform {
                    HostPlatform::Linux => NativeFlavor::Linux,
                    HostPlatform::MacOS => NativeFlavor::MacOS,
                    HostPlatform::Windows => NativeFlavor::Windows,
                    HostPlatform::OtherUnix => NativeFlavor::Unix,
                    HostPlatform::Unknown => {
                        return Err(AuthError::UnsupportedOnPlatform);
                    },
                };
                Ok(AuthProvider::Native(NativeAuthProvider::new(flavor, config.native.clone())))
            },
            AuthProviderType::Ldap => Err(
                AuthError::NotImplemented(String::from_str("LDAP provider")),
            ),
            AuthProviderType::OAuth => Err(
                AuthError::NotImplemented(String::from_str("OAuth provider")),
            ),
            AuthProviderType::Mock => Ok(AuthProvider::Mock(MockAuthProvider::new())),
        }
    }
}

} // verus!
