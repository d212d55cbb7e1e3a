//! The authentication manager: orchestration over the active provider,
//! with the fallback-to-internal retry.

use vstd::prelude::*;
use crate::error::AuthError;
use crate::server::user::{has_user_with_name, User};
use crate::auth::factory::{
    native_config_equiv, spec_flavor_of, AuthConfig, AuthProvider, AuthProviderFactory,
    AuthProviderType, HostPlatform,
};
use crate::auth::identity::IdentitySource;
use crate::auth::mock_provider::{cred_matches, perm_entry_grants};

verus! {

/// Authentication manager over the configured provider.
///
/// Constructed once per daemon run; `initialize` transitions it to the
/// initialized state exactly once, and a repeated call is a no-op.
/// Credential validation delegates to the active provider and, when the
/// provider errors, may retry once against a freshly constructed internal
/// provider; permission queries delegate directly with no fallback.
pub struct AuthManager {
    /// The authentication configuration; immutable after construction.
    pub config: AuthConfig,
    /// The platform this manager was constructed for.
    pub platform: HostPlatform,
    /// The active authentication provider.
    pub provider: AuthProvider,
    /// Whether the provider has been initialized.
    pub initialized: bool,
}

impl AuthManager {
    /// The active provider's tables are well formed.
    pub open spec fn wf(&self) -> bool {
        self.provider.wf()
    }

    /// Create a manager with the specified configuration, constructing the
    /// configured provider for the given platform.
    ///
    /// Fails exactly when the factory does: placeholder backends are not
    /// implemented, and the native backend needs a known platform.
    pub fn new(config: AuthConfig, platform: HostPlatform) -> (r: Result<AuthManager, AuthError>)
        ensures
            config.provider is Internal ==> (r matches Err(e) && e is NotImplemented),
            config.provider is Ldap ==> (r matches Err(e) && e is NotImplemented),
            config.provider is OAuth ==> (r matches Err(e) && e is NotImplemented),
            config.provider is Native && platform is Unknown ==> (r matches Err(e) && e
                is UnsupportedOnPlatform),
            config.provider is Mock || (config.provider is Native && !(platform is Unknown)) ==> (
            r matches Ok(m) && m.config == config && m.platform == platform && m.initialized
                == false && m.wf()),
            r matches Ok(m) ==> (m.provider is Mock <==> config.provider is Mock) && (m.provider
                matches AuthProvider::Native(n) ==> config.provider is Native && n.flavor
                == spec_flavor_of(platform) && native_config_equiv(n.config, config.native)),
            config.provider is Mock ==> (r matches Ok(m) && m.provider matches AuthProvider::Mock(
                p,
            ) && p.users@.len() == 0 && p.credentials@.len() == 0 && p.permissions@.len() == 0
                && p.initialized == false),
    {
        let provider = match AuthProviderFactory::create_provider(&config, platform) {
            Ok(p) => p,
            Err(e) => {
                return Err(e);
            },
        };
        Ok(AuthManager { config, platform, provider, initialized: false })
    }

    /// Initialize the manager.
    ///
    /// Idempotent: the first call initializes the active provider and
    /// records the transition; any later call succeeds and leaves the
    /// manager exactly as it was, with no further effect.
    pub fn initialize(&mut self) -> (r: Result<(), AuthError>)
        requires
            old(self).wf(),
        ensures
            final(self).wf(),
            r is Ok,
            final(self).initialized == true,
            final(self).config == old(self).config,
            final(self).platform == old(self).platform,
            old(self).initialized ==> *final(self) == *old(self),
            final(self).provider is Mock <==> old(self).provider is Mock,
            !old(self).initialized ==> ((*old(self)).provider matches AuthProvider::Native(n)
                ==> ((*final(self)).provider matches AuthProvider::Native(m) && m.flavor
                == n.flavor && m.config == n.config && m.group_cache.entries@.len() == 0)),
            !old(self).initialized ==> ((*old(self)).provider matches AuthProvider::Mock(n) ==> ((
            *final(self)).provider matches AuthProvider::Mock(m) && m.initialized == true
                && m.users == n.users && m.credentials == n.credentials && m.permissions
                == n.permissions)),
    {
        if self.initialized {
            return Ok(());
        }
        match self.provider.initialize() {
            Ok(_) => {
                self.initialized = true;
                Ok(())
            },
            Err(e) => Err(e),
        }
    }

    /// Validate credentials for a user.
    ///
    /// Delegates to the active provider.  On a provider error (never on a
    /// clean denial), when fallback is enabled and the active provider is
    /// an OS-backed one, a fresh internal provider is constructed and the
    /// validation retried once against it; a failure of that retry is a
    /// denial, never an error, so fallback can only trade availability for
    /// a denied login.  With fallback off, or for any other provider, the
    /// error propagates unchanged.
    pub fn validate_credentials<S: IdentitySource>(
        &mut self,
        username: &str,
        credentials: &[u8],
        method: &str,
        source: &mut S,
    ) -> (r: Result<bool, AuthError>)
        requires
            old(self).wf(),
        ensures
            final(self).wf(),
            final(self).config == old(self).config,
            final(self).initialized == old(self).initialized,
            old(self).config.fallback_to_internal && old(self).provider.spec_is_native() ==> r
                is Ok,
            old(self).provider matches AuthProvider::Mock(m) ==> (method@ == "password"@ ==> r
                == Ok::<bool, AuthError>(
                cred_matches(m.credentials@, username@, credentials@),
            )) && (method@ != "password"@ && method@ == "psk"@ ==> r == Ok::<bool, AuthError>(
                has_user_with_name(m.users@, username@),
            )) && (method@ != "password"@ && method@ != "psk"@ ==> (r matches Err(e) && e
                is UnsupportedMethod)),
            (*old(self)).provider matches AuthProvider::Mock(m) ==> (*final(self)).provider == (
            *old(self)).provider,
            old(self).provider.spec_is_native() && !old(self).config.fallback_to_internal
                && method@ != "psk"@ && method@ != "password"@ && method@ != "publickey"@ ==> (
            r matches Err(e) && e is UnsupportedMethod),
            (*old(self)).provider matches AuthProvider::Native(n) ==> ((*final(self)).provider
                matches AuthProvider::Native(n2) && n2.flavor == n.flavor && n2.config
                == n.config),
            old(self).provider.spec_is_native() && method@ == "publickey"@ ==> r == Ok::<
                bool,
                AuthError,
            >(false),
            old(self).provider.spec_is_native() && old(self).config.fallback_to_internal
                && method@ != "psk"@ && method@ != "password"@ && method@ != "publickey"@ ==> r
                == Ok::<bool, AuthError>(false),
            (*old(self)).provider matches AuthProvider::Native(n)
                ==> (n.config.require_group matches Some(g) ==> ((method@ == "psk"@
                && !n.config.allow_all_users) ==> (r == Ok::<bool, AuthError>(true)
                ==> exists|gs: Seq<String>|
                #[trigger] crate::auth::native::cache_has(
                    (*final(self)).provider->Native_0.group_cache,
                    username@,
                    gs,
                ) && crate::strutil::contains_string(gs, g@)))),
            (*old(self)).provider matches AuthProvider::Native(n) ==> (!old(
                self,
            ).config.fallback_to_internal ==> (n.config.require_group matches Some(g) ==> ((
            method@ == "psk"@ && !n.config.allow_all_users) ==> (r matches Ok(b) ==> exists|
                gs: Seq<String>,
            |
                #[trigger] crate::auth::native::cache_has(
                    (*final(self)).provider->Native_0.group_cache,
                    username@,
                    gs,
                ) && b == crate::strutil::contains_string(gs, g@))))),
            old(self).provider.spec_is_native() && !old(self).config.fallback_to_internal && (
            method@ == "psk"@ || method@ == "password"@) ==> (r matches Err(e) ==> e
                is IdentitySource),
            (*old(self)).provider matches AuthProvider::Native(n) ==> ((method@ == "psk"@
                && !n.config.allow_all_users && n.config.require_group is Some
                && crate::auth::improved_native::cached(n.group_cache.entries@, username@)) ==> r
                is Ok),
    {
        match self.provider.validate_credentials(username, credentials, method, source) {
            Ok(valid) => Ok(valid),
            Err(e) => {
                if self.config.fallback_to_internal && self.provider.is_native_named() {
                    let mut fallback_config = self.config.clone();
                    fallback_config.provider = AuthProviderType::Internal;
                    match AuthProviderFactory::create_provider(&fallback_config, self.platform) {
                        Ok(mut fallback_provider) => {
                            match fallback_provider.validate_credentials(
                                username,
                                credentials,
                                method,
                                source,
                            ) {
                                Ok(valid) => Ok(valid),
                                Err(_) => Ok(false),
                            }
                        },
                        Err(_) => Ok(false),
                    }
                } else {
                    Err(e)
                }
            },
        }
    }

    /// Get a user by username, from the active provider.
    pub fn get_user_by_username<S: IdentitySource>(
        &mut self,
        username: &str,
        source: &mut S,
    ) -> (r: Result<Option<User>, AuthError>)
        requires
            old(self).wf(),
        ensures
            final(self).wf(),
            final(self).config == old(self).config,
            old(self).provider matches AuthProvider::Mock(m) ==> *final(self) == *old(self) && (
            r matches Ok(o) && (o is Some <==> has_user_with_name(m.users@, username@))),
            (*old(self)).provider matches AuthProvider::Native(n) ==> ((*final(self)).provider
                matches AuthProvider::Native(n2) && n2.flavor == n.flavor && n2.config == n.config)
                && (r matches Ok(Some(u)) ==> u.username@ == username@ && u.id.value
                == crate::server::user::uuid5_of(username@) && u.password_hash@ == Seq::<
                char,
            >::empty() && crate::auth::native::cache_role_ok(
                (*final(self)).provider->Native_0.group_cache,
                n.config.admin_groups@,
                u,
            )) && (r matches Err(e) ==> e is IdentitySource),
    {
        self.provider.get_user_by_username(username, source)
    }

    /// Whether the user holds the permission, by the active provider; no
    /// fallback, since permission data is only meaningful in the backend
    /// that authenticated the principal.
    pub fn has_permission<S: IdentitySource>(
        &mut self,
        user: &User,
        permission: &str,
        source: &mut S,
    ) -> (r: Result<bool, AuthError>)
        requires
            old(self).wf(),
        ensures
            final(self).wf(),
            final(self).config == old(self).config,
            old(self).provider matches AuthProvider::Mock(m) ==> *final(self) == *old(self) && r
                == Ok::<bool, AuthError>(
                user.role is Admin || perm_entry_grants(
                    m.permissions@,
                    user.username@,
                    permission@,
                ),
            ),
            (*old(self)).provider matches AuthProvider::Native(n) ==> ((*final(self)).provider
                matches AuthProvider::Native(n2) && n2.flavor == n.flavor && n2.config == n.config)
                && (r matches Ok(b) ==> exists|gs: Seq<String>|
                #[trigger] crate::auth::native::cache_has(
                    (*final(self)).provider->Native_0.group_cache,
                    user.username@,
                    gs,
                ) && b == crate::auth::native::spec_native_decision(
                    n.config.admin_groups@,
                    n.config.require_group,
                    n.config.permission_mappings.entries@,
                    gs,
                    permission@,
                )) && (r matches Err(e) ==> e is IdentitySource),
            (*old(self)).provider matches AuthProvider::Native(n) ==> (crate::auth::improved_native::cached(
                n.group_cache.entries@,
                user.username@,
            ) ==> r is Ok),
    {
        self.provider.has_permission(user, permission, source)
    }

    /// The permissions of the user, by the active provider; no fallback.
    pub fn get_permissions<S: IdentitySource>(
        &mut self,
        user: &User,
        source: &mut S,
    ) -> (r: Result<Vec<String>, AuthError>)
        requires
            old(self).wf(),
        ensures
            final(self).wf(),
            final(self).config == old(self).config,
            old(self).provider matches AuthProvider::Mock(m) ==> *final(self) == *old(self) && (
            r matches Ok(v) && ((exists|i: int|
                0 <= i < m.permissions@.len() && m.permissions@[i].0@ == user.username@)
                ==> exists|i: int|
                0 <= i < m.permissions@.len() && m.permissions@[i].0@ == user.username@ && v@
                    == m.permissions@[i].1@) && ((forall|i: int|
                0 <= i < m.permissions@.len() ==> m.permissions@[i].0@ != user.username@) ==> v@.len()
                == 0)),
            (*old(self)).provider matches AuthProvider::Native(n) ==> ((*final(self)).provider
                matches AuthProvider::Native(n2) && n2.flavor == n.flavor && n2.config == n.config)
                && (r matches Ok(v) ==> exists|gs: Seq<String>|
                #[trigger] crate::auth::native::cache_has(
                    (*final(self)).provider->Native_0.group_cache,
                    user.username@,
                    gs,
                ) && crate::auth::improved_native::spec_mapper_post(
                    n.config.admin_groups@,
                    n.config.require_group,
                    n.config.permission_mappings.entries@,
                    gs,
                    v@,
                )) && (r matches Err(e) ==> e is IdentitySource),
            (*old(self)).provider matches AuthProvider::Native(n) ==> (crate::auth::improved_native::cached(
                n.group_cache.entries@,
                user.username@,
            ) ==> r is Ok),
    {
        self.provider.get_permissions(user, source)
    }
}

} // verus!
