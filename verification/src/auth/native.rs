//! The OS-group based authentication provider.
//!
//! One provider serves every supported platform; the platform only decides
//! which identity queries are made and how their raw output is parsed.
//! Group resolutions are memoized per username until `initialize` clears
//! the cache.  Password validation deliberately checks no more than account
//! existence: real credential verification against the OS is a known gap of
//! this backend, not its contract.

use vstd::prelude::*;
use vstd::string::StringExecFns;
use crate::error::AuthError;
use crate::server::user::{synthesize_user_id, uuid5_of, User, UserRole};
use crate::auth::factory::NativeAuthConfig;
use crate::auth::identity::{
    parse_clean_lines, parse_full_name, parse_groups_output, parse_listing_groups,
    parse_passwd_records, parse_real_name, AccountRecord, IdentitySource,
};
use crate::auth::improved_native::{
    cached, is_admin_member, map_permissions_common, spec_mapper_post, GroupCache,
};
use crate::auth::permissions::{granted, pattern_matches, permission_set_grants};
use crate::strutil::{contains_string, str_eq, vec_contains_str, spec_starts_with, str_starts_with};

verus! {

/// The platform flavors with an implemented identity adapter.
#[derive(Clone, Copy, PartialEq, Eq, Structural, Debug)]
pub enum NativeFlavor {
    /// Linux: per-user `groups` query, `getent` databases.
    Linux,
    /// macOS: directory-services membership listing.
    MacOS,
    /// Other Unix systems: per-user `groups` query.
    Unix,
    /// Windows: PowerShell group query, one group per line.
    Windows,
}

impl NativeFlavor {
    /// The characters of the provider name for this flavor.
    pub open spec fn spec_provider_name(&self) -> Seq<char> {
        match self {
            NativeFlavor::Linux => "linux-native"@,
            NativeFlavor::MacOS => "macos-native"@,
            NativeFlavor::Unix => "unix-native"@,
            NativeFlavor::Windows => "windows-native"@,
        }
    }
}

/// True when the resolved groups recorded for `name` in the cache are
/// exactly `groups`.
pub open spec fn cache_has(cache: GroupCache, name: Seq<char>, groups: Seq<String>) -> bool {
    crate::auth::improved_native::cache_entry_is(cache.entries@, name, groups)
}

/// True when the cache records a resolution for the user's name whose
/// admin-group membership matches the user's role.
pub open spec fn cache_role_ok(cache: GroupCache, admins: Seq<String>, u: User) -> bool {
    exists|gs: Seq<String>|
        #[trigger] cache_has(cache, u.username@, gs) && (u.role is Admin <==> is_admin_member(
            gs,
            admins,
        ))
}

/// Whether a permission request is covered for a principal whose resolved
/// groups are `groups`, under the shared mapping rules.
pub open spec fn spec_native_decision(
    admins: Seq<String>,
    require_group: Option<String>,
    entries: Seq<(String, Vec<String>)>,
    groups: Seq<String>,
    req: Seq<char>,
) -> bool {
    if is_admin_member(groups, admins) {
        pattern_matches("admin:*"@, req) || pattern_matches("connect:*"@, req) || pattern_matches(
            "app:*"@,
            req,
        )
    } else if crate::auth::improved_native::any_mapped(entries, groups) {
        exists|p: Seq<char>|
            crate::auth::improved_native::mapped_perm(entries, groups, p) && #[trigger]
            pattern_matches(p, req)
    } else if crate::auth::improved_native::require_group_met(groups, require_group) {
        pattern_matches("connect:basic"@, req)
    } else {
        false
    }
}

/// A mapper output covers a request exactly under the decision predicate.
proof fn lemma_decision_from_mapper(
    admins: Seq<String>,
    require_group: Option<String>,
    entries: Seq<(String, Vec<String>)>,
    groups: Seq<String>,
    out: Seq<String>,
    req: Seq<char>,
)
    requires
        spec_mapper_post(admins, require_group, entries, groups, out),
    ensures
        granted(out, req) == spec_native_decision(admins, require_group, entries, groups, req),
{
    if is_admin_member(groups, admins) {
        if granted(out, req) {
            let i = choose|i: int| 0 <= i < out.len() && pattern_matches(out[i]@, req);
            assert(i == 0 || i == 1 || i == 2);
        }
    } else if crate::auth::improved_native::any_mapped(entries, groups) {
        if granted(out, req) {
            let i = choose|i: int| 0 <= i < out.len() && pattern_matches(out[i]@, req);
            let p = out[i]@;
            assert(contains_string(out, p));
            assert(crate::auth::improved_native::mapped_perm(entries, groups, p));
            assert(pattern_matches(p, req));
        }
        if spec_native_decision(admins, require_group, entries, groups, req) {
            let p = choose|p: Seq<char>|
                crate::auth::improved_native::mapped_perm(entries, groups, p) && #[trigger]
                pattern_matches(p, req);
            assert(contains_string(out, p));
            let w = choose|w: int| 0 <= w < out.len() && out[w]@ == p;
            assert(pattern_matches(out[w]@, req));
        }
    } else if crate::auth::improved_native::require_group_met(groups, require_group) {
        if granted(out, req) {
            let i = choose|i: int| 0 <= i < out.len() && pattern_matches(out[i]@, req);
            assert(i == 0);
        }
    } else {
        if granted(out, req) {
            let i = choose|i: int| 0 <= i < out.len() && pattern_matches(out[i]@, req);
        }
    }
}

/// True when `name` names a recognized system account: reserved names and
/// the underscore prefix used for service accounts.
pub open spec fn spec_system_account(name: Seq<char>) -> bool {
    name == "root"@ || name == "nobody"@ || spec_starts_with(name, "_"@)
}

/// True when an account record is offered to callers of the user listing:
/// a regular account with uid at least 1000 and no system name.
pub open spec fn spec_listed_record(r: (Seq<char>, int, Seq<char>)) -> bool {
    r.1 >= 1000 && !spec_system_account(r.0)
}

/// The view of a synthesized user: name, id, display name and role.
pub open spec fn synthesized_user_view(u: User) -> (Seq<char>, u128, Seq<char>, UserRole) {
    (
        u.username@,
        u.id.value,
        if u.full_name is Some {
            u.full_name.unwrap()@
        } else {
            Seq::empty()
        },
        u.role,
    )
}

/// Build the listed users out of parsed account records: system accounts
/// and accounts with uid below 1000 are skipped; each kept record yields a
/// regular user with a deterministic name-derived id and the record's
/// display name.
#[verifier::loop_isolation(false)]
pub fn users_from_records(records: &Vec<AccountRecord>) -> (r: Vec<User>)
    ensures
        r@.map_values(|u: User| synthesized_user_view(u)) == records@.map_values(
            |a: AccountRecord| crate::auth::identity::record_view(a),
        ).filter(|t: (Seq<char>, int, Seq<char>)| spec_listed_record(t)).map_values(
            |t: (Seq<char>, int, Seq<char>)| (t.0, uuid5_of(t.0), t.2, UserRole::User),
        ),
{
    let ghost keepp = |t: (Seq<char>, int, Seq<char>)| spec_listed_record(t);
    let ghost mkuser = |t: (Seq<char>, int, Seq<char>)| (t.0, uuid5_of(t.0), t.2, UserRole::User);
    let n = records.len();
    let mut out: Vec<User> = Vec::new();
    let mut i: usize = 0;
    proof {
        reveal(Seq::filter);
        assert(records@.map_values(|a: AccountRecord| crate::auth::identity::record_view(a)).subrange(
            0,
            0,
        ) =~= Seq::<(Seq<char>, int, Seq<char>)>::empty());
    }
    while i < n
        invariant
            n == records@.len(),
            i <= n,
            out@.map_values(|u: User| synthesized_user_view(u)) =~= records@.map_values(
                |a: AccountRecord| crate::auth::identity::record_view(a),
            ).subrange(0, i as int).filter(keepp).map_values(mkuser),
        decreases n - i,
    {
        let ghost rviews = records@.map_values(
            |a: AccountRecord| crate::auth::identity::record_view(a),
        );
        let ghost pref = rviews.subrange(0, i as int);
        let ghost prefn = rviews.subrange(0, i + 1);
        proof {
            reveal(Seq::filter);
            assert(prefn.drop_last() =~= pref);
            assert(prefn.last() == crate::auth::identity::record_view(records@[i as int]));
        }
        let rec = &records[i];
        let is_system = str_eq(rec.username.as_str(), "root") || str_eq(
            rec.username.as_str(),
            "nobody",
        ) || str_starts_with(rec.username.as_str(), "_");
        if rec.uid >= 1000 && !is_system {
            let u = User {
                id: synthesize_user_id(rec.username.as_str()),
                username: rec.username.clone(),
                full_name: Some(rec.display_name.clone()),
                email: None,
                password_hash: String::new(),
                role: UserRole::User,
                created_at: String::from_str("1970-01-01T00:00:00Z"),
                updated_at: String::from_str("1970-01-01T00:00:00Z"),
            };
            proof {
                assert(keepp(crate::auth::identity::record_view(records@[i as int])));
                assert(synthesized_user_view(u) == mkuser(
                    crate::auth::identity::record_view(records@[i as int]),
                ));
            }
            out.push(u);
            proof {
                assert(prefn.filter(keepp) =~= pref.filter(keepp).push(
                    crate::auth::identity::record_view(records@[i as int]),
                ));
                assert(prefn.filter(keepp).map_values(mkuser) =~= pref.filter(keepp).map_values(
                    mkuser,
                ).push(mkuser(crate::auth::identity::record_view(records@[i as int]))));
            }
        } else {
            proof {
                assert(!keepp(crate::auth::identity::record_view(records@[i as int])));
                assert(prefn.filter(keepp) =~= pref.filter(keepp));
            }
        }
        i = i + 1;
    }
    proof {
        assert(records@.map_values(|a: AccountRecord| crate::auth::identity::record_view(a)).subrange(
            0,
            n as int,
        ) =~= records@.map_values(|a: AccountRecord| crate::auth::identity::record_view(a)));
    }
    out
}

/// Configuration for the Linux native provider.
#[derive(Debug)]
pub struct LinuxAuthConfig {
    /// Whether to allow all OS users to authenticate.
    pub allow_all_users: bool,
    /// Required group for access, if not allowing all users.
    pub require_group: Option<String>,
    /// Whether to map OS groups to permissions.
    pub permission_mapping: bool,
    /// Groups that have admin privileges.
    pub admin_groups: Vec<String>,
    /// Custom permission mappings (group -> patterns).
    pub permission_mappings: crate::auth::permissions::PermissionMappings,
}

impl Default for LinuxAuthConfig {
    fn default() -> (r: Self)
        ensures
            r.allow_all_users == false,
            r.require_group matches Some(g) && g@ == "rcp-users"@,
            r.permission_mapping == true,
            r.admin_groups@.len() == 3,
            r.admin_groups@[0]@ == "sudo"@,
            r.admin_groups@[1]@ == "wheel"@,
            r.admin_groups@[2]@ == "admin"@,
            r.permission_mappings.entries@.len() == 0,
            r.permission_mappings.wf(),
    {
        let mut admins: Vec<String> = Vec::new();
        admins.push(String::from_str("sudo"));
        admins.push(String::from_str("wheel"));
        admins.push(String::from_str("admin"));
        LinuxAuthConfig {
            allow_all_users: false,
            require_group: Some(String::from_str("rcp-users")),
            permission_mapping: true,
            admin_groups: admins,
            permission_mappings: crate::auth::permissions::PermissionMappings::new(),
        }
    }
}

/// Configuration for the macOS native provider.
#[derive(Debug)]
pub struct MacOSAuthConfig {
    /// Whether to allow all OS users to authenticate.
    pub allow_all_users: bool,
    /// Required group for access, if not allowing all users.
    pub require_group: Option<String>,
    /// Whether to map OS groups to permissions.
    pub permission_mapping: bool,
    /// Groups that have admin privileges.
    pub admin_groups: Vec<String>,
    /// Custom permission mappings (group -> patterns).
    pub permission_mappings: crate::auth::permissions::PermissionMappings,
}

impl Default for MacOSAuthConfig {
    fn default() -> (r: Self)
        ensures
            r.allow_all_users == false,
            r.require_group matches Some(g) && g@ == "rcp-users"@,
            r.permission_mapping == true,
            r.admin_groups@.len() == 2,
            r.admin_groups@[0]@ == "admin"@,
            r.admin_groups@[1]@ == "wheel"@,
            r.permission_mappings.entries@.len() == 0,
            r.permission_mappings.wf(),
    {
        let mut admins: Vec<String> = Vec::new();
        admins.push(String::from_str("admin"));
        admins.push(String::from_str("wheel"));
        MacOSAuthConfig {
            allow_all_users: false,
            require_group: Some(String::from_str("rcp-users")),
            permission_mapping: true,
            admin_groups: admins,
            permission_mappings: crate::auth::permissions::PermissionMappings::new(),
        }
    }
}

/// Configuration for the generic Unix native provider.
#[derive(Debug)]
pub struct UnixAuthConfig {
    /// Whether to allow all OS users to authenticate.
    pub allow_all_users: bool,
    /// Required group for access, if not allowing all users.
    pub require_group: Option<String>,
    /// Whether to map OS groups to permissions.
    pub permission_mapping: bool,
    /// Groups that have admin privileges.
    pub admin_groups: Vec<String>,
    /// Custom permission mappings (group -> patterns).
    pub permission_mappings: crate::auth::permissions::PermissionMappings,
}

impl Default for UnixAuthConfig {
    fn default() -> (r: Self)
        ensures
            r.allow_all_users == false,
            r.require_group matches Some(g) && g@ == "rcp-users"@,
            r.permission_mapping == true,
            r.admin_groups@.len() == 5,
            r.admin_groups@[0]@ == "wheel"@,
            r.admin_groups@[1]@ == "operator"@,
            r.admin_groups@[2]@ == "admin"@,
            r.admin_groups@[3]@ == "adm"@,
            r.admin_groups@[4]@ == "sys"@,
            r.permission_mappings.entries@.len() == 0,
            r.permission_mappings.wf(),
    {
        let mut admins: Vec<String> = Vec::new();
        admins.push(String::from_str("wheel"));
        admins.push(String::from_str("operator"));
        admins.push(String::from_str("admin"));
        admins.push(String::from_str("adm"));
        admins.push(String::from_str("sys"));
        UnixAuthConfig {
            allow_all_users: false,
            require_group: Some(String::from_str("rcp-users")),
            permission_mapping: true,
            admin_groups: admins,
            permission_mappings: crate::auth::permissions::PermissionMappings::new(),
        }
    }
}

/// Configuration for the Windows native provider.
#[derive(Debug)]
pub struct WindowsAuthConfig {
    /// Whether to allow all OS users to authenticate.
    pub allow_all_users: bool,
    /// Required group for access, if not allowing all users.
    pub require_group: Option<String>,
    /// Whether to map OS groups to permissions.
    pub permission_mapping: bool,
    /// Groups that have admin privileges.
    pub admin_groups: Vec<String>,
    /// Custom permission mappings (group -> patterns).
    pub permission_mappings: crate::auth::permissions::PermissionMappings,
}

impl Default for WindowsAuthConfig {
    fn default() -> (r: Self)
        ensures
            r.allow_all_users == false,
            r.require_group matches Some(g) && g@ == "RCP Users"@,
            r.permission_mapping == true,
            r.admin_groups@.len() == 1,
            r.admin_groups@[0]@ == "Administrators"@,
            r.permission_mappings.entries@.len() == 0,
            r.permission_mappings.wf(),
    {
        let mut admins: Vec<String> = Vec::new();
        admins.push(String::from_str("Administrators"));
        WindowsAuthConfig {
            allow_all_users: false,
            require_group: Some(String::from_str("RCP Users")),
            permission_mapping: true,
            admin_groups: admins,
            permission_mappings: crate::auth::permissions::PermissionMappings::new(),
        }
    }
}

/// The OS-group based authentication provider.
pub struct NativeAuthProvider {
    /// The platform flavor served by this provider.
    pub flavor: NativeFlavor,
    /// The native authentication configuration.
    pub config: NativeAuthConfig,
    /// Memoized group resolutions.
    pub group_cache: GroupCache,
}

impl NativeAuthProvider {
    /// The cache holds one entry per username.
    pub open spec fn wf(&self) -> bool {
        self.group_cache.wf()
    }

    /// Create a provider for the given flavor and configuration.
    pub fn new(flavor: NativeFlavor, config: NativeAuthConfig) -> (r: Self)
        ensures
            r.flavor == flavor,
            r.config == config,
            r.group_cache.entries@.len() == 0,
            r.wf(),
    {
        NativeAuthProvider { flavor, config, group_cache: GroupCache::new() }
    }

    /// Idempotent setup: clear the memoized group resolutions.
    pub fn initialize(&mut self) -> (r: Result<(), AuthError>)
        ensures
            r is Ok,
            final(self).group_cache.entries@.len() == 0,
            final(self).flavor == old(self).flavor,
            final(self).config == old(self).config,
            final(self).wf(),
    {
        self.group_cache.clear();
        Ok(())
    }

    /// Resolve all groups of `username`, memoized until the next
    /// `initialize`.
    ///
    /// On a cache hit the memoized list is returned unchanged, without
    /// consulting the source, so a hit is owed success.  Otherwise the
    /// flavor's group queries are made and their output parsed, and the
    /// result is recorded for `username`.  Whatever the source answered,
    /// a successful result is afterwards the recorded resolution.
    pub fn resolve_groups<S: IdentitySource>(
        &mut self,
        username: &str,
        source: &mut S,
    ) -> (r: Result<Vec<String>, AuthError>)
        requires
            old(self).wf(),
        ensures
            final(self).wf(),
            final(self).flavor == old(self).flavor,
            final(self).config == old(self).config,
            r matches Ok(v) ==> cache_has(final(self).group_cache, username@, v@),
            r matches Ok(v) ==> (cached(old(self).group_cache.entries@, username@)
                ==> *final(self) == *old(self) && cache_has(old(self).group_cache, username@, v@)),
            forall|m: Seq<char>, gs: Seq<String>|
                m != username@ ==> (#[trigger] cache_has(final(self).group_cache, m, gs)
                    <==> cache_has(old(self).group_cache, m, gs)),
            forall|m: Seq<char>|
                #[trigger] cached(final(self).group_cache.entries@, m) ==> cached(
                    old(self).group_cache.entries@,
                    m,
                ) || m == username@,
            r matches Err(e) ==> *final(self) == *old(self) && e is IdentitySource,
            cached(old(self).group_cache.entries@, username@) ==> r is Ok,
    {
        match self.group_cache.get(username) {
            Some(groups) => Ok(groups),
            None => {
                let groups: Vec<String> = match self.flavor {
                    NativeFlavor::MacOS => {
                        // The membership dump rarely carries the account's
                        // primary group; union it in from the per-user query.
                        let text = match source.group_db_text() {
                            Ok(t) => t,
                            Err(e) => {
                                return Err(e);
                            },
                        };
                        let listed = parse_listing_groups(text.as_str(), username);
                        let per_user = match source.groups_text(username) {
                            Ok(t) => t,
                            Err(e) => {
                                return Err(e);
                            },
                        };
                        let primary = parse_groups_output(per_user.as_str());
                        crate::auth::identity::dedup_strings(
                            &crate::auth::identity::concat_string_vecs(listed, &primary),
                        )
                    },
                    NativeFlavor::Windows => {
                        let text = match source.groups_text(username) {
                            Ok(t) => t,
                            Err(e) => {
                                return Err(e);
                            },
                        };
                        parse_clean_lines(text.as_str())
                    },
                    NativeFlavor::Unix => {
                        // Generic Unix systems have no single reliable
                        // utility: each stage of the cascade runs only when
                        // the stage before it named no group.
                        let text = match source.groups_text(username) {
                            Ok(t) => t,
                            Err(e) => {
                                return Err(e);
                            },
                        };
                        let first = parse_groups_output(text.as_str());
                        if first.len() > 0 {
                            first
                        } else {
                            let db = match source.group_db_text() {
                                Ok(t) => t,
                                Err(e) => {
                                    return Err(e);
                                },
                            };
                            let second = crate::auth::identity::parse_member_groups(
                                db.as_str(),
                                username,
                            );
                            if second.len() > 0 {
                                second
                            } else {
                                let ids = match source.id_groups_text(username) {
                                    Ok(t) => t,
                                    Err(e) => {
                                        return Err(e);
                                    },
                                };
                                let third = crate::auth::identity::dedup_strings(
                                    &crate::strutil::split_words(ids.as_str()),
                                );
                                if third.len() > 0 {
                                    third
                                } else {
                                    let gf = match source.group_file_text() {
                                        Ok(t) => t,
                                        Err(e) => {
                                            return Err(e);
                                        },
                                    };
                                    crate::auth::identity::dedup_strings(
                                        &crate::auth::identity::parse_member_groups(
                                            gf.as_str(),
                                            username,
                                        ),
                                    )
                                }
                            }
                        }
                    },
                    NativeFlavor::Linux => {
                        let text = match source.groups_text(username) {
                            Ok(t) => t,
                            Err(e) => {
                                return Err(e);
                            },
                        };
                        parse_groups_output(text.as_str())
                    },
                };
                let result = crate::auth::permissions::clone_string_vec(&groups);
                self.group_cache.insert(String::from_str(username), groups);
                Ok(result)
            },
        }
    }

    /// Whether `username` is a member of `group`, by the resolved groups.
    pub fn is_member_of_group<S: IdentitySource>(
        &mut self,
        username: &str,
        group: &str,
        source: &mut S,
    ) -> (r: Result<bool, AuthError>)
        requires
            old(self).wf(),
        ensures
            final(self).wf(),
            final(self).flavor == old(self).flavor,
            final(self).config == old(self).config,
            r matches Ok(b) ==> exists|gs: Seq<String>|
                #[trigger] cache_has(final(self).group_cache, username@, gs) && b
                    == contains_string(gs, group@),
            r matches Err(e) ==> e is IdentitySource,
            cached(old(self).group_cache.entries@, username@) ==> r is Ok,
    {
        let groups = match self.resolve_groups(username, source) {
            Ok(g) => g,
            Err(e) => {
                return Err(e);
            },
        };
        let b = vec_contains_str(&groups, group);
        proof {
            assert(cache_has(self.group_cache, username@, groups@));
        }
        Ok(b)
    }

    /// Validate a credential against the OS identity data.
    ///
    /// `psk` asks for account existence, or for membership in the required
    /// group when one is configured and not every user is allowed.
    /// `password` performs the same existence check: this backend cannot
    /// verify passwords, a documented gap.  `publickey` is recognized but
    /// not implemented and always denies.  Any other method is refused as
    /// unsupported, never silently denied.
    pub fn validate_credentials<S: IdentitySource>(
        &mut self,
        username: &str,
        credentials: &[u8],
        method: &str,
        source: &mut S,
    ) -> (r: Result<bool, AuthError>)
        requires
            old(self).wf(),
        ensures
            final(self).wf(),
            final(self).flavor == old(self).flavor,
            final(self).config == old(self).config,
            method@ == "publickey"@ ==> r == Ok::<bool, AuthError>(false),
            method@ != "psk"@ && method@ != "password"@ && method@ != "publickey"@ ==> (
            r matches Err(e) && e is UnsupportedMethod),
            old(self).config.require_group matches Some(g) ==> ((method@ == "psk"@ && !old(
                self,
            ).config.allow_all_users) ==> (r matches Ok(b) ==> exists|gs: Seq<String>|
                #[trigger] cache_has(final(self).group_cache, username@, gs) && b
                    == contains_string(gs, g@))),
            (method@ == "psk"@ || method@ == "password"@) ==> (r matches Err(e) ==> e
                is IdentitySource),
            (method@ == "psk"@ && !old(self).config.allow_all_users && old(
                self,
            ).config.require_group is Some && cached(
                old(self).group_cache.entries@,
                username@,
            )) ==> r is Ok,
    {
        proof {
            reveal_strlit("psk");
            reveal_strlit("password");
            reveal_strlit("publickey");
            assert("psk"@.len() == 3);
            assert("publickey"@.len() == 9);
            assert("password"@.len() == 8);
        }
        if str_eq(method, "psk") {
            if !self.config.allow_all_users {
                let required = match &self.config.require_group {
                    Some(g) => Some(g.clone()),
                    None => None,
                };
                if let Some(g) = required {
                    return self.is_member_of_group(username, g.as_str(), source);
                }
            }
            source.account_exists(username)
        } else if str_eq(method, "password") {
            source.account_exists(username)
        } else if str_eq(method, "publickey") {
            Ok(false)
        } else {
            Err(AuthError::UnsupportedMethod(String::from_str(method)))
        }
    }

    /// Map resolved groups to permissions with the shared mapper.
    pub fn map_permissions(&self, groups: &Vec<String>) -> (r: Vec<String>)
        ensures
            spec_mapper_post(
                self.config.admin_groups@,
                self.config.require_group,
                self.config.permission_mappings.entries@,
                groups@,
                r@,
            ),
    {
        map_permissions_common(
            groups,
            &self.config.admin_groups,
            &self.config.require_group,
            &self.config.permission_mappings,
        )
    }

    /// Whether the user holds the requested permission: the user's groups
    /// are resolved, mapped to permissions by the shared rules, and the
    /// request is matched against them under the wildcard rule.
    pub fn has_permission<S: IdentitySource>(
        &mut self,
        user: &User,
        permission: &str,
        source: &mut S,
    ) -> (r: Result<bool, AuthError>)
        requires
            old(self).wf(),
        ensures
            final(self).wf(),
            final(self).flavor == old(self).flavor,
            final(self).config == old(self).config,
            r matches Ok(b) ==> exists|gs: Seq<String>|
                #[trigger] cache_has(final(self).group_cache, user.username@, gs) && b
                    == spec_native_decision(
                    old(self).config.admin_groups@,
                    old(self).config.require_group,
                    old(self).config.permission_mappings.entries@,
                    gs,
                    permission@,
                ),
            r matches Err(e) ==> e is IdentitySource,
            cached(old(self).group_cache.entries@, user.username@) ==> r is Ok,
    {
        let groups = match self.resolve_groups(user.username.as_str(), source) {
            Ok(g) => g,
            Err(e) => {
                return Err(e);
            },
        };
        let perms = self.map_permissions(&groups);
        let b = permission_set_grants(&perms, permission);
        proof {
            lemma_decision_from_mapper(
                self.config.admin_groups@,
                self.config.require_group,
                self.config.permission_mappings.entries@,
                groups@,
                perms@,
                permission@,
            );
            assert(cache_has(self.group_cache, user.username@, groups@));
        }
        Ok(b)
    }

    /// The permissions of the user, mapped from the resolved groups by the
    /// shared rules.
    pub fn get_permissions<S: IdentitySource>(
        &mut self,
        user: &User,
        source: &mut S,
    ) -> (r: Result<Vec<String>, AuthError>)
        requires
            old(self).wf(),
        ensures
            final(self).wf(),
            final(self).flavor == old(self).flavor,
            final(self).config == old(self).config,
            r matches Ok(v) ==> exists|gs: Seq<String>|
                #[trigger] cache_has(final(self).group_cache, user.username@, gs)
                    && spec_mapper_post(
                    old(self).config.admin_groups@,
                    old(self).config.require_group,
                    old(self).config.permission_mappings.entries@,
                    gs,
                    v@,
                ),
            r matches Err(e) ==> e is IdentitySource,
            cached(old(self).group_cache.entries@, user.username@) ==> r is Ok,
    {
        let groups = match self.resolve_groups(user.username.as_str(), source) {
            Ok(g) => g,
            Err(e) => {
                return Err(e);
            },
        };
        let perms = self.map_permissions(&groups);
        proof {
            assert(cache_has(self.group_cache, user.username@, groups@));
        }
        Ok(perms)
    }

    /// Look up one account and synthesize its principal.
    ///
    /// A missing account is a clean `None`.  A found account yields a user
    /// whose id derives deterministically from the username, whose display
    /// name comes from the account record where one is present, and whose
    /// role is Admin exactly when the resolved groups intersect the
    /// configured admin groups.
    pub fn get_user_by_username<S: IdentitySource>(
        &mut self,
        username: &str,
        source: &mut S,
    ) -> (r: Result<Option<User>, AuthError>)
        requires
            old(self).wf(),
        ensures
            final(self).wf(),
            final(self).flavor == old(self).flavor,
            final(self).config == old(self).config,
            r matches Ok(Some(u)) ==> u.username@ == username@ && u.id.value == uuid5_of(
                username@,
            ) && u.password_hash@ == Seq::<char>::empty() && exists|gs: Seq<String>|
                #[trigger] cache_has(final(self).group_cache, username@, gs) && (u.role is Admin
                    <==> is_admin_member(gs, old(self).config.admin_groups@)),
            r matches Err(e) ==> e is IdentitySource,
    {
        let exists_acct = match source.account_exists(username) {
            Ok(b) => b,
            Err(e) => {
                return Err(e);
            },
        };
        if !exists_acct {
            return Ok(None);
        }
        let display: Option<String> = match self.flavor {
            NativeFlavor::MacOS => {
                let text = match source.user_record_text(username) {
                    Ok(t) => t,
                    Err(e) => {
                        return Err(e);
                    },
                };
                parse_real_name(text.as_str())
            },
            NativeFlavor::Windows => {
                let text = match source.user_record_text(username) {
                    Ok(t) => t,
                    Err(e) => {
                        return Err(e);
                    },
                };
                parse_full_name(text.as_str())
            },
            _ => {
                let text = match source.user_record_text(username) {
                    Ok(t) => t,
                    Err(e) => {
                        return Err(e);
                    },
                };
                let records = parse_passwd_records(text.as_str());
                if records.len() > 0 {
                    Some(records[0].display_name.clone())
                } else {
                    None
                }
            },
        };
        let groups = match self.resolve_groups(username, source) {
            Ok(g) => g,
            Err(e) => {
                return Err(e);
            },
        };
        let is_admin = crate::auth::improved_native::is_admin_list(
            &groups,
            &self.config.admin_groups,
        );
        let full_name = match display {
            Some(d) => Some(d),
            None => Some(String::from_str(username)),
        };
        let u = User {
            id: synthesize_user_id(username),
            username: String::from_str(username),
            full_name,
            email: None,
            password_hash: String::new(),
            role: if is_admin {
                UserRole::Admin
            } else {
                UserRole::User
            },
            created_at: String::from_str("1970-01-01T00:00:00Z"),
            updated_at: String::from_str("1970-01-01T00:00:00Z"),
        };
        proof {
            assert(cache_has(self.group_cache, username@, groups@));
        }
        Ok(Some(u))
    }

    /// Look up a user by identifier.
    ///
    /// Identifiers are synthesized from usernames and keep no reverse
    /// index, so this lookup deliberately answers `None`; callers fall
    /// back to `get_user_by_username`.
    pub fn get_user(&self, _id: &crate::server::user::UserId) -> (r: Result<Option<User>, AuthError>)
        ensures
            r == Ok::<Option<User>, AuthError>(None),
    {
        Ok(None)
    }

    /// List the regular accounts of the platform as principals.
    ///
    /// System accounts and accounts with uid below 1000 are skipped; each
    /// listed user carries a deterministic name-derived id, and a role of
    /// Admin exactly when the account's resolved groups intersect the
    /// configured admin groups.
    #[verifier::loop_isolation(false)]
    pub fn list_users<S: IdentitySource>(&mut self, source: &mut S) -> (r: Result<
        Vec<User>,
        AuthError,
    >)
        requires
            old(self).wf(),
        ensures
            final(self).wf(),
            final(self).flavor == old(self).flavor,
            final(self).config == old(self).config,
            r matches Ok(v) ==> forall|k: int|
                0 <= k < v@.len() ==> (#[trigger] v@[k]).id.value == uuid5_of(v@[k].username@)
                    && !spec_system_account(v@[k].username@) && cache_role_ok(
                    final(self).group_cache,
                    old(self).config.admin_groups@,
                    v@[k],
                ),
            r matches Err(e) ==> e is IdentitySource,
    {
        let text = match source.passwd_text() {
            Ok(t) => t,
            Err(e) => {
                return Err(e);
            },
        };
        let records = parse_passwd_records(text.as_str());
        let base = users_from_records(&records);
        proof {
            let ghost keepp = |t: (Seq<char>, int, Seq<char>)| spec_listed_record(t);
            let ghost mkuser = |t: (Seq<char>, int, Seq<char>)|
                (t.0, uuid5_of(t.0), t.2, UserRole::User);
            let uviews = base@.map_values(|u: User| synthesized_user_view(u));
            let rviews = records@.map_values(
                |a: AccountRecord| crate::auth::identity::record_view(a),
            );
            let kept = rviews.filter(keepp);
            assert(uviews == kept.map_values(mkuser));
            assert(uviews.len() == kept.len());
            assert forall|k: int| 0 <= k < base@.len() implies (#[trigger] base@[
                k]).id.value == uuid5_of(base@[k].username@) && !spec_system_account(
                base@[k].username@,
            ) by {
                assert(uviews[k] == synthesized_user_view(base@[k]));
                assert(uviews[k] == mkuser(kept[k]));
                assert(keepp(kept[k])) by {
                    rviews.lemma_filter_pred(keepp, k);
                }
            }
        }
        let n = base.len();
        let mut out: Vec<User> = Vec::new();
        let mut k: usize = 0;
        while k < n
            invariant
                n == base@.len(),
                k <= n,
                self.wf(),
                self.flavor == old(self).flavor,
                self.config == old(self).config,
                out@.len() == k,
                forall|j: int|
                    0 <= j < n ==> (#[trigger] base@[j]).id.value == uuid5_of(base@[j].username@)
                        && !spec_system_account(base@[j].username@),
                forall|j: int|
                    0 <= j < k ==> (#[trigger] out@[j]).id == base@[j].id && out@[j].username
                        == base@[j].username,
                forall|j: int|
                    0 <= j < k ==> #[trigger] cache_role_ok(
                        self.group_cache,
                        self.config.admin_groups@,
                        out@[j],
                    ),
            decreases n - k,
        {
            let name = base[k].username.clone();
            let ghost pre_cache = self.group_cache;
            let groups = match self.resolve_groups(name.as_str(), source) {
                Ok(g) => g,
                Err(e) => {
                    return Err(e);
                },
            };
            proof {
                assert forall|j: int| 0 <= j < k implies #[trigger] cache_role_ok(
                    self.group_cache,
                    self.config.admin_groups@,
                    out@[j],
                ) by {
                    assert(cache_role_ok(pre_cache, self.config.admin_groups@, out@[j]));
                    let gs = choose|gs: Seq<String>|
                        #[trigger] cache_has(pre_cache, out@[j].username@, gs) && (out@[j].role
                            is Admin <==> is_admin_member(gs, self.config.admin_groups@));
                    if out@[j].username@ == name@ {
                        assert(cached(pre_cache.entries@, name@));
                        assert(cache_has(self.group_cache, out@[j].username@, gs));
                    } else {
                        assert(cache_has(self.group_cache, out@[j].username@, gs));
                    }
                }
            }
            let admin = crate::auth::improved_native::is_admin_list(
                &groups,
                &self.config.admin_groups,
            );
            let mut u = base[k].clone();
            u.role = if admin {
                UserRole::Admin
            } else {
                UserRole::User
            };
            proof {
                assert(u.username@ == name@);
                assert(cache_has(self.group_cache, u.username@, groups@));
                assert(cache_role_ok(self.group_cache, self.config.admin_groups@, u));
            }
            out.push(u);
            k = k + 1;
        }
        proof {
            assert forall|k2: int| 0 <= k2 < out@.len() implies (#[trigger] out@[
                k2]).id.value == uuid5_of(out@[k2].username@) && !spec_system_account(
                out@[k2].username@,
            ) by {
                assert(out@[k2].id == base@[k2].id);
                assert(out@[k2].username == base@[k2].username);
            }
        }
        Ok(out)
    }

    /// Creating users is not supported by an OS-backed provider.
    pub fn create_user(&self, _user: User) -> (r: Result<(), AuthError>)
        ensures
            r matches Err(e) && e is Unsupported,
    {
        Err(AuthError::Unsupported(String::from_str("user creation")))
    }

    /// Updating users is not supported by an OS-backed provider.
    pub fn update_user(&self, _user: User) -> (r: Result<(), AuthError>)
        ensures
            r matches Err(e) && e is Unsupported,
    {
        Err(AuthError::Unsupported(String::from_str("user updates")))
    }

    /// Deleting users is not supported by an OS-backed provider.
    pub fn delete_user(&self, _id: &crate::server::user::UserId) -> (r: Result<(), AuthError>)
        ensures
            r matches Err(e) && e is Unsupported,
    {
        Err(AuthError::Unsupported(String::from_str("user deletion")))
    }

    /// OS-backed providers never manage users.
    pub fn supports_user_management(&self) -> (r: bool)
        ensures
            r == false,
    {
        false
    }

    /// Whether the given authentication method is implemented.
    pub fn supports_auth_method(&self, method: &str) -> (r: bool)
        ensures
            r == (method@ == "psk"@ || method@ == "password"@),
    {
        str_eq(method, "psk") || str_eq(method, "password")
    }

    /// The provider's name; every flavor's name contains `native`, which
    /// the manager's fallback trigger looks for.
    pub fn name(&self) -> (r: &'static str)
        ensures
            r@ == self.flavor.spec_provider_name(),
    {
        match self.flavor {
            NativeFlavor::Linux => "linux-native",
            NativeFlavor::MacOS => "macos-native",
            NativeFlavor::Unix => "unix-native",
            NativeFlavor::Windows => "windows-native",
        }
    }
}

} // verus!
