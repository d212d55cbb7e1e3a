//! Mock authentication provider.
//!
//! An in-memory provider over explicit user, credential and permission
//! tables.  It exists to make the manager and the permission matching rules
//! exercisable without OS dependencies, and doubles as the reference
//! implementation of the provider contract.

use vstd::prelude::*;
use vstd::string::StringExecFns;
use crate::error::AuthError;
use crate::server::user::{has_user_with_name, User};
use crate::auth::permissions::{clone_string_vec, granted, permission_set_grants};
use crate::strutil::str_eq;

verus! {

/// True when `creds` stores exactly `given` as the credential of `name`.
pub open spec fn cred_matches(
    creds: Seq<(String, Vec<u8>)>,
    name: Seq<char>,
    given: Seq<u8>,
) -> bool {
    exists|i: int| 0 <= i < creds.len() && creds[i].0@ == name && creds[i].1@ == given
}

/// True when `perms` holds an entry filing exactly the patterns `pats`
/// under `name`.
pub open spec fn perm_entry_is(
    perms: Seq<(String, Vec<String>)>,
    name: Seq<char>,
    pats: Seq<String>,
) -> bool {
    exists|i: int| 0 <= i < perms.len() && perms[i].0@ == name && perms[i].1@ == pats
}

/// True when `perms` holds an entry for `name`.
pub open spec fn has_perm_entry(perms: Seq<(String, Vec<String>)>, name: Seq<char>) -> bool {
    exists|i: int| 0 <= i < perms.len() && perms[i].0@ == name
}

/// True when `perms` holds an entry for `name` whose patterns cover `req`.
pub open spec fn perm_entry_grants(
    perms: Seq<(String, Vec<String>)>,
    name: Seq<char>,
    req: Seq<char>,
) -> bool {
    exists|i: int| 0 <= i < perms.len() && perms[i].0@ == name && granted(perms[i].1@, req)
}

/// Byte-exact equality of a stored credential and a presented one.
#[verifier::loop_isolation(false)]
fn bytes_eq(a: &Vec<u8>, b: &[u8]) -> (r: bool)
    ensures
        r == (a@ == b@),
{
    let n = a.len();
    if n != b.len() {
        return false;
    }
    let mut i: usize = 0;
    while i < n
        invariant
            n == a@.len(),
            n == b@.len(),
            i <= n,
            forall|j: int| 0 <= j < i ==> a@[j] == b@[j],
        decreases n - i,
    {
        if a[i] != b[i] {
            return false;
        }
        i = i + 1;
    }
    proof {
        assert(a@ =~= b@);
    }
    true
}

/// Copy a presented credential into owned storage.
#[verifier::loop_isolation(false)]
fn bytes_to_vec(b: &[u8]) -> (r: Vec<u8>)
    ensures
        r@ == b@,
{
    let n = b.len();
    let mut out: Vec<u8> = Vec::new();
    let mut i: usize = 0;
    while i < n
        invariant
            n == b@.len(),
            i <= n,
            out@ == b@.subrange(0, i as int),
        decreases n - i,
    {
        out.push(b[i]);
        i = i + 1;
    }
    proof {
        assert(b@.subrange(0, n as int) =~= b@);
    }
    out
}

/// Index of the user named `name`, if one is stored.
#[verifier::loop_isolation(false)]
fn find_user_idx(users: &Vec<User>, name: &str) -> (r: Option<usize>)
    ensures
        r matches Some(i) ==> i < users@.len() && users@[i as int].username@ == name@,
        r is None ==> forall|j: int| 0 <= j < users@.len() ==> users@[j].username@ != name@,
{
    let n = users.len();
    let mut i: usize = 0;
    while i < n
        invariant
            n == users@.len(),
            i <= n,
            forall|j: int| 0 <= j < i ==> users@[j].username@ != name@,
        decreases n - i,
    {
        if str_eq(users[i].username.as_str(), name) {
            return Some(i);
        }
        i = i + 1;
    }
    None
}

/// Index of the credential entry of `name`, if one is stored.
#[verifier::loop_isolation(false)]
fn find_cred_idx(creds: &Vec<(String, Vec<u8>)>, name: &str) -> (r: Option<usize>)
    ensures
        r matches Some(i) ==> i < creds@.len() && creds@[i as int].0@ == name@,
        r is None ==> forall|j: int| 0 <= j < creds@.len() ==> creds@[j].0@ != name@,
{
    let n = creds.len();
    let mut i: usize = 0;
    while i < n
        invariant
            n == creds@.len(),
            i <= n,
            forall|j: int| 0 <= j < i ==> creds@[j].0@ != name@,
        decreases n - i,
    {
        if str_eq(creds[i].0.as_str(), name) {
            return Some(i);
        }
        i = i + 1;
    }
    None
}

/// Index of the permission entry of `name`, if one is stored.
#[verifier::loop_isolation(false)]
fn find_perm_idx(perms: &Vec<(String, Vec<String>)>, name: &str) -> (r: Option<usize>)
    ensures
        r matches Some(i) ==> i < perms@.len() && perms@[i as int].0@ == name@,
        r is None ==> forall|j: int| 0 <= j < perms@.len() ==> perms@[j].0@ != name@,
{
    let n = perms.len();
    let mut i: usize = 0;
    while i < n
        invariant
            n == perms@.len(),
            i <= n,
            forall|j: int| 0 <= j < i ==> perms@[j].0@ != name@,
        decreases n - i,
    {
        if str_eq(perms[i].0.as_str(), name) {
            return Some(i);
        }
        i = i + 1;
    }
    None
}

/// Mock authentication provider backed by in-memory tables.
pub struct MockAuthProvider {
    /// Users in the system, keyed by username.
    pub users: Vec<User>,
    /// Credentials: username to expected credential bytes.
    pub credentials: Vec<(String, Vec<u8>)>,
    /// Permissions: username to granted patterns.
    pub permissions: Vec<(String, Vec<String>)>,
    /// Whether initialization was called.
    pub initialized: bool,
}

impl MockAuthProvider {
    /// Usernames are unique in each of the three tables.
    pub open spec fn wf(&self) -> bool {
        &&& forall|i: int, j: int|
            0 <= i < j < self.users@.len() ==> self.users@[i].username@
                != self.users@[j].username@
        &&& forall|i: int, j: int|
            0 <= i < j < self.credentials@.len() ==> self.credentials@[i].0@
                != self.credentials@[j].0@
        &&& forall|i: int, j: int|
            0 <= i < j < self.permissions@.len() ==> self.permissions@[i].0@
                != self.permissions@[j].0@
    }

    /// Create a new mock provider with empty tables.
    pub fn new() -> (r: Self)
        ensures
            r.users@.len() == 0,
            r.credentials@.len() == 0,
            r.permissions@.len() == 0,
            r.initialized == false,
            r.wf(),
    {
        MockAuthProvider {
            users: Vec::new(),
            credentials: Vec::new(),
            permissions: Vec::new(),
            initialized: false,
        }
    }

    /// Add a user, replacing a previous user of the same username.
    pub fn with_user(self, user: User) -> (r: Self)
        requires
            self.wf(),
        ensures
            r.wf(),
            r.credentials == self.credentials,
            r.permissions == self.permissions,
            r.initialized == self.initialized,
            has_user_with_name(r.users@, user.username@),
            exists|i: int| 0 <= i < r.users@.len() && r.users@[i] == user,
            forall|m: Seq<char>|
                #[trigger] has_user_with_name(r.users@, m) <==> has_user_with_name(self.users@, m)
                    || m == user.username@,
    {
        let mut s = self;
        let ghost olds = s.users@;
        match find_user_idx(&s.users, user.username.as_str()) {
            Some(i) => {
                let ghost uname = user.username@;
                s.users.set(i, user);
                proof {
                    assert(s.users@[i as int].username@ == uname);
                    assert forall|m: Seq<char>| #[trigger]
                        has_user_with_name(s.users@, m) implies has_user_with_name(olds, m) || m
                        == uname by {
                        let w = choose|w: int|
                            0 <= w < s.users@.len() && s.users@[w].username@ == m;
                        if w != i {
                            assert(olds[w].username@ == m);
                        }
                    }
                    assert forall|m: Seq<char>|
                        has_user_with_name(olds, m) || m == uname implies #[trigger]
                    has_user_with_name(s.users@, m) by {
                        if m == uname {
                            assert(s.users@[i as int].username@ == m);
                        } else {
                            let w = choose|w: int| 0 <= w < olds.len() && olds[w].username@ == m;
                            if w == i {
                                assert(olds[i as int].username@ == uname);
                            } else {
                                assert(s.users@[w].username@ == m);
                            }
                        }
                    }
                }
            },
            None => {
                let ghost uname = user.username@;
                s.users.push(user);
                proof {
                    assert(s.users@[s.users@.len() - 1].username@ == uname);
                    assert forall|m: Seq<char>| #[trigger]
                        has_user_with_name(s.users@, m) implies has_user_with_name(olds, m) || m
                        == uname by {
                        let w = choose|w: int|
                            0 <= w < s.users@.len() && s.users@[w].username@ == m;
                        if w < olds.len() {
                            assert(olds[w].username@ == m);
                        }
                    }
                    assert forall|m: Seq<char>|
                        has_user_with_name(olds, m) || m == uname implies #[trigger]
                    has_user_with_name(s.users@, m) by {
                        if m == uname {
                            assert(s.users@[s.users@.len() - 1].username@ == m);
                        } else {
                            let w = choose|w: int| 0 <= w < olds.len() && olds[w].username@ == m;
                            assert(s.users@[w].username@ == m);
                        }
                    }
                }
            },
        }
        s
    }

    /// Register the expected credential bytes for `username`.
    pub fn with_credential(self, username: &str, password: &[u8]) -> (r: Self)
        requires
            self.wf(),
        ensures
            r.wf(),
            r.users == self.users,
            r.permissions == self.permissions,
            r.initialized == self.initialized,
            cred_matches(r.credentials@, username@, password@),
            forall|m: Seq<char>, g: Seq<u8>|
                m != username@ ==> (#[trigger] cred_matches(r.credentials@, m, g) <==> cred_matches(
                    self.credentials@,
                    m,
                    g,
                )),
    {
        let mut s = self;
        let ghost olds = s.credentials@;
        let entry = (String::from_str(username), bytes_to_vec(password));
        match find_cred_idx(&s.credentials, username) {
            Some(i) => {
                s.credentials.set(i, entry);
                proof {
                    assert(s.credentials@[i as int].0@ == username@);
                    assert(s.credentials@[i as int].1@ == password@);
                    assert forall|m: Seq<char>, g: Seq<u8>| m != username@ implies (
                    #[trigger] cred_matches(s.credentials@, m, g) <==> cred_matches(
                        olds,
                        m,
                        g,
                    )) by {
                        if cred_matches(s.credentials@, m, g) {
                            let w = choose|w: int|
                                0 <= w < s.credentials@.len() && s.credentials@[w].0@ == m
                                    && s.credentials@[w].1@ == g;
                            assert(w != i);
                            assert(olds[w].0@ == m && olds[w].1@ == g);
                        }
                        if cred_matches(olds, m, g) {
                            let w = choose|w: int|
                                0 <= w < olds.len() && olds[w].0@ == m && olds[w].1@ == g;
                            assert(w != i);
                            assert(s.credentials@[w].0@ == m && s.credentials@[w].1@ == g);
                        }
                    }
                }
            },
            None => {
                s.credentials.push(entry);
                proof {
                    assert(s.credentials@[s.credentials@.len() - 1].0@ == username@);
                    assert(s.credentials@[s.credentials@.len() - 1].1@ == password@);
                    assert forall|m: Seq<char>, g: Seq<u8>| m != username@ implies (
                    #[trigger] cred_matches(s.credentials@, m, g) <==> cred_matches(
                        olds,
                        m,
                        g,
                    )) by {
                        if cred_matches(s.credentials@, m, g) {
                            let w = choose|w: int|
                                0 <= w < s.credentials@.len() && s.credentials@[w].0@ == m
                                    && s.credentials@[w].1@ == g;
                            assert(w < olds.len());
                            assert(olds[w].0@ == m && olds[w].1@ == g);
                        }
                        if cred_matches(olds, m, g) {
                            let w = choose|w: int|
                                0 <= w < olds.len() && olds[w].0@ == m && olds[w].1@ == g;
                            assert(s.credentials@[w].0@ == m && s.credentials@[w].1@ == g);
                        }
                    }
                }
            },
        }
        s
    }

    /// Grant `permission` to `username`: the username's patterns become its
    /// previous patterns with the permission appended (or the one-element
    /// list where it had none), and every other username's entry is
    /// untouched.
    pub fn with_permission(self, username: &str, permission: &str) -> (r: Self)
        requires
            self.wf(),
        ensures
            r.wf(),
            r.users == self.users,
            r.credentials == self.credentials,
            r.initialized == self.initialized,
            has_perm_entry(r.permissions@, username@),
            forall|ps: Seq<String>|
                #[trigger] perm_entry_is(self.permissions@, username@, ps) ==> exists|q: String|
                    q@ == permission@ && perm_entry_is(r.permissions@, username@, ps.push(q)),
            !has_perm_entry(self.permissions@, username@) ==> exists|q: String|
                q@ == permission@ && perm_entry_is(r.permissions@, username@, seq![q]),
            forall|m: Seq<char>, ps: Seq<String>|
                m != username@ ==> (#[trigger] perm_entry_is(r.permissions@, m, ps)
                    <==> perm_entry_is(self.permissions@, m, ps)),
    {
        let mut s = self;
        let ghost olds = s.permissions@;
        match find_perm_idx(&s.permissions, username) {
            Some(i) => {
                let mut entry = (
                    s.permissions[i].0.clone(),
                    clone_string_vec(&s.permissions[i].1),
                );
                let pat = String::from_str(permission);
                let ghost gpat = pat;
                entry.1.push(pat);
                proof {
                    assert(entry.1@ == olds[i as int].1@.push(gpat));
                }
                s.permissions.set(i, entry);
                proof {
                    assert(s.permissions@[i as int].0@ == username@);
                    assert forall|ps: Seq<String>| #[trigger]
                        perm_entry_is(olds, username@, ps) implies exists|q: String|
                        q@ == permission@ && perm_entry_is(
                            s.permissions@,
                            username@,
                            ps.push(q),
                        ) by {
                        let w = choose|w: int|
                            0 <= w < olds.len() && olds[w].0@ == username@ && olds[w].1@ == ps;
                        assert(w == i);
                        assert(s.permissions@[i as int].1@ == ps.push(gpat));
                        assert(perm_entry_is(s.permissions@, username@, ps.push(gpat)));
                    }
                    assert forall|m: Seq<char>, ps: Seq<String>| m != username@ implies (
                    #[trigger] perm_entry_is(s.permissions@, m, ps) <==> perm_entry_is(
                        olds,
                        m,
                        ps,
                    )) by {
                        if perm_entry_is(s.permissions@, m, ps) {
                            let w = choose|w: int|
                                0 <= w < s.permissions@.len() && s.permissions@[w].0@ == m
                                    && s.permissions@[w].1@ == ps;
                            assert(w != i);
                            assert(olds[w].0@ == m && olds[w].1@ == ps);
                        }
                        if perm_entry_is(olds, m, ps) {
                            let w = choose|w: int|
                                0 <= w < olds.len() && olds[w].0@ == m && olds[w].1@ == ps;
                            assert(w != i);
                            assert(s.permissions@[w].0@ == m && s.permissions@[w].1@ == ps);
                        }
                    }
                }
            },
            None => {
                let mut pats: Vec<String> = Vec::new();
                let pat = String::from_str(permission);
                let ghost gpat = pat;
                pats.push(pat);
                s.permissions.push((String::from_str(username), pats));
                proof {
                    assert(s.permissions@[s.permissions@.len() - 1].0@ == username@);
                    assert(s.permissions@[s.permissions@.len() - 1].1@ =~= seq![gpat]);
                    assert(perm_entry_is(s.permissions@, username@, seq![gpat]));
                    assert forall|m: Seq<char>, ps: Seq<String>| m != username@ implies (
                    #[trigger] perm_entry_is(s.permissions@, m, ps) <==> perm_entry_is(
                        olds,
                        m,
                        ps,
                    )) by {
                        if perm_entry_is(s.permissions@, m, ps) {
                            let w = choose|w: int|
                                0 <= w < s.permissions@.len() && s.permissions@[w].0@ == m
                                    && s.permissions@[w].1@ == ps;
                            assert(w < olds.len());
                            assert(olds[w].0@ == m && olds[w].1@ == ps);
                        }
                        if perm_entry_is(olds, m, ps) {
                            let w = choose|w: int|
                                0 <= w < olds.len() && olds[w].0@ == m && olds[w].1@ == ps;
                            assert(s.permissions@[w].0@ == m && s.permissions@[w].1@ == ps);
                        }
                    }
                }
            },
        }
        s
    }

    /// Mark the provider initialized.
    pub fn initialize(&mut self) -> (r: Result<(), AuthError>)
        ensures
            r is Ok,
            final(self).initialized == true,
            final(self).users == old(self).users,
            final(self).credentials == old(self).credentials,
            final(self).permissions == old(self).permissions,
    {
        self.initialized = true;
        Ok(())
    }

    /// Validate a credential.
    ///
    /// `password` compares the presented bytes with the stored credential;
    /// `psk` only asks that the user exist.  A wrong password and an unknown
    /// user are both a clean `false`, never an error, so the two cannot be
    /// told apart by the caller.  Any other method is refused as
    /// unsupported.
    pub fn validate_credentials(&self, username: &str, credentials: &[u8], method: &str) -> (r:
        Result<bool, AuthError>)
        requires
            self.wf(),
        ensures
            method@ == "password"@ ==> r == Ok::<bool, AuthError>(
                cred_matches(self.credentials@, username@, credentials@),
            ),
            method@ != "password"@ && method@ == "psk"@ ==> r == Ok::<bool, AuthError>(
                has_user_with_name(self.users@, username@),
            ),
            method@ != "password"@ && method@ != "psk"@ ==> (r matches Err(e) && e
                is UnsupportedMethod),
    {
        if str_eq(method, "password") {
            match find_cred_idx(&self.credentials, username) {
                Some(i) => {
                    let stored = &self.credentials[i].1;
                    let ok = bytes_eq(stored, credentials);
                    proof {
                        if ok {
                            assert(cred_matches(self.credentials@, username@, credentials@));
                        } else {
                            if cred_matches(self.credentials@, username@, credentials@) {
                                let w = choose|w: int|
                                    0 <= w < self.credentials@.len() && self.credentials@[w].0@
                                        == username@ && self.credentials@[w].1@ == credentials@;
                                assert(w == i);
                            }
                        }
                    }
                    Ok(ok)
                },
                None => {
                    proof {
                        if cred_matches(self.credentials@, username@, credentials@) {
                            let w = choose|w: int|
                                0 <= w < self.credentials@.len() && self.credentials@[w].0@
                                    == username@ && self.credentials@[w].1@ == credentials@;
                        }
                    }
                    Ok(false)
                },
            }
        } else if str_eq(method, "psk") {
            match find_user_idx(&self.users, username) {
                Some(_) => Ok(true),
                None => Ok(false),
            }
        } else {
            Err(AuthError::UnsupportedMethod(String::from_str(method)))
        }
    }

    /// Get a user by username.
    pub fn get_user_by_username(&self, username: &str) -> (r: Result<Option<User>, AuthError>)
        ensures
            r matches Ok(o) && (o is Some <==> has_user_with_name(self.users@, username@)),
            r matches Ok(o) && (o matches Some(u) ==> exists|i: int|
                0 <= i < self.users@.len() && self.users@[i] == u && u.username@ == username@),
    {
        match find_user_idx(&self.users, username) {
            Some(i) => Ok(Some(self.users[i].clone())),
            None => Ok(None),
        }
    }

    /// Get a user by ID.
    #[verifier::loop_isolation(false)]
    pub fn get_user(&self, id: &crate::server::user::UserId) -> (r: Result<Option<User>, AuthError>)
        ensures
            r matches Ok(o) && (o is Some <==> crate::server::user::has_user_with_id(
                self.users@,
                *id,
            )),
            r matches Ok(o) && (o matches Some(u) ==> exists|i: int|
                0 <= i < self.users@.len() && self.users@[i] == u && u.id == *id),
    {
        let n = self.users.len();
        let mut i: usize = 0;
        while i < n
            invariant
                n == self.users@.len(),
                i <= n,
                forall|j: int| 0 <= j < i ==> self.users@[j].id != *id,
            decreases n - i,
        {
            if self.users[i].id == *id {
                return Ok(Some(self.users[i].clone()));
            }
            i = i + 1;
        }
        Ok(None)
    }

    /// List all users.
    #[verifier::loop_isolation(false)]
    pub fn list_users(&self) -> (r: Result<Vec<User>, AuthError>)
        ensures
            r matches Ok(v) && v@ == self.users@,
    {
        let n = self.users.len();
        let mut out: Vec<User> = Vec::new();
        let mut i: usize = 0;
        while i < n
            invariant
                n == self.users@.len(),
                i <= n,
                out@ == self.users@.subrange(0, i as int),
            decreases n - i,
        {
            out.push(self.users[i].clone());
            i = i + 1;
        }
        proof {
            assert(self.users@.subrange(0, n as int) =~= self.users@);
        }
        Ok(out)
    }

    /// Create a user; the mock provider accepts and discards the record.
    pub fn create_user(&self, _user: User) -> (r: Result<(), AuthError>)
        ensures
            r is Ok,
    {
        Ok(())
    }

    /// Update a user; the mock provider accepts and discards the record.
    pub fn update_user(&self, _user: User) -> (r: Result<(), AuthError>)
        ensures
            r is Ok,
    {
        Ok(())
    }

    /// Delete a user; the mock provider accepts and ignores the request.
    pub fn delete_user(&self, _id: &crate::server::user::UserId) -> (r: Result<(), AuthError>)
        ensures
            r is Ok,
    {
        Ok(())
    }

    /// Whether the user holds the requested permission.
    ///
    /// A permission is held when the user's granted patterns cover it under
    /// the wildcard rule, or when the user's role is Admin, which implies
    /// every permission regardless of explicit grants.
    pub fn has_permission(&self, user: &User, permission: &str) -> (r: Result<bool, AuthError>)
        requires
            self.wf(),
        ensures
            r == Ok::<bool, AuthError>(
                user.role is Admin || perm_entry_grants(
                    self.permissions@,
                    user.username@,
                    permission@,
                ),
            ),
    {
        match find_perm_idx(&self.permissions, user.username.as_str()) {
            Some(i) => {
                let covered = permission_set_grants(&self.permissions[i].1, permission);
                proof {
                    if covered {
                        assert(perm_entry_grants(self.permissions@, user.username@, permission@));
                    } else {
                        if perm_entry_grants(self.permissions@, user.username@, permission@) {
                            let w = choose|w: int|
                                0 <= w < self.permissions@.len() && self.permissions@[w].0@
                                    == user.username@ && granted(
                                    self.permissions@[w].1@,
                                    permission@,
                                );
                            assert(w == i);
                        }
                    }
                }
                if covered {
                    Ok(true)
                } else {
                    Ok(matches!(user.role, crate::server::user::UserRole::Admin))
                }
            },
            None => {
                proof {
                    if perm_entry_grants(self.permissions@, user.username@, permission@) {
                        let w = choose|w: int|
                            0 <= w < self.permissions@.len() && self.permissions@[w].0@
                                == user.username@ && granted(self.permissions@[w].1@, permission@);
                    }
                }
                Ok(matches!(user.role, crate::server::user::UserRole::Admin))
            },
        }
    }

    /// The patterns granted to the user; empty when none are registered.
    pub fn get_permissions(&self, user: &User) -> (r: Result<Vec<String>, AuthError>)
        requires
            self.wf(),
        ensures
            r matches Ok(v),
            r matches Ok(v) && (exists|i: int|
                0 <= i < self.permissions@.len() && self.permissions@[i].0@ == user.username@)
                ==> exists|i: int|
                0 <= i < self.permissions@.len() && self.permissions@[i].0@ == user.username@
                    && (r matches Ok(v) && v@ == self.permissions@[i].1@),
            r matches Ok(v) && (forall|i: int|
                0 <= i < self.permissions@.len() ==> self.permissions@[i].0@ != user.username@)
                ==> (r matches Ok(v) && v@.len() == 0),
    {
        match find_perm_idx(&self.permissions, user.username.as_str()) {
            Some(i) => Ok(clone_string_vec(&self.permissions[i].1)),
            None => Ok(Vec::new()),
        }
    }

    /// The mock provider supports user management.
    pub fn supports_user_management(&self) -> (r: bool)
        ensures
            r == true,
    {
        true
    }

    /// Whether the given authentication method is implemented.
    pub fn supports_auth_method(&self, method: &str) -> (r: bool)
        ensures
            r == (method@ == "password"@ || method@ == "psk"@),
    {
        str_eq(method, "password") || str_eq(method, "psk")
    }

    /// The provider's name.
    pub fn name(&self) -> (r: &'static str)
        ensures
            r@ == "mock-provider"@,
    {
        "mock-provider"
    }
}

} // verus!
