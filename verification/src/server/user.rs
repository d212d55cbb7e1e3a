//! Users, roles and the in-memory user store.

use vstd::prelude::*;
use vstd::string::StringExecFns;
use crate::server::error::Error;
use crate::strutil::str_eq;

verus! {

/// Stable identifier of a principal.
///
/// OS-backed providers synthesize it deterministically from the username;
/// other providers may assign it freely.
#[derive(Clone, Copy, PartialEq, Eq, Structural, Debug, Hash)]
pub struct UserId {
    pub value: u128,
}

/// The identifier that a name-based (version 5) UUID derives from the given
/// characters.  The value is a fixed function of the name alone; nothing
/// further is assumed about it.
pub uninterp spec fn uuid5_of(name: Seq<char>) -> u128;

/// Relies on `uuid::Uuid::new_v5` over the DNS namespace: the result is a
/// SHA-1 digest of namespace and name, a deterministic function of the
/// username's characters alone.
#[verifier::external_body]
pub(crate) fn synthesize_user_id(username: &str) -> (r: UserId)
    ensures
        r.value == uuid5_of(username@),
{
    UserId { value: uuid::Uuid::new_v5(&uuid::Uuid::NAMESPACE_DNS, username.as_bytes()).as_u128() }
}

/// User role types.
#[derive(Clone, Copy, PartialEq, Eq, Structural, Debug)]
pub enum UserRole {
    /// Administrator with full access.
    Admin,
    /// Regular user with limited access.
    User,
    /// Guest user with restricted access.
    Guest,
}

impl UserRole {
    /// The characters of the lowercase name of this role.
    pub open spec fn spec_as_str(&self) -> Seq<char> {
        match self {
            UserRole::Admin => "admin"@,
            UserRole::User => "user"@,
            UserRole::Guest => "guest"@,
        }
    }

    /// Convert a role to its lowercase name.
    pub fn as_str(&self) -> (r: &'static str)
        ensures
            r@ == self.spec_as_str(),
    {
        match self {
            UserRole::Admin => "admin",
            UserRole::User => "user",
            UserRole::Guest => "guest",
        }
    }
}

/// True when `c` reads as the lowercase character `l`: either equal to
/// it, or its ASCII uppercase form.
pub open spec fn char_lower_matches(c: char, l: char) -> bool {
    c == l || ('a' <= l && l <= 'z' && c as int == l as int - 32)
}

/// True when `s`, lowercased ASCII-wise, is exactly `t`.
pub open spec fn spec_lower_eq(s: Seq<char>, t: Seq<char>) -> bool {
    s.len() == t.len() && forall|i: int| 0 <= i < s.len() ==> char_lower_matches(s[i], #[trigger] t[i])
}

/// Decide whether `s`, lowercased ASCII-wise, equals `t`.
#[verifier::loop_isolation(false)]
fn eq_ignore_ascii_case(s: &str, t: &str) -> (r: bool)
    ensures
        r == spec_lower_eq(s@, t@),
{
    let n = s.unicode_len();
    if n != t.unicode_len() {
        return false;
    }
    let mut i: usize = 0;
    while i < n
        invariant
            n == s@.len(),
            n == t@.len(),
            i <= n,
            forall|j: int| 0 <= j < i ==> char_lower_matches(s@[j], #[trigger] t@[j]),
        decreases n - i,
    {
        let c = s.get_char(i);
        let l = t.get_char(i);
        let matched = c == l || ('a' <= l && l <= 'z' && (c as u32) + 32 == (l as u32));
        if !matched {
            proof {
                assert(!char_lower_matches(s@[i as int], t@[i as int]));
            }
            return false;
        }
        i = i + 1;
    }
    true
}

impl UserRole {
    /// Read a role from its name, ASCII case-insensitively; any other
    /// text is an invalid argument.
    pub fn parse_role(s: &str) -> (r: Result<UserRole, Error>)
        ensures
            spec_lower_eq(s@, "admin"@) ==> r == Ok::<UserRole, Error>(UserRole::Admin),
            !spec_lower_eq(s@, "admin"@) && spec_lower_eq(s@, "user"@) ==> r == Ok::<
                UserRole,
                Error,
            >(UserRole::User),
            !spec_lower_eq(s@, "admin"@) && !spec_lower_eq(s@, "user"@) && spec_lower_eq(
                s@,
                "guest"@,
            ) ==> r == Ok::<UserRole, Error>(UserRole::Guest),
            !spec_lower_eq(s@, "admin"@) && !spec_lower_eq(s@, "user"@) && !spec_lower_eq(
                s@,
                "guest"@,
            ) ==> (r matches Err(e) && e is InvalidArgument),
    {
        if eq_ignore_ascii_case(s, "admin") {
            Ok(UserRole::Admin)
        } else if eq_ignore_ascii_case(s, "user") {
            Ok(UserRole::User)
        } else if eq_ignore_ascii_case(s, "guest") {
            Ok(UserRole::Guest)
        } else {
            Err(
                Error::InvalidArgument(
                    String::from_str("Invalid user role: ").concat(s),
                ),
            )
        }
    }
}

impl core::str::FromStr for UserRole {
    type Err = Error;

    fn from_str(s: &str) -> Result<UserRole, Error> {
        UserRole::parse_role(s)
    }
}

/// A user in the system.
#[derive(Debug)]
pub struct User {
    /// Unique user ID.
    pub id: UserId,
    /// Username.
    pub username: String,
    /// User's full name (optional).
    pub full_name: Option<String>,
    /// User's email (optional).
    pub email: Option<String>,
    /// Password hash; never handed outward.
    pub password_hash: String,
    /// User role.
    pub role: UserRole,
    /// When the user was created.
    pub created_at: String,
    /// When the user was last updated.
    pub updated_at: String,
}

/// Clone an optional string, preserving its value exactly.
fn clone_opt_string(o: &Option<String>) -> (r: Option<String>)
    ensures
        r == *o,
{
    match o {
        Some(s) => Some(s.clone()),
        None => None,
    }
}

impl Clone for User {
    fn clone(&self) -> (r: Self)
        ensures
            r == *self,
    {
        User {
            id: self.id,
            username: self.username.clone(),
            full_name: clone_opt_string(&self.full_name),
            email: clone_opt_string(&self.email),
            password_hash: self.password_hash.clone(),
            role: self.role,
            created_at: self.created_at.clone(),
            updated_at: self.updated_at.clone(),
        }
    }
}

/// True when `s` holds a user with identifier `id`.
pub open spec fn has_user_with_id(s: Seq<User>, id: UserId) -> bool {
    exists|i: int| 0 <= i < s.len() && s[i].id == id
}

/// True when `s` holds a user with username `name`.
pub open spec fn has_user_with_name(s: Seq<User>, name: Seq<char>) -> bool {
    exists|i: int| 0 <= i < s.len() && s[i].username@ == name
}

/// In-memory store of users, keyed by their unique identifier.
pub struct UserManager {
    /// The stored users; no two share an identifier.
    pub users: Vec<User>,
}

impl UserManager {
    /// No two stored users share an identifier.
    pub open spec fn wf(&self) -> bool {
        forall|i: int, j: int|
            0 <= i < j < self.users@.len() ==> self.users@[i].id != self.users@[j].id
    }

    /// Create an empty user store.
    pub fn new() -> (r: Self)
        ensures
            r.users@.len() == 0,
            r.wf(),
    {
        UserManager { users: Vec::new() }
    }

    /// Get a user by ID.
    #[verifier::loop_isolation(false)]
    pub fn get_user(&self, id: &UserId) -> (r: Option<User>)
        ensures
            r is Some <==> has_user_with_id(self.users@, *id),
            r matches Some(u) ==> exists|i: int|
                0 <= i < self.users@.len() && self.users@[i] == u && u.id == *id,
    {
        let n = self.users.len();
        let mut i: usize = 0;
        while i < n
            invariant
                n == self.users@.len(),
                i <= n,
                forall|j: int| 0 <= j < i ==> self.users@[j].id != *id,
            decreases n - i,
        {
            if self.users[i].id == *id {
                return Some(self.users[i].clone());
            }
            i = i + 1;
        }
        None
    }

    /// Get a user by username.
    #[verifier::loop_isolation(false)]
    pub fn get_user_by_username(&self, username: &str) -> (r: Option<User>)
        ensures
            r is Some <==> has_user_with_name(self.users@, username@),
            r matches Some(u) ==> exists|i: int|
                0 <= i < self.users@.len() && self.users@[i] == u && u.username@ == username@,
    {
        let n = self.users.len();
        let mut i: usize = 0;
        while i < n
            invariant
                n == self.users@.len(),
                i <= n,
                forall|j: int| 0 <= j < i ==> self.users@[j].username@ != username@,
            decreases n - i,
        {
            if str_eq(self.users[i].username.as_str(), username) {
                return Some(self.users[i].clone());
            }
            i = i + 1;
        }
        None
    }

    /// Add a new user.
    ///
    /// Fails when a user with the same username is already stored; otherwise
    /// the user is inserted under its identifier, replacing any entry that
    /// already carried that identifier.
    #[verifier::loop_isolation(false)]
    pub fn add_user(&mut self, user: User) -> (r: Result<(), Error>)
        requires
            old(self).wf(),
        ensures
            final(self).wf(),
            has_user_with_name(old(self).users@, user.username@) ==> r is Err && *final(self) == *old(
                self,
            ),
            !has_user_with_name(old(self).users@, user.username@) ==> r is Ok && (
            if has_user_with_id(old(self).users@, user.id) {
                exists|i: int|
                    0 <= i < old(self).users@.len() && old(self).users@[i].id == user.id
                        && final(self).users@ == old(self).users@.update(i, user)
            } else {
                final(self).users@ == old(self).users@.push(user)
            }),
    {
        let n = self.users.len();
        let mut i: usize = 0;
        while i < n
            invariant
                n == self.users@.len(),
                i <= n,
                *self == *old(self),
                forall|j: int| 0 <= j < i ==> self.users@[j].username@ != user.username@,
            decreases n - i,
        {
            if str_eq(self.users[i].username.as_str(), user.username.as_str()) {
                return Err(
                    Error::AlreadyExists(
                        String::from_str("User with username '").concat(
                            user.username.as_str(),
                        ).concat("' already exists"),
                    ),
                );
            }
            i = i + 1;
        }
        let mut k: usize = 0;
        while k < n
            invariant
                n == self.users@.len(),
                k <= n,
                *self == *old(self),
                forall|j: int| 0 <= j < k ==> self.users@[j].id != user.id,
            decreases n - k,
        {
            if self.users[k].id == user.id {
                self.users.set(k, user);
                return Ok(());
            }
            k = k + 1;
        }
        self.users.push(user);
        Ok(())
    }

    /// Update an existing user, identified by its ID.
    #[verifier::loop_isolation(false)]
    pub fn update_user(&mut self, user: User) -> (r: Result<(), Error>)
        requires
            old(self).wf(),
        ensures
            final(self).wf(),
            !has_user_with_id(old(self).users@, user.id) ==> r is Err && *final(self) == *old(self),
            has_user_with_id(old(self).users@, user.id) ==> r is Ok && exists|i: int|
                0 <= i < old(self).users@.len() && old(self).users@[i].id == user.id
                    && final(self).users@ == old(self).users@.update(i, user),
    {
        let n = self.users.len();
        let mut i: usize = 0;
        while i < n
            invariant
                n == self.users@.len(),
                i <= n,
                *self == *old(self),
                forall|j: int| 0 <= j < i ==> self.users@[j].id != user.id,
            decreases n - i,
        {
            if self.users[i].id == user.id {
                self.users.set(i, user);
                return Ok(());
            }
            i = i + 1;
        }
        Err(Error::NotFound(String::from_str("User not found")))
    }

    /// Remove a user by ID.
    #[verifier::loop_isolation(false)]
    pub fn remove_user(&mut self, id: &UserId) -> (r: Result<(), Error>)
        requires
            old(self).wf(),
        ensures
            final(self).wf(),
            !has_user_with_id(old(self).users@, *id) ==> r is Err && *final(self) == *old(self),
            has_user_with_id(old(self).users@, *id) ==> r is Ok && exists|i: int|
                0 <= i < old(self).users@.len() && old(self).users@[i].id == *id && final(self).users@
                    == old(self).users@.remove(i),
    {
        let n = self.users.len();
        let mut i: usize = 0;
        while i < n
            invariant
                n == self.users@.len(),
                i <= n,
                *self == *old(self),
                forall|j: int| 0 <= j < i ==> self.users@[j].id != *id,
            decreases n - i,
        {
            if self.users[i].id == *id {
                self.users.remove(i);
                return Ok(());
            }
            i = i + 1;
        }
        Err(Error::NotFound(String::from_str("User not found")))
    }

    /// List all users.
    #[verifier::loop_isolation(false)]
    pub fn list_users(&self) -> (r: Vec<User>)
        ensures
            r@ == self.users@,
    {
        let n = self.users.len();
        let mut out: Vec<User> = Vec::new();
        let mut i: usize = 0;
        while i < n
            invariant
                n == self.users@.len(),
                i <= n,
                out@ == self.users@.subrange(0, i as int),
            decreases n - i,
        {
            out.push(self.users[i].clone());
            i = i + 1;
        }
        proof {
            assert(self.users@.subrange(0, n as int) =~= self.users@);
        }
        out
    }
}

} // verus!
