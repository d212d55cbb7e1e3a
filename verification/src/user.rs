//! Service-level user records and their in-memory store.

use vstd::prelude::*;
use vstd::string::StringExecFns;
use crate::error::ServiceError;
use crate::strutil::str_eq;

verus! {

/// A user of the daemon's service layer.
#[derive(Debug)]
pub struct ServiceUser {
    /// Username.
    pub username: String,
    /// Role name.
    pub role: String,
    /// Granted permission patterns.
    pub permissions: Vec<String>,
}

/// A username together with its password hash.
#[derive(Debug)]
pub struct UserCredentials {
    /// Username.
    pub username: String,
    /// Password hash.
    pub password_hash: String,
}

/// True when `s` holds a service user named `name`.
pub open spec fn has_service_user(s: Seq<ServiceUser>, name: Seq<char>) -> bool {
    exists|i: int| 0 <= i < s.len() && s[i].username@ == name
}

/// In-memory store of service users, keyed by username.
pub struct UserManager {
    /// The stored users; no two share a username.
    pub users: Vec<ServiceUser>,
}

impl Default for UserManager {
    fn default() -> (r: Self)
        ensures
            r.users@.len() == 0,
    {
        UserManager::new()
    }
}

impl UserManager {
    /// No two stored users share a username.
    pub open spec fn wf(&self) -> bool {
        forall|i: int, j: int|
            0 <= i < j < self.users@.len() ==> self.users@[i].username@
                != self.users@[j].username@
    }

    /// Create an empty store.
    pub fn new() -> (r: Self)
        ensures
            r.users@.len() == 0,
            r.wf(),
    {
        UserManager { users: Vec::new() }
    }

    /// Add a user with the given role and no permissions.
    ///
    /// Fails exactly when a user of that name already exists.
    #[verifier::loop_isolation(false)]
    pub fn add_user(&mut self, username: String, role: String) -> (r: Result<(), ServiceError>)
        requires
            old(self).wf(),
        ensures
            final(self).wf(),
            has_service_user(old(self).users@, username@) ==> r is Err && *final(self) == *old(self),
            !has_service_user(old(self).users@, username@) ==> r is Ok && final(self).users@.len()
                == old(self).users@.len() + 1 && final(self).users@.last().username@ == username@
                && final(self).users@.last().role@ == role@
                && final(self).users@.last().permissions@.len() == 0
                && final(self).users@.subrange(0, old(self).users@.len() as int) == old(
                self,
            ).users@,
    {
        let n = self.users.len();
        let mut i: usize = 0;
        while i < n
            invariant
                n == self.users@.len(),
                i <= n,
                *self == *old(self),
                forall|j: int| 0 <= j < i ==> self.users@[j].username@ != username@,
            decreases n - i,
        {
            if str_eq(self.users[i].username.as_str(), username.as_str()) {
                return Err(ServiceError::Service(String::from_str("User already exists")));
            }
            i = i + 1;
        }
        let user = ServiceUser { username, role, permissions: Vec::new() };
        self.users.push(user);
        proof {
            assert(self.users@.subrange(0, old(self).users@.len() as int) =~= old(self).users@);
        }
        Ok(())
    }
}

} // verus!
