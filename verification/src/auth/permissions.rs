//! Permission patterns and the wildcard matching rule.
//!
//! A permission is a string of the form `resource:action`.  A granted
//! pattern may end in `:*`, in which case it covers every action of that
//! resource.  Matching is prefix-based on `resource:`, the colon included,
//! so `admin:*` covers `admin:users` but not `administration:users`.

use vstd::prelude::*;
use crate::strutil::{contains_string, str_eq};

verus! {

/// True when the pattern `p` ends in `:*`.
pub open spec fn is_wildcard(p: Seq<char>) -> bool {
    p.len() >= 2 && p[p.len() - 2] == ':' && p[p.len() - 1] == '*'
}

/// The wildcard matching rule: a granted pattern `p` matches a requested
/// permission `r` when they are equal, or when `p` ends in `:*` and `r`
/// starts with the same prefix up to and including the colon.
pub open spec fn pattern_matches(p: Seq<char>, r: Seq<char>) -> bool {
    p == r || (is_wildcard(p) && r.len() >= p.len() - 1 && r.subrange(0, p.len() - 1)
        == p.subrange(0, p.len() - 1))
}

/// True when some pattern in `perms` matches the requested permission `req`.
pub open spec fn granted(perms: Seq<String>, req: Seq<char>) -> bool {
    exists|i: int| 0 <= i < perms.len() && pattern_matches(perms[i]@, req)
}

/// Decide whether pattern `p` matches requested permission `r`.
#[verifier::loop_isolation(false)]
pub fn pattern_matches_exec(p: &str, r: &str) -> (res: bool)
    ensures
        res == pattern_matches(p@, r@),
{
    if str_eq(p, r) {
        return true;
    }
    let pl = p.unicode_len();
    let rl = r.unicode_len();
    if pl < 2 {
        return false;
    }
    if p.get_char(pl - 2) != ':' || p.get_char(pl - 1) != '*' {
        return false;
    }
    if rl < pl - 1 {
        return false;
    }
    let prefix_len = pl - 1;
    let mut i: usize = 0;
    while i < prefix_len
        invariant
            prefix_len == p@.len() - 1,
            prefix_len <= r@.len(),
            i <= prefix_len,
            forall|j: int| 0 <= j < i ==> p@[j] == r@[j],
        decreases prefix_len - i,
    {
        if p.get_char(i) != r.get_char(i) {
            proof {
                assert(p@.subrange(0, p@.len() - 1)[i as int] != r@.subrange(
                    0,
                    p@.len() - 1,
                )[i as int]);
            }
            return false;
        }
        i = i + 1;
    }
    proof {
        assert(p@.subrange(0, p@.len() - 1) =~= r@.subrange(0, p@.len() - 1));
    }
    true
}

/// Decide whether the granted set `perms` covers the requested permission.
#[verifier::loop_isolation(false)]
pub fn permission_set_grants(perms: &Vec<String>, requested: &str) -> (res: bool)
    ensures
        res == granted(perms@, requested@),
{
    let n = perms.len();
    let mut i: usize = 0;
    while i < n
        invariant
            n == perms@.len(),
            i <= n,
            forall|j: int| 0 <= j < i ==> !pattern_matches(perms@[j]@, requested@),
        decreases n - i,
    {
        if pattern_matches_exec(perms[i].as_str(), requested) {
            return true;
        }
        i = i + 1;
    }
    false
}

/// Custom permission mappings: an association from OS group names to the
/// permission patterns granted to members of that group.
///
/// Keys are unique; insertion replaces the patterns of an existing group.
#[derive(Debug)]
pub struct PermissionMappings {
    /// The `(group, patterns)` entries; no two entries share a group name.
    pub entries: Vec<(String, Vec<String>)>,
}

/// True when `entries` holds a mapping for group name `k`.
pub open spec fn has_mapping(entries: Seq<(String, Vec<String>)>, k: Seq<char>) -> bool {
    exists|i: int| 0 <= i < entries.len() && entries[i].0@ == k
}

/// Clone a vector of strings, preserving its contents exactly.
#[verifier::loop_isolation(false)]
pub fn clone_string_vec(v: &Vec<String>) -> (r: Vec<String>)
    ensures
        r@ == v@,
{
    let n = v.len();
    let mut out: Vec<String> = Vec::new();
    let mut i: usize = 0;
    while i < n
        invariant
            n == v@.len(),
            i <= n,
            out@ == v@.subrange(0, i as int),
        decreases n - i,
    {
        out.push(v[i].clone());
        i = i + 1;
    }
    proof {
        assert(v@.subrange(0, n as int) =~= v@);
    }
    out
}

impl PermissionMappings {
    /// No two entries share a group name.
    pub open spec fn wf(&self) -> bool {
        forall|i: int, j: int|
            0 <= i < j < self.entries@.len() ==> self.entries@[i].0@ != self.entries@[j].0@
    }

    /// Create an empty mapping.
    pub fn new() -> (r: Self)
        ensures
            r.entries@.len() == 0,
            r.wf(),
    {
        PermissionMappings { entries: Vec::new() }
    }

    /// Register `patterns` for `group`, replacing any previous entry.
    #[verifier::loop_isolation(false)]
    pub fn insert(&mut self, group: String, patterns: Vec<String>) -> (r: ())
        requires
            old(self).wf(),
        ensures
            final(self).wf(),
            !has_mapping(old(self).entries@, group@) ==> final(self).entries@ == old(
                self,
            ).entries@.push((group, patterns)),
            has_mapping(old(self).entries@, group@) ==> exists|i: int|
                0 <= i < old(self).entries@.len() && old(self).entries@[i].0@ == group@
                    && final(self).entries@ == old(self).entries@.update(i, (group, patterns)),
    {
        let n = self.entries.len();
        let mut i: usize = 0;
        while i < n
            invariant
                n == self.entries@.len(),
                i <= n,
                *self == *old(self),
                forall|j: int| 0 <= j < i ==> self.entries@[j].0@ != group@,
            decreases n - i,
        {
            if str_eq(self.entries[i].0.as_str(), group.as_str()) {
                self.entries.set(i, (group, patterns));
                return ;
            }
            i = i + 1;
        }
        self.entries.push((group, patterns));
    }

    /// Look up the patterns registered for `group`.
    #[verifier::loop_isolation(false)]
    pub fn get(&self, group: &str) -> (r: Option<Vec<String>>)
        ensures
            r is Some <==> has_mapping(self.entries@, group@),
            r matches Some(v) ==> exists|i: int|
                0 <= i < self.entries@.len() && self.entries@[i].0@ == group@ && v@
                    == self.entries@[i].1@,
    {
        let n = self.entries.len();
        let mut i: usize = 0;
        while i < n
            invariant
                n == self.entries@.len(),
                i <= n,
                forall|j: int| 0 <= j < i ==> self.entries@[j].0@ != group@,
            decreases n - i,
        {
            if str_eq(self.entries[i].0.as_str(), group) {
                return Some(clone_string_vec(&self.entries[i].1));
            }
            i = i + 1;
        }
        None
    }

    /// The number of groups with a registered mapping.
    pub fn len(&self) -> (r: usize)
        ensures
            r == self.entries@.len(),
    {
        self.entries.len()
    }
}

impl Clone for PermissionMappings {
    /// The clone carries the same groups, in the same order, with the same
    /// patterns.
    #[verifier::loop_isolation(false)]
    fn clone(&self) -> (r: Self)
        ensures
            r.entries@.len() == self.entries@.len(),
            forall|i: int|
                0 <= i < self.entries@.len() ==> r.entries@[i].0 == self.entries@[i].0
                    && r.entries@[i].1@ == self.entries@[i].1@,
            self.wf() ==> r.wf(),
    {
        let n = self.entries.len();
        let mut out: Vec<(String, Vec<String>)> = Vec::new();
        let mut i: usize = 0;
        while i < n
            invariant
                n == self.entries@.len(),
                i <= n,
                out@.len() == i,
                forall|j: int|
                    0 <= j < i ==> out@[j].0 == self.entries@[j].0 && out@[j].1@
                        == self.entries@[j].1@,
            decreases n - i,
        {
            out.push((self.entries[i].0.clone(), clone_string_vec(&self.entries[i].1)));
            i = i + 1;
        }
        PermissionMappings { entries: out }
    }
}

/// True when `s` holds no character `c`.
pub open spec fn free_of(s: Seq<char>, c: char) -> bool {
    forall|i: int| 0 <= i < s.len() ==> s[i] != c
}

/// A wildcard pattern covers every action of its resource: for any resource
/// `x` and action `y`, the pattern `x:*` matches the permission `x:y`.
pub proof fn lemma_wildcard_matches(x: Seq<char>, y: Seq<char>)
    ensures
        pattern_matches(x + ":*"@, x + ":"@ + y),
{
    reveal_strlit(":*");
    reveal_strlit(":");
    let p = x + ":*"@;
    let r = x + ":"@ + y;
    assert(p[p.len() - 2] == ':');
    assert(p[p.len() - 1] == '*');
    assert(r.subrange(0, p.len() - 1) =~= p.subrange(0, p.len() - 1));
}

/// A wildcard pattern covers only its own resource: for colon-free resources
/// `x != z`, the pattern `x:*` does not match the permission `z:y`.
pub proof fn lemma_wildcard_prefix_mismatch(x: Seq<char>, z: Seq<char>, y: Seq<char>)
    requires
        free_of(x, ':'),
        free_of(z, ':'),
        x != z,
    ensures
        !pattern_matches(x + ":*"@, z + ":"@ + y),
{
    reveal_strlit(":*");
    reveal_strlit(":");
    let p = x + ":*"@;
    let r = z + ":"@ + y;
    // The two sides place their first colon at x.len() and z.len()
    // respectively, so agreement forces the resources to have equal length.
    if x.len() < z.len() {
        assert(r[x.len() as int] == z[x.len() as int]);
        assert(p[x.len() as int] == ':');
        assert(p != r);
        assert(r.subrange(0, p.len() - 1) != p.subrange(0, p.len() - 1)) by {
            if r.subrange(0, p.len() - 1) == p.subrange(0, p.len() - 1) {
                assert(r.subrange(0, p.len() - 1)[x.len() as int] == r[x.len() as int]);
                assert(p.subrange(0, p.len() - 1)[x.len() as int] == ':');
            }
        }
    } else if x.len() > z.len() {
        assert(r[z.len() as int] == ':');
        assert(p[z.len() as int] == x[z.len() as int]);
        assert(x[z.len() as int] != ':');
        if p == r {
            assert(p[z.len() as int] == r[z.len() as int]);
            assert(false);
        }
        if r.len() >= p.len() - 1 {
            assert(r.subrange(0, p.len() - 1) != p.subrange(0, p.len() - 1)) by {
                if r.subrange(0, p.len() - 1) == p.subrange(0, p.len() - 1) {
                    assert(r.subrange(0, p.len() - 1)[z.len() as int] == ':');
                    assert(p.subrange(0, p.len() - 1)[z.len() as int] == x[z.len() as int]);
                }
            }
        }
    } else {
        // Equal lengths: the resources differ at some position.
        assert(exists|k: int| 0 <= k < x.len() && x[k] != z[k]) by {
            if forall|k: int| 0 <= k < x.len() ==> x[k] == z[k] {
                assert(x =~= z);
            }
        }
        let k = choose|k: int| 0 <= k < x.len() && x[k] != z[k];
        assert(p[k] == x[k]);
        assert(r[k] == z[k]);
        if p == r {
            assert(p[k] == r[k]);
            assert(false);
        }
        assert(r.subrange(0, p.len() - 1) != p.subrange(0, p.len() - 1)) by {
            if r.subrange(0, p.len() - 1) == p.subrange(0, p.len() - 1) {
                assert(r.subrange(0, p.len() - 1)[k] == r[k]);
                assert(p.subrange(0, p.len() - 1)[k] == p[k]);
            }
        }
    }
}

/// A permission set that holds the pattern `x:*` grants any permission
/// `x:y` of that resource.
pub proof fn lemma_wildcard_grant(perms: Seq<String>, x: Seq<char>, y: Seq<char>, i: int)
    requires
        0 <= i < perms.len(),
        perms[i]@ == x + ":*"@,
    ensures
        granted(perms, x + ":"@ + y),
{
    lemma_wildcard_matches(x, y);
}

} // verus!
