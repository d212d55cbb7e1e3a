//! Shared utilities for the OS-group based authentication providers: the
//! group-to-permission mapping algorithm, platform admin-group defaults and
//! the per-provider group membership cache.

use vstd::prelude::*;
use vstd::string::StringExecFns;
use crate::auth::permissions::PermissionMappings;
use crate::strutil::{contains_string, str_eq, vec_contains_str};
use crate::error::AuthError;

verus! {

/// True when the group list intersects the configured admin groups.
pub open spec fn is_admin_member(groups: Seq<String>, admins: Seq<String>) -> bool {
    exists|i: int| 0 <= i < groups.len() && contains_string(admins, groups[i]@)
}

/// True when some group of `groups` has a mapping in `entries` whose
/// patterns include `p`.
pub open spec fn mapped_perm(
    entries: Seq<(String, Vec<String>)>,
    groups: Seq<String>,
    p: Seq<char>,
) -> bool {
    exists|i: int, j: int|
        0 <= i < groups.len() && 0 <= j < entries.len() && entries[j].0@ == groups[i]@
            && contains_string(entries[j].1@, p)
}

/// True when some group of `groups` has a mapping in `entries` with at
/// least one pattern.
pub open spec fn any_mapped(entries: Seq<(String, Vec<String>)>, groups: Seq<String>) -> bool {
    exists|i: int, j: int|
        0 <= i < groups.len() && 0 <= j < entries.len() && entries[j].0@ == groups[i]@
            && entries[j].1@.len() > 0
}

/// True when no two strings of `s` have the same characters.
pub open spec fn no_dup_views(s: Seq<String>) -> bool {
    forall|i: int, j: int| 0 <= i < j < s.len() ==> s[i]@ != s[j]@
}

/// True when the required group is configured and present in the group list.
pub open spec fn require_group_met(groups: Seq<String>, require_group: Option<String>) -> bool {
    match require_group {
        Some(g) => contains_string(groups, g@),
        None => false,
    }
}

/// What the shared permission mapper returns for the given inputs.
///
/// A group list that intersects the admin groups yields exactly
/// `admin:*`, `connect:*`, `app:*`, whatever other mappings are
/// configured.  Otherwise the output holds, without duplicates, exactly
/// the patterns registered for some group of the list; when no pattern is
/// registered but the required group is present, it is the single pattern
/// `connect:basic`, and when that too fails it is empty.
pub open spec fn spec_mapper_post(
    admins: Seq<String>,
    require_group: Option<String>,
    entries: Seq<(String, Vec<String>)>,
    groups: Seq<String>,
    out: Seq<String>,
) -> bool {
    if is_admin_member(groups, admins) {
        out.len() == 3 && out[0]@ == "admin:*"@ && out[1]@ == "connect:*"@ && out[2]@ == "app:*"@
    } else {
        no_dup_views(out) && (
        if any_mapped(entries, groups) {
            forall|p: Seq<char>| contains_string(out, p) <==> mapped_perm(entries, groups, p)
        } else if require_group_met(groups, require_group) {
            out.len() == 1 && out[0]@ == "connect:basic"@
        } else {
            out.len() == 0
        })
    }
}

/// The patterns filed for group `g` by the first `upto` mapping entries,
/// in entry order.
pub open spec fn group_patterns_upto(
    entries: Seq<(String, Vec<String>)>,
    g: Seq<char>,
    upto: int,
) -> Seq<Seq<char>>
    decreases upto,
{
    if upto <= 0 {
        Seq::<Seq<char>>::empty()
    } else {
        group_patterns_upto(entries, g, upto - 1) + (
        if upto - 1 < entries.len() && entries[upto - 1].0@ == g {
            entries[upto - 1].1@.map_values(|x: String| x@)
        } else {
            Seq::<Seq<char>>::empty()
        })
    }
}

/// The patterns filed for the first `upto` groups, in group order, then
/// entry order, then pattern order.
pub open spec fn union_upto(
    entries: Seq<(String, Vec<String>)>,
    groups: Seq<String>,
    upto: int,
) -> Seq<Seq<char>>
    decreases upto,
{
    if upto <= 0 {
        Seq::<Seq<char>>::empty()
    } else {
        union_upto(entries, groups, upto - 1) + (
        if upto - 1 < groups.len() {
            group_patterns_upto(entries, groups[upto - 1]@, entries.len() as int)
        } else {
            Seq::<Seq<char>>::empty()
        })
    }
}

/// Every pattern registered for some group of the list: group order first,
/// then entry order, then pattern order.  The mapper's non-admin output is
/// this concatenation with repeats dropped, first occurrences kept.
pub open spec fn spec_ordered_union(
    entries: Seq<(String, Vec<String>)>,
    groups: Seq<String>,
) -> Seq<Seq<char>> {
    union_upto(entries, groups, groups.len() as int)
}

/// Unfolding first-occurrence deduplication over an appended element.
proof fn lemma_dedup_push(s: Seq<Seq<char>>, x: Seq<char>)
    ensures
        crate::auth::identity::spec_dedup(s.push(x)) == (
        if crate::auth::identity::spec_dedup(s).contains(x) {
            crate::auth::identity::spec_dedup(s)
        } else {
            crate::auth::identity::spec_dedup(s).push(x)
        }),
{
    assert(s.push(x).drop_last() =~= s);
    assert(s.push(x).last() == x);
}

/// Holding a string equal to `x` is holding `x` among the views.
proof fn lemma_contains_views(v: Seq<String>, x: Seq<char>)
    ensures
        contains_string(v, x) == v.map_values(|s: String| s@).contains(x),
{
    if contains_string(v, x) {
        let w = choose|w: int| 0 <= w < v.len() && v[w]@ == x;
        assert(v.map_values(|s: String| s@)[w] == x);
    }
    if v.map_values(|s: String| s@).contains(x) {
        let vs = v.map_values(|s: String| s@);
        let w = choose|w: int| 0 <= w < vs.len() && #[trigger] vs[w] == x;
        assert(v[w]@ == x);
    }
}

/// The mapping is a union, not first-match: the order of group iteration
/// cannot affect the final permission set.  Two group lists with the same
/// members yield outputs holding exactly the same permissions.
pub proof fn lemma_mapper_order_irrelevant(
    admins: Seq<String>,
    require_group: Option<String>,
    entries: Seq<(String, Vec<String>)>,
    g1: Seq<String>,
    g2: Seq<String>,
    o1: Seq<String>,
    o2: Seq<String>,
)
    requires
        forall|t: Seq<char>| #[trigger] contains_string(g1, t) <==> contains_string(g2, t),
        spec_mapper_post(admins, require_group, entries, g1, o1),
        spec_mapper_post(admins, require_group, entries, g2, o2),
    ensures
        forall|p: Seq<char>| #[trigger] contains_string(o1, p) <==> contains_string(o2, p),
{
    assert(is_admin_member(g1, admins) == is_admin_member(g2, admins)) by {
        if is_admin_member(g1, admins) {
            let i = choose|i: int| 0 <= i < g1.len() && contains_string(admins, g1[i]@);
            assert(contains_string(g1, g1[i]@));
            assert(contains_string(g2, g1[i]@));
            let j = choose|j: int| 0 <= j < g2.len() && g2[j]@ == g1[i]@;
        }
        if is_admin_member(g2, admins) {
            let i = choose|i: int| 0 <= i < g2.len() && contains_string(admins, g2[i]@);
            assert(contains_string(g2, g2[i]@));
            assert(contains_string(g1, g2[i]@));
            let j = choose|j: int| 0 <= j < g1.len() && g1[j]@ == g2[i]@;
        }
    }
    assert(any_mapped(entries, g1) == any_mapped(entries, g2)) by {
        if any_mapped(entries, g1) {
            let (i, j) = choose|i: int, j: int|
                0 <= i < g1.len() && 0 <= j < entries.len() && entries[j].0@ == g1[i]@
                    && entries[j].1@.len() > 0;
            assert(contains_string(g1, g1[i]@));
            assert(contains_string(g2, g1[i]@));
            let k = choose|k: int| 0 <= k < g2.len() && g2[k]@ == g1[i]@;
        }
        if any_mapped(entries, g2) {
            let (i, j) = choose|i: int, j: int|
                0 <= i < g2.len() && 0 <= j < entries.len() && entries[j].0@ == g2[i]@
                    && entries[j].1@.len() > 0;
            assert(contains_string(g2, g2[i]@));
            assert(contains_string(g1, g2[i]@));
            let k = choose|k: int| 0 <= k < g1.len() && g1[k]@ == g2[i]@;
        }
    }
    assert(require_group_met(g1, require_group) == require_group_met(g2, require_group)) by {
        match require_group {
            Some(g) => {
                assert(contains_string(g1, g@) <==> contains_string(g2, g@));
            },
            None => {},
        }
    }
    assert(forall|p: Seq<char>|
        #[trigger] mapped_perm(entries, g1, p) <==> mapped_perm(entries, g2, p)) by {
        assert forall|p: Seq<char>|
            #[trigger] mapped_perm(entries, g1, p) implies mapped_perm(entries, g2, p) by {
            let (i, j) = choose|i: int, j: int|
                0 <= i < g1.len() && 0 <= j < entries.len() && entries[j].0@ == g1[i]@
                    && contains_string(entries[j].1@, p);
            assert(contains_string(g1, g1[i]@));
            assert(contains_string(g2, g1[i]@));
            let k = choose|k: int| 0 <= k < g2.len() && g2[k]@ == g1[i]@;
        }
        assert forall|p: Seq<char>|
            mapped_perm(entries, g2, p) implies #[trigger] mapped_perm(entries, g1, p) by {
            let (i, j) = choose|i: int, j: int|
                0 <= i < g2.len() && 0 <= j < entries.len() && entries[j].0@ == g2[i]@
                    && contains_string(entries[j].1@, p);
            assert(contains_string(g2, g2[i]@));
            assert(contains_string(g1, g2[i]@));
            let k = choose|k: int| 0 <= k < g1.len() && g1[k]@ == g2[i]@;
        }
    }
    if is_admin_member(g1, admins) {
        assert forall|p: Seq<char>|
            #[trigger] contains_string(o1, p) implies contains_string(o2, p) by {
            let w = choose|w: int| 0 <= w < o1.len() && o1[w]@ == p;
            assert(w == 0 || w == 1 || w == 2);
            if w == 0 {
                assert(o2[0]@ == p);
            } else if w == 1 {
                assert(o2[1]@ == p);
            } else {
                assert(o2[2]@ == p);
            }
        }
        assert forall|p: Seq<char>|
            contains_string(o2, p) implies #[trigger] contains_string(o1, p) by {
            let w = choose|w: int| 0 <= w < o2.len() && o2[w]@ == p;
            assert(w == 0 || w == 1 || w == 2);
            if w == 0 {
                assert(o1[0]@ == p);
            } else if w == 1 {
                assert(o1[1]@ == p);
            } else {
                assert(o1[2]@ == p);
            }
        }
    } else if any_mapped(entries, g1) {
    } else if require_group_met(g1, require_group) {
        assert forall|p: Seq<char>|
            #[trigger] contains_string(o1, p) implies contains_string(o2, p) by {
            let w = choose|w: int| 0 <= w < o1.len() && o1[w]@ == p;
            assert(o2[0]@ == p);
        }
        assert forall|p: Seq<char>|
            contains_string(o2, p) implies #[trigger] contains_string(o1, p) by {
            let w = choose|w: int| 0 <= w < o2.len() && o2[w]@ == p;
            assert(o1[0]@ == p);
        }
    } else {
        assert(forall|p: Seq<char>| !contains_string(o1, p) && !contains_string(o2, p)) by {
            assert forall|p: Seq<char>| !contains_string(o1, p) && !contains_string(o2, p) by {
                if contains_string(o1, p) {
                    let w = choose|w: int| 0 <= w < o1.len() && o1[w]@ == p;
                }
                if contains_string(o2, p) {
                    let w = choose|w: int| 0 <= w < o2.len() && o2[w]@ == p;
                }
            }
        }
    }
}

/// Map OS groups to permissions; the single source of truth used by every
/// OS-group based provider.
///
/// Admin escalation is absolute: a group list that intersects `admin_groups`
/// yields exactly `admin:*`, `connect:*`, `app:*` and short-circuits the
/// custom mappings.  Otherwise the patterns registered for each group are
/// unioned, in group order and without duplicates; order of group iteration
/// cannot affect the resulting set.  If that union is empty but the
/// configured `require_group` is present in the group list, the single
/// minimal permission `connect:basic` is granted, so that clearing the
/// access gate never yields silent total denial.
#[verifier::loop_isolation(false)]
pub fn map_permissions_common(
    groups: &Vec<String>,
    admin_groups: &Vec<String>,
    require_group: &Option<String>,
    permission_mappings: &PermissionMappings,
) -> (r: Vec<String>)
    ensures
        spec_mapper_post(
            admin_groups@,
            *require_group,
            permission_mappings.entries@,
            groups@,
            r@,
        ),
        !is_admin_member(groups@, admin_groups@) && any_mapped(
            permission_mappings.entries@,
            groups@,
        ) ==> r@.map_values(|x: String| x@) == crate::auth::identity::spec_dedup(
            spec_ordered_union(permission_mappings.entries@, groups@),
        ),
{
    let gn = groups.len();
    let mut gi: usize = 0;
    while gi < gn
        invariant
            gn == groups@.len(),
            gi <= gn,
            forall|j: int| 0 <= j < gi ==> !contains_string(admin_groups@, groups@[j]@),
        decreases gn - gi,
    {
        if vec_contains_str(admin_groups, groups[gi].as_str()) {
            let mut r: Vec<String> = Vec::new();
            r.push(String::from_str("admin:*"));
            r.push(String::from_str("connect:*"));
            r.push(String::from_str("app:*"));
            return r;
        }
        gi = gi + 1;
    }
    let en = permission_mappings.entries.len();
    let mut out: Vec<String> = Vec::new();
    let mut i: usize = 0;
    let ghost entsq = permission_mappings.entries@;
    let ghost grpsq = groups@;
    proof {
        assert(out@.map_values(|x: String| x@) =~= crate::auth::identity::spec_dedup(
            union_upto(entsq, grpsq, 0),
        ));
    }
    while i < gn
        invariant
            gn == groups@.len(),
            en == permission_mappings.entries@.len(),
            i <= gn,
            no_dup_views(out@),
            out@.map_values(|x: String| x@) =~= crate::auth::identity::spec_dedup(
                union_upto(entsq, grpsq, i as int),
            ),
            forall|p: Seq<char>|
                #[trigger] contains_string(out@, p) <==> exists|a: int, b: int|
                    0 <= a < i && 0 <= b < en && permission_mappings.entries@[b].0@ == groups@[a]@
                        && contains_string(permission_mappings.entries@[b].1@, p),
        decreases gn - i,
    {
        let mut j: usize = 0;
        proof {
            assert(union_upto(entsq, grpsq, i as int) + group_patterns_upto(
                entsq,
                grpsq[i as int]@,
                0,
            ) =~= union_upto(entsq, grpsq, i as int));
        }
        while j < en
            invariant
                gn == groups@.len(),
                en == permission_mappings.entries@.len(),
                i < gn,
                j <= en,
                no_dup_views(out@),
                out@.map_values(|x: String| x@) =~= crate::auth::identity::spec_dedup(
                    union_upto(entsq, grpsq, i as int) + group_patterns_upto(
                        entsq,
                        grpsq[i as int]@,
                        j as int,
                    ),
                ),
                forall|p: Seq<char>|
                    #[trigger] contains_string(out@, p) <==> (exists|a: int, b: int|
                        0 <= a < i && 0 <= b < en && permission_mappings.entries@[b].0@
                            == groups@[a]@ && contains_string(
                            permission_mappings.entries@[b].1@,
                            p,
                        )) || (exists|b: int|
                        0 <= b < j && permission_mappings.entries@[b].0@ == groups@[i as int]@
                            && contains_string(permission_mappings.entries@[b].1@, p)),
            decreases en - j,
        {
            if str_eq(permission_mappings.entries[j].0.as_str(), groups[i].as_str()) {
                let pats = &permission_mappings.entries[j].1;
                let pn = pats.len();
                let mut k: usize = 0;
                proof {
                    assert(union_upto(entsq, grpsq, i as int) + group_patterns_upto(
                        entsq,
                        grpsq[i as int]@,
                        j as int,
                    ) + entsq[j as int].1@.map_values(|x: String| x@).take(0) =~= union_upto(
                        entsq,
                        grpsq,
                        i as int,
                    ) + group_patterns_upto(entsq, grpsq[i as int]@, j as int));
                }
                while k < pn
                    invariant
                        gn == groups@.len(),
                        en == permission_mappings.entries@.len(),
                        i < gn,
                        j < en,
                        pn == permission_mappings.entries@[j as int].1@.len(),
                        permission_mappings.entries@[j as int].0@ == groups@[i as int]@,
                        k <= pn,
                        no_dup_views(out@),
                        out@.map_values(|x: String| x@) =~= crate::auth::identity::spec_dedup(
                            union_upto(entsq, grpsq, i as int) + group_patterns_upto(
                                entsq,
                                grpsq[i as int]@,
                                j as int,
                            ) + entsq[j as int].1@.map_values(|x: String| x@).take(k as int),
                        ),
                        forall|p: Seq<char>|
                            #[trigger] contains_string(out@, p) <==> (exists|a: int, b: int|
                                0 <= a < i && 0 <= b < en && permission_mappings.entries@[b].0@
                                    == groups@[a]@ && contains_string(
                                    permission_mappings.entries@[b].1@,
                                    p,
                                )) || (exists|b: int|
                                0 <= b < j && permission_mappings.entries@[b].0@
                                    == groups@[i as int]@ && contains_string(
                                    permission_mappings.entries@[b].1@,
                                    p,
                                )) || (exists|c: int|
                                0 <= c < k && permission_mappings.entries@[j as int].1@[c]@ == p),
                    decreases pn - k,
                {
                    let pat = &permission_mappings.entries[j].1[k];
                    let ghost patsview = entsq[j as int].1@.map_values(|x: String| x@);
                    let ghost flat = union_upto(entsq, grpsq, i as int) + group_patterns_upto(
                        entsq,
                        grpsq[i as int]@,
                        j as int,
                    ) + patsview.take(k as int);
                    let ghost px = entsq[j as int].1@[k as int]@;
                    proof {
                        assert(patsview[k as int] == px);
                        assert(patsview.take(k + 1) =~= patsview.take(k as int).push(px));
                        assert(union_upto(entsq, grpsq, i as int) + group_patterns_upto(
                            entsq,
                            grpsq[i as int]@,
                            j as int,
                        ) + patsview.take(k + 1) =~= flat.push(px));
                        lemma_dedup_push(flat, px);
                        lemma_contains_views(out@, px);
                    }
                    if !vec_contains_str(&out, pat.as_str()) {
                        let ghost old_out = out@;
                        out.push(pat.clone());
                        proof {
                            assert(out@.map_values(|x: String| x@) =~= old_out.map_values(
                                |x: String| x@,
                            ).push(px));
                            assert(forall|p: Seq<char>|
                                #[trigger] contains_string(out@, p) <==> contains_string(
                                    old_out,
                                    p,
                                ) || p == permission_mappings.entries@[j as int].1@[k as int]@) by {
                                assert forall|p: Seq<char>| #[trigger]
                                    contains_string(out@, p) implies contains_string(old_out, p)
                                    || p == permission_mappings.entries@[j as int].1@[
                                    k as int]@ by {
                                    let w = choose|w: int|
                                        0 <= w < out@.len() && out@[w]@ == p;
                                    if w < old_out.len() {
                                        assert(old_out[w]@ == p);
                                    }
                                }
                                assert forall|p: Seq<char>|
                                    contains_string(old_out, p) || p
                                        == permission_mappings.entries@[j as int].1@[
                                    k as int]@ implies #[trigger] contains_string(out@, p) by {
                                    if contains_string(old_out, p) {
                                        let w = choose|w: int|
                                            0 <= w < old_out.len() && old_out[w]@ == p;
                                        assert(out@[w]@ == p);
                                    } else {
                                        assert(out@[out@.len() - 1]@ == p);
                                    }
                                }
                            }
                        }
                    } else {
                        proof {
                            assert(exists|c: int|
                                0 <= c <= k && permission_mappings.entries@[j as int].1@[c]@
                                    == permission_mappings.entries@[j as int].1@[k as int]@);
                        }
                    }
                    k = k + 1;
                }
                proof {
                    let patsview = entsq[j as int].1@.map_values(|x: String| x@);
                    assert(patsview.take(pn as int) =~= patsview);
                    assert(group_patterns_upto(entsq, grpsq[i as int]@, j + 1)
                        =~= group_patterns_upto(entsq, grpsq[i as int]@, j as int) + patsview);
                    assert(union_upto(entsq, grpsq, i as int) + group_patterns_upto(
                        entsq,
                        grpsq[i as int]@,
                        j + 1,
                    ) =~= union_upto(entsq, grpsq, i as int) + group_patterns_upto(
                        entsq,
                        grpsq[i as int]@,
                        j as int,
                    ) + patsview);
                }
            } else {
                proof {
                    assert(group_patterns_upto(entsq, grpsq[i as int]@, j + 1)
                        =~= group_patterns_upto(entsq, grpsq[i as int]@, j as int));
                }
            }
            j = j + 1;
        }
        proof {
            assert(union_upto(entsq, grpsq, i + 1) =~= union_upto(entsq, grpsq, i as int)
                + group_patterns_upto(entsq, grpsq[i as int]@, en as int));
        }
        i = i + 1;
    }
    proof {
        assert(union_upto(entsq, grpsq, gn as int) == spec_ordered_union(entsq, grpsq));
    }
    if out.len() == 0 {
        proof {
            assert(!any_mapped(permission_mappings.entries@, groups@)) by {
                if any_mapped(permission_mappings.entries@, groups@) {
                    let (a, b) = choose|a: int, b: int|
                        0 <= a < groups@.len() && 0 <= b < permission_mappings.entries@.len()
                            && permission_mappings.entries@[b].0@ == groups@[a]@
                            && permission_mappings.entries@[b].1@.len() > 0;
                    let p0 = permission_mappings.entries@[b].1@[0]@;
                    assert(contains_string(permission_mappings.entries@[b].1@, p0));
                    assert(contains_string(out@, p0));
                }
            }
        }
        if let Some(rg) = require_group {
            if vec_contains_str(groups, rg.as_str()) {
                let mut r: Vec<String> = Vec::new();
                r.push(String::from_str("connect:basic"));
                return r;
            }
        }
        return out;
    }
    proof {
        assert(any_mapped(permission_mappings.entries@, groups@)) by {
            let p0 = out@[0]@;
            assert(contains_string(out@, p0));
            let (a, b) = choose|a: int, b: int|
                0 <= a < groups@.len() && 0 <= b < permission_mappings.entries@.len()
                    && permission_mappings.entries@[b].0@ == groups@[a]@ && contains_string(
                    permission_mappings.entries@[b].1@,
                    p0,
                );
            let c = choose|c: int|
                0 <= c < permission_mappings.entries@[b].1@.len()
                    && permission_mappings.entries@[b].1@[c]@ == p0;
            assert(permission_mappings.entries@[b].1@.len() > 0);
        }
    }
    out
}

/// The platform name decided from a `uname -s` answer and, where that
/// answered nothing, from which distribution marker files exist.
pub open spec fn spec_classify_platform(
    uname: Option<Seq<char>>,
    redhat: bool,
    debian: bool,
    alpine: bool,
    freebsd_conf: bool,
    bsd_conf: bool,
) -> Seq<char> {
    let from_files: Seq<char> = if redhat {
        "RedHat-based"@
    } else if debian {
        "Debian-based"@
    } else if alpine {
        "Alpine"@
    } else if freebsd_conf {
        "FreeBSD"@
    } else if bsd_conf {
        "BSD-variant"@
    } else {
        "Unknown-Unix"@
    };
    match uname {
        Some(u) => if u == "Darwin"@ {
            "macOS"@
        } else if u == "SunOS"@ {
            "Solaris"@
        } else if u.len() > 0 {
            u
        } else {
            from_files
        },
        None => from_files,
    }
}

/// Name the Unix platform, given the trimmed output of `uname -s` (or
/// nothing, where the command failed) and the presence of the common
/// distribution marker files.
pub fn classify_platform(
    uname: Option<&str>,
    redhat: bool,
    debian: bool,
    alpine: bool,
    freebsd_conf: bool,
    bsd_conf: bool,
) -> (r: String)
    ensures
        r@ == spec_classify_platform(
            match uname {
                Some(u) => Some(u@),
                None => None,
            },
            redhat,
            debian,
            alpine,
            freebsd_conf,
            bsd_conf,
        ),
{
    if let Some(u) = uname {
        if str_eq(u, "Darwin") {
            return String::from_str("macOS");
        }
        if str_eq(u, "SunOS") {
            return String::from_str("Solaris");
        }
        if u.unicode_len() > 0 {
            return u.to_owned();
        }
    }
    if redhat {
        String::from_str("RedHat-based")
    } else if debian {
        String::from_str("Debian-based")
    } else if alpine {
        String::from_str("Alpine")
    } else if freebsd_conf {
        String::from_str("FreeBSD")
    } else if bsd_conf {
        String::from_str("BSD-variant")
    } else {
        String::from_str("Unknown-Unix")
    }
}

/// The admin group names appropriate for the named platform.
pub open spec fn spec_platform_admin_groups(platform: Seq<char>) -> Seq<Seq<char>> {
    if platform == "Linux"@ {
        seq!["wheel"@, "sudo"@, "admin"@, "adm"@]
    } else if platform == "macOS"@ {
        seq!["wheel"@, "admin"@, "staff"@]
    } else if platform == "FreeBSD"@ || platform == "OpenBSD"@ || platform == "NetBSD"@ || platform
        == "DragonFly"@ || platform == "BSD-variant"@ {
        seq!["wheel"@, "operator"@]
    } else if platform == "Solaris"@ {
        seq!["wheel"@, "sys"@, "root"@]
    } else {
        seq!["wheel"@, "admin"@, "root"@, "system"@]
    }
}

/// Common admin groups for the given platform, as detected by the caller
/// (for example from `uname -s`); `wheel` is granted on every platform.
pub fn get_platform_admin_groups(platform: &str) -> (r: Vec<String>)
    ensures
        r@.map_values(|s: String| s@) == spec_platform_admin_groups(platform@),
{
    let mut r: Vec<String> = Vec::new();
    r.push(String::from_str("wheel"));
    if str_eq(platform, "Linux") {
        r.push(String::from_str("sudo"));
        r.push(String::from_str("admin"));
        r.push(String::from_str("adm"));
    } else if str_eq(platform, "macOS") {
        r.push(String::from_str("admin"));
        r.push(String::from_str("staff"));
    } else if str_eq(platform, "FreeBSD") || str_eq(platform, "OpenBSD") || str_eq(
        platform,
        "NetBSD",
    ) || str_eq(platform, "DragonFly") || str_eq(platform, "BSD-variant") {
        r.push(String::from_str("operator"));
    } else if str_eq(platform, "Solaris") {
        r.push(String::from_str("sys"));
        r.push(String::from_str("root"));
    } else {
        r.push(String::from_str("admin"));
        r.push(String::from_str("root"));
        r.push(String::from_str("system"));
    }
    proof {
        assert(r@.map_values(|s: String| s@) =~= spec_platform_admin_groups(platform@));
    }
    r
}

/// Whether the group list intersects the admin groups.
#[verifier::loop_isolation(false)]
pub fn is_admin_list(groups: &Vec<String>, admins: &Vec<String>) -> (r: bool)
    ensures
        r == is_admin_member(groups@, admins@),
{
    let n = groups.len();
    let mut i: usize = 0;
    while i < n
        invariant
            n == groups@.len(),
            i <= n,
            forall|j: int| 0 <= j < i ==> !contains_string(admins@, groups@[j]@),
        decreases n - i,
    {
        if vec_contains_str(admins, groups[i].as_str()) {
            return true;
        }
        i = i + 1;
    }
    false
}

/// Memoized mapping from principal name to resolved group list, owned by
/// each OS-group based provider and cleared on `initialize`.
pub struct GroupCache {
    /// The `(username, groups)` entries; no two entries share a username.
    pub entries: Vec<(String, Vec<String>)>,
}

/// True when the cache entries hold a resolution for `name`.
pub open spec fn cached(entries: Seq<(String, Vec<String>)>, name: Seq<char>) -> bool {
    exists|i: int| 0 <= i < entries.len() && entries[i].0@ == name
}

/// True when the cache entries record exactly `groups` as the resolution
/// of `name`.
pub open spec fn cache_entry_is(
    entries: Seq<(String, Vec<String>)>,
    name: Seq<char>,
    groups: Seq<String>,
) -> bool {
    exists|i: int| 0 <= i < entries.len() && entries[i].0@ == name && entries[i].1@ == groups
}

impl GroupCache {
    /// No two entries share a username.
    pub open spec fn wf(&self) -> bool {
        forall|i: int, j: int|
            0 <= i < j < self.entries@.len() ==> self.entries@[i].0@ != self.entries@[j].0@
    }

    /// Create an empty cache.
    pub fn new() -> (r: Self)
        ensures
            r.entries@.len() == 0,
            r.wf(),
    {
        GroupCache { entries: Vec::new() }
    }

    /// The groups cached for `name`, if any.
    #[verifier::loop_isolation(false)]
    pub fn get(&self, name: &str) -> (r: Option<Vec<String>>)
        ensures
            r is Some <==> cached(self.entries@, name@),
            r matches Some(v) ==> exists|i: int|
                0 <= i < self.entries@.len() && self.entries@[i].0@ == name@ && v@
                    == self.entries@[i].1@,
    {
        let n = self.entries.len();
        let mut i: usize = 0;
        while i < n
            invariant
                n == self.entries@.len(),
                i <= n,
                forall|j: int| 0 <= j < i ==> self.entries@[j].0@ != name@,
            decreases n - i,
        {
            if str_eq(self.entries[i].0.as_str(), name) {
                return Some(crate::auth::permissions::clone_string_vec(&self.entries[i].1));
            }
            i = i + 1;
        }
        None
    }

    /// Record the resolved `groups` for `name`, replacing a previous entry;
    /// every other username's resolution is untouched.
    #[verifier::loop_isolation(false)]
    pub fn insert(&mut self, name: String, groups: Vec<String>)
        requires
            old(self).wf(),
        ensures
            final(self).wf(),
            cached(final(self).entries@, name@),
            exists|i: int|
                0 <= i < final(self).entries@.len() && final(self).entries@[i].0@ == name@
                    && final(self).entries@[i].1@ == groups@,
            forall|m: Seq<char>|
                #[trigger] cached(final(self).entries@, m) <==> cached(old(self).entries@, m) || m
                    == name@,
            forall|m: Seq<char>, gs: Seq<String>|
                m != name@ ==> (#[trigger] cache_entry_is(final(self).entries@, m, gs)
                    <==> cache_entry_is(old(self).entries@, m, gs)),
    {
        let ghost gname = name@;
        let n = self.entries.len();
        let mut i: usize = 0;
        while i < n
            invariant
                n == self.entries@.len(),
                i <= n,
                *self == *old(self),
                forall|j: int| 0 <= j < i ==> self.entries@[j].0@ != gname,
            decreases n - i,
        {
            if str_eq(self.entries[i].0.as_str(), name.as_str()) {
                let ghost oldentries = self.entries@;
                self.entries.set(i, (name, groups));
                proof {
                    assert forall|m: Seq<char>| #[trigger]
                        cached(self.entries@, m) implies cached(oldentries, m) || m == gname by {
                        let w = choose|w: int|
                            0 <= w < self.entries@.len() && self.entries@[w].0@ == m;
                        if w != i {
                            assert(oldentries[w].0@ == m);
                        }
                    }
                    assert forall|m: Seq<char>|
                        cached(oldentries, m) || m == gname implies #[trigger] cached(
                        self.entries@,
                        m,
                    ) by {
                        if m == gname {
                            assert(self.entries@[i as int].0@ == m);
                        } else {
                            let w = choose|w: int|
                                0 <= w < oldentries.len() && oldentries[w].0@ == m;
                            if w == i {
                                assert(oldentries[i as int].0@ == gname);
                            } else {
                                assert(self.entries@[w].0@ == m);
                            }
                        }
                    }
                    assert forall|m: Seq<char>, gs: Seq<String>| m != gname implies (
                    #[trigger] cache_entry_is(self.entries@, m, gs) <==> cache_entry_is(
                        oldentries,
                        m,
                        gs,
                    )) by {
                        if cache_entry_is(self.entries@, m, gs) {
                            let w = choose|w: int|
                                0 <= w < self.entries@.len() && self.entries@[w].0@ == m
                                    && self.entries@[w].1@ == gs;
                            assert(w != i);
                            assert(oldentries[w].0@ == m && oldentries[w].1@ == gs);
                        }
                        if cache_entry_is(oldentries, m, gs) {
                            let w = choose|w: int|
                                0 <= w < oldentries.len() && oldentries[w].0@ == m
                                    && oldentries[w].1@ == gs;
                            assert(oldentries[i as int].0@ == gname);
                            assert(w != i);
                            assert(self.entries@[w].0@ == m && self.entries@[w].1@ == gs);
                        }
                    }
                }
                return ;
            }
            i = i + 1;
        }
        let ghost oldentries = self.entries@;
        self.entries.push((name, groups));
        proof {
            assert(self.entries@[self.entries@.len() - 1].0@ == gname);
            assert forall|m: Seq<char>| #[trigger]
                cached(self.entries@, m) implies cached(oldentries, m) || m == gname by {
                let w = choose|w: int| 0 <= w < self.entries@.len() && self.entries@[w].0@ == m;
                if w < oldentries.len() {
                    assert(oldentries[w].0@ == m);
                }
            }
            assert forall|m: Seq<char>|
                cached(oldentries, m) || m == gname implies #[trigger] cached(
                self.entries@,
                m,
            ) by {
                if m == gname {
                    assert(self.entries@[self.entries@.len() - 1].0@ == m);
                } else {
                    let w = choose|w: int| 0 <= w < oldentries.len() && oldentries[w].0@ == m;
                    assert(self.entries@[w].0@ == m);
                }
            }
            assert forall|m: Seq<char>, gs: Seq<String>| m != gname implies (
            #[trigger] cache_entry_is(self.entries@, m, gs) <==> cache_entry_is(
                oldentries,
                m,
                gs,
            )) by {
                if cache_entry_is(self.entries@, m, gs) {
                    let w = choose|w: int|
                        0 <= w < self.entries@.len() && self.entries@[w].0@ == m
                            && self.entries@[w].1@ == gs;
                    assert(w < oldentries.len());
                    assert(oldentries[w].0@ == m && oldentries[w].1@ == gs);
                }
                if cache_entry_is(oldentries, m, gs) {
                    let w = choose|w: int|
                        0 <= w < oldentries.len() && oldentries[w].0@ == m && oldentries[w].1@
                            == gs;
                    assert(self.entries@[w].0@ == m && self.entries@[w].1@ == gs);
                }
            }
        }
    }

    /// Drop every cached resolution.
    pub fn clear(&mut self)
        ensures
            final(self).entries@.len() == 0,
            final(self).wf(),
    {
        self.entries = Vec::new();
    }
}

/// Enhanced group management, for backends that can resolve group
/// memberships with improved error handling.  The daemon's own providers
/// resolve groups through an identity source instead; this contract is for
/// externally supplied backends.
pub trait EnhancedGroupManagement {
    /// Resolve all groups of `username`, memoizing the answer in `cache`.
    fn get_user_groups_enhanced(&self, username: &str, cache: &mut GroupCache) -> Result<
        Vec<String>,
        AuthError,
    >;

    /// Map OS groups to permissions, with the shared fallback rules.
    fn map_permissions_enhanced(
        &self,
        groups: &Vec<String>,
        admin_groups: &Vec<String>,
        require_group: &Option<String>,
        permission_mappings: &PermissionMappings,
    ) -> Vec<String>;
}

} // verus!
