//! The identity source: the collaborator that answers account and group
//! questions from the operating system, and the verified parsers for the
//! raw text it returns.
//!
//! The source itself shells out to platform utilities and therefore lives
//! outside this crate; only raw text and exit status cross the boundary.
//! Everything that interprets that text is a pure function specified here.

use vstd::prelude::*;
use vstd::string::StringExecFns;
use crate::error::AuthError;
use crate::strutil::{
    spec_split_by, spec_trim, spec_words, split_char, split_words, str_eq,
    str_starts_with, trim_str, parse_u32, all_digits, digits_val, spec_starts_with,
};

verus! {

/// Answers identity questions for one platform.
///
/// `account_exists` reports the exit status of the platform's account
/// lookup; the text queries return the raw output of the platform's group
/// and account enumeration utilities.  Results depend on the machine's
/// state, so nothing is promised about their values; a failing query is
/// reported as an identity-source error, the one error class this
/// collaborator may raise.
pub trait IdentitySource {
    /// Whether the platform reports an account named `username`.
    fn account_exists(&mut self, username: &str) -> (r: Result<bool, AuthError>)
        ensures
            r matches Err(e) ==> e is IdentitySource,
    ;

    /// Raw output of the per-user group listing (for example `groups` or a
    /// PowerShell group query).
    fn groups_text(&mut self, username: &str) -> (r: Result<String, AuthError>)
        ensures
            r matches Err(e) ==> e is IdentitySource,
    ;

    /// Raw output of the full group database listing (for example
    /// `getent group` or a directory-services membership dump).
    fn group_db_text(&mut self) -> (r: Result<String, AuthError>)
        ensures
            r matches Err(e) ==> e is IdentitySource,
    ;

    /// Raw output of the account database listing (for example
    /// `getent passwd`).
    fn passwd_text(&mut self) -> (r: Result<String, AuthError>)
        ensures
            r matches Err(e) ==> e is IdentitySource,
    ;

    /// Raw output of the record of one account (for example
    /// `getent passwd <user>` or a directory-services read).
    fn user_record_text(&mut self, username: &str) -> (r: Result<String, AuthError>)
        ensures
            r matches Err(e) ==> e is IdentitySource,
    ;

    /// Raw output of the fallback per-user group-name query (for example
    /// `id -G -n`), used on generic Unix systems.
    fn id_groups_text(&mut self, username: &str) -> (r: Result<String, AuthError>)
        ensures
            r matches Err(e) ==> e is IdentitySource,
    ;

    /// Raw contents of the group file itself, the last resort on generic
    /// Unix systems.
    fn group_file_text(&mut self) -> (r: Result<String, AuthError>)
        ensures
            r matches Err(e) ==> e is IdentitySource,
    ;
}

/// One account row of the account database.
#[derive(Debug)]
pub struct AccountRecord {
    /// The account name.
    pub username: String,
    /// The numeric user id; accounts below 1000 are treated as system
    /// accounts.
    pub uid: u32,
    /// The display name from the comment field, or the username where the
    /// row carries none.
    pub display_name: String,
}

impl Clone for AccountRecord {
    fn clone(&self) -> (r: Self)
        ensures
            r == *self,
    {
        AccountRecord {
            username: self.username.clone(),
            uid: self.uid,
            display_name: self.display_name.clone(),
        }
    }
}

/// The view of an account record: name, uid and display name.
pub open spec fn record_view(a: AccountRecord) -> (Seq<char>, int, Seq<char>) {
    (a.username@, a.uid as int, a.display_name@)
}

/// The group names in the output of a per-user group query.
///
/// The output is either `user : group1 group2` or plain `group1 group2`;
/// everything after the first colon (or the whole output when there is
/// none) is read as blank-space separated group names.
pub open spec fn spec_groups_of_output(s: Seq<char>) -> Seq<Seq<char>> {
    let parts = spec_split_by(s, |c: char| c == ':');
    if parts.len() > 1 {
        spec_words(parts[1])
    } else {
        spec_words(s)
    }
}

/// Parse the output of a per-user group query into group names.
pub fn parse_groups_output(text: &str) -> (r: Vec<String>)
    ensures
        r@.map_values(|x: String| x@) == spec_groups_of_output(text@),
{
    let parts = split_char(text, ':');
    proof {
        crate::strutil::lemma_split_len(text@, |c: char| c == ':');
    }
    if parts.len() > 1 {
        split_words(parts[1].as_str())
    } else {
        split_words(text)
    }
}

/// True when a `group` database row names `user` among its members.
///
/// A row has the shape `name:password:gid:member1,member2`; membership
/// compares each comma-separated member, trimmed, with the username.
pub open spec fn spec_members_field(line: Seq<char>) -> Seq<Seq<char>> {
    spec_split_by(spec_split_by(line, |c: char| c == ':')[3], |c: char| c == ',')
}

pub open spec fn spec_row_lists_member(line: Seq<char>, user: Seq<char>) -> bool {
    spec_split_by(line, |c: char| c == ':').len() >= 4 && exists|i: int|
        0 <= i < spec_members_field(line).len() && spec_trim(
            #[trigger] spec_members_field(line)[i],
        ) == user
}

/// Decide whether a group database row names `user` among its members.
#[verifier::loop_isolation(false)]
pub fn row_lists_member(line: &str, user: &str) -> (r: bool)
    ensures
        r == spec_row_lists_member(line@, user@),
{
    let fields = split_char(line, ':');
    if fields.len() < 4 {
        return false;
    }
    let members = split_char(fields[3].as_str(), ',');
    let n = members.len();
    let mut i: usize = 0;
    while i < n
        invariant
            n == members@.len(),
            i <= n,
            members@.map_values(|x: String| x@) == spec_members_field(line@),
            fields@.map_values(|x: String| x@) == spec_split_by(line@, |c: char| c == ':'),
            fields@.len() >= 4,
            forall|j: int| 0 <= j < i ==> spec_trim(spec_members_field(line@)[j]) != user@,
        decreases n - i,
    {
        let m = trim_str(members[i].as_str());
        if str_eq(m.as_str(), user) {
            proof {
                assert(spec_members_field(line@)[i as int] == members@.map_values(
                    |x: String| x@,
                )[i as int]);
                assert(spec_trim(spec_members_field(line@)[i as int]) == user@);
            }
            return true;
        }
        i = i + 1;
    }
    false
}

/// The names of the groups whose database rows name `user` as a member.
pub open spec fn spec_member_groups(s: Seq<char>, user: Seq<char>) -> Seq<Seq<char>> {
    spec_split_by(s, |c: char| c == '\n').filter(
        |l: Seq<char>| spec_row_lists_member(l, user),
    ).map_values(|l: Seq<char>| spec_split_by(l, |c: char| c == ':')[0])
}

/// Parse a full `group` database listing into the groups of `user`.
#[verifier::loop_isolation(false)]
pub fn parse_member_groups(text: &str, user: &str) -> (r: Vec<String>)
    ensures
        r@.map_values(|x: String| x@) == spec_member_groups(text@, user@),
{
    let ghost memberp = |l: Seq<char>| spec_row_lists_member(l, user@);
    let ghost headf = |l: Seq<char>| spec_split_by(l, |c: char| c == ':')[0];
    let lines = split_char(text, '\n');
    let n = lines.len();
    let mut out: Vec<String> = Vec::new();
    let mut i: usize = 0;
    proof {
        reveal(Seq::filter);
        assert(lines@.map_values(|x: String| x@).subrange(0, 0) =~= Seq::<Seq<char>>::empty());
    }
    while i < n
        invariant
            n == lines@.len(),
            i <= n,
            lines@.map_values(|x: String| x@) == spec_split_by(text@, |c: char| c == '\n'),
            out@.map_values(|x: String| x@) =~= lines@.map_values(|x: String| x@).subrange(
                0,
                i as int,
            ).filter(memberp).map_values(headf),
        decreases n - i,
    {
        let ghost pref = lines@.map_values(|x: String| x@).subrange(0, i as int);
        let ghost prefn = lines@.map_values(|x: String| x@).subrange(0, i + 1);
        proof {
            reveal(Seq::filter);
            assert(prefn.drop_last() =~= pref);
            assert(prefn.last() == lines@[i as int]@);
        }
        if row_lists_member(lines[i].as_str(), user) {
            let fields = split_char(lines[i].as_str(), ':');
            proof {
                crate::strutil::lemma_split_len(lines@[i as int]@, |c: char| c == ':');
            }
            out.push(fields[0].clone());
            proof {
                assert(prefn.filter(memberp) =~= pref.filter(memberp).push(lines@[i as int]@));
                assert(prefn.filter(memberp).map_values(headf) =~= pref.filter(
                    memberp,
                ).map_values(headf).push(headf(lines@[i as int]@)));
            }
        } else {
            proof {
                assert(prefn.filter(memberp) =~= pref.filter(memberp));
            }
        }
        i = i + 1;
    }
    proof {
        assert(lines@.map_values(|x: String| x@).subrange(0, n as int) =~= lines@.map_values(
            |x: String| x@,
        ));
    }
    out
}

/// True when a directory-services membership line names `user`: the first
/// word is the group, the following words are its members.
pub open spec fn spec_listing_line_has_member(line: Seq<char>, user: Seq<char>) -> bool {
    spec_words(line).len() > 1 && spec_words(line).drop_first().contains(user)
}

/// The group names of the membership-listing lines that name `user`.
pub open spec fn spec_listing_groups(s: Seq<char>, user: Seq<char>) -> Seq<Seq<char>> {
    spec_split_by(s, |c: char| c == '\n').filter(
        |l: Seq<char>| spec_listing_line_has_member(l, user),
    ).map_values(|l: Seq<char>| spec_words(l)[0])
}

/// Whether the words of `ws`, past the first, include `user`.
#[verifier::loop_isolation(false)]
fn words_tail_contain(ws: &Vec<String>, user: &str) -> (r: bool)
    requires
        ws@.len() >= 1,
    ensures
        r == ws@.map_values(|x: String| x@).drop_first().contains(user@),
{
    let n = ws.len();
    let mut i: usize = 1;
    let ghost tail = ws@.map_values(|x: String| x@).drop_first();
    while i < n
        invariant
            n == ws@.len(),
            1 <= i <= n,
            tail == ws@.map_values(|x: String| x@).drop_first(),
            forall|j: int| 0 <= j < i - 1 ==> tail[j] != user@,
        decreases n - i,
    {
        if str_eq(ws[i].as_str(), user) {
            proof {
                assert(tail[i - 1] == user@);
            }
            return true;
        }
        i = i + 1;
    }
    proof {
        if tail.contains(user@) {
            let w = choose|w: int| 0 <= w < tail.len() && tail[w] == user@;
        }
    }
    false
}

/// Parse a directory-services membership listing (one group per line, the
/// group name followed by its members) into the groups of `user`.
#[verifier::loop_isolation(false)]
pub fn parse_listing_groups(text: &str, user: &str) -> (r: Vec<String>)
    ensures
        r@.map_values(|x: String| x@) == spec_listing_groups(text@, user@),
{
    let ghost memberp = |l: Seq<char>| spec_listing_line_has_member(l, user@);
    let ghost headf = |l: Seq<char>| spec_words(l)[0];
    let lines = split_char(text, '\n');
    let n = lines.len();
    let mut out: Vec<String> = Vec::new();
    let mut i: usize = 0;
    proof {
        reveal(Seq::filter);
        assert(lines@.map_values(|x: String| x@).subrange(0, 0) =~= Seq::<Seq<char>>::empty());
    }
    while i < n
        invariant
            n == lines@.len(),
            i <= n,
            lines@.map_values(|x: String| x@) == spec_split_by(text@, |c: char| c == '\n'),
            out@.map_values(|x: String| x@) =~= lines@.map_values(|x: String| x@).subrange(
                0,
                i as int,
            ).filter(memberp).map_values(headf),
        decreases n - i,
    {
        let ghost pref = lines@.map_values(|x: String| x@).subrange(0, i as int);
        let ghost prefn = lines@.map_values(|x: String| x@).subrange(0, i + 1);
        proof {
            reveal(Seq::filter);
            assert(prefn.drop_last() =~= pref);
            assert(prefn.last() == lines@[i as int]@);
        }
        let words = split_words(lines[i].as_str());
        if words.len() > 1 && words_tail_contain(&words, user) {
            out.push(words[0].clone());
            proof {
                assert(memberp(lines@[i as int]@));
                assert(prefn.filter(memberp) =~= pref.filter(memberp).push(lines@[i as int]@));
                assert(prefn.filter(memberp).map_values(headf) =~= pref.filter(
                    memberp,
                ).map_values(headf).push(headf(lines@[i as int]@)));
            }
        } else {
            proof {
                assert(!memberp(lines@[i as int]@));
                assert(prefn.filter(memberp) =~= pref.filter(memberp));
            }
        }
        i = i + 1;
    }
    proof {
        assert(lines@.map_values(|x: String| x@).subrange(0, n as int) =~= lines@.map_values(
            |x: String| x@,
        ));
    }
    out
}

/// The display name in a directory-services user record: the trimmed
/// remainder of the first line whose trimmed text starts with `RealName:`,
/// or nothing.
pub open spec fn spec_real_name(s: Seq<char>) -> Option<Seq<char>> {
    let hits = spec_split_by(s, |c: char| c == '\n').filter(
        |l: Seq<char>| spec_starts_with(spec_trim(l), "RealName:"@),
    );
    if hits.len() > 0 {
        Some(spec_trim(spec_trim(hits[0]).skip(9)))
    } else {
        None
    }
}

/// Parse the `RealName:` field out of a directory-services user record.
#[verifier::loop_isolation(false)]
pub fn parse_real_name(text: &str) -> (r: Option<String>)
    ensures
        r is Some <==> spec_real_name(text@) is Some,
        r matches Some(v) ==> spec_real_name(text@) == Some(v@),
{
    let ghost realp = |l: Seq<char>| spec_starts_with(spec_trim(l), "RealName:"@);
    let lines = split_char(text, '\n');
    let n = lines.len();
    let mut i: usize = 0;
    proof {
        reveal(Seq::filter);
        assert(lines@.map_values(|x: String| x@).subrange(0, 0) =~= Seq::<Seq<char>>::empty());
        assert(lines@.map_values(|x: String| x@).subrange(0, 0).filter(realp) =~= Seq::<
            Seq<char>,
        >::empty());
    }
    while i < n
        invariant
            n == lines@.len(),
            i <= n,
            lines@.map_values(|x: String| x@) == spec_split_by(text@, |c: char| c == '\n'),
            lines@.map_values(|x: String| x@).subrange(0, i as int).filter(realp) =~= Seq::<
                Seq<char>,
            >::empty(),
        decreases n - i,
    {
        let ghost pref = lines@.map_values(|x: String| x@).subrange(0, i as int);
        let ghost prefn = lines@.map_values(|x: String| x@).subrange(0, i + 1);
        proof {
            reveal(Seq::filter);
            assert(prefn.drop_last() =~= pref);
            assert(prefn.last() == lines@[i as int]@);
        }
        let t = trim_str(lines[i].as_str());
        if str_starts_with(t.as_str(), "RealName:") {
            proof {
                reveal_strlit("RealName:");
                assert(t@.len() >= 9);
            }
            let tn = t.as_str().unicode_len();
            let value = t.as_str().substring_char(9, tn);
            proof {
                lemma_filter_first(lines@.map_values(|x: String| x@), realp, i as int);
                assert(t@.subrange(9, t@.len() as int) =~= spec_trim(lines@[i as int]@).skip(9));
            }
            return Some(trim_str(value));
        }
        proof {
            assert(!realp(lines@[i as int]@));
            assert(prefn.filter(realp) =~= pref.filter(realp));
        }
        i = i + 1;
    }
    proof {
        assert(lines@.map_values(|x: String| x@).subrange(0, n as int) =~= lines@.map_values(
            |x: String| x@,
        ));
    }
    None
}

/// The numeric user id of an account row: the third field read as a
/// decimal number, or `0` where it is empty, malformed or out of range.
pub open spec fn spec_uid_of(fields: Seq<Seq<char>>) -> int {
    if fields.len() >= 3 && fields[2].len() > 0 && all_digits(fields[2]) && digits_val(fields[2])
        <= u32::MAX {
        digits_val(fields[2])
    } else {
        0
    }
}

/// The display name of an account row: the part of the comment field
/// before the first comma, or the account name where that part is empty
/// or missing.
pub open spec fn spec_display_of(fields: Seq<Seq<char>>) -> Seq<char> {
    if fields.len() >= 5 && spec_split_by(fields[4], |c: char| c == ',')[0].len() > 0 {
        spec_split_by(fields[4], |c: char| c == ',')[0]
    } else {
        fields[0]
    }
}

/// The records of an account database listing: one per line with at least
/// three colon-separated fields, carrying name, uid and display name.
pub open spec fn spec_passwd_records(s: Seq<char>) -> Seq<(Seq<char>, int, Seq<char>)> {
    spec_split_by(s, |c: char| c == '\n').filter(
        |l: Seq<char>| spec_split_by(l, |c: char| c == ':').len() >= 3,
    ).map_values(
        |l: Seq<char>|
            (
                spec_split_by(l, |c: char| c == ':')[0],
                spec_uid_of(spec_split_by(l, |c: char| c == ':')),
                spec_display_of(spec_split_by(l, |c: char| c == ':')),
            ),
    )
}

/// Parse an account database listing into its account records.
#[verifier::loop_isolation(false)]
pub fn parse_passwd_records(text: &str) -> (r: Vec<AccountRecord>)
    ensures
        r@.map_values(|a: AccountRecord| record_view(a)) == spec_passwd_records(text@),
{
    let ghost keepp = |l: Seq<char>| spec_split_by(l, |c: char| c == ':').len() >= 3;
    let ghost recf = |l: Seq<char>|
        (
            spec_split_by(l, |c: char| c == ':')[0],
            spec_uid_of(spec_split_by(l, |c: char| c == ':')),
            spec_display_of(spec_split_by(l, |c: char| c == ':')),
        );
    let lines = split_char(text, '\n');
    let n = lines.len();
    let mut out: Vec<AccountRecord> = Vec::new();
    let mut i: usize = 0;
    proof {
        reveal(Seq::filter);
        assert(lines@.map_values(|x: String| x@).subrange(0, 0) =~= Seq::<Seq<char>>::empty());
    }
    while i < n
        invariant
            n == lines@.len(),
            i <= n,
            lines@.map_values(|x: String| x@) == spec_split_by(text@, |c: char| c == '\n'),
            out@.map_values(|a: AccountRecord| record_view(a)) =~= lines@.map_values(
                |x: String| x@,
            ).subrange(0, i as int).filter(keepp).map_values(recf),
        decreases n - i,
    {
        let ghost pref = lines@.map_values(|x: String| x@).subrange(0, i as int);
        let ghost prefn = lines@.map_values(|x: String| x@).subrange(0, i + 1);
        proof {
            reveal(Seq::filter);
            assert(prefn.drop_last() =~= pref);
            assert(prefn.last() == lines@[i as int]@);
        }
        let fields = split_char(lines[i].as_str(), ':');
        if fields.len() >= 3 {
            let uid: u32 = match parse_u32(fields[2].as_str()) {
                Some(v) => v,
                None => 0,
            };
            let display: String = if fields.len() >= 5 {
                let cparts = split_char(fields[4].as_str(), ',');
                proof {
                    crate::strutil::lemma_split_len(fields@[4]@, |c: char| c == ',');
                }
                if cparts[0].as_str().unicode_len() > 0 {
                    cparts[0].clone()
                } else {
                    fields[0].clone()
                }
            } else {
                fields[0].clone()
            };
            let rec = AccountRecord { username: fields[0].clone(), uid, display_name: display };
            proof {
                assert(record_view(rec) == recf(lines@[i as int]@));
            }
            out.push(rec);
            proof {
                assert(prefn.filter(keepp) =~= pref.filter(keepp).push(lines@[i as int]@));
                assert(prefn.filter(keepp).map_values(recf) =~= pref.filter(keepp).map_values(
                    recf,
                ).push(recf(lines@[i as int]@)));
            }
        } else {
            proof {
                assert(prefn.filter(keepp) =~= pref.filter(keepp));
            }
        }
        i = i + 1;
    }
    proof {
        assert(lines@.map_values(|x: String| x@).subrange(0, n as int) =~= lines@.map_values(
            |x: String| x@,
        ));
    }
    out
}

/// The trimmed, non-empty lines of `s`.
pub open spec fn spec_clean_lines(s: Seq<char>) -> Seq<Seq<char>> {
    crate::strutil::non_empty_views(
        spec_split_by(s, |c: char| c == '\n').map_values(|l: Seq<char>| spec_trim(l)),
    )
}

/// Parse output that carries one name per line, dropping blank lines and
/// surrounding blank space.
#[verifier::loop_isolation(false)]
pub fn parse_clean_lines(text: &str) -> (r: Vec<String>)
    ensures
        r@.map_values(|x: String| x@) == spec_clean_lines(text@),
{
    let ghost trimf = |l: Seq<char>| spec_trim(l);
    let ghost keepp = |t: Seq<char>| t.len() > 0;
    let lines = split_char(text, '\n');
    let n = lines.len();
    let mut out: Vec<String> = Vec::new();
    let mut i: usize = 0;
    proof {
        reveal(Seq::filter);
        assert(lines@.map_values(|x: String| x@).subrange(0, 0).map_values(trimf) =~= Seq::<
            Seq<char>,
        >::empty());
    }
    while i < n
        invariant
            n == lines@.len(),
            i <= n,
            lines@.map_values(|x: String| x@) == spec_split_by(text@, |c: char| c == '\n'),
            out@.map_values(|x: String| x@) =~= lines@.map_values(|x: String| x@).subrange(
                0,
                i as int,
            ).map_values(trimf).filter(keepp),
        decreases n - i,
    {
        let ghost pref = lines@.map_values(|x: String| x@).subrange(0, i as int).map_values(trimf);
        let ghost prefn = lines@.map_values(|x: String| x@).subrange(0, i + 1).map_values(trimf);
        proof {
            reveal(Seq::filter);
            assert(prefn.drop_last() =~= pref);
            assert(prefn.last() == spec_trim(lines@[i as int]@));
        }
        let t = trim_str(lines[i].as_str());
        if t.as_str().unicode_len() > 0 {
            out.push(t);
            proof {
                assert(prefn.filter(keepp) =~= pref.filter(keepp).push(
                    spec_trim(lines@[i as int]@),
                ));
            }
        } else {
            proof {
                assert(prefn.filter(keepp) =~= pref.filter(keepp));
            }
        }
        i = i + 1;
    }
    proof {
        assert(lines@.map_values(|x: String| x@).subrange(0, n as int) =~= lines@.map_values(
            |x: String| x@,
        ));
    }
    out
}

/// The words joined with single spaces.
pub open spec fn spec_join_words(ws: Seq<Seq<char>>) -> Seq<char>
    decreases ws.len(),
{
    if ws.len() == 0 {
        Seq::<char>::empty()
    } else if ws.len() == 1 {
        ws[0]
    } else {
        ws[0] + " "@ + spec_join_words(ws.drop_first())
    }
}

/// Join the words of `ws`, from index `from` on, with single spaces.
fn join_words_from(ws: &Vec<String>, from: usize) -> (r: String)
    requires
        from <= ws@.len(),
    ensures
        r@ == spec_join_words(ws@.map_values(|x: String| x@).skip(from as int)),
    decreases ws@.len() - from,
{
    let n = ws.len();
    if from >= n {
        proof {
            assert(ws@.map_values(|x: String| x@).skip(from as int) =~= Seq::<Seq<char>>::empty());
        }
        String::new()
    } else if from == n - 1 {
        proof {
            let tail = ws@.map_values(|x: String| x@).skip(from as int);
            assert(tail.len() == 1);
            assert(tail[0] == ws@[from as int]@);
        }
        ws[from].clone()
    } else {
        let rest = join_words_from(ws, from + 1);
        proof {
            let tail = ws@.map_values(|x: String| x@).skip(from as int);
            assert(tail[0] == ws@[from as int]@);
            assert(tail.drop_first() =~= ws@.map_values(|x: String| x@).skip(from + 1));
        }
        ws[from].clone().concat(" ").concat(rest.as_str())
    }
}

/// The display name in a `net user` record: on the first line starting
/// (after trimming) with `Full Name`, the words from the third on, joined
/// with single spaces; nothing where no such line exists or the line
/// carries fewer than three words.
pub open spec fn spec_full_name(s: Seq<char>) -> Option<Seq<char>> {
    let hits = spec_split_by(s, |c: char| c == '\n').filter(
        |l: Seq<char>| spec_starts_with(spec_trim(l), "Full Name"@),
    );
    if hits.len() > 0 && spec_words(hits[0]).len() >= 3 {
        Some(spec_join_words(spec_words(hits[0]).skip(2)))
    } else {
        None
    }
}

/// Parse the `Full Name` field out of a `net user` record.
#[verifier::loop_isolation(false)]
pub fn parse_full_name(text: &str) -> (r: Option<String>)
    ensures
        r is Some <==> spec_full_name(text@) is Some,
        r matches Some(v) ==> spec_full_name(text@) == Some(v@),
{
    let ghost fullp = |l: Seq<char>| spec_starts_with(spec_trim(l), "Full Name"@);
    let lines = split_char(text, '\n');
    let n = lines.len();
    let mut i: usize = 0;
    proof {
        reveal(Seq::filter);
        assert(lines@.map_values(|x: String| x@).subrange(0, 0).filter(fullp) =~= Seq::<
            Seq<char>,
        >::empty());
    }
    while i < n
        invariant
            n == lines@.len(),
            i <= n,
            lines@.map_values(|x: String| x@) == spec_split_by(text@, |c: char| c == '\n'),
            lines@.map_values(|x: String| x@).subrange(0, i as int).filter(fullp) =~= Seq::<
                Seq<char>,
            >::empty(),
        decreases n - i,
    {
        let ghost pref = lines@.map_values(|x: String| x@).subrange(0, i as int);
        let ghost prefn = lines@.map_values(|x: String| x@).subrange(0, i + 1);
        proof {
            reveal(Seq::filter);
            assert(prefn.drop_last() =~= pref);
            assert(prefn.last() == lines@[i as int]@);
        }
        let t = trim_str(lines[i].as_str());
        if str_starts_with(t.as_str(), "Full Name") {
            proof {
                lemma_filter_first(lines@.map_values(|x: String| x@), fullp, i as int);
            }
            let words = split_words(lines[i].as_str());
            if words.len() >= 3 {
                return Some(join_words_from(&words, 2));
            }
            return None;
        }
        proof {
            assert(!fullp(lines@[i as int]@));
            assert(prefn.filter(fullp) =~= pref.filter(fullp));
        }
        i = i + 1;
    }
    proof {
        assert(lines@.map_values(|x: String| x@).subrange(0, n as int) =~= lines@.map_values(
            |x: String| x@,
        ));
    }
    None
}

/// `s` with every repeated string removed, keeping first occurrences in
/// order.
pub open spec fn spec_dedup(s: Seq<Seq<char>>) -> Seq<Seq<char>>
    decreases s.len(),
{
    if s.len() == 0 {
        s
    } else {
        let rest = spec_dedup(s.drop_last());
        if rest.contains(s.last()) {
            rest
        } else {
            rest.push(s.last())
        }
    }
}

/// Drop repeated strings, keeping first occurrences in order.
#[verifier::loop_isolation(false)]
pub fn dedup_strings(v: &Vec<String>) -> (r: Vec<String>)
    ensures
        r@.map_values(|x: String| x@) == spec_dedup(v@.map_values(|x: String| x@)),
{
    let n = v.len();
    let mut out: Vec<String> = Vec::new();
    let mut i: usize = 0;
    proof {
        assert(v@.map_values(|x: String| x@).subrange(0, 0) =~= Seq::<Seq<char>>::empty());
    }
    while i < n
        invariant
            n == v@.len(),
            i <= n,
            out@.map_values(|x: String| x@) =~= spec_dedup(
                v@.map_values(|x: String| x@).subrange(0, i as int),
            ),
        decreases n - i,
    {
        let ghost pref = v@.map_values(|x: String| x@).subrange(0, i as int);
        let ghost prefn = v@.map_values(|x: String| x@).subrange(0, i + 1);
        proof {
            assert(prefn.drop_last() =~= pref);
            assert(prefn.last() == v@[i as int]@);
        }
        let present = crate::strutil::vec_contains_str(&out, v[i].as_str());
        proof {
            let ov = out@.map_values(|x: String| x@);
            if present {
                let w = choose|w: int| 0 <= w < out@.len() && out@[w]@ == v@[i as int]@;
                assert(ov[w] == v@[i as int]@);
                assert(ov.contains(v@[i as int]@));
            } else {
                if ov.contains(v@[i as int]@) {
                    let w = choose|w: int| 0 <= w < ov.len() && ov[w] == v@[i as int]@;
                    assert(out@[w]@ == v@[i as int]@);
                }
            }
        }
        if !present {
            out.push(v[i].clone());
        }
        i = i + 1;
    }
    proof {
        assert(v@.map_values(|x: String| x@).subrange(0, n as int) =~= v@.map_values(
            |x: String| x@,
        ));
    }
    out
}

/// The strings of `base` followed by the strings of `extra`.
#[verifier::loop_isolation(false)]
pub fn concat_string_vecs(base: Vec<String>, extra: &Vec<String>) -> (r: Vec<String>)
    ensures
        r@.map_values(|x: String| x@) == base@.map_values(|x: String| x@) + extra@.map_values(
            |x: String| x@,
        ),
{
    let ghost basev = base@.map_values(|x: String| x@);
    let n = extra.len();
    let mut out = base;
    let mut i: usize = 0;
    proof {
        assert(out@.map_values(|x: String| x@) =~= basev + extra@.map_values(
            |x: String| x@,
        ).take(0));
    }
    while i < n
        invariant
            n == extra@.len(),
            i <= n,
            out@.map_values(|x: String| x@) =~= basev + extra@.map_values(|x: String| x@).take(
                i as int,
            ),
        decreases n - i,
    {
        let ghost prevm = out@.map_values(|x: String| x@);
        out.push(extra[i].clone());
        proof {
            assert(out@.map_values(|x: String| x@) =~= prevm.push(extra@[i as int]@));
            assert(extra@.map_values(|x: String| x@).take(i + 1) =~= extra@.map_values(
                |x: String| x@,
            ).take(i as int).push(extra@[i as int]@));
            assert(basev + extra@.map_values(|x: String| x@).take(i + 1) =~= (basev
                + extra@.map_values(|x: String| x@).take(i as int)).push(extra@[i as int]@));
        }
        i = i + 1;
    }
    proof {
        assert(extra@.map_values(|x: String| x@).take(n as int) =~= extra@.map_values(
            |x: String| x@,
        ));
    }
    out
}

/// The group resolution used on generic Unix systems, where no single
/// utility is reliable: the per-user `groups` output wins when it names
/// any group; otherwise the `getent group` database is searched; then the
/// words of an `id -G -n` answer, without repeats; and finally a raw
/// `/etc/group` listing.
pub open spec fn spec_unix_groups(
    groups_out: Seq<char>,
    getent_out: Seq<char>,
    id_out: Seq<char>,
    etc_group: Seq<char>,
    user: Seq<char>,
) -> Seq<Seq<char>> {
    if spec_groups_of_output(groups_out).len() > 0 {
        spec_groups_of_output(groups_out)
    } else if spec_member_groups(getent_out, user).len() > 0 {
        spec_member_groups(getent_out, user)
    } else if spec_dedup(spec_words(id_out)).len() > 0 {
        spec_dedup(spec_words(id_out))
    } else {
        spec_dedup(spec_member_groups(etc_group, user))
    }
}

/// Resolve a user's groups from the outputs of the cascade of Unix group
/// queries, taking the first stage that names any group.
pub fn unix_groups_cascade(
    groups_out: &str,
    getent_out: &str,
    id_out: &str,
    etc_group: &str,
    user: &str,
) -> (r: Vec<String>)
    ensures
        r@.map_values(|x: String| x@) == spec_unix_groups(
            groups_out@,
            getent_out@,
            id_out@,
            etc_group@,
            user@,
        ),
{
    let first = parse_groups_output(groups_out);
    if first.len() > 0 {
        return first;
    }
    let second = parse_member_groups(getent_out, user);
    if second.len() > 0 {
        return second;
    }
    let third = dedup_strings(&split_words(id_out));
    if third.len() > 0 {
        return third;
    }
    dedup_strings(&parse_member_groups(etc_group, user))
}

/// An identity source over fixed tables, for exercising the providers
/// without OS dependencies.
///
/// When `fail` is set every query reports an identity-source error, which
/// models a platform whose account utilities are unavailable.
pub struct FixedIdentitySource {
    /// The account names that exist.
    pub accounts: Vec<String>,
    /// Raw per-user group-query output, by username.
    pub groups_outputs: Vec<(String, String)>,
    /// Raw group database listing.
    pub group_db: String,
    /// Raw account database listing.
    pub passwd: String,
    /// Raw per-user record text, by username.
    pub records: Vec<(String, String)>,
    /// Raw fallback per-user group-name output, by username.
    pub id_groups: Vec<(String, String)>,
    /// Raw group file contents.
    pub group_file: String,
    /// Whether every query fails.
    pub fail: bool,
}

impl FixedIdentitySource {
    /// A source with no accounts and empty listings.
    pub fn new() -> (r: Self)
        ensures
            r.accounts@.len() == 0,
            r.groups_outputs@.len() == 0,
            r.group_db@ == Seq::<char>::empty(),
            r.passwd@ == Seq::<char>::empty(),
            r.records@.len() == 0,
            r.id_groups@.len() == 0,
            r.group_file@ == Seq::<char>::empty(),
            r.fail == false,
    {
        FixedIdentitySource {
            accounts: Vec::new(),
            groups_outputs: Vec::new(),
            group_db: String::new(),
            passwd: String::new(),
            records: Vec::new(),
            id_groups: Vec::new(),
            group_file: String::new(),
            fail: false,
        }
    }

    /// A source whose every query fails.
    pub fn failing() -> (r: Self)
        ensures
            r.fail == true,
    {
        let mut s = FixedIdentitySource::new();
        s.fail = true;
        s
    }

    /// Find the raw text filed under `name` in a keyed table.
    #[verifier::loop_isolation(false)]
    fn lookup_text(table: &Vec<(String, String)>, name: &str) -> (r: Option<String>)
        ensures
            r is Some <==> exists|i: int| 0 <= i < table@.len() && table@[i].0@ == name@,
            r matches Some(v) ==> exists|i: int|
                0 <= i < table@.len() && table@[i].0@ == name@ && v@ == table@[i].1@,
    {
        let n = table.len();
        let mut i: usize = 0;
        while i < n
            invariant
                n == table@.len(),
                i <= n,
                forall|j: int| 0 <= j < i ==> table@[j].0@ != name@,
            decreases n - i,
        {
            if str_eq(table[i].0.as_str(), name) {
                return Some(table[i].1.clone());
            }
            i = i + 1;
        }
        None
    }
}

impl IdentitySource for FixedIdentitySource {
    fn account_exists(&mut self, username: &str) -> Result<bool, AuthError> {
        if self.fail {
            return Err(AuthError::IdentitySource(String::from_str("identity source unavailable")));
        }
        Ok(crate::strutil::vec_contains_str(&self.accounts, username))
    }

    fn groups_text(&mut self, username: &str) -> Result<String, AuthError> {
        if self.fail {
            return Err(AuthError::IdentitySource(String::from_str("identity source unavailable")));
        }
        match Self::lookup_text(&self.groups_outputs, username) {
            Some(t) => Ok(t),
            None => Ok(String::new()),
        }
    }

    fn group_db_text(&mut self) -> Result<String, AuthError> {
        if self.fail {
            return Err(AuthError::IdentitySource(String::from_str("identity source unavailable")));
        }
        Ok(self.group_db.clone())
    }

    fn passwd_text(&mut self) -> Result<String, AuthError> {
        if self.fail {
            return Err(AuthError::IdentitySource(String::from_str("identity source unavailable")));
        }
        Ok(self.passwd.clone())
    }

    fn user_record_text(&mut self, username: &str) -> Result<String, AuthError> {
        if self.fail {
            return Err(AuthError::IdentitySource(String::from_str("identity source unavailable")));
        }
        match Self::lookup_text(&self.records, username) {
            Some(t) => Ok(t),
            None => Ok(String::new()),
        }
    }

    fn id_groups_text(&mut self, username: &str) -> Result<String, AuthError> {
        if self.fail {
            return Err(AuthError::IdentitySource(String::from_str("identity source unavailable")));
        }
        match Self::lookup_text(&self.id_groups, username) {
            Some(t) => Ok(t),
            None => Ok(String::new()),
        }
    }

    fn group_file_text(&mut self) -> Result<String, AuthError> {
        if self.fail {
            return Err(AuthError::IdentitySource(String::from_str("identity source unavailable")));
        }
        Ok(self.group_file.clone())
    }
}

/// When everything before index `i` is filtered out and `ls[i]` passes the
/// filter, the first element kept by the filter is `ls[i]`.
proof fn lemma_filter_first(ls: Seq<Seq<char>>, p: spec_fn(Seq<char>) -> bool, i: int)
    requires
        0 <= i < ls.len(),
        p(ls[i]),
        ls.subrange(0, i).filter(p) == Seq::<Seq<char>>::empty(),
    ensures
        ls.filter(p).len() > 0,
        ls.filter(p)[0] == ls[i],
    decreases ls.len(),
{
    reveal(Seq::filter);
    if i == ls.len() - 1 {
        assert(ls.drop_last() =~= ls.subrange(0, i));
        assert(ls.filter(p) =~= ls.subrange(0, i).filter(p).push(ls[i]));
    } else {
        assert(ls.drop_last().subrange(0, i) =~= ls.subrange(0, i));
        lemma_filter_first(ls.drop_last(), p, i);
        assert(ls.drop_last()[i] == ls[i]);
    }
}

} // verus!
