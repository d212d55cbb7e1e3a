//! Small verified string utilities shared by the whole crate.
//!
//! Authorization decisions in this crate are string matching at heart:
//! comparing usernames, group names and `resource:action` permission
//! patterns.  The helpers here give those comparisons exact specifications
//! over the character sequences (`Seq<char>`) that `&str` and `String`
//! values denote.

use vstd::prelude::*;

verus! {

/// True when the sequence of strings `vs` holds an element whose characters
/// are exactly `t`.
pub open spec fn contains_string(vs: Seq<String>, t: Seq<char>) -> bool {
    exists|i: int| 0 <= i < vs.len() && vs[i]@ == t
}

/// Character-exact equality of two string slices.
pub fn str_eq(a: &str, b: &str) -> (r: bool)
    ensures
        r == (a@ == b@),
{
    let x = a.to_owned();
    let y = b.to_owned();
    x == y
}

/// Whether `v` holds a string equal to `s`.
#[verifier::loop_isolation(false)]
pub fn vec_contains_str(v: &Vec<String>, s: &str) -> (r: bool)
    ensures
        r == contains_string(v@, s@),
{
    let mut i: usize = 0;
    while i < v.len()
        invariant
            i <= v@.len(),
            forall|j: int| 0 <= j < i ==> v@[j]@ != s@,
        decreases v@.len() - i,
    {
        if str_eq(v[i].as_str(), s) {
            return true;
        }
        i = i + 1;
    }
    false
}

/// True for the characters treated as blank space in OS command output.
pub open spec fn is_space(c: char) -> bool {
    c == ' ' || c == '\t' || c == '\r' || c == '\n'
}

/// The fields of `s` split at every character satisfying `issep`.
///
/// Splitting the empty sequence yields one empty field, and a separator at
/// either end yields an empty field there, as `str::split` does.
pub open spec fn spec_split_by(s: Seq<char>, issep: spec_fn(char) -> bool) -> Seq<Seq<char>>
    decreases s.len(),
{
    if s.len() == 0 {
        seq![Seq::<char>::empty()]
    } else if issep(s[0]) {
        seq![Seq::<char>::empty()] + spec_split_by(s.drop_first(), issep)
    } else {
        let rest = spec_split_by(s.drop_first(), issep);
        seq![seq![s[0]] + rest[0]] + rest.drop_first()
    }
}

/// Splitting always yields at least one field.
pub proof fn lemma_split_len(s: Seq<char>, issep: spec_fn(char) -> bool)
    ensures
        spec_split_by(s, issep).len() >= 1,
    decreases s.len(),
{
    if s.len() != 0 {
        lemma_split_len(s.drop_first(), issep);
    }
}

/// Peeling the first field off a split: if the first `idx` characters are
/// not separators and, when one exists, the character at `idx` is one, the
/// split is the head field followed by the split of the remainder.
pub proof fn lemma_split_head(s: Seq<char>, issep: spec_fn(char) -> bool, idx: int)
    requires
        0 <= idx <= s.len(),
        forall|j: int| 0 <= j < idx ==> !issep(s[j]),
        idx < s.len() ==> issep(s[idx]),
    ensures
        idx == s.len() ==> spec_split_by(s, issep) == seq![s],
        idx < s.len() ==> spec_split_by(s, issep) == seq![s.subrange(0, idx)] + spec_split_by(
            s.subrange(idx + 1, s.len() as int),
            issep,
        ),
    decreases idx,
{
    lemma_split_len(s, issep);
    if idx == 0 {
        if s.len() == 0 {
            assert(spec_split_by(s, issep) =~~= seq![s]);
        } else {
            assert(s.subrange(0, 0) =~= Seq::<char>::empty());
            assert(s.subrange(1, s.len() as int) =~= s.drop_first());
            assert(spec_split_by(s, issep) =~~= seq![s.subrange(0, 0)] + spec_split_by(
                s.subrange(1, s.len() as int),
                issep,
            ));
        }
    } else {
        let d = s.drop_first();
        lemma_split_len(d, issep);
        lemma_split_head(d, issep, idx - 1);
        let rest = spec_split_by(d, issep);
        if idx == s.len() {
            assert(rest == seq![d]);
            assert(seq![s[0]] + rest[0] =~= s);
            assert(spec_split_by(s, issep) =~~= seq![s]);
        } else {
            assert(rest == seq![d.subrange(0, idx - 1)] + spec_split_by(
                d.subrange(idx, d.len() as int),
                issep,
            ));
            assert(seq![s[0]] + rest[0] =~= s.subrange(0, idx));
            assert(d.subrange(idx, d.len() as int) =~= s.subrange(idx + 1, s.len() as int));
            assert(rest.drop_first() =~= spec_split_by(
                s.subrange(idx + 1, s.len() as int),
                issep,
            ));
            assert(spec_split_by(s, issep) =~= seq![s.subrange(0, idx)] + spec_split_by(
                s.subrange(idx + 1, s.len() as int),
                issep,
            ));
        }
    }
}

/// Split `s` at every occurrence of the character `sep`.
#[verifier::loop_isolation(false)]
pub fn split_char(s: &str, sep: char) -> (r: Vec<String>)
    ensures
        r@.map_values(|x: String| x@) == spec_split_by(s@, |c: char| c == sep),
{
    let ghost issep = |c: char| c == sep;
    let n = s.unicode_len();
    let mut out: Vec<String> = Vec::new();
    let mut start: usize = 0;
    let mut i: usize = 0;
    proof {
        assert(s@.subrange(0, n as int) =~= s@);
        assert(out@.map_values(|x: String| x@) + spec_split_by(s@, issep) =~= spec_split_by(
            s@,
            issep,
        ));
    }
    while i < n
        invariant
            n == s@.len(),
            start <= i <= n,
            forall|j: int| start <= j < i ==> !issep(s@[j]),
            spec_split_by(s@, issep) =~= out@.map_values(|x: String| x@) + spec_split_by(
                s@.subrange(start as int, n as int),
                issep,
            ),
        decreases n - i,
    {
        if s.get_char(i) == sep {
            let token = s.substring_char(start, i);
            proof {
                let tail = s@.subrange(start as int, n as int);
                lemma_split_head(tail, issep, i - start);
                assert(tail.subrange(0, i - start) =~= s@.subrange(start as int, i as int));
                assert(tail.subrange(i - start + 1, tail.len() as int) =~= s@.subrange(
                    i + 1,
                    n as int,
                ));
            }
            out.push(token.to_owned());
            proof {
                assert(out@.map_values(|x: String| x@) =~= out@.map_values(
                    |x: String| x@,
                ).subrange(0, out@.len() - 1) + seq![s@.subrange(start as int, i as int)]);
                assert(spec_split_by(s@, issep) =~= out@.map_values(|x: String| x@)
                    + spec_split_by(s@.subrange(i + 1, n as int), issep));
            }
            start = i + 1;
        }
        i = i + 1;
    }
    let token = s.substring_char(start, n);
    proof {
        let tail = s@.subrange(start as int, n as int);
        lemma_split_head(tail, issep, n - start);
        assert(tail.subrange(0, n - start) =~= tail);
    }
    out.push(token.to_owned());
    proof {
        assert(out@.map_values(|x: String| x@) =~= out@.map_values(|x: String| x@).subrange(
            0,
            out@.len() - 1,
        ) + seq![s@.subrange(start as int, n as int)]);
        assert(spec_split_by(s@, issep) =~= out@.map_values(|x: String| x@));
    }
    out
}

/// Decide whether `c` is blank space.
pub fn is_space_exec(c: char) -> (r: bool)
    ensures
        r == is_space(c),
{
    c == ' ' || c == '\t' || c == '\r' || c == '\n'
}

/// Split `s` at every blank-space character.
#[verifier::loop_isolation(false)]
pub fn split_spaces(s: &str) -> (r: Vec<String>)
    ensures
        r@.map_values(|x: String| x@) == spec_split_by(s@, |c: char| is_space(c)),
{
    let ghost issep = |c: char| is_space(c);
    let n = s.unicode_len();
    let mut out: Vec<String> = Vec::new();
    let mut start: usize = 0;
    let mut i: usize = 0;
    proof {
        assert(s@.subrange(0, n as int) =~= s@);
        assert(out@.map_values(|x: String| x@) + spec_split_by(s@, issep) =~= spec_split_by(
            s@,
            issep,
        ));
    }
    while i < n
        invariant
            n == s@.len(),
            start <= i <= n,
            forall|j: int| start <= j < i ==> !issep(s@[j]),
            spec_split_by(s@, issep) =~= out@.map_values(|x: String| x@) + spec_split_by(
                s@.subrange(start as int, n as int),
                issep,
            ),
        decreases n - i,
    {
        if is_space_exec(s.get_char(i)) {
            let token = s.substring_char(start, i);
            proof {
                let tail = s@.subrange(start as int, n as int);
                lemma_split_head(tail, issep, i - start);
                assert(tail.subrange(0, i - start) =~= s@.subrange(start as int, i as int));
                assert(tail.subrange(i - start + 1, tail.len() as int) =~= s@.subrange(
                    i + 1,
                    n as int,
                ));
            }
            out.push(token.to_owned());
            proof {
                assert(out@.map_values(|x: String| x@) =~= out@.map_values(
                    |x: String| x@,
                ).subrange(0, out@.len() - 1) + seq![s@.subrange(start as int, i as int)]);
                assert(spec_split_by(s@, issep) =~= out@.map_values(|x: String| x@)
                    + spec_split_by(s@.subrange(i + 1, n as int), issep));
            }
            start = i + 1;
        }
        i = i + 1;
    }
    let token = s.substring_char(start, n);
    proof {
        let tail = s@.subrange(start as int, n as int);
        lemma_split_head(tail, issep, n - start);
        assert(tail.subrange(0, n - start) =~= tail);
    }
    out.push(token.to_owned());
    proof {
        assert(out@.map_values(|x: String| x@) =~= out@.map_values(|x: String| x@).subrange(
            0,
            out@.len() - 1,
        ) + seq![s@.subrange(start as int, n as int)]);
        assert(spec_split_by(s@, issep) =~= out@.map_values(|x: String| x@));
    }
    out
}

/// The non-empty fields of `vs`.
pub open spec fn non_empty_views(vs: Seq<Seq<char>>) -> Seq<Seq<char>> {
    vs.filter(|t: Seq<char>| t.len() > 0)
}

/// Keep only the non-empty strings of `v`.
#[verifier::loop_isolation(false)]
pub fn retain_non_empty(v: Vec<String>) -> (r: Vec<String>)
    ensures
        r@.map_values(|x: String| x@) == non_empty_views(v@.map_values(|x: String| x@)),
{
    let n = v.len();
    let mut out: Vec<String> = Vec::new();
    let mut i: usize = 0;
    proof {
        reveal(Seq::filter);
        assert(v@.map_values(|x: String| x@).subrange(0, 0) =~= Seq::<Seq<char>>::empty());
    }
    while i < n
        invariant
            n == v@.len(),
            i <= n,
            out@.map_values(|x: String| x@) =~= non_empty_views(
                v@.map_values(|x: String| x@).subrange(0, i as int),
            ),
        decreases n - i,
    {
        let ghost pref = v@.map_values(|x: String| x@).subrange(0, i as int);
        let ghost prefn = v@.map_values(|x: String| x@).subrange(0, i + 1);
        proof {
            reveal(Seq::filter);
            assert(prefn.drop_last() =~= pref);
            assert(prefn.last() == v@[i as int]@);
        }
        if v[i].unicode_len() > 0 {
            out.push(v[i].clone());
        }
        i = i + 1;
        proof {
            reveal(Seq::filter);
        }
    }
    proof {
        assert(v@.map_values(|x: String| x@).subrange(0, n as int) =~= v@.map_values(
            |x: String| x@,
        ));
    }
    out
}

/// The blank-space delimited words of `s`.
pub open spec fn spec_words(s: Seq<char>) -> Seq<Seq<char>> {
    non_empty_views(spec_split_by(s, |c: char| is_space(c)))
}

/// Split `s` into its blank-space delimited words.
pub fn split_words(s: &str) -> (r: Vec<String>)
    ensures
        r@.map_values(|x: String| x@) == spec_words(s@),
{
    retain_non_empty(split_spaces(s))
}

/// `s` without leading blank space.
pub open spec fn spec_trim_front(s: Seq<char>) -> Seq<char>
    decreases s.len(),
{
    if s.len() > 0 && is_space(s[0]) {
        spec_trim_front(s.drop_first())
    } else {
        s
    }
}

/// `s` without trailing blank space.
pub open spec fn spec_trim_back(s: Seq<char>) -> Seq<char>
    decreases s.len(),
{
    if s.len() > 0 && is_space(s[s.len() - 1]) {
        spec_trim_back(s.drop_last())
    } else {
        s
    }
}

/// `s` without leading and trailing blank space.
pub open spec fn spec_trim(s: Seq<char>) -> Seq<char> {
    spec_trim_back(spec_trim_front(s))
}

/// Trimming the front amounts to dropping the leading run of spaces.
proof fn lemma_trim_front(s: Seq<char>, k: int)
    requires
        0 <= k <= s.len(),
        forall|j: int| 0 <= j < k ==> is_space(s[j]),
        k < s.len() ==> !is_space(s[k]),
    ensures
        spec_trim_front(s) == s.subrange(k, s.len() as int),
    decreases k,
{
    if k == 0 {
        assert(s.subrange(0, s.len() as int) =~= s);
    } else {
        lemma_trim_front(s.drop_first(), k - 1);
        assert(s.drop_first().subrange(k - 1, s.drop_first().len() as int) =~= s.subrange(
            k,
            s.len() as int,
        ));
    }
}

/// Trimming the back amounts to dropping the trailing run of spaces.
proof fn lemma_trim_back(s: Seq<char>, k: int)
    requires
        0 <= k <= s.len(),
        forall|j: int| k <= j < s.len() ==> is_space(s[j]),
        k > 0 ==> !is_space(s[k - 1]),
    ensures
        spec_trim_back(s) == s.subrange(0, k),
    decreases s.len() - k,
{
    if k == s.len() {
        assert(s.subrange(0, k) =~= s);
    } else {
        assert(is_space(s[s.len() - 1]));
        lemma_trim_back(s.drop_last(), k);
        assert(s.drop_last().subrange(0, k) =~= s.subrange(0, k));
    }
}

/// `s` with leading and trailing blank space removed.
#[verifier::loop_isolation(false)]
pub fn trim_str(s: &str) -> (r: String)
    ensures
        r@ == spec_trim(s@),
{
    let n = s.unicode_len();
    let mut a: usize = 0;
    while a < n && is_space_exec(s.get_char(a))
        invariant
            n == s@.len(),
            a <= n,
            forall|j: int| 0 <= j < a ==> is_space(s@[j]),
        decreases n - a,
    {
        a = a + 1;
    }
    proof {
        lemma_trim_front(s@, a as int);
    }
    let mut b: usize = n;
    while b > a && is_space_exec(s.get_char(b - 1))
        invariant
            n == s@.len(),
            a <= b <= n,
            forall|j: int| b <= j < n ==> is_space(s@[j]),
        decreases b,
    {
        b = b - 1;
    }
    let r = s.substring_char(a, b);
    proof {
        let front = s@.subrange(a as int, n as int);
        lemma_trim_back(front, b - a);
        assert(front.subrange(0, b - a) =~= s@.subrange(a as int, b as int));
    }
    r.to_owned()
}

/// True when every character of `s` is a decimal digit.
pub open spec fn all_digits(s: Seq<char>) -> bool {
    forall|i: int| 0 <= i < s.len() ==> '0' <= #[trigger] s[i] <= '9'
}

/// The numeric value of the digit string `s`.
pub open spec fn digits_val(s: Seq<char>) -> int
    decreases s.len(),
{
    if s.len() == 0 {
        0
    } else {
        digits_val(s.drop_last()) * 10 + (s[s.len() - 1] as int - '0' as int)
    }
}

/// A digit string has a non-negative value.
proof fn lemma_digits_nonneg(s: Seq<char>)
    requires
        all_digits(s),
    ensures
        digits_val(s) >= 0,
    decreases s.len(),
{
    if s.len() > 0 {
        assert(all_digits(s.drop_last()));
        lemma_digits_nonneg(s.drop_last());
    }
}

/// Parse `s` as an unsigned decimal number.
///
/// Returns the value exactly when `s` is a non-empty string of digits whose
/// value fits in `u32`; anything else is `None`.
#[verifier::loop_isolation(false)]
pub fn parse_u32(s: &str) -> (r: Option<u32>)
    ensures
        r matches Some(v) ==> s@.len() > 0 && all_digits(s@) && v == digits_val(s@),
        r is None ==> s@.len() == 0 || !all_digits(s@) || digits_val(s@) > u32::MAX,
{
    let n = s.unicode_len();
    if n == 0 {
        return None;
    }
    let mut acc: u32 = 0;
    let mut i: usize = 0;
    while i < n
        invariant
            n == s@.len(),
            i <= n,
            all_digits(s@.subrange(0, i as int)),
            acc == digits_val(s@.subrange(0, i as int)),
        decreases n - i,
    {
        let c = s.get_char(i);
        if !('0' <= c && c <= '9') {
            proof {
                assert(!all_digits(s@));
            }
            return None;
        }
        let d: u32 = (c as u32) - 48;
        if acc > (u32::MAX - d) / 10 {
            proof {
                let pref = s@.subrange(0, i + 1);
                assert(pref.drop_last() =~= s@.subrange(0, i as int));
                assert(digits_val(pref) == acc * 10 + d);
                assert(acc * 10 + d > u32::MAX) by (nonlinear_arith)
                    requires
                        acc > (u32::MAX - d) / 10,
                        0 <= d <= 9,
                ;
                if all_digits(s@) {
                    lemma_digits_monotonic(s@, i + 1);
                }
            }
            return None;
        }
        acc = acc * 10 + d;
        i = i + 1;
        proof {
            let pref = s@.subrange(0, i as int);
            assert(pref.drop_last() =~= s@.subrange(0, i - 1));
            assert(pref.last() == c);
        }
    }
    proof {
        assert(s@.subrange(0, n as int) =~= s@);
    }
    Some(acc)
}

/// A longer digit prefix never has a smaller value.
proof fn lemma_digits_monotonic(s: Seq<char>, k: int)
    requires
        0 <= k <= s.len(),
        all_digits(s),
    ensures
        digits_val(s) >= digits_val(s.subrange(0, k)),
    decreases s.len() - k,
{
    if k == s.len() {
        assert(s.subrange(0, k) =~= s);
    } else {
        lemma_digits_monotonic(s, k + 1);
        let p1 = s.subrange(0, k + 1);
        assert(p1.drop_last() =~= s.subrange(0, k));
        assert(all_digits(s.subrange(0, k)));
        lemma_digits_nonneg(s.subrange(0, k));
        assert(digits_val(p1) == digits_val(s.subrange(0, k)) * 10 + (p1[k] as int - '0' as int));
    }
}

/// The digit character of a value below ten.
pub open spec fn digit_char(d: int) -> char {
    if d == 0 {
        '0'
    } else if d == 1 {
        '1'
    } else if d == 2 {
        '2'
    } else if d == 3 {
        '3'
    } else if d == 4 {
        '4'
    } else if d == 5 {
        '5'
    } else if d == 6 {
        '6'
    } else if d == 7 {
        '7'
    } else if d == 8 {
        '8'
    } else {
        '9'
    }
}

/// The decimal rendering of `n`, most significant digit first.
pub open spec fn spec_dec(n: int) -> Seq<char>
    decreases n,
{
    if n < 10 {
        seq![digit_char(n)]
    } else {
        spec_dec(n / 10).push(digit_char(n % 10))
    }
}

/// Render `n` in decimal.
pub fn u64_to_string(n: u64) -> (r: String)
    ensures
        r@ == spec_dec(n as int),
    decreases n,
{
    let digits = "0123456789";
    proof {
        reveal_strlit("0123456789");
    }
    if n < 10 {
        let d = digits.substring_char(n as usize, n as usize + 1);
        proof {
            assert(d@ =~= seq![digit_char(n as int)]);
        }
        d.to_owned()
    } else {
        let mut s = u64_to_string(n / 10);
        let d = digits.substring_char((n % 10) as usize, (n % 10) as usize + 1);
        proof {
            assert(d@ =~= seq![digit_char((n % 10) as int)]);
        }
        s.append(d);
        proof {
            assert(spec_dec(n as int) =~= spec_dec(n as int / 10) + seq![
                digit_char(n as int % 10),
            ]);
        }
        s
    }
}

/// True when `s` starts with `prefix`.
pub open spec fn spec_starts_with(s: Seq<char>, prefix: Seq<char>) -> bool {
    s.len() >= prefix.len() && s.subrange(0, prefix.len() as int) == prefix
}

/// Decide whether `s` starts with `prefix`.
#[verifier::loop_isolation(false)]
pub fn str_starts_with(s: &str, prefix: &str) -> (r: bool)
    ensures
        r == spec_starts_with(s@, prefix@),
{
    let pn = prefix.unicode_len();
    let n = s.unicode_len();
    if n < pn {
        return false;
    }
    let mut i: usize = 0;
    while i < pn
        invariant
            pn == prefix@.len(),
            n == s@.len(),
            pn <= n,
            i <= pn,
            forall|j: int| 0 <= j < i ==> s@[j] == prefix@[j],
        decreases pn - i,
    {
        if s.get_char(i) != prefix.get_char(i) {
            proof {
                assert(s@.subrange(0, pn as int)[i as int] != prefix@[i as int]);
            }
            return false;
        }
        i = i + 1;
    }
    proof {
        assert(s@.subrange(0, pn as int) =~= prefix@);
    }
    true
}

} // verus!
