//! The placeholder scanner and substitution engine.
//!
//! A placeholder is `@` followed by one or more name characters
//! (`A`-`Z`, `a`-`z`, `0`-`9`, `_`) and a closing `@`, found by a
//! left-to-right, non-overlapping scan. Substitution replaces every
//! placeholder whose name the store resolves; when any referenced name is
//! absent, it fails with the first unresolved name in scan order and commits
//! nothing. Literal replacement of a fixed pattern backs the change task.
use crate::error::BleurError;
use crate::store::VariableStore;
use vstd::prelude::*;
use vstd::string::StrSliceExecFns;
use vstd::string::StringExecFns;

verus! {

/// Whether the character may stand in a placeholder name.
pub open spec fn is_ident_char(c: char) -> bool {
    let n = c as u32;
    (97 <= n && n <= 122) || (65 <= n && n <= 90) || (48 <= n && n <= 57) || n == 95
}

/// Decides `is_ident_char`.
fn ident_char(c: char) -> (r: bool)
    ensures
        r == is_ident_char(c),
{
    let n = c as u32;
    (97 <= n && n <= 122) || (65 <= n && n <= 90) || (48 <= n && n <= 57) || n == 95
}

/// First index at or after `i` that does not hold a name character, or the
/// length when the name characters run to the end.
pub open spec fn ident_run_end(s: Seq<char>, i: int) -> int
    decreases s.len() - i,
{
    if 0 <= i < s.len() && is_ident_char(s[i]) {
        ident_run_end(s, i + 1)
    } else {
        i
    }
}

/// Identifies the run end from the loop that found it.
proof fn lemma_ident_run_end_at(s: Seq<char>, i: int, j: int)
    requires
        0 <= i <= j <= s.len(),
        forall|k: int| i <= k < j ==> is_ident_char(s[k]),
        j == s.len() || !is_ident_char(s[j]),
    ensures
        ident_run_end(s, i) == j,
    decreases j - i,
{
    if i < j {
        lemma_ident_run_end_at(s, i + 1, j);
    }
}

/// Whether a placeholder stands at position `i`: an `@`, at least one name
/// character, and a closing `@`.
pub open spec fn match_at(s: Seq<char>, i: int) -> bool {
    &&& 0 <= i < s.len()
    &&& s[i] == '@'
    &&& i + 1 < ident_run_end(s, i + 1)
    &&& ident_run_end(s, i + 1) < s.len()
    &&& s[ident_run_end(s, i + 1)] == '@'
}

/// The index of the closing `@` of the placeholder at `i`.
pub open spec fn match_end(s: Seq<char>, i: int) -> int {
    ident_run_end(s, i + 1)
}

/// The name between the two `@` of the placeholder at `i`.
pub open spec fn match_name(s: Seq<char>, i: int) -> Seq<char> {
    s.subrange(i + 1, match_end(s, i))
}

/// The placeholder names referenced from position `i` on, in scan order,
/// duplicates kept.
pub open spec fn scan_from(s: Seq<char>, i: int) -> Seq<Seq<char>>
    decreases s.len() - i,
{
    if i < 0 || i >= s.len() {
        Seq::empty()
    } else if match_at(s, i) {
        seq![match_name(s, i)] + scan_from(s, match_end(s, i) + 1)
    } else {
        scan_from(s, i + 1)
    }
}

/// The first of `names` that the map does not resolve, in order.
pub open spec fn first_missing(names: Seq<Seq<char>>, m: Map<Seq<char>, Seq<char>>) -> Option<
    Seq<char>,
>
    decreases names.len(),
{
    if names.len() == 0 {
        None
    } else if !m.contains_key(names[0]) {
        Some(names[0])
    } else {
        first_missing(names.drop_first(), m)
    }
}

/// Unfolds `first_missing` over a name put in front of a list.
proof fn lemma_first_missing_cons(n: Seq<char>, rest: Seq<Seq<char>>, m: Map<Seq<char>, Seq<char>>)
    ensures
        first_missing(seq![n] + rest, m) == (if !m.contains_key(n) {
            Some(n)
        } else {
            first_missing(rest, m)
        }),
{
    let names = seq![n] + rest;
    assert(names[0] == n);
    assert(names.drop_first() =~= rest);
}

/// A referenced name that the map does not resolve forces `first_missing` to
/// identify one.
pub proof fn lemma_first_missing_some(
    names: Seq<Seq<char>>,
    m: Map<Seq<char>, Seq<char>>,
    n: Seq<char>,
)
    requires
        names.contains(n),
        !m.contains_key(n),
    ensures
        first_missing(names, m) is Some,
    decreases names.len(),
{
    if !m.contains_key(names[0]) {
    } else {
        let i = choose|i: int| 0 <= i < names.len() && names[i] == n;
        assert(names.drop_first()[i - 1] == n);
        assert(names.drop_first().contains(n));
        lemma_first_missing_some(names.drop_first(), m, n);
    }
}

/// The text from position `i` on with every resolvable placeholder replaced
/// by its value; a placeholder whose name the map does not resolve stays as
/// it stands.
pub open spec fn subst_from(s: Seq<char>, i: int, m: Map<Seq<char>, Seq<char>>) -> Seq<char>
    decreases s.len() - i,
{
    if i < 0 || i >= s.len() {
        Seq::empty()
    } else if match_at(s, i) {
        if m.contains_key(match_name(s, i)) {
            m[match_name(s, i)] + subst_from(s, match_end(s, i) + 1, m)
        } else {
            s.subrange(i, match_end(s, i) + 1) + subst_from(s, match_end(s, i) + 1, m)
        }
    } else {
        seq![s[i]] + subst_from(s, i + 1, m)
    }
}

/// Looks for a placeholder at position `i`, handing back the index of its
/// closing `@` when one stands there.
fn match_close(s: &str, i: usize, n: usize) -> (r: Option<usize>)
    requires
        i < n,
        n == s@.len(),
    ensures
        match r {
            Some(j) => match_at(s@, i as int) && j == match_end(s@, i as int) && i + 1 < j < n,
            None => !match_at(s@, i as int),
        },
{
    if s.get_char(i) != '@' {
        return None;
    }
    let mut j = i + 1;
    while j < n && ident_char(s.get_char(j))
        invariant
            i + 1 <= j <= n,
            n == s@.len(),
            forall|k: int| i + 1 <= k < j ==> is_ident_char(s@[k]),
        decreases n - j,
    {
        j += 1;
    }
    proof {
        lemma_ident_run_end_at(s@, i as int + 1, j as int);
    }
    if j > i + 1 && j < n && s.get_char(j) == '@' {
        Some(j)
    } else {
        None
    }
}

/// Collects every placeholder reference in the text, in scan order,
/// duplicates kept.
pub fn find_placeholders(text: &str) -> (r: Vec<String>)
    ensures
        r@.map_values(|t: String| t@) == scan_from(text@, 0),
{
    let n = text.unicode_len();
    let mut r: Vec<String> = Vec::new();
    let mut i: usize = 0;
    proof {
        assert(r@.map_values(|t: String| t@) + scan_from(text@, 0) =~= scan_from(text@, 0));
    }
    while i < n
        invariant
            i <= n,
            n == text@.len(),
            r@.map_values(|t: String| t@) + scan_from(text@, i as int) == scan_from(text@, 0),
        decreases n - i,
    {
        let ghost r0 = r@.map_values(|t: String| t@);
        match match_close(text, i, n) {
            Some(j) => {
                let name = text.substring_char(i + 1, j);
                r.push(String::from_str(name));
                proof {
                    assert(r@.map_values(|t: String| t@) =~= r0.push(match_name(text@, i as int)));
                    assert(r0.push(match_name(text@, i as int)) + scan_from(text@, j as int + 1)
                        =~= r0 + scan_from(text@, i as int));
                }
                i = j + 1;
            },
            None => {
                i = i + 1;
            },
        }
    }
    proof {
        assert(r@.map_values(|t: String| t@) + scan_from(text@, n as int) =~= r@.map_values(
            |t: String| t@,
        ));
    }
    r
}

/// String search for the `@variable@` references a text makes.
pub trait Glubtastic {
    /// Catches all `@variable@` references within the text, in scan order.
    fn globs(&self, text: &str) -> (r: Vec<String>)
        ensures
            r@.map_values(|t: String| t@) == scan_from(text@, 0),
    ;
}

impl Glubtastic for VariableStore {
    fn globs(&self, text: &str) -> (r: Vec<String>) {
        find_placeholders(text)
    }
}

/// Substitutes every placeholder in the text from the store.
///
/// When every referenced name resolves, the fully substituted text comes
/// back; when any referenced name is absent, the call fails with
/// `NoSuchVariable` naming the first unresolved name in scan order, and no
/// partially substituted text is handed out.
pub fn substitute(text: &str, store: &VariableStore) -> (r: Result<String, BleurError>)
    ensures
        match r {
            Ok(out) => {
                &&& first_missing(scan_from(text@, 0), store@) is None
                &&& out@ == subst_from(text@, 0, store@)
            },
            Err(e) => {
                &&& e matches BleurError::NoSuchVariable(n)
                &&& first_missing(scan_from(text@, 0), store@) == Some(n@)
            },
        },
{
    let n = text.unicode_len();
    let mut out = String::new();
    let mut i: usize = 0;
    proof {
        assert(out@ + subst_from(text@, 0, store@) =~= subst_from(text@, 0, store@));
    }
    while i < n
        invariant
            i <= n,
            n == text@.len(),
            first_missing(scan_from(text@, i as int), store@) == first_missing(
                scan_from(text@, 0),
                store@,
            ),
            out@ + subst_from(text@, i as int, store@) == subst_from(text@, 0, store@),
        decreases n - i,
    {
        let ghost out0 = out@;
        match match_close(text, i, n) {
            Some(j) => {
                let name = text.substring_char(i + 1, j);
                proof {
                    lemma_first_missing_cons(
                        match_name(text@, i as int),
                        scan_from(text@, j as int + 1),
                        store@,
                    );
                }
                match store.get(name) {
                    Some(v) => {
                        out.append(v.as_str());
                        proof {
                            assert(out@ + subst_from(text@, j as int + 1, store@) =~= out0
                                + subst_from(text@, i as int, store@));
                        }
                        i = j + 1;
                    },
                    None => {
                        return Err(BleurError::NoSuchVariable(String::from_str(name)));
                    },
                }
            },
            None => {
                let piece = text.substring_char(i, i + 1);
                out.append(piece);
                proof {
                    assert(piece@ =~= seq![text@[i as int]]);
                    assert(out@ + subst_from(text@, i as int + 1, store@) =~= out0 + subst_from(
                        text@,
                        i as int,
                        store@,
                    ));
                }
                i = i + 1;
            },
        }
    }
    proof {
        assert(out@ + subst_from(text@, n as int, store@) =~= out@);
    }
    Ok(out)
}

/// The text from position `i` on with every occurrence of `pat` replaced by
/// `rep`, scanning left to right without overlap. An empty pattern matches
/// before every character and once more at the end.
pub open spec fn replace_from(s: Seq<char>, i: int, pat: Seq<char>, rep: Seq<char>) -> Seq<char>
    decreases s.len() - i,
{
    if i < 0 || i >= s.len() {
        if pat.len() == 0 {
            rep
        } else {
            Seq::empty()
        }
    } else if pat.len() == 0 {
        rep + seq![s[i]] + replace_from(s, i + 1, pat, rep)
    } else if i + pat.len() <= s.len() && s.subrange(i, i + pat.len()) == pat {
        rep + replace_from(s, i + pat.len(), pat, rep)
    } else {
        seq![s[i]] + replace_from(s, i + 1, pat, rep)
    }
}

/// Whether `pat` stands in `s` at position `i`.
fn occurs_at(s: &str, i: usize, pat: &str) -> (r: bool)
    requires
        i + pat@.len() <= s@.len(),
    ensures
        r == (s@.subrange(i as int, i as int + pat@.len() as int) == pat@),
{
    let n = s.unicode_len();
    let m = pat.unicode_len();
    let mut k: usize = 0;
    while k < m
        invariant
            k <= m,
            m == pat@.len(),
            n == s@.len(),
            i + m <= n,
            forall|t: int| 0 <= t < k ==> s@[i + t] == pat@[t],
        decreases m - k,
    {
        if s.get_char(i + k) != pat.get_char(k) {
            proof {
                assert(s@.subrange(i as int, i as int + pat@.len() as int)[k as int] == s@[i + k]);
            }
            return false;
        }
        k += 1;
    }
    proof {
        assert(s@.subrange(i as int, i as int + pat@.len() as int) =~= pat@);
    }
    true
}

/// Replaces every occurrence of `pat` in `s` by `rep`, scanning left to
/// right without overlap.
pub fn replace_all(s: &str, pat: &str, rep: &str) -> (r: String)
    ensures
        r@ == replace_from(s@, 0, pat@, rep@),
{
    let n = s.unicode_len();
    let m = pat.unicode_len();
    let mut out = String::new();
    let mut i: usize = 0;
    proof {
        assert(out@ + replace_from(s@, 0, pat@, rep@) =~= replace_from(s@, 0, pat@, rep@));
    }
    while i < n
        invariant
            i <= n,
            n == s@.len(),
            m == pat@.len(),
            out@ + replace_from(s@, i as int, pat@, rep@) == replace_from(s@, 0, pat@, rep@),
        decreases n - i,
    {
        let ghost out0 = out@;
        if m == 0 {
            out.append(rep);
            let piece = s.substring_char(i, i + 1);
            out.append(piece);
            proof {
                assert(piece@ =~= seq![s@[i as int]]);
                assert(out@ + replace_from(s@, i as int + 1, pat@, rep@) =~= out0 + replace_from(
                    s@,
                    i as int,
                    pat@,
                    rep@,
                ));
            }
            i = i + 1;
        } else if m <= n - i && occurs_at(s, i, pat) {
            out.append(rep);
            proof {
                assert(out@ + replace_from(s@, i as int + m as int, pat@, rep@) =~= out0
                    + replace_from(s@, i as int, pat@, rep@));
            }
            i = i + m;
        } else {
            let piece = s.substring_char(i, i + 1);
            out.append(piece);
            proof {
                assert(piece@ =~= seq![s@[i as int]]);
                assert(out@ + replace_from(s@, i as int + 1, pat@, rep@) =~= out0 + replace_from(
                    s@,
                    i as int,
                    pat@,
                    rep@,
                ));
            }
            i = i + 1;
        }
    }
    if m == 0 {
        out.append(rep);
        proof {
            assert(out@ =~= replace_from(s@, 0, pat@, rep@));
        }
    } else {
        proof {
            assert(out@ + replace_from(s@, n as int, pat@, rep@) =~= out@);
        }
    }
    out
}

/// Whether every character of `s` from `i` on that stands outside a
/// placeholder is something other than `@`.
pub open spec fn gaps_at_free(s: Seq<char>, i: int) -> bool
    decreases s.len() - i,
{
    if i < 0 || i >= s.len() {
        true
    } else if match_at(s, i) {
        gaps_at_free(s, match_end(s, i) + 1)
    } else {
        s[i] != '@' && gaps_at_free(s, i + 1)
    }
}

/// Whether no character of `t` is `@`.
pub open spec fn at_free(t: Seq<char>) -> bool {
    forall|k: int| 0 <= k < t.len() ==> t[k] != '@'
}

/// A text without `@` holds no placeholder reference.
pub proof fn lemma_at_free_scan_empty(t: Seq<char>, i: int)
    requires
        at_free(t),
    ensures
        scan_from(t, i) == Seq::<Seq<char>>::empty(),
    decreases t.len() - i,
{
    if 0 <= i < t.len() {
        assert(!match_at(t, i));
        lemma_at_free_scan_empty(t, i + 1);
    }
}

/// Substitution from a store whose referenced values hold no `@`, on a text
/// whose every `@` opens or closes a placeholder, yields a text without `@`.
proof fn lemma_subst_at_free(s: Seq<char>, i: int, m: Map<Seq<char>, Seq<char>>)
    requires
        gaps_at_free(s, i),
        forall|j: int|
            0 <= j < scan_from(s, i).len() ==> m.contains_key(#[trigger] scan_from(s, i)[j])
                && at_free(m[scan_from(s, i)[j]]),
    ensures
        at_free(subst_from(s, i, m)),
    decreases s.len() - i,
{
    if i < 0 || i >= s.len() {
    } else if match_at(s, i) {
        let name = match_name(s, i);
        let e = match_end(s, i) + 1;
        assert(scan_from(s, i)[0] == name);
        assert forall|j: int|
            0 <= j < scan_from(s, e).len() implies m.contains_key(
            #[trigger] scan_from(s, e)[j],
        ) && at_free(m[scan_from(s, e)[j]]) by {
            assert(scan_from(s, i)[j + 1] == scan_from(s, e)[j]);
        }
        lemma_subst_at_free(s, e, m);
        let a = m[name];
        let b = subst_from(s, e, m);
        assert forall|k: int| 0 <= k < (a + b).len() implies (a + b)[k] != '@' by {
            if k < a.len() {
                assert((a + b)[k] == a[k]);
            } else {
                assert((a + b)[k] == b[k - a.len()]);
            }
        }
    } else {
        assert(scan_from(s, i) == scan_from(s, i + 1));
        lemma_subst_at_free(s, i + 1, m);
        let a = seq![s[i]];
        let b = subst_from(s, i + 1, m);
        assert forall|k: int| 0 <= k < (a + b).len() implies (a + b)[k] != '@' by {
            if k < a.len() {
                assert((a + b)[k] == s[i]);
            } else {
                assert((a + b)[k] == b[k - a.len()]);
            }
        }
    }
}

/// When every `@` of the text belongs to a placeholder and every referenced
/// value resolves to text without `@`, substitution replaces every
/// occurrence and leaves no placeholder pattern at all in the result.
pub proof fn lemma_substitution_leaves_no_placeholder(s: Seq<char>, m: Map<Seq<char>, Seq<char>>)
    requires
        gaps_at_free(s, 0),
        forall|j: int|
            0 <= j < scan_from(s, 0).len() ==> m.contains_key(#[trigger] scan_from(s, 0)[j])
                && at_free(m[scan_from(s, 0)[j]]),
    ensures
        at_free(subst_from(s, 0, m)),
        scan_from(subst_from(s, 0, m), 0) == Seq::<Seq<char>>::empty(),
{
    lemma_subst_at_free(s, 0, m);
    lemma_at_free_scan_empty(subst_from(s, 0, m), 0);
}

} // verus!
